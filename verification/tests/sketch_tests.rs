use smce_rs::sketch::Sketch;
use smce_rs::sketch_config::SketchConfig;
use smce_rs::uuid::Uuid;

fn make_sketch() -> (Sketch, &'static str) {
    let path = "/home/ruthgerd/nonexistent.ino";
    let sketch = Sketch::new(path.to_string(), SketchConfig::default());
    assert!(sketch.is_some());

    let sketch = sketch.unwrap();
    (sketch, path)
}

#[test]
fn source_eq() {
    let (sketch, path) = make_sketch();

    assert_eq!(sketch.source().as_str(), path);
}

#[test]
fn not_compiled() {
    let (sketch, _) = make_sketch();

    assert!(!sketch.compiled());
}

#[test]
fn test() {
    let uuid = Uuid::generate();

    println!("{:x?}", uuid.bytes);
}

#[test]
fn sketch_needs_sketch_file() {
    assert!(Sketch::new("/tmp/firmware.ino".to_string(), SketchConfig::default()).is_some());
    assert!(Sketch::new("/tmp/firmware".to_string(), SketchConfig::default()).is_none());
    assert!(Sketch::new("/tmp/firmware.cpp".to_string(), SketchConfig::default()).is_none());
    assert!(Sketch::new("ino".to_string(), SketchConfig::default()).is_none());
    assert!(Sketch::new(String::new(), SketchConfig::default()).is_none());
}

#[test]
fn sketch_keeps_its_config() {
    let mut config = SketchConfig::default();
    config.legacy_libs.push("MQTT".to_string());
    config.extra_compile_defs.push("FOO=1".to_string());
    let sketch = Sketch::new("a.ino".to_string(), config).unwrap();
    assert_eq!(sketch.config().legacy_libs, vec!["MQTT".to_string()]);
    assert_eq!(sketch.config().extra_compile_defs, vec!["FOO=1".to_string()]);
}

#[test]
fn uuid_markers_and_hex() {
    let uuid = Uuid::generate();
    assert_eq!(uuid.bytes[6] & 0xf0, 0x40);
    assert_eq!(uuid.bytes[8] & 0xc0, 0x80);

    let hex = uuid.to_hex();
    assert_eq!(hex.len(), 32);
    assert!(hex.chars().all(|c| c.is_ascii_hexdigit()));
}

#[test]
fn uuid_hex_exact() {
    let uuid = Uuid {
        bytes: [
            0x00, 0x01, 0x0a, 0x10, 0x7f, 0x80, 0x42, 0xff, 0x90, 0xab, 0xcd, 0xef, 0x12, 0x34,
            0x56, 0x78,
        ],
    };
    assert_eq!(uuid.to_hex(), "00010a107f8042ff90abcdef12345678");
}

#[test]
fn uuid_from_nanos_exact() {
    // Known answers for the clock-to-bytes mixing: dropping or altering
    // any mixing step would change these.
    assert_eq!(Uuid::from_nanos(0).to_hex(), "0000000000004000afcd1d7b39a820e2");
    assert_eq!(Uuid::from_nanos(1).to_hex(), "e5050b101d164256b2d7c2dd3080efbf");
    assert_eq!(
        Uuid::from_nanos(0x0123456789abcdef0123456789abcdef).to_hex(),
        "2c11b5ebe45840b29c09d15e2102922c",
    );
}
