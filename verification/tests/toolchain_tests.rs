use smce_rs::sketch::Sketch;
use smce_rs::sketch_config::SketchConfig;
use smce_rs::toolchain::{BuildLogReader, BuildOutcome, EnvironmentProbe, Toolchain, ToolchainError};

fn probe_ok() -> EnvironmentProbe {
    EnvironmentProbe { resource_dir_exists: true, resource_dir_empty: false, cmake_found: true }
}

fn build_sketch(path: &str, sketch_config: SketchConfig) -> Result<(Sketch, BuildLogReader), ToolchainError> {
    let (tc, mut tclog) = Toolchain::new("home".to_string(), probe_ok())?;
    let mut sketch = Sketch::new(path.to_string(), sketch_config).unwrap();
    tc.compile(&mut sketch, BuildOutcome::Success, &mut tclog)?;
    Ok((sketch, tclog))
}

#[test]
fn suitable_env() {
    assert!(Toolchain::new("home".to_string(), probe_ok()).is_ok());
    assert!(Toolchain::new(
        "_non_existent_".to_string(),
        EnvironmentProbe { resource_dir_exists: false, resource_dir_empty: true, cmake_found: true },
    )
    .is_err());
}

#[test]
fn noop_compile() {
    let sketch = build_sketch("./tests/sketches/noop/noop.ino", Default::default()).unwrap().0;
    assert!(sketch.compiled());
}

#[test]
fn mixed_sources() {
    let _ = build_sketch("./tests/sketches/with_cxx/with_cxx.ino", Default::default()).unwrap();
}

#[test]
fn remote_preproc_lib() {
    let _ = build_sketch(
        "./tests/sketches/remote_pp/remote_pp.ino",
        SketchConfig { legacy_libs: vec!["MQTT".into()], ..Default::default() },
    )
    .unwrap();
}

#[test]
fn wifi_intended_use() {
    let _ = build_sketch(
        "./tests/sketches/wifi/wifi.ino",
        SketchConfig { legacy_libs: vec!["MQTT".into(), "WiFi".into()], ..Default::default() },
    )
    .unwrap();
}

#[test]
fn environment_errors() {
    let absent = EnvironmentProbe {
        resource_dir_exists: false,
        resource_dir_empty: false,
        cmake_found: true,
    };
    assert_eq!(
        Toolchain::new("h".to_string(), absent).err().unwrap(),
        ToolchainError::ResdirAbsent
    );

    let empty = EnvironmentProbe {
        resource_dir_exists: true,
        resource_dir_empty: true,
        cmake_found: true,
    };
    assert_eq!(
        Toolchain::new("h".to_string(), empty).err().unwrap(),
        ToolchainError::ResdirEmpty
    );

    let no_cmake = EnvironmentProbe {
        resource_dir_exists: true,
        resource_dir_empty: false,
        cmake_found: false,
    };
    assert_eq!(
        Toolchain::new("h".to_string(), no_cmake).err().unwrap(),
        ToolchainError::CmakeNotFound
    );
}

#[test]
fn failed_compile_leaves_sketch_uncompiled() {
    let (tc, mut log) = Toolchain::new("home".to_string(), probe_ok()).unwrap();
    let mut sketch = Sketch::new("bad.ino".to_string(), SketchConfig::default()).unwrap();
    let r = tc.compile(&mut sketch, BuildOutcome::BuildFailed, &mut log);
    assert_eq!(r.err().unwrap(), ToolchainError::BuildFailed);
    assert!(!sketch.compiled());
    assert!(log.disconnected());
}

#[test]
fn successful_compile_marks_sketch() {
    let (tc, mut log) = Toolchain::new("home".to_string(), probe_ok()).unwrap();
    let mut sketch = Sketch::new("good.ino".to_string(), SketchConfig::default()).unwrap();
    let before = sketch.uuid().to_hex();
    assert!(!sketch.compiled());
    assert!(tc.compile(&mut sketch, BuildOutcome::Success, &mut log).is_ok());
    assert!(sketch.compiled());
    assert_eq!(sketch.uuid().to_hex(), before);
}

#[test]
fn outcome_error_mapping() {
    assert!(BuildOutcome::Success.to_result().is_ok());
    assert_eq!(BuildOutcome::ResdirAbsent.to_result().err().unwrap(), ToolchainError::ResdirAbsent);
    assert_eq!(BuildOutcome::ResdirEmpty.to_result().err().unwrap(), ToolchainError::ResdirEmpty);
    assert_eq!(
        BuildOutcome::CmakeNotFound.to_result().err().unwrap(),
        ToolchainError::CmakeNotFound
    );
    assert_eq!(
        BuildOutcome::CmakeUnknownOutput.to_result().err().unwrap(),
        ToolchainError::CmakeUnknownOutput
    );
    assert_eq!(BuildOutcome::CmakeFailing.to_result().err().unwrap(), ToolchainError::CmakeFailing);
    assert_eq!(
        BuildOutcome::SketchInvalid.to_result().err().unwrap(),
        ToolchainError::SketchInvalid
    );
    assert_eq!(
        BuildOutcome::ConfigureFailed.to_result().err().unwrap(),
        ToolchainError::ConfigureFailed
    );
    assert_eq!(BuildOutcome::BuildFailed.to_result().err().unwrap(), ToolchainError::BuildFailed);
    assert_eq!(BuildOutcome::ResdirFile.to_result().err().unwrap(), ToolchainError::Generic);
    assert_eq!(BuildOutcome::Generic.to_result().err().unwrap(), ToolchainError::Generic);
}

#[test]
fn build_log_drain_protocol() {
    let (tc, mut log) = Toolchain::new("home".to_string(), probe_ok()).unwrap();
    let mut sketch = Sketch::new("s.ino".to_string(), SketchConfig::default()).unwrap();

    assert!(!log.disconnected());
    assert!(log.append(b"configuring..."));
    let first = log.read(9);
    assert_eq!(first, b"configuri".to_vec());

    assert!(log.append(b"building..."));
    assert!(tc.compile(&mut sketch, BuildOutcome::Success, &mut log).is_ok());

    // Once disconnected, no more log can arrive ...
    assert!(log.disconnected());
    assert!(!log.append(b"late"));

    // ... and draining until an empty read hands out the whole tail.
    let mut rest = Vec::new();
    loop {
        let chunk = log.read(4);
        if chunk.is_empty() {
            break;
        }
        rest.extend_from_slice(&chunk);
    }
    assert_eq!(rest, b"ng...building...".to_vec());
    assert!(log.read(16).is_empty());
}
