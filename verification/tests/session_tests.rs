use smce_rs::backend::{Session, SessionStatus};
use smce_rs::board_config::{BoardConfig, GpioDriver};
use smce_rs::sketch::Sketch;
use smce_rs::sketch_config::SketchConfig;
use smce_rs::toolchain::{BuildOutcome, EnvironmentProbe, Toolchain};

fn compiled_sketch() -> Sketch {
    let probe = EnvironmentProbe {
        resource_dir_exists: true,
        resource_dir_empty: false,
        cmake_found: true,
    };
    let (tc, mut log) = Toolchain::new("home".to_string(), probe).unwrap();
    let mut sketch = Sketch::new("s.ino".to_string(), SketchConfig::default()).unwrap();
    tc.compile(&mut sketch, BuildOutcome::Success, &mut log).unwrap();
    sketch
}

fn one_pin_config() -> BoardConfig {
    BoardConfig {
        gpio_drivers: vec![GpioDriver { pin_id: 0, allow_read: true, allow_write: true }],
        ..Default::default()
    }
}

#[test]
fn configure_only_when_clean() {
    let sketch = compiled_sketch();
    let mut s = Session::new();
    assert_eq!(s.status(), SessionStatus::Clean);

    assert!(s.configure(&one_pin_config()));
    assert_eq!(s.status(), SessionStatus::Configured);

    // A configured session cannot be configured again without a reset.
    assert!(!s.configure(&one_pin_config()));

    // Starting needs an attached sketch first.
    assert!(!s.start());
    assert!(s.attach(&sketch));
    assert!(s.start());
    assert_eq!(s.status(), SessionStatus::Running);
}

#[test]
fn attach_requires_configured_and_compiled() {
    let mut s = Session::new();
    let raw = Sketch::new("raw.ino".to_string(), SketchConfig::default()).unwrap();
    let built = compiled_sketch();

    // Not configured yet: nothing attaches.
    assert!(!s.attach(&built));

    assert!(s.configure(&BoardConfig::default()));
    // An uncompiled sketch never attaches.
    assert!(!s.attach(&raw));
    assert!(s.attach(&built));
}

#[test]
fn terminate_takes_reset_and_reconfigure_to_restart() {
    let sketch = compiled_sketch();
    let mut s = Session::new();
    assert!(s.configure(&one_pin_config()));
    assert!(s.attach(&sketch));
    assert!(s.start());

    assert!(s.terminate());
    assert_eq!(s.status(), SessionStatus::Stopped);
    // Terminate does not leave the session restartable ...
    assert!(!s.start());
    // ... it takes an explicit reset, then a fresh configure and attach.
    assert!(s.reset());
    assert_eq!(s.status(), SessionStatus::Clean);
    assert!(!s.start());
    assert!(s.configure(&one_pin_config()));
    assert!(s.attach(&sketch));
    assert!(s.start());
    assert_eq!(s.status(), SessionStatus::Running);
}

#[test]
fn reset_only_when_stopped() {
    let sketch = compiled_sketch();
    let mut s = Session::new();
    assert!(!s.reset());
    assert!(s.configure(&BoardConfig::default()));
    assert!(!s.reset());
    assert!(s.attach(&sketch));
    assert!(s.start());
    assert!(!s.reset());
    assert!(s.terminate());
    assert!(s.reset());
}

#[test]
fn exit_is_visible_through_tick() {
    let sketch = compiled_sketch();
    let mut s = Session::new();
    assert!(s.configure(&BoardConfig::default()));
    assert!(s.attach(&sketch));
    assert!(s.start());

    let info = s.tick();
    assert!(!info.exited);

    assert!(s.fw_exit(-9));
    assert_eq!(s.status(), SessionStatus::Stopped);
    let info = s.tick();
    assert!(info.exited);
    assert_eq!(info.exit_code, -9);

    // Exiting twice is impossible: the firmware is no longer running.
    assert!(!s.fw_exit(0));
    let info = s.tick();
    assert_eq!(info.exit_code, -9);
}

#[test]
fn suspended_firmware_makes_no_progress() {
    let sketch = compiled_sketch();
    let mut s = Session::new();
    assert!(s.configure(&one_pin_config()));
    assert!(s.attach(&sketch));
    assert!(s.start());
    assert!(s.suspend());

    // While suspended, the firmware face is inert.
    assert!(!s.fw_digital_write(0, true));
    assert!(s.fw_digital_read(0).is_none());
    assert!(!s.fw_log(b"nope"));
    assert!(!s.fw_exit(0));
    assert!(s.fw_uart_read(0, 8).is_none());

    assert!(s.resume());
    assert!(s.fw_digital_write(0, true));
}
