use smce_rs::board::{Board, BoardError, Status};
use smce_rs::board_config::BoardConfig;
use smce_rs::sketch::Sketch;
use smce_rs::sketch_config::SketchConfig;
use smce_rs::toolchain::{BuildOutcome, EnvironmentProbe, Toolchain};

fn compiled_sketch(path: &str) -> Sketch {
    let probe = EnvironmentProbe {
        resource_dir_exists: true,
        resource_dir_empty: false,
        cmake_found: true,
    };
    let (tc, mut log) = Toolchain::new("home".to_string(), probe).unwrap();
    let mut sketch = Sketch::new(path.to_string(), SketchConfig::default()).unwrap();
    tc.compile(&mut sketch, BuildOutcome::Success, &mut log).unwrap();
    sketch
}

#[test]
fn suspend_resume() {
    let sketch = compiled_sketch("./tests/sketches/noop/noop.ino");

    let mut board = Board::new();
    let mut handle = board.start(&Default::default(), &sketch).unwrap();

    assert_eq!(handle.status(), Status::Running);
    assert!(handle.suspend());
    assert_eq!(handle.status(), Status::Suspended);
    assert!(handle.resume());
    assert_eq!(handle.status(), Status::Running);
    assert!(!handle.resume());
    assert_eq!(handle.status(), Status::Running);
}

#[test]
fn tick_crash() {
    let sketch = compiled_sketch("./tests/sketches/uncaught/uncaught.ino");

    let mut board = Board::new();
    let handle = board.start(&Default::default(), &sketch).unwrap();

    // The firmware hits an uncaught error and dies with a non-zero code.
    assert!(handle.board.internal.as_mut().unwrap().fw_exit(1));

    assert!(handle.tick().is_err());
    assert_eq!(handle.status(), Status::Stopped);
    assert_ne!(handle.stop(), 0, "Expected non zero exitcode");
}

#[test]
fn tick_is_idempotent_after_exit() {
    let sketch = compiled_sketch("./tests/sketches/noop/noop.ino");
    let mut board = Board::new();
    let handle = board.start(&Default::default(), &sketch).unwrap();

    assert_eq!(handle.tick(), Ok(()));
    assert!(handle.board.internal.as_mut().unwrap().fw_exit(7));
    assert_eq!(handle.tick(), Err(7));
    assert_eq!(handle.tick(), Err(7));
    assert_eq!(handle.tick(), Err(7));
    assert_eq!(handle.stop(), 7);
}

#[test]
fn start_twice_is_already_running() {
    let sketch = compiled_sketch("./tests/sketches/noop/noop.ino");
    let mut board = Board::new();
    let mut handle = board.start(&BoardConfig::default(), &sketch).unwrap();
    assert_eq!(handle.status(), Status::Running);
    assert!(handle.suspend());

    // A second start on the same board must fail ...
    let again = board.start(&BoardConfig::default(), &sketch);
    assert_eq!(again.err().unwrap(), BoardError::AlreadyRunning);

    // ... and must leave the original session untouched.
    let mut handle = board.handle().unwrap();
    assert_eq!(handle.status(), Status::Suspended);
    assert!(handle.resume());
    assert_eq!(handle.stop(), 0);
}

#[test]
fn start_uncompiled_is_rejected_before_allocation() {
    let sketch = Sketch::new("raw.ino".to_string(), SketchConfig::default()).unwrap();
    assert!(!sketch.compiled());

    let mut board = Board::new();
    let r = board.start(&BoardConfig::default(), &sketch);
    assert_eq!(r.err().unwrap(), BoardError::SketchNotCompiled);

    // No session was allocated.
    assert!(board.handle().is_none());
    assert!(board.internal.is_none());
}

#[test]
fn stop_returns_exit_code_or_zero() {
    let sketch = compiled_sketch("./tests/sketches/noop/noop.ino");

    let mut board = Board::new();
    let handle = board.start(&Default::default(), &sketch).unwrap();
    assert_eq!(handle.stop(), 0);
    assert!(board.handle().is_none());

    let handle = board.start(&Default::default(), &sketch).unwrap();
    assert!(handle.board.internal.as_mut().unwrap().fw_exit(42));
    assert_eq!(handle.stop(), 42);
    assert!(board.handle().is_none());
}

#[test]
fn board_error_messages() {
    assert_eq!(BoardError::SketchNotCompiled.message(), "Passed sketch is not compiled");
    assert_eq!(BoardError::AlreadyRunning.message(), "Board is already running a sketch");
}

#[test]
fn runtime_log_reader() {
    let sketch = compiled_sketch("./tests/sketches/noop/noop.ino");
    let mut board = Board::new();
    let mut handle = board.start(&Default::default(), &sketch).unwrap();

    let reader = handle.log();
    assert!(handle.board.internal.as_mut().unwrap().fw_log(b"boot ok\n"));
    assert_eq!(reader.read(&mut handle, 4), b"boot".to_vec());
    assert_eq!(reader.read(&mut handle, 64), b" ok\n".to_vec());
    assert_eq!(reader.read(&mut handle, 64), Vec::<u8>::new());

    // A reader from an earlier session reads nothing from a later one.
    assert_eq!(handle.stop(), 0);
    let mut handle = board.start(&Default::default(), &sketch).unwrap();
    assert!(handle.board.internal.as_mut().unwrap().fw_log(b"second"));
    assert_eq!(reader.read(&mut handle, 64), Vec::<u8>::new());
    let fresh = handle.log();
    assert_eq!(fresh.read(&mut handle, 64), b"second".to_vec());
}
