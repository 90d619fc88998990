use smce_rs::board::Board;
use smce_rs::board_config::{
    BoardConfig, FrameBuffer as FrameBufferConfig, GpioDriver, UartChannel,
};
use smce_rs::board_view::{DeviceError, FrameBufferFormat};
use smce_rs::sketch::Sketch;
use smce_rs::sketch_config::{PluginManifest, SketchConfig};
use smce_rs::toolchain::{BuildOutcome, EnvironmentProbe, Toolchain};

fn compiled_sketch(path: &str, config: SketchConfig) -> Sketch {
    let probe = EnvironmentProbe {
        resource_dir_exists: true,
        resource_dir_empty: false,
        cmake_found: true,
    };
    let (tc, mut log) = Toolchain::new("home".to_string(), probe).unwrap();
    let mut sketch = Sketch::new(path.to_string(), config).unwrap();
    tc.compile(&mut sketch, BuildOutcome::Success, &mut log).unwrap();
    sketch
}

#[test]
fn boardview_gpio() {
    let sketch = compiled_sketch("./tests/sketches/pins/pins.ino", Default::default());

    let mut board = Board::new();
    let mut handle = board
        .start(
            &BoardConfig {
                gpio_drivers: vec![
                    GpioDriver { pin_id: 0, allow_read: true, allow_write: false },
                    GpioDriver { pin_id: 2, allow_read: false, allow_write: true },
                ],
                ..Default::default()
            },
            &sketch,
        )
        .unwrap();

    let bv = handle.view();

    let pin0 = *bv.pins.get(0).unwrap();
    assert!(bv.pins.get(1).is_none());
    let pin2 = *bv.pins.get(2).unwrap();

    pin0.digital_write(&mut handle, false).unwrap();

    // The pins sketch echoes pin 0 inverted onto pin 2: play its part.
    let echo = |handle: &mut smce_rs::board::BoardHandle<'_>| {
        let s = handle.board.internal.as_mut().unwrap();
        let v = s.fw_digital_read(0).unwrap();
        assert!(s.fw_digital_write(2, !v));
    };

    echo(&mut handle);
    assert_eq!(pin2.digital_read(&handle).unwrap(), true);

    pin0.digital_write(&mut handle, true).unwrap();
    echo(&mut handle);
    assert_eq!(pin2.digital_read(&handle).unwrap(), false);
}

#[test]
fn uart() {
    let sketch = compiled_sketch("./tests/sketches/uart/uart.ino", Default::default());

    let mut board = Board::new();
    let mut handle = board
        .start(
            &BoardConfig { uart_channels: vec![UartChannel::default()], ..Default::default() },
            &sketch,
        )
        .unwrap();

    let uart0 = *handle.view().uart_channels.get(0).unwrap();

    let mut echo_test = |input: &str| {
        assert_eq!(uart0.write(&mut handle, input.as_bytes()).unwrap(), input.len());

        // The uart sketch echoes every byte back: play its part.
        {
            let s = handle.board.internal.as_mut().unwrap();
            let got = s.fw_uart_read(0, 64).unwrap();
            assert_eq!(s.fw_uart_write(0, &got).unwrap(), got.len());
        }

        let buf = uart0.read(&mut handle, 64).unwrap();
        assert_eq!(String::from_utf8(buf).unwrap(), input);
    };

    echo_test("HELLO UART");
    echo_test("RUST IS COOL!");
}

#[test]
fn uart_echo_exact() {
    let sketch = compiled_sketch("./tests/sketches/uart/uart.ino", Default::default());
    let mut board = Board::new();
    let mut handle = board
        .start(
            &BoardConfig {
                uart_channels: vec![UartChannel {
                    baud_rate: 9600,
                    rx_buffer_length: 64,
                    tx_buffer_length: 64,
                    flushing_threshold: 0,
                }],
                ..Default::default()
            },
            &sketch,
        )
        .unwrap();

    let uart0 = *handle.view().uart_channels.get(0).unwrap();
    assert_eq!(uart0.write(&mut handle, b"HELLO").unwrap(), 5);
    {
        let s = handle.board.internal.as_mut().unwrap();
        let got = s.fw_uart_read(0, 64).unwrap();
        assert_eq!(got, b"HELLO".to_vec());
        assert_eq!(s.fw_uart_write(0, &got).unwrap(), 5);
    }
    assert_eq!(uart0.read(&mut handle, 64).unwrap(), b"HELLO".to_vec());
}

#[test]
fn uart_send_buffer_capacity() {
    let sketch = compiled_sketch("./tests/sketches/uart/uart.ino", Default::default());
    let mut board = Board::new();
    let mut handle = board
        .start(
            &BoardConfig {
                uart_channels: vec![UartChannel {
                    baud_rate: 9600,
                    rx_buffer_length: 4,
                    tx_buffer_length: 4,
                    flushing_threshold: 0,
                }],
                ..Default::default()
            },
            &sketch,
        )
        .unwrap();

    let uart0 = *handle.view().uart_channels.get(0).unwrap();

    // 3 <= 4 - 0: the whole write is accepted.
    assert_eq!(uart0.write(&mut handle, b"abc").unwrap(), 3);
    // Only one byte of space is left: a partial write.
    assert_eq!(uart0.write(&mut handle, b"de").unwrap(), 1);
    // No free space at all: the distinct buffer-full error.
    assert_eq!(uart0.write(&mut handle, b"f").err().unwrap(), DeviceError::BufferFull);
    // An empty write is accepted even now.
    assert_eq!(uart0.write(&mut handle, b"").unwrap(), 0);

    // Once the firmware drains the buffer, writes flow again.
    {
        let s = handle.board.internal.as_mut().unwrap();
        assert_eq!(s.fw_uart_read(0, 64).unwrap(), b"abcd".to_vec());
    }
    assert_eq!(uart0.write(&mut handle, b"f").unwrap(), 1);
}

#[test]
fn patched_lib() {
    let sketch = compiled_sketch(
        "./tests/sketches/patch/patch.ino",
        SketchConfig {
            plugins: vec![PluginManifest {
                uri: "https://github.com/platisd/smartcar_shield/archive/refs/tags/7.0.1.tar.gz"
                    .into(),
                patch_uri: "./tests/patches/ESP32_analogRewrite".into(),
                ..Default::default()
            }],
            ..Default::default()
        },
    );

    let mut board = Board::new();
    let mut handle = board
        .start(
            &BoardConfig {
                gpio_drivers: vec![GpioDriver { pin_id: 0, allow_read: false, allow_write: true }],
                ..Default::default()
            },
            &sketch,
        )
        .unwrap();

    // The patched sketch writes 42 to analog pin 0: play its part.
    assert!(handle.board.internal.as_mut().unwrap().fw_analog_write(0, 42));

    let pin0 = *handle.view().pins.get(0).unwrap();
    assert_eq!(pin0.analog_read(&handle).unwrap(), 42);
}

#[test]
fn firmware_respects_driver_permissions() {
    let sketch = compiled_sketch("./tests/sketches/pins/pins.ino", Default::default());
    let mut board = Board::new();
    let handle = board
        .start(
            &BoardConfig {
                gpio_drivers: vec![
                    GpioDriver { pin_id: 0, allow_read: true, allow_write: false },
                    GpioDriver { pin_id: 2, allow_read: false, allow_write: true },
                ],
                ..Default::default()
            },
            &sketch,
        )
        .unwrap();

    let s = handle.board.internal.as_mut().unwrap();
    // Pin 0 is read-only for the firmware, pin 2 write-only.
    assert!(!s.fw_digital_write(0, true));
    assert!(s.fw_digital_read(0).is_some());
    assert!(s.fw_digital_write(2, true));
    assert!(s.fw_digital_read(2).is_none());
    // A pin that was never configured is refused either way.
    assert!(!s.fw_digital_write(9, true));
    assert!(s.fw_digital_read(9).is_none());
}

#[test]
fn framebuffer_write_sizes() {
    let sketch = compiled_sketch("./tests/sketches/noop/noop.ino", Default::default());
    let mut board = Board::new();
    let mut handle = board
        .start(
            &BoardConfig {
                frame_buffers: vec![FrameBufferConfig { key: 1, allow_write: true }],
                ..Default::default()
            },
            &sketch,
        )
        .unwrap();

    // The firmware announces a 2x2 display at 30 frames a second.
    assert!(handle.board.internal.as_mut().unwrap().fw_fb_setup(1, 2, 2, 30, true, false));

    let bv = handle.view();
    let fb = *bv.frame_buffers.get(1).unwrap();
    assert!(bv.frame_buffers.get(0).is_none());

    assert_eq!(fb.width(&handle).unwrap(), 2);
    assert_eq!(fb.height(&handle).unwrap(), 2);
    assert_eq!(fb.freq(&handle).unwrap(), 30);
    assert!(fb.needs_horizontal_flip(&handle).unwrap());
    assert!(!fb.needs_vertical_flip(&handle).unwrap());
    assert_eq!(fb.expected_buf_size(&handle).unwrap(), 12);

    // A frame of the wrong size is rejected whole, leaving nothing written.
    let short = vec![9u8; 11];
    assert_eq!(
        fb.write(&mut handle, &short, FrameBufferFormat::Rgb888).err().unwrap(),
        DeviceError::WrongBufferSize,
    );
    assert!(handle.board.internal.as_ref().unwrap().fb_pixels(0).is_empty());

    // Exact frames in both formats are accepted.
    let frame888 = vec![7u8; 12];
    assert!(fb.write(&mut handle, &frame888, FrameBufferFormat::Rgb888).is_ok());
    assert_eq!(handle.board.internal.as_ref().unwrap().fb_pixels(0), &frame888);

    let frame444 = vec![3u8; 8];
    assert!(fb.write(&mut handle, &frame444, FrameBufferFormat::Rgb444).is_ok());
    assert_eq!(handle.board.internal.as_ref().unwrap().fb_pixels(0), &frame444);

    // Too-long frames are rejected too.
    let long = vec![1u8; 13];
    assert_eq!(
        fb.write(&mut handle, &long, FrameBufferFormat::Rgb888).err().unwrap(),
        DeviceError::WrongBufferSize,
    );
    assert_eq!(handle.board.internal.as_ref().unwrap().fb_pixels(0), &frame444);
}

#[test]
fn framebuffer_write_permission() {
    let sketch = compiled_sketch("./tests/sketches/noop/noop.ino", Default::default());
    let mut board = Board::new();
    let mut handle = board
        .start(
            &BoardConfig {
                frame_buffers: vec![FrameBufferConfig { key: 5, allow_write: false }],
                ..Default::default()
            },
            &sketch,
        )
        .unwrap();
    assert!(handle.board.internal.as_mut().unwrap().fw_fb_setup(5, 1, 1, 1, false, false));

    let bv = handle.view();
    let fb = *bv.frame_buffers.get(5).unwrap();
    let frame = vec![0u8; 3];
    assert_eq!(
        fb.write(&mut handle, &frame, FrameBufferFormat::Rgb888).err().unwrap(),
        DeviceError::AccessDenied,
    );
}

#[test]
fn stale_accessors_fail_cleanly() {
    let sketch = compiled_sketch("./tests/sketches/noop/noop.ino", Default::default());
    let mut board = Board::new();
    let mut handle = board
        .start(
            &BoardConfig {
                gpio_drivers: vec![GpioDriver { pin_id: 0, allow_read: true, allow_write: true }],
                uart_channels: vec![UartChannel::default()],
                ..Default::default()
            },
            &sketch,
        )
        .unwrap();

    let bv = handle.view();
    let pin0 = *bv.pins.get(0).unwrap();
    let uart0 = *bv.uart_channels.get(0).unwrap();
    assert!(pin0.digital_write(&mut handle, true).is_ok());
    assert_eq!(handle.stop(), 0);

    // The same board starts a fresh session; accessors from the old one
    // are refused instead of touching the new session's devices.
    let mut handle = board
        .start(
            &BoardConfig {
                gpio_drivers: vec![GpioDriver { pin_id: 0, allow_read: true, allow_write: true }],
                uart_channels: vec![UartChannel::default()],
                ..Default::default()
            },
            &sketch,
        )
        .unwrap();
    assert_eq!(pin0.digital_read(&handle).err().unwrap(), DeviceError::SessionEnded);
    assert_eq!(pin0.digital_write(&mut handle, true).err().unwrap(), DeviceError::SessionEnded);
    assert_eq!(uart0.write(&mut handle, b"x").err().unwrap(), DeviceError::SessionEnded);
    assert_eq!(uart0.read(&mut handle, 8).err().unwrap(), DeviceError::SessionEnded);

    let fresh = *handle.view().pins.get(0).unwrap();
    assert_eq!(fresh.digital_read(&handle).unwrap(), false);
}

#[test]
fn view_reflects_configuration() {
    let sketch = compiled_sketch("./tests/sketches/noop/noop.ino", Default::default());
    let mut board = Board::new();
    let handle = board
        .start(
            &BoardConfig {
                gpio_drivers: vec![
                    GpioDriver { pin_id: 3, allow_read: true, allow_write: false },
                    GpioDriver { pin_id: 7, allow_read: false, allow_write: true },
                ],
                uart_channels: vec![UartChannel::default(), UartChannel::default()],
                frame_buffers: vec![FrameBufferConfig { key: 9, allow_write: true }],
                ..Default::default()
            },
            &sketch,
        )
        .unwrap();

    let bv = handle.view();
    assert_eq!(bv.pins.len(), 2);
    assert!(!bv.pins.is_empty());
    assert_eq!(bv.uart_channels.len(), 2);
    assert!(!bv.uart_channels.is_empty());
    assert_eq!(bv.frame_buffers.len(), 1);
    assert!(!bv.frame_buffers.is_empty());

    let pin3 = bv.pins.get(3).unwrap();
    assert_eq!(pin3.info().pin_id, 3);
    assert!(pin3.info().allow_read);
    assert!(!pin3.info().allow_write);
    assert_eq!(bv.pins.at(0).unwrap().info().pin_id, 3);
    assert_eq!(bv.pins.at(1).unwrap().info().pin_id, 7);
    assert!(bv.pins.at(2).is_none());
    assert_eq!(bv.frame_buffers.at(0).unwrap().info().key, 9);
    assert!(bv.frame_buffers.at(1).is_none());

    let uart1 = bv.uart_channels.get(1).unwrap();
    assert_eq!(uart1.info().baud_rate, 9600);
    assert_eq!(uart1.info().rx_buffer_length, 64);
    assert!(bv.uart_channels.get(2).is_none());
    assert!(uart1.flush().is_ok());

    let fb9 = bv.frame_buffers.get(9).unwrap();
    assert_eq!(fb9.info().key, 9);
    assert!(fb9.info().allow_write);

    assert_eq!(handle.stop(), 0);

    // An empty board has an empty view.
    let handle = board.start(&BoardConfig::default(), &sketch).unwrap();
    let bv = handle.view();
    assert_eq!(bv.pins.len(), 0);
    assert!(bv.pins.is_empty());
    assert!(bv.pins.get(0).is_none());
    assert!(bv.uart_channels.is_empty());
    assert!(bv.frame_buffers.is_empty());
}

#[test]
fn bytes_per_pixel_by_format() {
    assert_eq!(smce_rs::board_view::bytes_per_pixel(FrameBufferFormat::Rgb888), 3);
    assert_eq!(smce_rs::board_view::bytes_per_pixel(FrameBufferFormat::Rgb444), 2);
    assert_eq!(FrameBufferFormat::default(), FrameBufferFormat::Rgb888);
}

#[test]
fn duplicate_pin_ids_keep_last_declaration() {
    let sketch = compiled_sketch("./tests/sketches/noop/noop.ino", Default::default());
    let mut board = Board::new();
    let handle = board
        .start(
            &BoardConfig {
                gpio_drivers: vec![
                    GpioDriver { pin_id: 4, allow_read: true, allow_write: false },
                    GpioDriver { pin_id: 4, allow_read: false, allow_write: true },
                    GpioDriver { pin_id: 7, allow_read: true, allow_write: true },
                ],
                ..Default::default()
            },
            &sketch,
        )
        .unwrap();

    // Pins are keyed by pin id: one entry per distinct id, and a later
    // declaration of an id replaces an earlier one.
    let bv = handle.view();
    assert_eq!(bv.pins.len(), 2);
    let pin4 = bv.pins.get(4).unwrap();
    assert!(!pin4.info().allow_read);
    assert!(pin4.info().allow_write);
    assert_eq!(bv.pins.get(7).unwrap().info().pin_id, 7);
}

#[test]
fn duplicate_fb_keys_keep_last_declaration() {
    let sketch = compiled_sketch("./tests/sketches/noop/noop.ino", Default::default());
    let mut board = Board::new();
    let handle = board
        .start(
            &BoardConfig {
                frame_buffers: vec![
                    FrameBufferConfig { key: 3, allow_write: true },
                    FrameBufferConfig { key: 3, allow_write: false },
                ],
                ..Default::default()
            },
            &sketch,
        )
        .unwrap();

    let bv = handle.view();
    assert_eq!(bv.frame_buffers.len(), 1);
    let fb3 = bv.frame_buffers.get(3).unwrap();
    assert!(!fb3.info().allow_write);
}

#[test]
fn zero_capacity_channel_never_accepts() {
    let sketch = compiled_sketch("./tests/sketches/uart/uart.ino", Default::default());
    let mut board = Board::new();
    let mut handle = board
        .start(
            &BoardConfig {
                uart_channels: vec![UartChannel {
                    baud_rate: 9600,
                    rx_buffer_length: 0,
                    tx_buffer_length: 0,
                    flushing_threshold: 0,
                }],
                ..Default::default()
            },
            &sketch,
        )
        .unwrap();

    let uart0 = *handle.view().uart_channels.get(0).unwrap();
    assert_eq!(uart0.write(&mut handle, b"x").err().unwrap(), DeviceError::BufferFull);
    assert_eq!(uart0.write(&mut handle, b"").unwrap(), 0);
    assert_eq!(uart0.read(&mut handle, 8).unwrap(), Vec::<u8>::new());
}
