//! Declarative description of a virtual board: which GPIO drivers, UART
//! channels, SD cards and frame buffers a session exposes.
//!
//! A `BoardConfig` is plain immutable data supplied by the caller; it is
//! consumed once when a board session starts.

use vstd::prelude::*;

verus! {

/// One simulated GPIO driver: a pin id plus the host-side access rights.
#[derive(Debug, Clone, Copy, PartialEq, Eq, Structural)]
pub struct GpioDriver {
    pub pin_id: u16,
    pub allow_read: bool,
    pub allow_write: bool,
}

/// One simulated UART channel and the sizing of its two byte buffers.
///
/// `rx_buffer_length` bounds the buffer the host writes into (data
/// travelling towards the firmware); `tx_buffer_length` bounds the buffer
/// the firmware writes into (data travelling towards the host).
#[derive(Debug, Clone, Copy, PartialEq, Eq, Structural)]
pub struct UartChannel {
    pub baud_rate: u16,
    pub rx_buffer_length: usize,
    pub tx_buffer_length: usize,
    pub flushing_threshold: usize,
}

/// One simulated SD card: its chip-select pin and the host directory that
/// backs the virtual filesystem.
#[derive(Debug, Clone)]
pub struct SecureDigitalStorage {
    pub cspin: u16,
    pub root_dir: String,
}

/// One simulated frame buffer, addressed by a caller-chosen key.
#[derive(Debug, Clone, Copy, PartialEq, Eq, Structural)]
pub struct FrameBuffer {
    pub key: usize,
    pub allow_write: bool,
}

/// The full device complement of a virtual board.
#[derive(Debug, Clone)]
pub struct BoardConfig {
    pub gpio_drivers: Vec<GpioDriver>,
    pub uart_channels: Vec<UartChannel>,
    pub sd_cards: Vec<SecureDigitalStorage>,
    pub frame_buffers: Vec<FrameBuffer>,
}

impl Default for UartChannel {
    /// 9600 baud with two 64-byte buffers and no flushing threshold.
    fn default() -> (r: Self)
        ensures
            r.baud_rate == 9600,
            r.rx_buffer_length == 64,
            r.tx_buffer_length == 64,
            r.flushing_threshold == 0,
    {
        UartChannel { baud_rate: 9600, rx_buffer_length: 64, tx_buffer_length: 64, flushing_threshold: 0 }
    }
}

impl Default for BoardConfig {
    /// A board with no devices at all.
    fn default() -> (r: Self)
        ensures
            r.gpio_drivers@ =~= Seq::<GpioDriver>::empty(),
            r.uart_channels@ =~= Seq::<UartChannel>::empty(),
            r.sd_cards@ =~= Seq::<SecureDigitalStorage>::empty(),
            r.frame_buffers@ =~= Seq::<FrameBuffer>::empty(),
    {
        BoardConfig {
            gpio_drivers: Vec::new(),
            uart_channels: Vec::new(),
            sd_cards: Vec::new(),
            frame_buffers: Vec::new(),
        }
    }
}

} // verus!
