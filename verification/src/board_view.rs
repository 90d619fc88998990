//! Device accessors: typed endpoints over the peripherals of one active
//! session.
//!
//! A `BoardView` is a snapshot taken at session start; each accessor
//! holds the device's position in the session's device table, the static
//! configuration it was declared with, and the epoch of the session it
//! was resolved for. Every access goes through the board's handle, where
//! liveness is checked centrally: an accessor that outlives its session
//! fails with a defined error instead of touching another session's
//! device.

use vstd::prelude::*;

use crate::backend::Session;
use crate::board::Board;
use crate::board::BoardHandle;
use crate::board_config::FrameBuffer as FrameBufferInfo;
use crate::board_config::GpioDriver;
use crate::board_config::UartChannel as UartChannelInfo;

verus! {

/// Why a device access was refused.
#[derive(Debug, Clone, Copy, PartialEq, Eq, Structural)]
pub enum DeviceError {
    /// The accessor's session is no longer the board's active session.
    SessionEnded,
    /// The frame buffer was not declared writable.
    AccessDenied,
    /// The channel's send buffer has no free space at all.
    BufferFull,
    /// The frame does not match the announced display dimensions.
    WrongBufferSize,
}

/// A pixel format accepted by frame-buffer writes.
#[derive(Debug, Clone, Copy, PartialEq, Eq, Structural)]
pub enum FrameBufferFormat {
    Rgb888,
    Rgb444,
}

impl Default for FrameBufferFormat {
    /// Three bytes a pixel.
    fn default() -> (r: Self)
        ensures
            r == FrameBufferFormat::Rgb888,
    {
        FrameBufferFormat::Rgb888
    }
}

/// How many bytes one pixel takes in each format.
pub open spec fn spec_bytes_per_pixel(f: FrameBufferFormat) -> usize {
    match f {
        FrameBufferFormat::Rgb888 => 3,
        FrameBufferFormat::Rgb444 => 2,
    }
}

/// How many bytes one pixel takes in each format.
pub fn bytes_per_pixel(f: FrameBufferFormat) -> (r: usize)
    ensures
        r == spec_bytes_per_pixel(f),
{
    match f {
        FrameBufferFormat::Rgb888 => 3,
        FrameBufferFormat::Rgb444 => 2,
    }
}

/// A typed accessor for one configured GPIO pin.
#[derive(Debug, Clone, Copy, PartialEq, Eq, Structural)]
pub struct GpioPin {
    pub index: usize,
    pub epoch: u64,
    pub info: GpioDriver,
}

/// A typed accessor for one configured UART channel.
#[derive(Debug, Clone, Copy, PartialEq, Eq, Structural)]
pub struct UartChannel {
    pub index: usize,
    pub epoch: u64,
    pub info: UartChannelInfo,
}

/// A typed accessor for one configured frame buffer.
#[derive(Debug, Clone, Copy, PartialEq, Eq, Structural)]
pub struct FrameBuffer {
    pub index: usize,
    pub epoch: u64,
    pub info: FrameBufferInfo,
}

/// Is the pin accessor still bound to the board's active session?
pub open spec fn pin_live(p: GpioPin, b: Board) -> bool {
    &&& p.epoch == b.epoch
    &&& b.internal matches Some(s) && p.index < s.pins@.len() && s.pins@[
        p.index as int
    ].info == p.info
}

/// Is the UART accessor still bound to the board's active session?
pub open spec fn uart_live(u: UartChannel, b: Board) -> bool {
    &&& u.epoch == b.epoch
    &&& b.internal matches Some(s) && u.index < s.uarts@.len() && s.uarts@[
        u.index as int
    ].info == u.info
}

/// Is the frame-buffer accessor still bound to the board's active
/// session?
pub open spec fn fb_live(f: FrameBuffer, b: Board) -> bool {
    &&& f.epoch == b.epoch
    &&& b.internal matches Some(s) && f.index < s.frame_buffers@.len() && s.frame_buffers@[
        f.index as int
    ].info == f.info
}

impl GpioPin {
    /// The configuration this pin was declared with.
    pub fn info(&self) -> (r: &GpioDriver)
        ensures
            *r == self.info,
    {
        &self.info
    }

    /// Does the accessor still reach its device through this handle?
    fn live(&self, h: &BoardHandle<'_>) -> (r: bool)
        requires
            h.wf(),
        ensures
            r == pin_live(*self, *old(h.board)),
    {
        if self.epoch != h.board.epoch {
            return false;
        }
        match &h.board.internal {
            Some(s) => {
                self.index < s.pins.len() && {
                    let d = s.pins[self.index].info;
                    d == self.info
                }
            },
            None => false,
        }
    }

    /// Read the pin's digital level. Needs a live accessor.
    pub fn digital_read(&self, h: &BoardHandle<'_>) -> (r: Result<bool, DeviceError>)
        requires
            h.wf(),
        ensures
            !pin_live(*self, *old(h.board)) ==> r == Result::<bool, DeviceError>::Err(
                DeviceError::SessionEnded,
            ),
            pin_live(*self, *old(h.board)) ==> r == Result::<bool, DeviceError>::Ok(
                h.sess().pins@[self.index as int].digital,
            ),
    {
        if !self.live(h) {
            return Err(DeviceError::SessionEnded);
        }
        match &h.board.internal {
            Some(s) => Ok(s.pin_digital_read(self.index)),
            None => Err(DeviceError::SessionEnded),
        }
    }

    /// Set the pin's digital level. Needs a live accessor; nothing
    /// changes on a refused access.
    pub fn digital_write(&self, h: &mut BoardHandle<'_>, val: bool) -> (r: Result<
        (),
        DeviceError,
    >)
        requires
            old(h).wf(),
        ensures
            final(h).wf(),
            !pin_live(*self, *old(h).board) ==> r == Result::<(), DeviceError>::Err(
                DeviceError::SessionEnded,
            ) && *final(h).board == *old(h).board,
            pin_live(*self, *old(h).board) ==> r == Result::<(), DeviceError>::Ok(()) && *final(h).board == (Board {
                internal: Some(
                    (Session {
                        pins: final(h).sess().pins,
                        ..old(h).sess()
                    }),
                ),
                epoch: old(h).board.epoch,
            }) && final(h).sess().pins@ == old(h).sess().pins@.update(
                self.index as int,
                (crate::backend::PinState {
                    digital: val,
                    ..old(h).sess().pins@[self.index as int]
                }),
            ),
    {
        if !self.live(h) {
            return Err(DeviceError::SessionEnded);
        }
        match &mut h.board.internal {
            Some(s) => {
                s.pin_digital_write(self.index, val);
                Ok(())
            },
            None => Err(DeviceError::SessionEnded),
        }
    }

    /// Read the pin's analog level. Needs a live accessor.
    pub fn analog_read(&self, h: &BoardHandle<'_>) -> (r: Result<u16, DeviceError>)
        requires
            h.wf(),
        ensures
            !pin_live(*self, *old(h.board)) ==> r == Result::<u16, DeviceError>::Err(
                DeviceError::SessionEnded,
            ),
            pin_live(*self, *old(h.board)) ==> r == Result::<u16, DeviceError>::Ok(
                h.sess().pins@[self.index as int].analog,
            ),
    {
        if !self.live(h) {
            return Err(DeviceError::SessionEnded);
        }
        match &h.board.internal {
            Some(s) => Ok(s.pin_analog_read(self.index)),
            None => Err(DeviceError::SessionEnded),
        }
    }

    /// Set the pin's analog level. Needs a live accessor; nothing
    /// changes on a refused access.
    pub fn analog_write(&self, h: &mut BoardHandle<'_>, val: u16) -> (r: Result<(), DeviceError>)
        requires
            old(h).wf(),
        ensures
            final(h).wf(),
            !pin_live(*self, *old(h).board) ==> r == Result::<(), DeviceError>::Err(
                DeviceError::SessionEnded,
            ) && *final(h).board == *old(h).board,
            pin_live(*self, *old(h).board) ==> r == Result::<(), DeviceError>::Ok(()) && *final(h).board == (Board {
                internal: Some(
                    (Session {
                        pins: final(h).sess().pins,
                        ..old(h).sess()
                    }),
                ),
                epoch: old(h).board.epoch,
            }) && final(h).sess().pins@ == old(h).sess().pins@.update(
                self.index as int,
                (crate::backend::PinState {
                    analog: val,
                    ..old(h).sess().pins@[self.index as int]
                }),
            ),
    {
        if !self.live(h) {
            return Err(DeviceError::SessionEnded);
        }
        match &mut h.board.internal {
            Some(s) => {
                s.pin_analog_write(self.index, val);
                Ok(())
            },
            None => Err(DeviceError::SessionEnded),
        }
    }
}

impl UartChannel {
    /// The configuration this channel was declared with.
    pub fn info(&self) -> (r: &UartChannelInfo)
        ensures
            *r == self.info,
    {
        &self.info
    }

    /// Does the accessor still reach its device through this handle?
    fn live(&self, h: &BoardHandle<'_>) -> (r: bool)
        requires
            h.wf(),
        ensures
            r == uart_live(*self, *old(h.board)),
    {
        if self.epoch != h.board.epoch {
            return false;
        }
        match &h.board.internal {
            Some(s) => {
                self.index < s.uarts.len() && {
                    let c = s.uarts[self.index].info;
                    c == self.info
                }
            },
            None => false,
        }
    }

    /// Read up to `max` bytes the firmware has transmitted. Never fails
    /// on a live accessor: an empty result means nothing is buffered
    /// right now.
    pub fn read(&self, h: &mut BoardHandle<'_>, max: usize) -> (r: Result<Vec<u8>, DeviceError>)
        requires
            old(h).wf(),
        ensures
            final(h).wf(),
            !uart_live(*self, *old(h).board) ==> r == Result::<Vec<u8>, DeviceError>::Err(
                DeviceError::SessionEnded,
            ) && *final(h).board == *old(h).board,
            uart_live(*self, *old(h).board) ==> (r matches Ok(got) && {
                let tx0 = old(h).sess().uarts@[self.index as int].tx@;
                &&& got@.len() == vstd::math::min(max as int, tx0.len() as int)
                &&& got@ == tx0.take(got@.len() as int)
                &&& final(h).sess().uarts@.len() == old(h).sess().uarts@.len()
                &&& forall|k: int|
                    0 <= k < old(h).sess().uarts@.len() && k != self.index ==> final(h).sess().uarts@[k] == old(h).sess().uarts@[k]
                &&& final(h).sess().uarts@[self.index as int].info == self.info
                &&& final(h).sess().uarts@[self.index as int].rx == old(h).sess().uarts@[
                    self.index as int
                ].rx
                &&& final(h).sess().uarts@[self.index as int].tx@ == tx0.skip(got@.len() as int)
                &&& final(h).sess() == (Session {
                    uarts: final(h).sess().uarts,
                    ..old(h).sess()
                })
                &&& final(h).board.epoch == old(h).board.epoch
            }),
    {
        if !self.live(h) {
            return Err(DeviceError::SessionEnded);
        }
        match &mut h.board.internal {
            Some(s) => Ok(s.uart_host_read(self.index, max)),
            None => Err(DeviceError::SessionEnded),
        }
    }

    /// Send bytes towards the firmware: as many as fit in the channel's
    /// send buffer are accepted, in order, and their number is returned.
    /// A write finding no free space at all fails with `BufferFull`,
    /// distinct from any structural fault; the caller may retry.
    pub fn write(&self, h: &mut BoardHandle<'_>, data: &[u8]) -> (r: Result<usize, DeviceError>)
        requires
            old(h).wf(),
        ensures
            final(h).wf(),
            !uart_live(*self, *old(h).board) ==> r == Result::<usize, DeviceError>::Err(
                DeviceError::SessionEnded,
            ) && *final(h).board == *old(h).board,
            uart_live(*self, *old(h).board) ==> ({
                let u0 = old(h).sess().uarts@[self.index as int];
                let accept = vstd::math::min(data@.len() as int, u0.rx_free());
                &&& (accept == 0 && data@.len() > 0 ==> r == Result::<usize, DeviceError>::Err(
                    DeviceError::BufferFull,
                ) && *final(h).board == *old(h).board)
                &&& (accept > 0 || data@.len() == 0 ==> r == Result::<usize, DeviceError>::Ok(
                    accept as usize,
                ) && final(h).sess().uarts@[self.index as int].rx@ == u0.rx@ + data@.take(accept)
                    && final(h).sess().uarts@[self.index as int].tx == u0.tx && final(h).sess().uarts@[self.index as int].info == u0.info && final(h).sess().uarts@.len()
                    == old(h).sess().uarts@.len() && (forall|k: int|
                    0 <= k < old(h).sess().uarts@.len() && k != self.index ==> final(h).sess().uarts@[k] == old(h).sess().uarts@[k]) && final(h).sess() == (Session {
                    uarts: final(h).sess().uarts,
                    ..old(h).sess()
                }) && final(h).board.epoch == old(h).board.epoch)
            }),
    {
        if !self.live(h) {
            return Err(DeviceError::SessionEnded);
        }
        match &mut h.board.internal {
            Some(s) => {
                let free = s.uart_write_free(self.index);
                if free == 0 && data.len() > 0 {
                    Err(DeviceError::BufferFull)
                } else {
                    Ok(s.uart_host_write(self.index, data))
                }
            },
            None => Err(DeviceError::SessionEnded),
        }
    }

    /// Writes are handed to the channel immediately, so there is nothing
    /// to flush; the call always succeeds without touching the session.
    pub fn flush(&self) -> (r: Result<(), DeviceError>)
        ensures
            r is Ok,
    {
        Ok(())
    }
}

impl FrameBuffer {
    /// The configuration this frame buffer was declared with.
    pub fn info(&self) -> (r: &FrameBufferInfo)
        ensures
            *r == self.info,
    {
        &self.info
    }

    /// Does the accessor still reach its device through this handle?
    fn live(&self, h: &BoardHandle<'_>) -> (r: bool)
        requires
            h.wf(),
        ensures
            r == fb_live(*self, *old(h.board)),
    {
        if self.epoch != h.board.epoch {
            return false;
        }
        match &h.board.internal {
            Some(s) => {
                self.index < s.frame_buffers.len() && {
                    let c = s.frame_buffers[self.index].info;
                    c == self.info
                }
            },
            None => false,
        }
    }

    /// The display width the firmware announced.
    pub fn width(&self, h: &BoardHandle<'_>) -> (r: Result<u16, DeviceError>)
        requires
            h.wf(),
        ensures
            !fb_live(*self, *old(h.board)) ==> r == Result::<u16, DeviceError>::Err(
                DeviceError::SessionEnded,
            ),
            fb_live(*self, *old(h.board)) ==> r == Result::<u16, DeviceError>::Ok(
                h.sess().frame_buffers@[self.index as int].width,
            ),
    {
        if !self.live(h) {
            return Err(DeviceError::SessionEnded);
        }
        match &h.board.internal {
            Some(s) => Ok(s.fb_width(self.index)),
            None => Err(DeviceError::SessionEnded),
        }
    }

    /// The display height the firmware announced.
    pub fn height(&self, h: &BoardHandle<'_>) -> (r: Result<u16, DeviceError>)
        requires
            h.wf(),
        ensures
            !fb_live(*self, *old(h.board)) ==> r == Result::<u16, DeviceError>::Err(
                DeviceError::SessionEnded,
            ),
            fb_live(*self, *old(h.board)) ==> r == Result::<u16, DeviceError>::Ok(
                h.sess().frame_buffers@[self.index as int].height,
            ),
    {
        if !self.live(h) {
            return Err(DeviceError::SessionEnded);
        }
        match &h.board.internal {
            Some(s) => Ok(s.fb_height(self.index)),
            None => Err(DeviceError::SessionEnded),
        }
    }

    /// The refresh frequency the firmware announced.
    pub fn freq(&self, h: &BoardHandle<'_>) -> (r: Result<u8, DeviceError>)
        requires
            h.wf(),
        ensures
            !fb_live(*self, *old(h.board)) ==> r == Result::<u8, DeviceError>::Err(
                DeviceError::SessionEnded,
            ),
            fb_live(*self, *old(h.board)) ==> r == Result::<u8, DeviceError>::Ok(
                h.sess().frame_buffers@[self.index as int].freq,
            ),
    {
        if !self.live(h) {
            return Err(DeviceError::SessionEnded);
        }
        match &h.board.internal {
            Some(s) => Ok(s.fb_freq(self.index)),
            None => Err(DeviceError::SessionEnded),
        }
    }

    /// Whether frames need a horizontal flip before display.
    pub fn needs_horizontal_flip(&self, h: &BoardHandle<'_>) -> (r: Result<bool, DeviceError>)
        requires
            h.wf(),
        ensures
            !fb_live(*self, *old(h.board)) ==> r == Result::<bool, DeviceError>::Err(
                DeviceError::SessionEnded,
            ),
            fb_live(*self, *old(h.board)) ==> r == Result::<bool, DeviceError>::Ok(
                h.sess().frame_buffers@[self.index as int].horizontal_flip,
            ),
    {
        if !self.live(h) {
            return Err(DeviceError::SessionEnded);
        }
        match &h.board.internal {
            Some(s) => Ok(s.fb_horizontal_flip(self.index)),
            None => Err(DeviceError::SessionEnded),
        }
    }

    /// Whether frames need a vertical flip before display.
    pub fn needs_vertical_flip(&self, h: &BoardHandle<'_>) -> (r: Result<bool, DeviceError>)
        requires
            h.wf(),
        ensures
            !fb_live(*self, *old(h.board)) ==> r == Result::<bool, DeviceError>::Err(
                DeviceError::SessionEnded,
            ),
            fb_live(*self, *old(h.board)) ==> r == Result::<bool, DeviceError>::Ok(
                h.sess().frame_buffers@[self.index as int].vertical_flip,
            ),
    {
        if !self.live(h) {
            return Err(DeviceError::SessionEnded);
        }
        match &h.board.internal {
            Some(s) => Ok(s.fb_vertical_flip(self.index)),
            None => Err(DeviceError::SessionEnded),
        }
    }

    /// How many bytes one full frame takes in the three-byte format.
    pub fn expected_buf_size(&self, h: &BoardHandle<'_>) -> (r: Result<usize, DeviceError>)
        requires
            h.wf(),
        ensures
            !fb_live(*self, *old(h.board)) ==> r == Result::<usize, DeviceError>::Err(
                DeviceError::SessionEnded,
            ),
            fb_live(*self, *old(h.board)) ==> r == Result::<usize, DeviceError>::Ok(
                (h.sess().frame_buffers@[self.index as int].width * h.sess().frame_buffers@[
                    self.index as int
                ].height * 3) as usize,
            ),
    {
        if !self.live(h) {
            return Err(DeviceError::SessionEnded);
        }
        match &h.board.internal {
            Some(s) => {
                let w = s.fb_width(self.index) as usize;
                let ht = s.fb_height(self.index) as usize;
                Ok(w * ht * 3)
            },
            None => Err(DeviceError::SessionEnded),
        }
    }

    /// Write one full frame. Needs a live accessor on a buffer declared
    /// writable, and a frame of exactly
    /// `width * height * bytes_per_pixel(format)` bytes: a mismatched
    /// frame is rejected whole, with nothing written.
    pub fn write(&self, h: &mut BoardHandle<'_>, buf: &[u8], format: FrameBufferFormat) -> (r:
        Result<(), DeviceError>)
        requires
            old(h).wf(),
        ensures
            final(h).wf(),
            !fb_live(*self, *old(h).board) ==> r == Result::<(), DeviceError>::Err(
                DeviceError::SessionEnded,
            ) && *final(h).board == *old(h).board,
            fb_live(*self, *old(h).board) && !self.info.allow_write ==> r == Result::<
                (),
                DeviceError,
            >::Err(DeviceError::AccessDenied) && *final(h).board == *old(h).board,
            fb_live(*self, *old(h).board) && self.info.allow_write ==> ({
                let f0 = old(h).sess().frame_buffers@[self.index as int];
                let expected = f0.width * f0.height * spec_bytes_per_pixel(format);
                &&& (buf@.len() != expected ==> r == Result::<(), DeviceError>::Err(
                    DeviceError::WrongBufferSize,
                ) && *final(h).board == *old(h).board)
                &&& (buf@.len() == expected ==> r == Result::<(), DeviceError>::Ok(())
                    && final(h).sess().frame_buffers@.len() == old(h).sess().frame_buffers@.len() && (forall|k: int|
                    0 <= k < old(h).sess().frame_buffers@.len() && k != self.index ==> final(h).sess().frame_buffers@[k] == old(h).sess().frame_buffers@[k]) && final(h).sess().frame_buffers@[self.index as int].pixels@ == buf@ && final(h).sess().frame_buffers@[self.index as int].info == f0.info && final(h).sess().frame_buffers@[self.index as int].width == f0.width && final(h).sess().frame_buffers@[self.index as int].height == f0.height && final(h).sess() == (Session {
                    frame_buffers: final(h).sess().frame_buffers,
                    ..old(h).sess()
                }) && final(h).board.epoch == old(h).board.epoch)
            }),
    {
        if !self.live(h) {
            return Err(DeviceError::SessionEnded);
        }
        if !self.info.allow_write {
            return Err(DeviceError::AccessDenied);
        }
        let bpp = bytes_per_pixel(format);
        match &mut h.board.internal {
            Some(s) => {
                if s.fb_write(self.index, buf, bpp) {
                    Ok(())
                } else {
                    Err(DeviceError::WrongBufferSize)
                }
            },
            None => Err(DeviceError::SessionEnded),
        }
    }
}

/// Is `j` the position of the first pin accessor carrying `pin`?
pub open spec fn is_first_pin_at(pins: Seq<GpioPin>, pin: usize, j: int) -> bool {
    &&& 0 <= j < pins.len()
    &&& pins[j].info.pin_id == pin
    &&& forall|k: int| 0 <= k < j ==> (#[trigger] pins[k]).info.pin_id != pin
}

/// Is `j` the position of the first frame-buffer accessor carrying
/// `key`?
pub open spec fn is_first_fb_at(fbs: Seq<FrameBuffer>, key: usize, j: int) -> bool {
    &&& 0 <= j < fbs.len()
    &&& fbs[j].info.key == key
    &&& forall|k: int| 0 <= k < j ==> (#[trigger] fbs[k]).info.key != key
}

/// The pin accessors of one session, keyed by pin id.
#[derive(Debug)]
pub struct Pins {
    pub inner: Vec<GpioPin>,
}

impl Pins {
    /// How many pins the session was configured with.
    pub fn len(&self) -> (r: usize)
        ensures
            r == self.inner@.len(),
    {
        self.inner.len()
    }

    /// Whether no pin was configured.
    pub fn is_empty(&self) -> (r: bool)
        ensures
            r == (self.inner@.len() == 0),
    {
        self.inner.len() == 0
    }

    /// The accessor at one position of the pin table, in table order.
    pub fn at(&self, index: usize) -> (r: Option<&GpioPin>)
        ensures
            (r is Some) <==> index < self.inner@.len(),
            r matches Some(p) ==> *p == self.inner@[index as int],
    {
        if index < self.inner.len() {
            Some(&self.inner[index])
        } else {
            None
        }
    }

    /// The accessor for the pin with id `pin`, if one was configured.
    pub fn get(&self, pin: usize) -> (r: Option<&GpioPin>)
        ensures
            (r is Some) <==> (exists|j: int| is_first_pin_at(self.inner@, pin, j)),
            r matches Some(p) ==> (exists|j: int|
                #[trigger] is_first_pin_at(self.inner@, pin, j) && *p == self.inner@[j]),
    {
        let mut i: usize = 0;
        while i < self.inner.len()
            invariant
                i <= self.inner@.len(),
                forall|k: int| 0 <= k < i ==> (#[trigger] self.inner@[k]).info.pin_id != pin,
            decreases self.inner@.len() - i,
        {
            if self.inner[i].info.pin_id as usize == pin {
                proof {
                    assert(is_first_pin_at(self.inner@, pin, i as int));
                }
                return Some(&self.inner[i]);
            }
            i = i + 1;
        }
        None
    }
}

/// The UART channel accessors of one session, in declaration order.
#[derive(Debug)]
pub struct UartChannels {
    pub inner: Vec<UartChannel>,
}

impl UartChannels {
    /// How many channels the session was configured with.
    pub fn len(&self) -> (r: usize)
        ensures
            r == self.inner@.len(),
    {
        self.inner.len()
    }

    /// Whether no channel was configured.
    pub fn is_empty(&self) -> (r: bool)
        ensures
            r == (self.inner@.len() == 0),
    {
        self.inner.len() == 0
    }

    /// The accessor for the channel declared at `index`.
    pub fn get(&self, index: usize) -> (r: Option<&UartChannel>)
        ensures
            (r is Some) <==> index < self.inner@.len(),
            r matches Some(u) ==> *u == self.inner@[index as int],
    {
        if index < self.inner.len() {
            Some(&self.inner[index])
        } else {
            None
        }
    }
}

/// The frame-buffer accessors of one session, keyed by configured key.
#[derive(Debug)]
pub struct FrameBuffers {
    pub inner: Vec<FrameBuffer>,
}

impl FrameBuffers {
    /// How many frame buffers the session was configured with.
    pub fn len(&self) -> (r: usize)
        ensures
            r == self.inner@.len(),
    {
        self.inner.len()
    }

    /// Whether no frame buffer was configured.
    pub fn is_empty(&self) -> (r: bool)
        ensures
            r == (self.inner@.len() == 0),
    {
        self.inner.len() == 0
    }

    /// The accessor at one position of the frame-buffer table, in table
    /// order.
    pub fn at(&self, index: usize) -> (r: Option<&FrameBuffer>)
        ensures
            (r is Some) <==> index < self.inner@.len(),
            r matches Some(f) ==> *f == self.inner@[index as int],
    {
        if index < self.inner.len() {
            Some(&self.inner[index])
        } else {
            None
        }
    }

    /// The accessor for the frame buffer with key `key`, if one was
    /// configured.
    pub fn get(&self, key: usize) -> (r: Option<&FrameBuffer>)
        ensures
            (r is Some) <==> (exists|j: int| is_first_fb_at(self.inner@, key, j)),
            r matches Some(f) ==> (exists|j: int|
                #[trigger] is_first_fb_at(self.inner@, key, j) && *f == self.inner@[j]),
    {
        let mut i: usize = 0;
        while i < self.inner.len()
            invariant
                i <= self.inner@.len(),
                forall|k: int| 0 <= k < i ==> (#[trigger] self.inner@[k]).info.key != key,
            decreases self.inner@.len() - i,
        {
            if self.inner[i].info.key == key {
                proof {
                    assert(is_first_fb_at(self.inner@, key, i as int));
                }
                return Some(&self.inner[i]);
            }
            i = i + 1;
        }
        None
    }
}

/// The device accessors resolved for one active session.
#[derive(Debug)]
pub struct BoardView {
    pub pins: Pins,
    pub uart_channels: UartChannels,
    pub frame_buffers: FrameBuffers,
}

} // verus!
