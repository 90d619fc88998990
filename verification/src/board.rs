//! The board lifecycle: a `Board` owns at most one simulation session;
//! starting it with a configuration and a compiled sketch yields a
//! `BoardHandle` through which the session is controlled and its devices
//! are reached.

use vstd::prelude::*;

use crate::backend::fbs_of_configs;
use crate::backend::pins_of_drivers;
use crate::backend::uart_init;
use crate::backend::Session;
use crate::backend::SessionStatus;
use crate::board_config::BoardConfig;
use crate::board_view::BoardView;
use crate::board_view::FrameBuffer;
use crate::board_view::FrameBuffers;
use crate::board_view::GpioPin;
use crate::board_view::Pins;
use crate::board_view::UartChannel;
use crate::board_view::UartChannels;
use crate::sketch::Sketch;

verus! {

/// The run state of a board as its caller sees it: backend-only states
/// before the first start collapse to `Stopped`.
#[derive(Debug, Copy, Clone, Eq, Hash, Ord, PartialEq, PartialOrd, Structural)]
pub enum Status {
    Running,
    Suspended,
    Stopped,
}

/// Why a board refused to start.
#[derive(Clone, Copy, Debug, Eq, Hash, Ord, PartialEq, PartialOrd, Structural)]
pub enum BoardError {
    SketchNotCompiled,
    AlreadyRunning,
}

impl BoardError {
    /// A short description of the error.
    pub fn message(&self) -> (r: &'static str)
        ensures
            *self == BoardError::SketchNotCompiled ==> r@ == "Passed sketch is not compiled"@,
            *self == BoardError::AlreadyRunning ==> r@ == "Board is already running a sketch"@,
    {
        match self {
            BoardError::SketchNotCompiled => "Passed sketch is not compiled",
            BoardError::AlreadyRunning => "Board is already running a sketch",
        }
    }
}

/// How a backend session status is reported to the caller.
pub open spec fn visible_status(s: SessionStatus) -> Status {
    match s {
        SessionStatus::Running => Status::Running,
        SessionStatus::Suspended => Status::Suspended,
        _ => Status::Stopped,
    }
}

/// The owner of at most one simulation session.
#[derive(Debug)]
pub struct Board {
    /// The active session, if any.
    pub internal: Option<Session>,
    /// Bumped on every start; device accessors carry the epoch of the
    /// session they were resolved for, so stale accessors are refused.
    pub epoch: u64,
}

/// Exclusive control over a board's active session.
#[derive(Debug)]
pub struct BoardHandle<'a> {
    pub board: &'a mut Board,
}

/// A handle to the runtime log of a board's active session; it reads
/// through the handle with the same non-blocking contract as the build
/// log.
#[derive(Debug)]
pub struct BoardLogReader {
    epoch: u64,
}

/// Has a freshly started session exactly the devices of `config`, each
/// in its initial state, with the firmware running? Pins and frame
/// buffers are keyed by pin id and key — one device per distinct id,
/// the last declaration winning — while UART channels keep declaration
/// order.
pub open spec fn session_started(s: Session, config: BoardConfig) -> bool {
    &&& s.wf()
    &&& s.status == SessionStatus::Running
    &&& s.attached
    &&& s.exit is None
    &&& pins_of_drivers(s.pins@, config.gpio_drivers@)
    &&& s.uarts@.len() == config.uart_channels@.len()
    &&& forall|i: int|
        0 <= i < config.uart_channels@.len() ==> uart_init(
            #[trigger] s.uarts@[i],
            config.uart_channels@[i],
        )
    &&& fbs_of_configs(s.frame_buffers@, config.frame_buffers@)
    &&& s.log@.len() == 0
    &&& s.log_cursor == 0
}

impl Board {
    /// Every active session is well-formed.
    pub open spec fn wf(self) -> bool {
        self.internal matches Some(s) ==> s.wf()
    }

    /// A board with no session.
    pub fn new() -> (r: Self)
        ensures
            r.wf(),
            r.internal is None,
            r.epoch == 0,
    {
        Board { internal: None, epoch: 0 }
    }

    /// Start a session: allocate it, configure every declared device,
    /// attach the compiled sketch, begin execution, and hand back the
    /// session's handle. Fails, leaving the board untouched, if a session
    /// is already active or the sketch is not compiled — in that order,
    /// before any session is allocated.
    pub fn start<'a>(&'a mut self, config: &BoardConfig, sketch: &Sketch) -> (r: Result<
        BoardHandle<'a>,
        BoardError,
    >)
        requires
            old(self).wf(),
            old(self).epoch < u64::MAX,
        ensures
            old(self).internal is Some ==> (r matches Err(e) && e == BoardError::AlreadyRunning
                && *final(self) == *old(self)),
            old(self).internal is None && !sketch.spec_compiled() ==> (r matches Err(e) && e
                == BoardError::SketchNotCompiled && *final(self) == *old(self)),
            (r is Ok) <==> (old(self).internal is None && sketch.spec_compiled()),
            r matches Ok(h) ==> {
                &&& h.board.internal matches Some(s) && session_started(s, *config)
                &&& h.board.epoch == old(self).epoch + 1
                &&& h.board.wf()
                &&& *final(self) == *final(h.board)
            },
    {
        if self.internal.is_some() {
            return Err(BoardError::AlreadyRunning);
        }
        if !sketch.compiled() {
            return Err(BoardError::SketchNotCompiled);
        }
        let mut session = Session::new();
        let configured = session.configure(config);
        let attached = session.attach(sketch);
        let started = session.start();
        proof {
            assert(configured && attached && started);
        }
        self.internal = Some(session);
        self.epoch = self.epoch + 1;
        Ok(BoardHandle { board: self })
    }

    /// A handle to the active session, if one is active.
    pub fn handle<'a>(&'a mut self) -> (r: Option<BoardHandle<'a>>)
        requires
            old(self).wf(),
        ensures
            (r is Some) <==> old(self).internal is Some,
            r is None ==> *final(self) == *old(self),
            r matches Some(h) ==> {
                &&& *h.board == *old(self)
                &&& *final(self) == *final(h.board)
            },
    {
        if self.internal.is_some() {
            Some(BoardHandle { board: self })
        } else {
            None
        }
    }
}

impl Default for Board {
    /// Same as `new`: a board with no session.
    fn default() -> (r: Self)
        ensures
            r.wf(),
            r.internal is None,
            r.epoch == 0,
    {
        Board { internal: None, epoch: 0 }
    }
}

impl<'a> BoardHandle<'a> {
    /// The session the handle controls. Meaningful only while the handle
    /// is well-formed.
    pub open spec fn sess(self) -> Session {
        self.board.internal->0
    }

    /// A handle is well-formed while its board holds a session.
    pub open spec fn wf(self) -> bool {
        &&& self.board.internal is Some
        &&& self.board.internal->0.wf()
    }

    /// The session's run state as the caller sees it.
    pub fn status(&self) -> (r: Status)
        requires
            self.wf(),
        ensures
            r == visible_status(self.sess().status),
    {
        match &self.board.internal {
            Some(s) => {
                match s.status() {
                    SessionStatus::Running => Status::Running,
                    SessionStatus::Suspended => Status::Suspended,
                    _ => Status::Stopped,
                }
            },
            None => Status::Stopped,
        }
    }

    /// Pause execution: succeeds exactly while `Running`, moving the
    /// session to `Suspended`; any other state is left unchanged.
    pub fn suspend(&mut self) -> (r: bool)
        requires
            old(self).wf(),
        ensures
            final(self).wf(),
            r == (old(self).sess().status == SessionStatus::Running),
            !r ==> *final(self).board == *old(self).board,
            r ==> *final(self).board == (Board {
                internal: Some(
                    (Session { status: SessionStatus::Suspended, ..old(self).sess() }),
                ),
                epoch: old(self).board.epoch,
            }),
    {
        match &mut self.board.internal {
            Some(s) => s.suspend(),
            None => false,
        }
    }

    /// Continue execution: succeeds exactly while `Suspended`, moving the
    /// session back to `Running`; any other state is left unchanged.
    pub fn resume(&mut self) -> (r: bool)
        requires
            old(self).wf(),
        ensures
            final(self).wf(),
            r == (old(self).sess().status == SessionStatus::Suspended),
            !r ==> *final(self).board == *old(self).board,
            r ==> *final(self).board == (Board {
                internal: Some((Session { status: SessionStatus::Running, ..old(self).sess() })),
                epoch: old(self).board.epoch,
            }),
    {
        match &mut self.board.internal {
            Some(s) => s.resume(),
            None => false,
        }
    }

    /// Poll whether the firmware has exited; its exit code is the error
    /// value once it has. The session is not changed, so after an exit
    /// every further poll keeps returning the same exit code.
    pub fn tick(&self) -> (r: Result<(), i32>)
        requires
            self.wf(),
        ensures
            (r is Err) <==> self.sess().exit is Some,
            self.sess().exit matches Some(code) ==> r == Result::<(), i32>::Err(code),
    {
        match &self.board.internal {
            Some(s) => {
                let info = s.tick();
                if info.exited {
                    Err(info.exit_code)
                } else {
                    Ok(())
                }
            },
            None => Ok(()),
        }
    }

    /// Stop the session, consuming the handle: polls once, and if the
    /// firmware had already exited returns its exit code; otherwise
    /// force-terminates and returns 0. The board is left without a
    /// session either way.
    pub fn stop(self) -> (r: i32)
        requires
            self.wf(),
        ensures
            self.sess().exit matches Some(code) ==> r == code,
            self.sess().exit is None ==> r == 0,
            (*final(self.board)).internal is None,
            (*final(self.board)).epoch == (*old(self.board)).epoch,
    {
        let code: i32 = match self.tick() {
            Err(exit_code) => exit_code,
            Ok(()) => {
                match &mut self.board.internal {
                    Some(s) => {
                        s.terminate();
                    },
                    None => {},
                }
                0
            },
        };
        self.board.internal = None;
        code
    }

    /// A snapshot of the device accessors of the active session: the
    /// configured pins, UART channels and frame buffers, in declaration
    /// order, each bound to this session's epoch.
    pub fn view(&self) -> (r: BoardView)
        requires
            self.wf(),
        ensures
            r.pins.inner@.len() == self.sess().pins@.len(),
            forall|j: int|
                0 <= j < self.sess().pins@.len() ==> r.pins.inner@[j] == (GpioPin {
                    index: j as usize,
                    epoch: (*old(self.board)).epoch,
                    info: self.sess().pins@[j].info,
                }),
            r.uart_channels.inner@.len() == self.sess().uarts@.len(),
            forall|j: int|
                0 <= j < self.sess().uarts@.len() ==> r.uart_channels.inner@[j] == (UartChannel {
                    index: j as usize,
                    epoch: (*old(self.board)).epoch,
                    info: self.sess().uarts@[j].info,
                }),
            r.frame_buffers.inner@.len() == self.sess().frame_buffers@.len(),
            forall|j: int|
                0 <= j < self.sess().frame_buffers@.len() ==> r.frame_buffers.inner@[j]
                    == (FrameBuffer {
                    index: j as usize,
                    epoch: (*old(self.board)).epoch,
                    info: self.sess().frame_buffers@[j].info,
                }),
    {
        let epoch = self.board.epoch;
        match &self.board.internal {
            Some(s) => {
                let mut pins: Vec<GpioPin> = Vec::new();
                let mut i: usize = 0;
                while i < s.pins.len()
                    invariant
                        i <= s.pins@.len(),
                        pins@.len() == i,
                        forall|j: int|
                            0 <= j < i ==> pins@[j] == (GpioPin {
                                index: j as usize,
                                epoch: epoch,
                                info: s.pins@[j].info,
                            }),
                    decreases s.pins@.len() - i,
                {
                    let info = s.pins[i].info;
                    pins.push(GpioPin { index: i, epoch, info });
                    i = i + 1;
                }
                let mut uarts: Vec<UartChannel> = Vec::new();
                let mut i: usize = 0;
                while i < s.uarts.len()
                    invariant
                        i <= s.uarts@.len(),
                        uarts@.len() == i,
                        forall|j: int|
                            0 <= j < i ==> uarts@[j] == (UartChannel {
                                index: j as usize,
                                epoch: epoch,
                                info: s.uarts@[j].info,
                            }),
                    decreases s.uarts@.len() - i,
                {
                    let info = s.uarts[i].info;
                    uarts.push(UartChannel { index: i, epoch, info });
                    i = i + 1;
                }
                let mut fbs: Vec<FrameBuffer> = Vec::new();
                let mut i: usize = 0;
                while i < s.frame_buffers.len()
                    invariant
                        i <= s.frame_buffers@.len(),
                        fbs@.len() == i,
                        forall|j: int|
                            0 <= j < i ==> fbs@[j] == (FrameBuffer {
                                index: j as usize,
                                epoch: epoch,
                                info: s.frame_buffers@[j].info,
                            }),
                    decreases s.frame_buffers@.len() - i,
                {
                    let info = s.frame_buffers[i].info;
                    fbs.push(FrameBuffer { index: i, epoch, info });
                    i = i + 1;
                }
                BoardView {
                    pins: Pins { inner: pins },
                    uart_channels: UartChannels { inner: uarts },
                    frame_buffers: FrameBuffers { inner: fbs },
                }
            },
            None => {
                BoardView {
                    pins: Pins { inner: Vec::new() },
                    uart_channels: UartChannels { inner: Vec::new() },
                    frame_buffers: FrameBuffers { inner: Vec::new() },
                }
            },
        }
    }

    /// A reader over the session's runtime log.
    pub fn log(&self) -> (r: BoardLogReader)
        requires
            self.wf(),
        ensures
            r.spec_epoch() == (*old(self.board)).epoch,
    {
        BoardLogReader { epoch: self.board.epoch }
    }
}

impl BoardLogReader {
    /// The epoch of the session the reader was created for.
    pub closed spec fn spec_epoch(&self) -> u64 {
        self.epoch
    }

    /// Drain up to `max` runtime log bytes that have not been read yet.
    /// Non-blocking: an empty result only means nothing new is buffered.
    /// A reader outliving its session reads nothing.
    pub fn read(&self, h: &mut BoardHandle<'_>, max: usize) -> (r: Vec<u8>)
        requires
            old(h).wf(),
        ensures
            final(h).wf(),
            self.spec_epoch() != old(h).board.epoch ==> r@.len() == 0 && *final(h).board == *old(
                h,
            ).board,
            self.spec_epoch() == old(h).board.epoch ==> {
                let s0 = old(h).sess();
                &&& r@.len() == vstd::math::min(max as int, s0.log@.len() - s0.log_cursor)
                &&& r@ == s0.log@.subrange(s0.log_cursor as int, s0.log_cursor + r@.len())
                &&& final(h).sess() == (Session {
                    log_cursor: (s0.log_cursor + r@.len()) as usize,
                    ..s0
                })
                &&& final(h).board.epoch == old(h).board.epoch
            },
    {
        if self.epoch != h.board.epoch {
            return Vec::new();
        }
        match &mut h.board.internal {
            Some(s) => s.runtime_log_read(max),
            None => Vec::new(),
        }
    }
}

} // verus!
