//! In-memory model of one simulation backend session.
//!
//! A [`Session`] carries the run state of one virtual board together with
//! the state of every simulated peripheral the board was configured with.
//! It has two faces:
//!
//! * the *host* face — the operations the board and its device accessors
//!   call (configure, attach, start, tick, pin/UART/frame-buffer access);
//! * the *firmware* face (`fw_*`) — the way executing firmware manifests
//!   in the model: the embedding harness reports pin writes, UART traffic,
//!   log output and the eventual exit of the firmware through these.
//!
//! Instruction-level emulation is out of scope; firmware behaviour enters
//! the model only through the firmware face.

use vstd::prelude::*;

use crate::board_config::BoardConfig;
use crate::board_config::FrameBuffer as FrameBufferInfo;
use crate::board_config::GpioDriver;
use crate::board_config::UartChannel as UartChannelInfo;
use crate::sketch::Sketch;

verus! {

/// Run state of a session, as the backend reports it.
#[derive(Debug, Clone, Copy, PartialEq, Eq, Structural)]
pub enum SessionStatus {
    Clean,
    Configured,
    Running,
    Suspended,
    Stopped,
}

/// What one poll of the firmware process reported.
#[derive(Debug, Clone, Copy, PartialEq, Eq, Structural)]
pub struct ExitInfo {
    pub exited: bool,
    pub exit_code: i32,
}

/// One simulated GPIO pin: its configured access rights and its current
/// digital and analog levels.
#[derive(Debug, Clone, Copy, PartialEq, Eq, Structural)]
pub struct PinState {
    pub info: GpioDriver,
    pub digital: bool,
    pub analog: u16,
}

/// One simulated UART channel: two bounded byte queues.
///
/// `rx` carries bytes from the host towards the firmware and is bounded by
/// `info.rx_buffer_length`; `tx` carries bytes from the firmware towards
/// the host and is bounded by `info.tx_buffer_length`.
#[derive(Debug)]
pub struct UartState {
    pub info: UartChannelInfo,
    pub rx: Vec<u8>,
    pub tx: Vec<u8>,
}

/// One simulated frame buffer: its configured key and access right, the
/// display parameters the firmware announced, and the last frame written.
#[derive(Debug)]
pub struct FrameBufferState {
    pub info: FrameBufferInfo,
    pub width: u16,
    pub height: u16,
    pub freq: u8,
    pub horizontal_flip: bool,
    pub vertical_flip: bool,
    pub pixels: Vec<u8>,
}

/// One simulation backend session.
#[derive(Debug)]
pub struct Session {
    pub status: SessionStatus,
    pub attached: bool,
    pub pins: Vec<PinState>,
    pub uarts: Vec<UartState>,
    pub frame_buffers: Vec<FrameBufferState>,
    pub exit: Option<i32>,
    pub log: Vec<u8>,
    pub log_cursor: usize,
}

/// The pin state a fresh configuration gives one GPIO driver.
pub open spec fn pin_init(d: GpioDriver) -> PinState {
    PinState { info: d, digital: false, analog: 0 }
}

/// Does a UART channel state match a fresh configuration entry?
pub open spec fn uart_init(u: UartState, c: UartChannelInfo) -> bool {
    &&& u.info == c
    &&& u.rx@.len() == 0
    &&& u.tx@.len() == 0
}

/// Does a frame-buffer state match a fresh configuration entry?
pub open spec fn fb_init(f: FrameBufferState, c: FrameBufferInfo) -> bool {
    &&& f.info == c
    &&& f.width == 0
    &&& f.height == 0
    &&& f.freq == 0
    &&& f.horizontal_flip == false
    &&& f.vertical_flip == false
    &&& f.pixels@.len() == 0
}

/// Does any driver entry carry `id`?
pub open spec fn has_driver(drivers: Seq<GpioDriver>, id: u16) -> bool {
    exists|j: int| 0 <= j < drivers.len() && (#[trigger] drivers[j]).pin_id == id
}

/// Is `j` the index of the last driver entry carrying `id`?
pub open spec fn is_last_driver(drivers: Seq<GpioDriver>, id: u16, j: int) -> bool {
    &&& 0 <= j < drivers.len()
    &&& drivers[j].pin_id == id
    &&& forall|k: int| j < k < drivers.len() ==> (#[trigger] drivers[k]).pin_id != id
}

/// How many distinct pin ids a driver list carries.
pub open spec fn distinct_driver_count(drivers: Seq<GpioDriver>) -> int
    decreases drivers.len(),
{
    if drivers.len() == 0 {
        0
    } else if has_driver(drivers.drop_last(), drivers.last().pin_id) {
        distinct_driver_count(drivers.drop_last())
    } else {
        1 + distinct_driver_count(drivers.drop_last())
    }
}

/// Does any pin state in the table carry `id`?
pub open spec fn has_pin_state(pins: Seq<PinState>, id: u16) -> bool {
    exists|v: int| 0 <= v < pins.len() && (#[trigger] pins[v]).info.pin_id == id
}

/// Does slot `v` of the pin table hold the last driver entry declared
/// with its pin id, in its initial state?
pub open spec fn pin_slot_ok(pins: Seq<PinState>, drivers: Seq<GpioDriver>, v: int) -> bool {
    exists|j: int|
        is_last_driver(drivers, pins[v].info.pin_id, j) && pins[v] == pin_init(drivers[j])
}

/// Is `pins` exactly the pin table a driver list configures: pins keyed
/// by pin id — one entry a distinct id — each holding the *last* driver
/// entry declared with its id, in its initial state, and one entry for
/// every declared id?
pub open spec fn pins_of_drivers(pins: Seq<PinState>, drivers: Seq<GpioDriver>) -> bool {
    &&& pins.len() == distinct_driver_count(drivers)
    &&& forall|a: int, b: int|
        0 <= a < b < pins.len() ==> (#[trigger] pins[a]).info.pin_id != (
        #[trigger] pins[b]).info.pin_id
    &&& forall|v: int| 0 <= v < pins.len() ==> #[trigger] pin_slot_ok(pins, drivers, v)
    &&& forall|j: int|
        0 <= j < drivers.len() ==> has_pin_state(pins, (#[trigger] drivers[j]).pin_id)
}

/// Does any frame-buffer configuration entry carry `key`?
pub open spec fn has_fb_config(cfgs: Seq<FrameBufferInfo>, key: usize) -> bool {
    exists|j: int| 0 <= j < cfgs.len() && (#[trigger] cfgs[j]).key == key
}

/// Is `j` the index of the last configuration entry carrying `key`?
pub open spec fn is_last_fb_config(cfgs: Seq<FrameBufferInfo>, key: usize, j: int) -> bool {
    &&& 0 <= j < cfgs.len()
    &&& cfgs[j].key == key
    &&& forall|k: int| j < k < cfgs.len() ==> (#[trigger] cfgs[k]).key != key
}

/// How many distinct keys a frame-buffer configuration list carries.
pub open spec fn distinct_fb_count(cfgs: Seq<FrameBufferInfo>) -> int
    decreases cfgs.len(),
{
    if cfgs.len() == 0 {
        0
    } else if has_fb_config(cfgs.drop_last(), cfgs.last().key) {
        distinct_fb_count(cfgs.drop_last())
    } else {
        1 + distinct_fb_count(cfgs.drop_last())
    }
}

/// Does any frame-buffer state in the table carry `key`?
pub open spec fn has_fb_state(fbs: Seq<FrameBufferState>, key: usize) -> bool {
    exists|v: int| 0 <= v < fbs.len() && (#[trigger] fbs[v]).info.key == key
}

/// Does slot `v` of the frame-buffer table hold the last configuration
/// entry declared with its key, in its initial state?
pub open spec fn fb_slot_ok(fbs: Seq<FrameBufferState>, cfgs: Seq<FrameBufferInfo>, v: int) -> bool {
    exists|j: int| is_last_fb_config(cfgs, fbs[v].info.key, j) && fb_init(fbs[v], cfgs[j])
}

/// Is `fbs` exactly the frame-buffer table a configuration list
/// configures: buffers keyed by key — one entry a distinct key — each
/// holding the *last* entry declared with its key, in its initial state,
/// and one entry for every declared key?
pub open spec fn fbs_of_configs(fbs: Seq<FrameBufferState>, cfgs: Seq<FrameBufferInfo>) -> bool {
    &&& fbs.len() == distinct_fb_count(cfgs)
    &&& forall|a: int, b: int|
        0 <= a < b < fbs.len() ==> (#[trigger] fbs[a]).info.key != (#[trigger] fbs[b]).info.key
    &&& forall|v: int| 0 <= v < fbs.len() ==> #[trigger] fb_slot_ok(fbs, cfgs, v)
    &&& forall|j: int|
        0 <= j < cfgs.len() ==> has_fb_state(fbs, (#[trigger] cfgs[j]).key)
}

/// The slot of the pin table under construction that already carries
/// `id`, if one does: the table's ids are expected unique, so the first
/// match is the only one.
fn find_pin_slot(pins: &Vec<PinState>, id: u16) -> (r: Option<usize>)
    ensures
        r matches Some(v) ==> v < pins@.len() && pins@[v as int].info.pin_id == id,
        r is None ==> forall|v: int|
            0 <= v < pins@.len() ==> (#[trigger] pins@[v]).info.pin_id != id,
{
    let mut v: usize = 0;
    while v < pins.len()
        invariant
            v <= pins@.len(),
            forall|k: int| 0 <= k < v ==> (#[trigger] pins@[k]).info.pin_id != id,
        decreases pins@.len() - v,
    {
        if pins[v].info.pin_id == id {
            return Some(v);
        }
        v = v + 1;
    }
    None
}

/// The slot of the frame-buffer table under construction that already
/// carries `key`, if one does.
fn find_fb_slot(fbs: &Vec<FrameBufferState>, key: usize) -> (r: Option<usize>)
    ensures
        r matches Some(v) ==> v < fbs@.len() && fbs@[v as int].info.key == key,
        r is None ==> forall|v: int|
            0 <= v < fbs@.len() ==> (#[trigger] fbs@[v]).info.key != key,
{
    let mut v: usize = 0;
    while v < fbs.len()
        invariant
            v <= fbs@.len(),
            forall|k: int| 0 <= k < v ==> (#[trigger] fbs@[k]).info.key != key,
        decreases fbs@.len() - v,
    {
        if fbs[v].info.key == key {
            return Some(v);
        }
        v = v + 1;
    }
    None
}

/// Build the pin table a driver list configures: one pin a distinct pin
/// id, a later declaration of an id replacing an earlier one, as a map
/// keyed by pin id filled by insertion would hold it.
fn build_pin_table(drivers: &Vec<GpioDriver>) -> (r: Vec<PinState>)
    ensures
        pins_of_drivers(r@, drivers@),
{
    let mut pins: Vec<PinState> = Vec::new();
    let ghost mut src: Seq<int> = Seq::empty();
    let mut i: usize = 0;
    while i < drivers.len()
        invariant
            i <= drivers@.len(),
            pins@.len() == src.len(),
            pins@.len() == distinct_driver_count(drivers@.take(i as int)),
            forall|a: int, b: int|
                0 <= a < b < pins@.len() ==> (#[trigger] pins@[a]).info.pin_id != (
                #[trigger] pins@[b]).info.pin_id,
            forall|v: int|
                0 <= v < pins@.len() ==> is_last_driver(
                    drivers@.take(i as int),
                    (#[trigger] pins@[v]).info.pin_id,
                    src[v],
                ) && pins@[v] == pin_init(drivers@[src[v]]),
            forall|j: int|
                0 <= j < i ==> has_pin_state(pins@, (#[trigger] drivers@[j]).pin_id),
        decreases drivers@.len() - i,
    {
        let ghost dpre = drivers@.take(i as int);
        let ghost dpost = drivers@.take(i + 1);
        let d = drivers[i];
        proof {
            assert(dpost =~= dpre.push(drivers@[i as int]));
            assert(dpost.drop_last() =~= dpre);
        }
        let slot = find_pin_slot(&pins, d.pin_id);
        let ghost pins0 = pins@;
        let ghost src0 = src;
        match slot {
            Some(v) => {
                pins[v] = PinState { info: d, digital: false, analog: 0 };
                proof {
                    src = src0.update(v as int, i as int);
                    assert(dpre[src0[v as int]].pin_id == d.pin_id);
                    assert(has_driver(dpre, d.pin_id));
                    assert(distinct_driver_count(dpost) == distinct_driver_count(dpre));
                    assert forall|a: int, b: int| 0 <= a < b < pins@.len() implies (
                    #[trigger] pins@[a]).info.pin_id != (#[trigger] pins@[b]).info.pin_id by {
                        assert(pins@[a].info.pin_id == pins0[a].info.pin_id);
                        assert(pins@[b].info.pin_id == pins0[b].info.pin_id);
                    }
                    assert forall|w: int| 0 <= w < pins@.len() implies is_last_driver(
                        dpost,
                        (#[trigger] pins@[w]).info.pin_id,
                        src[w],
                    ) && pins@[w] == pin_init(drivers@[src[w]]) by {
                        if w == v as int {
                            assert(pins@[w] == pin_init(drivers@[i as int]));
                            assert(is_last_driver(dpost, d.pin_id, i as int));
                        } else {
                            assert(pins@[w] == pins0[w]);
                            assert(pins0[w].info.pin_id != pins0[v as int].info.pin_id);
                            assert(is_last_driver(dpre, pins0[w].info.pin_id, src0[w]));
                            assert(is_last_driver(dpost, pins@[w].info.pin_id, src[w]));
                        }
                    }
                    assert forall|j: int| 0 <= j < i + 1 implies has_pin_state(
                        pins@,
                        (#[trigger] drivers@[j]).pin_id,
                    ) by {
                        if j < i {
                            let w = choose|w: int|
                                0 <= w < pins0.len() && (#[trigger] pins0[w]).info.pin_id
                                    == drivers@[j].pin_id;
                            assert(pins@[w].info.pin_id == drivers@[j].pin_id);
                        } else {
                            assert(pins@[v as int].info.pin_id == d.pin_id);
                        }
                    }
                }
            },
            None => {
                pins.push(PinState { info: d, digital: false, analog: 0 });
                proof {
                    src = src0.push(i as int);
                    assert(!has_driver(dpre, d.pin_id)) by {
                        if has_driver(dpre, d.pin_id) {
                            let j = choose|j: int|
                                0 <= j < dpre.len() && (#[trigger] dpre[j]).pin_id == d.pin_id;
                            assert(has_pin_state(pins0, drivers@[j].pin_id));
                            let w = choose|w: int|
                                0 <= w < pins0.len() && (#[trigger] pins0[w]).info.pin_id
                                    == drivers@[j].pin_id;
                            assert(false);
                        }
                    }
                    assert(distinct_driver_count(dpost) == 1 + distinct_driver_count(dpre));
                    assert forall|a: int, b: int| 0 <= a < b < pins@.len() implies (
                    #[trigger] pins@[a]).info.pin_id != (#[trigger] pins@[b]).info.pin_id by {
                        if b == pins0.len() as int {
                            assert(pins0[a].info.pin_id != d.pin_id);
                        } else {
                            assert(pins@[a] == pins0[a] && pins@[b] == pins0[b]);
                        }
                    }
                    assert forall|w: int| 0 <= w < pins@.len() implies is_last_driver(
                        dpost,
                        (#[trigger] pins@[w]).info.pin_id,
                        src[w],
                    ) && pins@[w] == pin_init(drivers@[src[w]]) by {
                        if w == pins0.len() as int {
                            assert(pins@[w] == pin_init(drivers@[i as int]));
                            assert(is_last_driver(dpost, d.pin_id, i as int));
                        } else {
                            assert(pins@[w] == pins0[w]);
                            assert(pins0[w].info.pin_id != d.pin_id);
                            assert(is_last_driver(dpre, pins0[w].info.pin_id, src0[w]));
                            assert(is_last_driver(dpost, pins@[w].info.pin_id, src[w]));
                        }
                    }
                    assert forall|j: int| 0 <= j < i + 1 implies has_pin_state(
                        pins@,
                        (#[trigger] drivers@[j]).pin_id,
                    ) by {
                        if j < i {
                            let w = choose|w: int|
                                0 <= w < pins0.len() && (#[trigger] pins0[w]).info.pin_id
                                    == drivers@[j].pin_id;
                            assert(pins@[w].info.pin_id == drivers@[j].pin_id);
                        } else {
                            assert(pins@[pins0.len() as int].info.pin_id == d.pin_id);
                        }
                    }
                }
            },
        }
        i = i + 1;
    }
    proof {
        assert(drivers@.take(drivers@.len() as int) =~= drivers@);
        assert forall|v: int| 0 <= v < pins@.len() implies #[trigger] pin_slot_ok(
            pins@,
            drivers@,
            v,
        ) by {
            assert(is_last_driver(drivers@, pins@[v].info.pin_id, src[v]) && pins@[v] == pin_init(
                drivers@[src[v]],
            ));
        }
    }
    pins
}

/// Build the frame-buffer table a configuration list configures: one
/// buffer a distinct key, a later declaration of a key replacing an
/// earlier one, as a map keyed by key filled by insertion would hold it.
fn build_fb_table(cfgs: &Vec<FrameBufferInfo>) -> (r: Vec<FrameBufferState>)
    ensures
        fbs_of_configs(r@, cfgs@),
        forall|v: int| 0 <= v < r@.len() ==> (#[trigger] r@[v]).wf(),
{
    let mut fbs: Vec<FrameBufferState> = Vec::new();
    let ghost mut src: Seq<int> = Seq::empty();
    let mut i: usize = 0;
    while i < cfgs.len()
        invariant
            i <= cfgs@.len(),
            fbs@.len() == src.len(),
            fbs@.len() == distinct_fb_count(cfgs@.take(i as int)),
            forall|a: int, b: int|
                0 <= a < b < fbs@.len() ==> (#[trigger] fbs@[a]).info.key != (
                #[trigger] fbs@[b]).info.key,
            forall|v: int|
                0 <= v < fbs@.len() ==> is_last_fb_config(
                    cfgs@.take(i as int),
                    (#[trigger] fbs@[v]).info.key,
                    src[v],
                ) && fb_init(fbs@[v], cfgs@[src[v]]),
            forall|j: int| 0 <= j < i ==> has_fb_state(fbs@, (#[trigger] cfgs@[j]).key),
            forall|v: int| 0 <= v < fbs@.len() ==> (#[trigger] fbs@[v]).wf(),
        decreases cfgs@.len() - i,
    {
        let ghost cpre = cfgs@.take(i as int);
        let ghost cpost = cfgs@.take(i + 1);
        let c = cfgs[i];
        proof {
            assert(cpost =~= cpre.push(cfgs@[i as int]));
            assert(cpost.drop_last() =~= cpre);
        }
        let fresh = FrameBufferState {
            info: c,
            width: 0,
            height: 0,
            freq: 0,
            horizontal_flip: false,
            vertical_flip: false,
            pixels: Vec::new(),
        };
        let ghost freshg = fresh;
        proof {
            assert(freshg.width * freshg.height * 3 == 0) by (nonlinear_arith)
                requires
                    freshg.width == 0,
            ;
            assert(freshg.wf());
            assert(fb_init(freshg, cfgs@[i as int]));
        }
        let slot = find_fb_slot(&fbs, c.key);
        let ghost fbs0 = fbs@;
        let ghost src0 = src;
        match slot {
            Some(v) => {
                fbs[v] = fresh;
                proof {
                    src = src0.update(v as int, i as int);
                    assert(cpre[src0[v as int]].key == c.key);
                    assert(has_fb_config(cpre, c.key));
                    assert(distinct_fb_count(cpost) == distinct_fb_count(cpre));
                    assert forall|a: int, b: int| 0 <= a < b < fbs@.len() implies (
                    #[trigger] fbs@[a]).info.key != (#[trigger] fbs@[b]).info.key by {
                        assert(fbs@[a].info.key == fbs0[a].info.key);
                        assert(fbs@[b].info.key == fbs0[b].info.key);
                    }
                    assert forall|w: int| 0 <= w < fbs@.len() implies is_last_fb_config(
                        cpost,
                        (#[trigger] fbs@[w]).info.key,
                        src[w],
                    ) && fb_init(fbs@[w], cfgs@[src[w]]) by {
                        if w == v as int {
                            assert(fbs@[w] == freshg);
                            assert(is_last_fb_config(cpost, c.key, i as int));
                        } else {
                            assert(fbs@[w] == fbs0[w]);
                            assert(fbs0[w].info.key != fbs0[v as int].info.key);
                            assert(is_last_fb_config(cpre, fbs0[w].info.key, src0[w]));
                            assert(is_last_fb_config(cpost, fbs@[w].info.key, src[w]));
                        }
                    }
                    assert forall|j: int| 0 <= j < i + 1 implies has_fb_state(
                        fbs@,
                        (#[trigger] cfgs@[j]).key,
                    ) by {
                        if j < i {
                            let w = choose|w: int|
                                0 <= w < fbs0.len() && (#[trigger] fbs0[w]).info.key
                                    == cfgs@[j].key;
                            assert(fbs@[w].info.key == cfgs@[j].key);
                        } else {
                            assert(fbs@[v as int].info.key == c.key);
                        }
                    }
                    assert forall|w: int| 0 <= w < fbs@.len() implies (#[trigger] fbs@[w]).wf() by {
                        if w == v as int {
                            assert(fbs@[w] == freshg);
                        } else {
                            assert(fbs@[w] == fbs0[w]);
                        }
                    }
                }
            },
            None => {
                fbs.push(fresh);
                proof {
                    src = src0.push(i as int);
                    assert(!has_fb_config(cpre, c.key)) by {
                        if has_fb_config(cpre, c.key) {
                            let j = choose|j: int|
                                0 <= j < cpre.len() && (#[trigger] cpre[j]).key == c.key;
                            assert(has_fb_state(fbs0, cfgs@[j].key));
                            let w = choose|w: int|
                                0 <= w < fbs0.len() && (#[trigger] fbs0[w]).info.key
                                    == cfgs@[j].key;
                            assert(false);
                        }
                    }
                    assert(distinct_fb_count(cpost) == 1 + distinct_fb_count(cpre));
                    assert forall|a: int, b: int| 0 <= a < b < fbs@.len() implies (
                    #[trigger] fbs@[a]).info.key != (#[trigger] fbs@[b]).info.key by {
                        if b == fbs0.len() as int {
                            assert(fbs0[a].info.key != c.key);
                        } else {
                            assert(fbs@[a] == fbs0[a] && fbs@[b] == fbs0[b]);
                        }
                    }
                    assert forall|w: int| 0 <= w < fbs@.len() implies is_last_fb_config(
                        cpost,
                        (#[trigger] fbs@[w]).info.key,
                        src[w],
                    ) && fb_init(fbs@[w], cfgs@[src[w]]) by {
                        if w == fbs0.len() as int {
                            assert(fbs@[w] == freshg);
                            assert(is_last_fb_config(cpost, c.key, i as int));
                        } else {
                            assert(fbs@[w] == fbs0[w]);
                            assert(fbs0[w].info.key != c.key);
                            assert(is_last_fb_config(cpre, fbs0[w].info.key, src0[w]));
                            assert(is_last_fb_config(cpost, fbs@[w].info.key, src[w]));
                        }
                    }
                    assert forall|j: int| 0 <= j < i + 1 implies has_fb_state(
                        fbs@,
                        (#[trigger] cfgs@[j]).key,
                    ) by {
                        if j < i {
                            let w = choose|w: int|
                                0 <= w < fbs0.len() && (#[trigger] fbs0[w]).info.key
                                    == cfgs@[j].key;
                            assert(fbs@[w].info.key == cfgs@[j].key);
                        } else {
                            assert(fbs@[fbs0.len() as int].info.key == c.key);
                        }
                    }
                    assert forall|w: int| 0 <= w < fbs@.len() implies (#[trigger] fbs@[w]).wf() by {
                        if w == fbs0.len() as int {
                            assert(fbs@[w] == freshg);
                        } else {
                            assert(fbs@[w] == fbs0[w]);
                        }
                    }
                }
            },
        }
        i = i + 1;
    }
    proof {
        assert(cfgs@.take(cfgs@.len() as int) =~= cfgs@);
        assert forall|v: int| 0 <= v < fbs@.len() implies #[trigger] fb_slot_ok(
            fbs@,
            cfgs@,
            v,
        ) by {
            assert(is_last_fb_config(cfgs@, fbs@[v].info.key, src[v]) && fb_init(
                fbs@[v],
                cfgs@[src[v]],
            ));
        }
    }
    fbs
}

impl UartState {
    /// Both queues stay within their configured bounds.
    pub open spec fn wf(self) -> bool {
        &&& self.rx@.len() <= self.info.rx_buffer_length
        &&& self.tx@.len() <= self.info.tx_buffer_length
    }

    /// Free space in the host-to-firmware queue.
    pub open spec fn rx_free(self) -> int {
        self.info.rx_buffer_length - self.rx@.len()
    }

    /// Free space in the firmware-to-host queue.
    pub open spec fn tx_free(self) -> int {
        self.info.tx_buffer_length - self.tx@.len()
    }
}

impl FrameBufferState {
    /// The frame sizes implied by the announced display parameters fit in
    /// a `usize`, so expected buffer sizes can be computed exactly.
    pub open spec fn wf(self) -> bool {
        self.width * self.height * 3 <= usize::MAX
    }
}

impl Session {
    /// Well-formedness: every peripheral within bounds, the log cursor
    /// inside the log, an exit code only once stopped, and a firmware
    /// only executing while a compiled sketch is attached.
    pub open spec fn wf(self) -> bool {
        &&& forall|i: int|
            0 <= i < self.uarts@.len() ==> (#[trigger] self.uarts@[i]).wf()
        &&& forall|i: int|
            0 <= i < self.frame_buffers@.len() ==> (#[trigger] self.frame_buffers@[i]).wf()
        &&& self.log_cursor <= self.log@.len()
        &&& (self.exit is Some ==> self.status == SessionStatus::Stopped)
        &&& ((self.status == SessionStatus::Running || self.status
            == SessionStatus::Suspended) ==> self.attached)
    }

    /// A fresh session: clean, with no devices resolved.
    pub fn new() -> (s: Session)
        ensures
            s.wf(),
            s.status == SessionStatus::Clean,
            !s.attached,
            s.pins@.len() == 0,
            s.uarts@.len() == 0,
            s.frame_buffers@.len() == 0,
            s.exit is None,
            s.log@.len() == 0,
            s.log_cursor == 0,
    {
        Session {
            status: SessionStatus::Clean,
            attached: false,
            pins: Vec::new(),
            uarts: Vec::new(),
            frame_buffers: Vec::new(),
            exit: None,
            log: Vec::new(),
            log_cursor: 0,
        }
    }

    /// Apply a board configuration. Succeeds only on a clean session;
    /// on success every configured device is materialized in its initial
    /// state and the session becomes `Configured`. Pins and frame
    /// buffers are keyed by pin id and key: one device per distinct id,
    /// a later declaration replacing an earlier one; UART channels are a
    /// dense sequence in declaration order.
    pub fn configure(&mut self, config: &BoardConfig) -> (r: bool)
        requires
            old(self).wf(),
        ensures
            final(self).wf(),
            r == (old(self).status == SessionStatus::Clean),
            !r ==> *final(self) == *old(self),
            r ==> final(self).status == SessionStatus::Configured,
            r ==> !final(self).attached,
            r ==> final(self).exit is None,
            r ==> pins_of_drivers(final(self).pins@, config.gpio_drivers@),
            r ==> final(self).uarts@.len() == config.uart_channels@.len(),
            r ==> forall|i: int|
                0 <= i < config.uart_channels@.len() ==> uart_init(
                    #[trigger] final(self).uarts@[i],
                    config.uart_channels@[i],
                ),
            r ==> fbs_of_configs(final(self).frame_buffers@, config.frame_buffers@),
            r ==> final(self).log@ == old(self).log@,
            r ==> final(self).log_cursor == old(self).log_cursor,
    {
        if !matches!(self.status, SessionStatus::Clean) {
            return false;
        }
        let pins = build_pin_table(&config.gpio_drivers);
        let frame_buffers = build_fb_table(&config.frame_buffers);
        let mut uarts: Vec<UartState> = Vec::new();
        let mut i: usize = 0;
        while i < config.uart_channels.len()
            invariant
                i <= config.uart_channels@.len(),
                uarts@.len() == i,
                forall|j: int|
                    0 <= j < i ==> uart_init(#[trigger] uarts@[j], config.uart_channels@[j]),
                forall|j: int| 0 <= j < i ==> (#[trigger] uarts@[j]).wf(),
            decreases config.uart_channels@.len() - i,
        {
            let c = UartChannelInfo {
                baud_rate: config.uart_channels[i].baud_rate,
                rx_buffer_length: config.uart_channels[i].rx_buffer_length,
                tx_buffer_length: config.uart_channels[i].tx_buffer_length,
                flushing_threshold: config.uart_channels[i].flushing_threshold,
            };
            uarts.push(UartState { info: c, rx: Vec::new(), tx: Vec::new() });
            i = i + 1;
        }
        self.status = SessionStatus::Configured;
        self.attached = false;
        self.pins = pins;
        self.uarts = uarts;
        self.frame_buffers = frame_buffers;
        self.exit = None;
        true
    }

    /// Attach a compiled sketch. Succeeds only on a configured session
    /// holding a compiled sketch; the sketch itself is only borrowed.
    pub fn attach(&mut self, sketch: &Sketch) -> (r: bool)
        requires
            old(self).wf(),
        ensures
            final(self).wf(),
            r == (old(self).status == SessionStatus::Configured && sketch.spec_compiled()),
            !r ==> *final(self) == *old(self),
            r ==> *final(self) == (Session { attached: true, ..*old(self) }),
    {
        if matches!(self.status, SessionStatus::Configured) && sketch.compiled() {
            self.attached = true;
            true
        } else {
            false
        }
    }

    /// Begin firmware execution. Succeeds only when configured with a
    /// sketch attached; the session becomes `Running`.
    pub fn start(&mut self) -> (r: bool)
        requires
            old(self).wf(),
        ensures
            final(self).wf(),
            r == (old(self).status == SessionStatus::Configured && old(self).attached),
            !r ==> *final(self) == *old(self),
            r ==> *final(self) == (Session { status: SessionStatus::Running, ..*old(self) }),
    {
        if matches!(self.status, SessionStatus::Configured) && self.attached {
            self.status = SessionStatus::Running;
            true
        } else {
            false
        }
    }

    /// Poll whether the firmware has exited. Never changes the session,
    /// so repeated polls keep reporting the same exit indication.
    pub fn tick(&self) -> (r: ExitInfo)
        ensures
            r.exited == (self.exit is Some),
            self.exit is Some ==> r.exit_code == self.exit->0,
    {
        match self.exit {
            Some(code) => ExitInfo { exited: true, exit_code: code },
            None => ExitInfo { exited: false, exit_code: 0 },
        }
    }

    /// The backend's current run state.
    pub fn status(&self) -> (r: SessionStatus)
        ensures
            r == self.status,
    {
        self.status
    }

    /// Pause firmware execution: valid only while `Running`.
    pub fn suspend(&mut self) -> (r: bool)
        requires
            old(self).wf(),
        ensures
            final(self).wf(),
            r == (old(self).status == SessionStatus::Running),
            !r ==> *final(self) == *old(self),
            r ==> *final(self) == (Session { status: SessionStatus::Suspended, ..*old(self) }),
    {
        if matches!(self.status, SessionStatus::Running) {
            self.status = SessionStatus::Suspended;
            true
        } else {
            false
        }
    }

    /// Continue firmware execution: valid only while `Suspended`.
    pub fn resume(&mut self) -> (r: bool)
        requires
            old(self).wf(),
        ensures
            final(self).wf(),
            r == (old(self).status == SessionStatus::Suspended),
            !r ==> *final(self) == *old(self),
            r ==> *final(self) == (Session { status: SessionStatus::Running, ..*old(self) }),
    {
        if matches!(self.status, SessionStatus::Suspended) {
            self.status = SessionStatus::Running;
            true
        } else {
            false
        }
    }

    /// Force-stop a running or suspended session. Restarting afterwards
    /// takes an explicit `reset` followed by a fresh configure and attach.
    pub fn terminate(&mut self) -> (r: bool)
        requires
            old(self).wf(),
        ensures
            final(self).wf(),
            r == (old(self).status == SessionStatus::Running || old(self).status
                == SessionStatus::Suspended),
            !r ==> *final(self) == *old(self),
            r ==> *final(self) == (Session { status: SessionStatus::Stopped, ..*old(self) }),
    {
        if matches!(self.status, SessionStatus::Running | SessionStatus::Suspended) {
            self.status = SessionStatus::Stopped;
            true
        } else {
            false
        }
    }

    /// Return a stopped session to the clean state, dropping every device
    /// and the recorded exit, so it can be configured again.
    pub fn reset(&mut self) -> (r: bool)
        requires
            old(self).wf(),
        ensures
            final(self).wf(),
            r == (old(self).status == SessionStatus::Stopped),
            !r ==> *final(self) == *old(self),
            r ==> final(self).status == SessionStatus::Clean,
            r ==> !final(self).attached,
            r ==> final(self).pins@.len() == 0,
            r ==> final(self).uarts@.len() == 0,
            r ==> final(self).frame_buffers@.len() == 0,
            r ==> final(self).exit is None,
            r ==> final(self).log@.len() == 0,
            r ==> final(self).log_cursor == 0,
    {
        if matches!(self.status, SessionStatus::Stopped) {
            self.status = SessionStatus::Clean;
            self.attached = false;
            self.pins = Vec::new();
            self.uarts = Vec::new();
            self.frame_buffers = Vec::new();
            self.exit = None;
            self.log = Vec::new();
            self.log_cursor = 0;
            true
        } else {
            false
        }
    }

    /// Drain up to `max` bytes of runtime log that have not been read yet.
    /// Non-blocking: an empty result only means nothing new is buffered.
    pub fn runtime_log_read(&mut self, max: usize) -> (r: Vec<u8>)
        requires
            old(self).wf(),
        ensures
            final(self).wf(),
            r@.len() == vstd::math::min(max as int, old(self).log@.len() - old(self).log_cursor),
            r@ == old(self).log@.subrange(
                old(self).log_cursor as int,
                old(self).log_cursor + r@.len(),
            ),
            final(self).log_cursor == old(self).log_cursor + r@.len(),
            *final(self) == (Session { log_cursor: final(self).log_cursor, ..*old(self) }),
    {
        let avail = self.log.len() - self.log_cursor;
        let take = if max < avail {
            max
        } else {
            avail
        };
        let mut out: Vec<u8> = Vec::new();
        let mut i: usize = 0;
        while i < take
            invariant
                i <= take,
                self.log_cursor + take <= self.log@.len() <= usize::MAX,
                out@.len() == i,
                out@ == self.log@.subrange(self.log_cursor as int, self.log_cursor + i),
            decreases take - i,
        {
            out.push(self.log[self.log_cursor + i]);
            i = i + 1;
        }
        self.log_cursor = self.log_cursor + take;
        out
    }

    /// Current digital level of the pin resolved at `index`.
    pub fn pin_digital_read(&self, index: usize) -> (r: bool)
        requires
            index < self.pins@.len(),
        ensures
            r == self.pins@[index as int].digital,
    {
        self.pins[index].digital
    }

    /// Set the digital level of the pin resolved at `index`.
    pub fn pin_digital_write(&mut self, index: usize, val: bool)
        requires
            old(self).wf(),
            index < old(self).pins@.len(),
        ensures
            final(self).wf(),
            final(self).pins@ == old(self).pins@.update(
                index as int,
                (PinState { digital: val, ..old(self).pins@[index as int] }),
            ),
            *final(self) == (Session { pins: final(self).pins, ..*old(self) }),
    {
        self.pins[index].digital = val;
    }

    /// Current analog level of the pin resolved at `index`.
    pub fn pin_analog_read(&self, index: usize) -> (r: u16)
        requires
            index < self.pins@.len(),
        ensures
            r == self.pins@[index as int].analog,
    {
        self.pins[index].analog
    }

    /// Set the analog level of the pin resolved at `index`.
    pub fn pin_analog_write(&mut self, index: usize, val: u16)
        requires
            old(self).wf(),
            index < old(self).pins@.len(),
        ensures
            final(self).wf(),
            final(self).pins@ == old(self).pins@.update(
                index as int,
                (PinState { analog: val, ..old(self).pins@[index as int] }),
            ),
            *final(self) == (Session { pins: final(self).pins, ..*old(self) }),
    {
        self.pins[index].analog = val;
    }

    /// Number of bytes the host could read from the channel right now.
    pub fn uart_readable(&self, index: usize) -> (r: usize)
        requires
            index < self.uarts@.len(),
        ensures
            r == self.uarts@[index as int].tx@.len(),
    {
        self.uarts[index].tx.len()
    }

    /// Number of bytes the channel's send buffer could accept right now.
    pub fn uart_write_free(&self, index: usize) -> (r: usize)
        requires
            self.wf(),
            index < self.uarts@.len(),
        ensures
            r == self.uarts@[index as int].rx_free(),
    {
        self.uarts[index].info.rx_buffer_length - self.uarts[index].rx.len()
    }

    /// Host-side write into the channel's send buffer: as many of the
    /// given bytes as fit are appended, in order, and their number is
    /// returned.
    pub fn uart_host_write(&mut self, index: usize, data: &[u8]) -> (n: usize)
        requires
            old(self).wf(),
            index < old(self).uarts@.len(),
        ensures
            final(self).wf(),
            n == vstd::math::min(data@.len() as int, old(self).uarts@[index as int].rx_free()),
            final(self).uarts@.len() == old(self).uarts@.len(),
            forall|k: int|
                0 <= k < old(self).uarts@.len() && k != index ==> final(self).uarts@[k] == old(self).uarts@[k],
            final(self).uarts@[index as int].info == old(self).uarts@[index as int].info,
            final(self).uarts@[index as int].tx == old(self).uarts@[index as int].tx,
            final(self).uarts@[index as int].rx@ == old(self).uarts@[index as int].rx@
                + data@.take(n as int),
            *final(self) == (Session { uarts: final(self).uarts, ..*old(self) }),
    {
        let cap = self.uarts[index].info.rx_buffer_length;
        let cur = self.uarts[index].rx.len();
        let free = cap - cur;
        let n = if data.len() < free {
            data.len()
        } else {
            free
        };
        let mut j: usize = 0;
        while j < n
            invariant
                j <= n,
                index < self.uarts@.len() == old(self).uarts@.len(),
                n <= data@.len(),
                n <= self.uarts@[index as int].rx_free() + j,
                forall|k: int|
                    0 <= k < old(self).uarts@.len() && k != index ==> self.uarts@[k] == old(self).uarts@[k],
                self.uarts@[index as int].info == old(self).uarts@[index as int].info,
                self.uarts@[index as int].tx == old(self).uarts@[index as int].tx,
                self.uarts@[index as int].rx@ == old(self).uarts@[index as int].rx@ + data@.take(
                    j as int,
                ),
                *self == (Session { uarts: self.uarts, ..*old(self) }),
                forall|k: int|
                    0 <= k < self.uarts@.len() ==> (#[trigger] self.uarts@[k]).wf(),
            decreases n - j,
        {
            let b = data[j];
            self.uarts[index].rx.push(b);
            proof {
                assert(data@.take(j + 1) =~= data@.take(j as int).push(data@[j as int]));
            }
            j = j + 1;
        }
        proof {
            assert(data@.take(n as int) =~= data@.take(n as int));
        }
        n
    }

    /// Host-side read: drain up to `max` bytes that the firmware has
    /// transmitted. Non-blocking; an empty result means nothing buffered.
    pub fn uart_host_read(&mut self, index: usize, max: usize) -> (r: Vec<u8>)
        requires
            old(self).wf(),
            index < old(self).uarts@.len(),
        ensures
            final(self).wf(),
            r@.len() == vstd::math::min(max as int, old(self).uarts@[index as int].tx@.len() as int),
            r@ == old(self).uarts@[index as int].tx@.take(r@.len() as int),
            final(self).uarts@.len() == old(self).uarts@.len(),
            forall|k: int|
                0 <= k < old(self).uarts@.len() && k != index ==> final(self).uarts@[k] == old(self).uarts@[k],
            final(self).uarts@[index as int].info == old(self).uarts@[index as int].info,
            final(self).uarts@[index as int].rx == old(self).uarts@[index as int].rx,
            final(self).uarts@[index as int].tx@ == old(self).uarts@[index as int].tx@.skip(
                r@.len() as int,
            ),
            *final(self) == (Session { uarts: final(self).uarts, ..*old(self) }),
    {
        let avail = self.uarts[index].tx.len();
        let take = if max < avail {
            max
        } else {
            avail
        };
        let mut out: Vec<u8> = Vec::new();
        let mut j: usize = 0;
        while j < take
            invariant
                j <= take,
                index < self.uarts@.len() == old(self).uarts@.len(),
                take <= old(self).uarts@[index as int].tx@.len(),
                out@.len() == j,
                out@ == old(self).uarts@[index as int].tx@.take(j as int),
                forall|k: int|
                    0 <= k < old(self).uarts@.len() && k != index ==> self.uarts@[k] == old(self).uarts@[k],
                self.uarts@[index as int].info == old(self).uarts@[index as int].info,
                self.uarts@[index as int].rx == old(self).uarts@[index as int].rx,
                self.uarts@[index as int].tx@ == old(self).uarts@[index as int].tx@.skip(j as int),
                *self == (Session { uarts: self.uarts, ..*old(self) }),
                forall|k: int|
                    0 <= k < self.uarts@.len() ==> (#[trigger] self.uarts@[k]).wf(),
            decreases take - j,
        {
            let b = self.uarts[index].tx.remove(0);
            out.push(b);
            proof {
                let old_tx = old(self).uarts@[index as int].tx@;
                assert(old_tx.skip(j as int).remove(0) =~= old_tx.skip(j + 1));
                assert(out@ =~= old_tx.take(j + 1));
            }
            j = j + 1;
        }
        out
    }

    /// Announced width of the frame buffer resolved at `index`.
    pub fn fb_width(&self, index: usize) -> (r: u16)
        requires
            index < self.frame_buffers@.len(),
        ensures
            r == self.frame_buffers@[index as int].width,
    {
        self.frame_buffers[index].width
    }

    /// Announced height of the frame buffer resolved at `index`.
    pub fn fb_height(&self, index: usize) -> (r: u16)
        requires
            index < self.frame_buffers@.len(),
        ensures
            r == self.frame_buffers@[index as int].height,
    {
        self.frame_buffers[index].height
    }

    /// Announced refresh frequency of the frame buffer at `index`.
    pub fn fb_freq(&self, index: usize) -> (r: u8)
        requires
            index < self.frame_buffers@.len(),
        ensures
            r == self.frame_buffers@[index as int].freq,
    {
        self.frame_buffers[index].freq
    }

    /// Whether frames written at `index` need a horizontal flip.
    pub fn fb_horizontal_flip(&self, index: usize) -> (r: bool)
        requires
            index < self.frame_buffers@.len(),
        ensures
            r == self.frame_buffers@[index as int].horizontal_flip,
    {
        self.frame_buffers[index].horizontal_flip
    }

    /// Whether frames written at `index` need a vertical flip.
    pub fn fb_vertical_flip(&self, index: usize) -> (r: bool)
        requires
            index < self.frame_buffers@.len(),
        ensures
            r == self.frame_buffers@[index as int].vertical_flip,
    {
        self.frame_buffers[index].vertical_flip
    }

    /// The last frame written to the frame buffer at `index`.
    pub fn fb_pixels(&self, index: usize) -> (r: &Vec<u8>)
        requires
            index < self.frame_buffers@.len(),
        ensures
            r@ == self.frame_buffers@[index as int].pixels@,
    {
        &self.frame_buffers[index].pixels
    }

    /// Write one frame in a format that takes `bytes_per_pixel` bytes a
    /// pixel. Succeeds exactly when the buffer length matches the
    /// announced dimensions; a mismatched frame changes nothing.
    pub fn fb_write(&mut self, index: usize, buf: &[u8], bytes_per_pixel: usize) -> (r: bool)
        requires
            old(self).wf(),
            index < old(self).frame_buffers@.len(),
            1 <= bytes_per_pixel <= 3,
        ensures
            final(self).wf(),
            r == (buf@.len() == old(self).frame_buffers@[index as int].width * old(self).frame_buffers@[index as int].height * bytes_per_pixel),
            !r ==> *final(self) == *old(self),
            r ==> final(self).frame_buffers@.len() == old(self).frame_buffers@.len(),
            r ==> forall|k: int|
                0 <= k < old(self).frame_buffers@.len() && k != index ==> final(self).frame_buffers@[k] == old(self).frame_buffers@[k],
            r ==> final(self).frame_buffers@[index as int].info == old(self).frame_buffers@[
                index as int
            ].info,
            r ==> final(self).frame_buffers@[index as int].width == old(self).frame_buffers@[
                index as int
            ].width,
            r ==> final(self).frame_buffers@[index as int].height == old(self).frame_buffers@[
                index as int
            ].height,
            r ==> final(self).frame_buffers@[index as int].freq == old(self).frame_buffers@[
                index as int
            ].freq,
            r ==> final(self).frame_buffers@[index as int].horizontal_flip == old(self).frame_buffers@[index as int].horizontal_flip,
            r ==> final(self).frame_buffers@[index as int].vertical_flip == old(self).frame_buffers@[index as int].vertical_flip,
            r ==> final(self).frame_buffers@[index as int].pixels@ == buf@,
            r ==> *final(self) == (Session { frame_buffers: final(self).frame_buffers, ..*old(self) }),
    {
        let w = self.frame_buffers[index].width as usize;
        let h = self.frame_buffers[index].height as usize;
        proof {
            assert(w * h * bytes_per_pixel <= w * h * 3) by (nonlinear_arith)
                requires
                    1 <= bytes_per_pixel <= 3,
                    0 <= w,
                    0 <= h,
            ;
        }
        let expected = w * h * bytes_per_pixel;
        if buf.len() == expected {
            self.frame_buffers[index].pixels = vstd::slice::slice_to_vec(buf);
            true
        } else {
            false
        }
    }
}

/// Suspending a running session and resuming it returns it to exactly
/// the state it had: the round trip changes nothing, as the two
/// operations' contracts describe the same sessions.
pub proof fn lemma_suspend_resume_roundtrip(s: Session)
    requires
        s.status == SessionStatus::Running,
    ensures
        (Session {
            status: SessionStatus::Running,
            ..(Session { status: SessionStatus::Suspended, ..s })
        }) == s,
{
}

/// Bytes cross a UART channel first-in first-out and unchanged: what a
/// host write queues into an empty channel — every byte, when the data
/// fits the buffer — a firmware read asking for at least as much drains
/// back verbatim. The take expressions are the ones the write and read
/// contracts use for the queued and drained bytes.
pub proof fn lemma_uart_fifo(data: Seq<u8>, capacity: int, max: int)
    requires
        data.len() <= capacity,
        data.len() <= max,
    ensures
        (Seq::<u8>::empty() + data.take(vstd::math::min(data.len() as int, capacity))).take(
            vstd::math::min(max, data.len() as int),
        ) =~= data,
{
    assert(data.take(data.len() as int) =~= data);
    assert(Seq::<u8>::empty() + data =~= data);
}

/// Is `j` the index of the first configured pin carrying `id`?
/// At most one index satisfies this for a given pin table and id.
pub open spec fn is_first_pin(pins: Seq<PinState>, id: u16, j: int) -> bool {
    &&& 0 <= j < pins.len()
    &&& pins[j].info.pin_id == id
    &&& forall|k: int| 0 <= k < j ==> (#[trigger] pins[k]).info.pin_id != id
}

/// Is `j` the index of the first configured frame buffer carrying `key`?
pub open spec fn is_first_fb(fbs: Seq<FrameBufferState>, key: usize, j: int) -> bool {
    &&& 0 <= j < fbs.len()
    &&& fbs[j].info.key == key
    &&& forall|k: int| 0 <= k < j ==> (#[trigger] fbs[k]).info.key != key
}

impl Session {
    /// Find the first configured pin carrying `id`.
    pub fn find_pin(&self, id: u16) -> (r: Option<usize>)
        ensures
            (r is Some) <==> (exists|j: int| is_first_pin(self.pins@, id, j)),
            r is Some ==> is_first_pin(self.pins@, id, r->0 as int),
    {
        let mut i: usize = 0;
        while i < self.pins.len()
            invariant
                i <= self.pins@.len(),
                forall|k: int| 0 <= k < i ==> (#[trigger] self.pins@[k]).info.pin_id != id,
            decreases self.pins@.len() - i,
        {
            if self.pins[i].info.pin_id == id {
                proof {
                    assert(is_first_pin(self.pins@, id, i as int));
                }
                return Some(i);
            }
            i = i + 1;
        }
        None
    }

    /// Find the first configured frame buffer carrying `key`.
    pub fn find_fb(&self, key: usize) -> (r: Option<usize>)
        ensures
            (r is Some) <==> (exists|j: int| is_first_fb(self.frame_buffers@, key, j)),
            r is Some ==> is_first_fb(self.frame_buffers@, key, r->0 as int),
    {
        let mut i: usize = 0;
        while i < self.frame_buffers.len()
            invariant
                i <= self.frame_buffers@.len(),
                forall|k: int| 0 <= k < i ==> (#[trigger] self.frame_buffers@[k]).info.key != key,
            decreases self.frame_buffers@.len() - i,
        {
            if self.frame_buffers[i].info.key == key {
                proof {
                    assert(is_first_fb(self.frame_buffers@, key, i as int));
                }
                return Some(i);
            }
            i = i + 1;
        }
        None
    }

    /// Firmware-side digital write to the first pin carrying `pin_id`.
    /// Possible only while the firmware is running, for a pin that
    /// exists and whose driver lets the firmware write it.
    pub fn fw_digital_write(&mut self, pin_id: u16, val: bool) -> (r: bool)
        requires
            old(self).wf(),
        ensures
            final(self).wf(),
            r == (old(self).status == SessionStatus::Running && (exists|j: int|
                is_first_pin(old(self).pins@, pin_id, j) && old(self).pins@[j].info.allow_write)),
            !r ==> *final(self) == *old(self),
            r ==> forall|j: int|
                is_first_pin(old(self).pins@, pin_id, j) ==> final(self).pins@ == old(self).pins@.update(j, (PinState { digital: val, ..old(self).pins@[j] })),
            r ==> *final(self) == (Session { pins: final(self).pins, ..*old(self) }),
    {
        if !matches!(self.status, SessionStatus::Running) {
            return false;
        }
        match self.find_pin(pin_id) {
            Some(i) => {
                if self.pins[i].info.allow_write {
                    self.pin_digital_write(i, val);
                    true
                } else {
                    false
                }
            },
            None => false,
        }
    }

    /// Firmware-side digital read of the first pin carrying `pin_id`,
    /// for a pin whose driver lets the firmware read it.
    pub fn fw_digital_read(&self, pin_id: u16) -> (r: Option<bool>)
        ensures
            (r is Some) <==> (self.status == SessionStatus::Running && (exists|j: int|
                is_first_pin(self.pins@, pin_id, j) && self.pins@[j].info.allow_read)),
            forall|j: int|
                r is Some && is_first_pin(self.pins@, pin_id, j) ==> r->0 == self.pins@[j].digital,
    {
        if !matches!(self.status, SessionStatus::Running) {
            return None;
        }
        match self.find_pin(pin_id) {
            Some(i) => {
                if self.pins[i].info.allow_read {
                    Some(self.pin_digital_read(i))
                } else {
                    None
                }
            },
            None => None,
        }
    }

    /// Firmware-side analog write to the first pin carrying `pin_id`,
    /// for a pin whose driver lets the firmware write it.
    pub fn fw_analog_write(&mut self, pin_id: u16, val: u16) -> (r: bool)
        requires
            old(self).wf(),
        ensures
            final(self).wf(),
            r == (old(self).status == SessionStatus::Running && (exists|j: int|
                is_first_pin(old(self).pins@, pin_id, j) && old(self).pins@[j].info.allow_write)),
            !r ==> *final(self) == *old(self),
            r ==> forall|j: int|
                is_first_pin(old(self).pins@, pin_id, j) ==> final(self).pins@ == old(self).pins@.update(j, (PinState { analog: val, ..old(self).pins@[j] })),
            r ==> *final(self) == (Session { pins: final(self).pins, ..*old(self) }),
    {
        if !matches!(self.status, SessionStatus::Running) {
            return false;
        }
        match self.find_pin(pin_id) {
            Some(i) => {
                if self.pins[i].info.allow_write {
                    self.pin_analog_write(i, val);
                    true
                } else {
                    false
                }
            },
            None => false,
        }
    }

    /// Firmware-side analog read of the first pin carrying `pin_id`,
    /// for a pin whose driver lets the firmware read it.
    pub fn fw_analog_read(&self, pin_id: u16) -> (r: Option<u16>)
        ensures
            (r is Some) <==> (self.status == SessionStatus::Running && (exists|j: int|
                is_first_pin(self.pins@, pin_id, j) && self.pins@[j].info.allow_read)),
            forall|j: int|
                r is Some && is_first_pin(self.pins@, pin_id, j) ==> r->0 == self.pins@[j].analog,
    {
        if !matches!(self.status, SessionStatus::Running) {
            return None;
        }
        match self.find_pin(pin_id) {
            Some(i) => {
                if self.pins[i].info.allow_read {
                    Some(self.pin_analog_read(i))
                } else {
                    None
                }
            },
            None => None,
        }
    }

    /// Firmware-side read: drain up to `max` bytes the host has sent on
    /// the channel. Possible only while running with a valid channel.
    pub fn fw_uart_read(&mut self, index: usize, max: usize) -> (r: Option<Vec<u8>>)
        requires
            old(self).wf(),
        ensures
            final(self).wf(),
            (r is Some) <==> (old(self).status == SessionStatus::Running && index < old(self).uarts@.len()),
            r is None ==> *final(self) == *old(self),
            r is Some ==> {
                let got = r->0@;
                &&& got.len() == vstd::math::min(
                    max as int,
                    old(self).uarts@[index as int].rx@.len() as int,
                )
                &&& got == old(self).uarts@[index as int].rx@.take(got.len() as int)
                &&& final(self).uarts@.len() == old(self).uarts@.len()
                &&& forall|k: int|
                    0 <= k < old(self).uarts@.len() && k != index ==> final(self).uarts@[k] == old(self).uarts@[k]
                &&& final(self).uarts@[index as int].info == old(self).uarts@[index as int].info
                &&& final(self).uarts@[index as int].tx == old(self).uarts@[index as int].tx
                &&& final(self).uarts@[index as int].rx@ == old(self).uarts@[
                    index as int
                ].rx@.skip(got.len() as int)
                &&& *final(self) == (Session { uarts: final(self).uarts, ..*old(self) })
            },
    {
        if !matches!(self.status, SessionStatus::Running) {
            return None;
        }
        if index >= self.uarts.len() {
            return None;
        }
        let avail = self.uarts[index].rx.len();
        let take = if max < avail {
            max
        } else {
            avail
        };
        let mut out: Vec<u8> = Vec::new();
        let mut j: usize = 0;
        while j < take
            invariant
                j <= take,
                index < self.uarts@.len() == old(self).uarts@.len(),
                take <= old(self).uarts@[index as int].rx@.len(),
                out@.len() == j,
                out@ == old(self).uarts@[index as int].rx@.take(j as int),
                forall|k: int|
                    0 <= k < old(self).uarts@.len() && k != index ==> self.uarts@[k] == old(self).uarts@[k],
                self.uarts@[index as int].info == old(self).uarts@[index as int].info,
                self.uarts@[index as int].tx == old(self).uarts@[index as int].tx,
                self.uarts@[index as int].rx@ == old(self).uarts@[index as int].rx@.skip(j as int),
                *self == (Session { uarts: self.uarts, ..*old(self) }),
                forall|k: int|
                    0 <= k < self.uarts@.len() ==> (#[trigger] self.uarts@[k]).wf(),
            decreases take - j,
        {
            let b = self.uarts[index].rx.remove(0);
            out.push(b);
            proof {
                let old_rx = old(self).uarts@[index as int].rx@;
                assert(old_rx.skip(j as int).remove(0) =~= old_rx.skip(j + 1));
                assert(out@ =~= old_rx.take(j + 1));
            }
            j = j + 1;
        }
        Some(out)
    }

    /// Firmware-side write: append as many of the given bytes as fit to
    /// the channel's receive buffer for the host. Possible only while
    /// running with a valid channel; returns how many bytes were taken.
    pub fn fw_uart_write(&mut self, index: usize, data: &[u8]) -> (r: Option<usize>)
        requires
            old(self).wf(),
        ensures
            final(self).wf(),
            (r is Some) <==> (old(self).status == SessionStatus::Running && index < old(self).uarts@.len()),
            r is None ==> *final(self) == *old(self),
            r is Some ==> {
                let n = r->0 as int;
                &&& n == vstd::math::min(
                    data@.len() as int,
                    old(self).uarts@[index as int].tx_free(),
                )
                &&& final(self).uarts@.len() == old(self).uarts@.len()
                &&& forall|k: int|
                    0 <= k < old(self).uarts@.len() && k != index ==> final(self).uarts@[k] == old(self).uarts@[k]
                &&& final(self).uarts@[index as int].info == old(self).uarts@[index as int].info
                &&& final(self).uarts@[index as int].rx == old(self).uarts@[index as int].rx
                &&& final(self).uarts@[index as int].tx@ == old(self).uarts@[index as int].tx@
                    + data@.take(n)
                &&& *final(self) == (Session { uarts: final(self).uarts, ..*old(self) })
            },
    {
        if !matches!(self.status, SessionStatus::Running) {
            return None;
        }
        if index >= self.uarts.len() {
            return None;
        }
        let cap = self.uarts[index].info.tx_buffer_length;
        let cur = self.uarts[index].tx.len();
        let free = cap - cur;
        let n = if data.len() < free {
            data.len()
        } else {
            free
        };
        let mut j: usize = 0;
        while j < n
            invariant
                j <= n,
                index < self.uarts@.len() == old(self).uarts@.len(),
                n <= data@.len(),
                n <= self.uarts@[index as int].tx_free() + j,
                forall|k: int|
                    0 <= k < old(self).uarts@.len() && k != index ==> self.uarts@[k] == old(self).uarts@[k],
                self.uarts@[index as int].info == old(self).uarts@[index as int].info,
                self.uarts@[index as int].rx == old(self).uarts@[index as int].rx,
                self.uarts@[index as int].tx@ == old(self).uarts@[index as int].tx@ + data@.take(
                    j as int,
                ),
                *self == (Session { uarts: self.uarts, ..*old(self) }),
                forall|k: int|
                    0 <= k < self.uarts@.len() ==> (#[trigger] self.uarts@[k]).wf(),
            decreases n - j,
        {
            let b = data[j];
            self.uarts[index].tx.push(b);
            proof {
                assert(data@.take(j + 1) =~= data@.take(j as int).push(data@[j as int]));
            }
            j = j + 1;
        }
        Some(n)
    }

    /// Firmware-side exit: the firmware process ended with `code`. The
    /// session stops and the exit becomes observable through `tick`.
    pub fn fw_exit(&mut self, code: i32) -> (r: bool)
        requires
            old(self).wf(),
        ensures
            final(self).wf(),
            r == (old(self).status == SessionStatus::Running),
            !r ==> *final(self) == *old(self),
            r ==> *final(self) == (Session {
                status: SessionStatus::Stopped,
                exit: Some(code),
                ..*old(self)
            }),
    {
        if matches!(self.status, SessionStatus::Running) {
            self.status = SessionStatus::Stopped;
            self.exit = Some(code);
            true
        } else {
            false
        }
    }

    /// Firmware-side log output: append bytes to the runtime log.
    pub fn fw_log(&mut self, data: &[u8]) -> (r: bool)
        requires
            old(self).wf(),
        ensures
            final(self).wf(),
            r == (old(self).status == SessionStatus::Running),
            !r ==> *final(self) == *old(self),
            r ==> final(self).log@ == old(self).log@ + data@,
            r ==> *final(self) == (Session { log: final(self).log, ..*old(self) }),
    {
        if !matches!(self.status, SessionStatus::Running) {
            return false;
        }
        let mut j: usize = 0;
        while j < data.len()
            invariant
                j <= data@.len(),
                self.log@ == old(self).log@ + data@.take(j as int),
                *self == (Session { log: self.log, ..*old(self) }),
            decreases data@.len() - j,
        {
            let b = data[j];
            self.log.push(b);
            proof {
                assert(data@.take(j + 1) =~= data@.take(j as int).push(data@[j as int]));
            }
            j = j + 1;
        }
        proof {
            assert(data@.take(data@.len() as int) =~= data@);
        }
        true
    }

    /// Firmware-side display setup: announce the parameters of the first
    /// frame buffer carrying `key`. Possible only while running, for an
    /// existing key, and for dimensions whose frame sizes fit in memory;
    /// the last frame is dropped.
    pub fn fw_fb_setup(
        &mut self,
        key: usize,
        width: u16,
        height: u16,
        freq: u8,
        horizontal_flip: bool,
        vertical_flip: bool,
    ) -> (r: bool)
        requires
            old(self).wf(),
        ensures
            final(self).wf(),
            r == (old(self).status == SessionStatus::Running && (exists|j: int|
                is_first_fb(old(self).frame_buffers@, key, j)) && width * height * 3 <= usize::MAX),
            !r ==> *final(self) == *old(self),
            r ==> forall|j: int|
                is_first_fb(old(self).frame_buffers@, key, j) ==> {
                    &&& final(self).frame_buffers@.len() == old(self).frame_buffers@.len()
                    &&& forall|k: int|
                        0 <= k < old(self).frame_buffers@.len() && k != j ==> final(self).frame_buffers@[k] == old(self).frame_buffers@[k]
                    &&& final(self).frame_buffers@[j].info == old(self).frame_buffers@[j].info
                    &&& final(self).frame_buffers@[j].width == width
                    &&& final(self).frame_buffers@[j].height == height
                    &&& final(self).frame_buffers@[j].freq == freq
                    &&& final(self).frame_buffers@[j].horizontal_flip == horizontal_flip
                    &&& final(self).frame_buffers@[j].vertical_flip == vertical_flip
                    &&& final(self).frame_buffers@[j].pixels@.len() == 0
                },
            r ==> *final(self) == (Session { frame_buffers: final(self).frame_buffers, ..*old(self) }),
    {
        if !matches!(self.status, SessionStatus::Running) {
            return false;
        }
        proof {
            assert((width as int) * (height as int) <= 65535 * 65535) by (nonlinear_arith)
                requires
                    width <= 65535,
                    height <= 65535,
            ;
        }
        let wide = (width as u64) * (height as u64) * 3;
        if wide > (usize::MAX as u64) {
            return false;
        }
        match self.find_fb(key) {
            Some(i) => {
                let info = FrameBufferInfo {
                    key: self.frame_buffers[i].info.key,
                    allow_write: self.frame_buffers[i].info.allow_write,
                };
                self.frame_buffers[i] = FrameBufferState {
                    info,
                    width,
                    height,
                    freq,
                    horizontal_flip,
                    vertical_flip,
                    pixels: Vec::new(),
                };
                true
            },
            None => false,
        }
    }
}

} // verus!
