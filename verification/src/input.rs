//! Kernel input records and the device events synthesized from them.

use crate::geom::Point;
use std::collections::HashMap;
use vstd::prelude::*;

verus! {

broadcast use vstd::std_specs::hash::group_hash_axioms;

// Event types
pub const EV_SYN: u16 = 0;

pub const EV_KEY: u16 = 1;

pub const EV_ABS: u16 = 3;

// Event codes
pub const SYN_MT_REPORT: u16 = 2;

pub const ABS_MT_TRACKING_ID: u16 = 57;

pub const ABS_MT_TOUCH_MAJOR: u16 = 48;

pub const ABS_MT_POSITION_X: u16 = 53;

pub const ABS_MT_POSITION_Y: u16 = 54;

pub const KEY_POWER: u16 = 116;

/// A time as the kernel stamps it: whole seconds and microseconds.
#[derive(Clone, Copy, Debug, PartialEq, Eq, Hash, Structural)]
pub struct Timestamp {
    pub sec: i64,
    pub usec: i64,
}

impl Timestamp {
    /// The time in microseconds.
    pub open spec fn micros(self) -> int {
        self.sec * 1_000_000 + self.usec
    }

    /// The distance between two times, in microseconds.
    pub open spec fn spec_distance(self, other: Timestamp) -> int {
        if self.micros() >= other.micros() {
            self.micros() - other.micros()
        } else {
            other.micros() - self.micros()
        }
    }

    pub fn new(sec: i64, usec: i64) -> (t: Timestamp)
        ensures
            t == (Timestamp { sec, usec }),
    {
        Timestamp { sec, usec }
    }

    /// The distance between two times, in microseconds.
    pub fn distance(&self, other: &Timestamp) -> (d: i128)
        ensures
            d == self.spec_distance(*other),
    {
        let a: i128 = (self.sec as i128) * 1_000_000 + (self.usec as i128);
        let b: i128 = (other.sec as i128) * 1_000_000 + (other.usec as i128);
        if a >= b {
            a - b
        } else {
            b - a
        }
    }
}

/// One record of a kernel input device.
#[derive(Clone, Copy, Debug, PartialEq, Eq, Hash, Structural)]
pub struct InputEvent {
    pub time: Timestamp,
    pub kind: u16,  // type
    pub code: u16,
    pub value: i32,
}

#[derive(Clone, Copy, Debug, PartialEq, Eq, Hash, Structural)]
pub enum FingerStatus {
    Down,
    Motion,
    Up,
}

#[derive(Clone, Copy, Debug, PartialEq, Eq, Hash, Structural)]
pub enum ButtonStatus {
    Pressed,
    Released,
}

#[derive(Clone, Copy, Debug, PartialEq, Eq, Hash, Structural)]
pub enum ButtonCode {
    Power,
}

#[allow(inconsistent_fields)]
#[derive(Clone, Copy, Debug, PartialEq, Eq, Hash, Structural)]
pub enum DeviceEvent {
    Finger { time: Timestamp, id: i32, status: FingerStatus, position: Point },
    Button { time: Timestamp, code: ButtonCode, status: ButtonStatus },
}

/// What the synthesizer remembers between records: the fields of the touch
/// frame being accumulated, and the position last reported for each finger
/// that is down.
pub struct SynthState {
    pub dims: (u32, u32),
    pub id: i32,
    pub position: Point,
    pub pressure: i32,
    pub fingers: Map<i32, Point>,
}

impl InputEvent {
    /// The marker that closes a touch frame.
    pub open spec fn is_sync(self) -> bool {
        self.kind == EV_SYN && self.code == SYN_MT_REPORT
    }

    /// A sample of one absolute axis.
    pub open spec fn is_axis(self) -> bool {
        self.kind == EV_ABS
    }

    /// A change of the power button.
    pub open spec fn is_power_key(self) -> bool {
        self.kind == EV_KEY && self.code == KEY_POWER
    }
}

impl SynthState {
    /// The state before any record: no finger down, an invalid tracking id.
    pub open spec fn initial(dims: (u32, u32)) -> SynthState {
        SynthState {
            dims,
            id: -1i32,
            position: Point { x: 0, y: 0 },
            pressure: 0,
            fingers: Map::empty(),
        }
    }

    /// The state with the sample of an axis record taken in. The raw Y axis
    /// is the display's X axis; the raw X axis runs against the display's Y
    /// axis, from its far edge.
    pub open spec fn sample(self, r: InputEvent) -> SynthState {
        if r.code == ABS_MT_TRACKING_ID {
            SynthState { id: r.value, ..self }
        } else if r.code == ABS_MT_TOUCH_MAJOR {
            SynthState { pressure: r.value, ..self }
        } else if r.code == ABS_MT_POSITION_X {
            SynthState {
                position: Point { x: self.position.x, y: (self.dims.1 - 1 - r.value) as i64 },
                ..self
            }
        } else if r.code == ABS_MT_POSITION_Y {
            SynthState { position: Point { x: r.value as i64, y: self.position.y }, ..self }
        } else {
            self
        }
    }

    /// The fingers that are down once the current frame is closed.
    pub open spec fn fingers_after_sync(self) -> Map<i32, Point> {
        if !self.fingers.contains_key(self.id) {
            if self.id >= 0 {
                self.fingers.insert(self.id, self.position)
            } else {
                self.fingers
            }
        } else if self.pressure == 0 {
            self.fingers.remove(self.id)
        } else {
            self.fingers.insert(self.id, self.position)
        }
    }

    /// What closing the current frame at `time` reports.
    pub open spec fn event_at_sync(self, time: Timestamp) -> Option<DeviceEvent> {
        if !self.fingers.contains_key(self.id) {
            if self.id >= 0 {
                Some(
                    DeviceEvent::Finger {
                        time,
                        id: self.id,
                        status: FingerStatus::Down,
                        position: self.position,
                    },
                )
            } else {
                None
            }
        } else if self.pressure == 0 {
            Some(
                DeviceEvent::Finger {
                    time,
                    id: self.id,
                    status: FingerStatus::Up,
                    position: self.position,
                },
            )
        } else if self.fingers[self.id] != self.position {
            Some(
                DeviceEvent::Finger {
                    time,
                    id: self.id,
                    status: FingerStatus::Motion,
                    position: self.position,
                },
            )
        } else {
            None
        }
    }

    /// The state after the record `r`.
    pub open spec fn next(self, r: InputEvent) -> SynthState {
        if r.is_axis() {
            self.sample(r)
        } else if r.is_sync() {
            SynthState { fingers: self.fingers_after_sync(), ..self }
        } else {
            self
        }
    }

    /// The event that the record `r` gives rise to, if any.
    pub open spec fn emitted(self, r: InputEvent) -> Option<DeviceEvent> {
        if r.is_sync() {
            self.event_at_sync(r.time)
        } else if r.is_power_key() {
            Some(
                DeviceEvent::Button {
                    time: r.time,
                    code: ButtonCode::Power,
                    status: if r.value == 1 {
                        ButtonStatus::Pressed
                    } else {
                        ButtonStatus::Released
                    },
                },
            )
        } else {
            None
        }
    }

    /// The state after all of `records`, in order.
    pub open spec fn after(self, records: Seq<InputEvent>) -> SynthState
        decreases records.len(),
    {
        if records.len() == 0 {
            self
        } else {
            self.after(records.drop_last()).next(records.last())
        }
    }

    /// The events that `records` give rise to, in order.
    pub open spec fn events(self, records: Seq<InputEvent>) -> Seq<DeviceEvent>
        decreases records.len(),
    {
        if records.len() == 0 {
            Seq::empty()
        } else {
            let before = self.events(records.drop_last());
            match self.after(records.drop_last()).emitted(records.last()) {
                Some(e) => before.push(e),
                None => before,
            }
        }
    }
}

/// Folds raw records into finger and button events, one record at a time.
pub struct Synthesizer {
    dims: (u32, u32),
    id: i32,
    position: Point,
    pressure: i32,
    fingers: HashMap<i32, Point>,
}

impl View for Synthesizer {
    type V = SynthState;

    closed spec fn view(&self) -> SynthState {
        SynthState {
            dims: self.dims,
            id: self.id,
            position: self.position,
            pressure: self.pressure,
            fingers: self.fingers@,
        }
    }
}

impl Synthesizer {
    /// A synthesizer for a display of `dims` (width, height) pixels.
    pub fn new(dims: (u32, u32)) -> (s: Synthesizer)
        ensures
            s@ == SynthState::initial(dims),
    {
        Synthesizer {
            dims,
            id: -1,
            position: Point { x: 0, y: 0 },
            pressure: 0,
            fingers: HashMap::new(),
        }
    }

    /// The display's width and height in pixels.
    pub fn dims(&self) -> (d: (u32, u32))
        ensures
            d == self@.dims,
    {
        self.dims
    }

    /// The tracking id of the frame being accumulated.
    pub fn id(&self) -> (id: i32)
        ensures
            id == self@.id,
    {
        self.id
    }

    /// The display position of the frame being accumulated.
    pub fn position(&self) -> (p: Point)
        ensures
            p == self@.position,
    {
        self.position
    }

    /// The contact size of the frame being accumulated.
    pub fn pressure(&self) -> (p: i32)
        ensures
            p == self@.pressure,
    {
        self.pressure
    }

    /// The position last reported for the finger `id`, if it is down.
    pub fn finger(&self, id: i32) -> (p: Option<Point>)
        ensures
            p == if self@.fingers.contains_key(id) {
                Some(self@.fingers[id])
            } else {
                None
            },
    {
        match self.fingers.get(&id) {
            Some(p) => Some(*p),
            None => None,
        }
    }

    /// The number of fingers that are down.
    pub fn finger_count(&self) -> (n: usize)
        ensures
            n == self@.fingers.len(),
    {
        self.fingers.len()
    }

    /// Takes in one record and returns the event it gives rise to, if any.
    pub fn feed(&mut self, evt: &InputEvent) -> (out: Option<DeviceEvent>)
        ensures
            final(self)@ == old(self)@.next(*evt),
            out == old(self)@.emitted(*evt),
    {
        if evt.kind == EV_ABS {
            if evt.code == ABS_MT_TRACKING_ID {
                self.id = evt.value;
            } else if evt.code == ABS_MT_TOUCH_MAJOR {
                self.pressure = evt.value;
            } else if evt.code == ABS_MT_POSITION_X {
                self.position.y = self.dims.1 as i64 - 1 - evt.value as i64;
            } else if evt.code == ABS_MT_POSITION_Y {
                self.position.x = evt.value as i64;
            }
            None
        } else if evt.kind == EV_SYN {
            if evt.code == SYN_MT_REPORT {
                let known: Option<Point> = match self.fingers.get(&self.id) {
                    Some(p) => Some(*p),
                    None => None,
                };
                match known {
                    Some(p) => {
                        if self.pressure != 0 {
                            self.fingers.insert(self.id, self.position);
                            if p != self.position {
                                Some(
                                    DeviceEvent::Finger {
                                        time: evt.time,
                                        id: self.id,
                                        status: FingerStatus::Motion,
                                        position: self.position,
                                    },
                                )
                            } else {
                                None
                            }
                        } else {
                            self.fingers.remove(&self.id);
                            Some(
                                DeviceEvent::Finger {
                                    time: evt.time,
                                    id: self.id,
                                    status: FingerStatus::Up,
                                    position: self.position,
                                },
                            )
                        }
                    },
                    None => {
                        if self.id >= 0 {
                            self.fingers.insert(self.id, self.position);
                            Some(
                                DeviceEvent::Finger {
                                    time: evt.time,
                                    id: self.id,
                                    status: FingerStatus::Down,
                                    position: self.position,
                                },
                            )
                        } else {
                            None
                        }
                    },
                }
            } else {
                None
            }
        } else if evt.kind == EV_KEY {
            if evt.code == KEY_POWER {
                Some(
                    DeviceEvent::Button {
                        time: evt.time,
                        code: ButtonCode::Power,
                        status: if evt.value == 1 {
                            ButtonStatus::Pressed
                        } else {
                            ButtonStatus::Released
                        },
                    },
                )
            } else {
                None
            }
        } else {
            None
        }
    }
}

/// Folds a run of raw records, taken in from the initial state, into the
/// finger and button events they give rise to, in order.
pub fn parse_device_events(records: &[InputEvent], dims: (u32, u32)) -> (out: Vec<DeviceEvent>)
    ensures
        out@ == SynthState::initial(dims).events(records@),
{
    let ghost start = SynthState::initial(dims);
    let mut synth = Synthesizer::new(dims);
    let mut out: Vec<DeviceEvent> = Vec::new();
    let mut i: usize = 0;
    while i < records.len()
        invariant
            i <= records.len(),
            start == SynthState::initial(dims),
            synth@ == start.after(records@.take(i as int)),
            out@ == start.events(records@.take(i as int)),
        decreases records.len() - i,
    {
        proof {
            let grown = records@.take(i + 1);
            assert(grown.drop_last() == records@.take(i as int));
            assert(grown.last() == records@[i as int]);
        }
        match synth.feed(&records[i]) {
            Some(e) => {
                out.push(e);
            },
            None => {},
        }
        i = i + 1;
    }
    proof {
        assert(records@.take(records@.len() as int) == records@);
    }
    out
}

} // verus!
