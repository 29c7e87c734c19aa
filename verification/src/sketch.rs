//! The touch-to-draw state machine: what to draw, refresh, invert or save
//! for each finger and button event.

use crate::geom::{Point, Rectangle};
use crate::input::{ButtonCode, ButtonStatus, DeviceEvent, FingerStatus, Timestamp};
use std::collections::HashMap;
use vstd::prelude::*;
use vstd::string::StringExecFns;

verus! {

broadcast use vstd::std_specs::hash::group_hash_axioms;

/// Partial refreshes that one finger may ask for per second.
pub const REFRESH_RATE: i128 = 60;

pub const MICROS_PER_SECOND: i128 = 1_000_000;

/// A press of the power button that is released sooner than this, in
/// microseconds, is a tap; a longer one inverts the display.
pub const INVERSE_INTERVAL: i128 = 2_000_000;

/// The gray level of a stroke.
pub const INK: u8 = 0x00;

/// The gray level of a blank surface.
pub const BLANK: u8 = 0xff;

/// How the display is to bring a region up to date.
#[derive(Clone, Copy, Debug, PartialEq, Eq, Hash, Structural)]
pub enum Mode {
    Fast,
    Full,
}

/// One request to the raster surface.
#[derive(Clone, Copy, Debug, PartialEq, Eq, Hash, Structural)]
pub enum Action {
    /// Set every pixel to `color`.
    Fill { color: u8 },
    /// Draw the line segment between two points.
    DrawLine { from: Point, to: Point, color: u8 },
    /// Bring `rect` up to date on the display.
    Refresh { rect: Rectangle, mode: Mode },
    /// Block until the refresh just asked for is complete.
    Wait,
    /// Swap dark and light.
    Invert,
    /// Write the surface to an image file.
    Persist,
}

/// What the loop remembers of a finger that is down.
#[derive(Clone, Copy, Debug, PartialEq, Eq, Hash, Structural)]
pub struct TouchState {
    /// Where the last segment ended.
    pub pt: Point,
    /// The bounds of what was drawn since the last refresh.
    pub rect: Rectangle,
    /// When those bounds were last refreshed, or when the finger came down
    /// where they never were.
    pub last_update_time: Timestamp,
}

impl TouchState {
    /// The state of a finger that is not stamped yet: its time is zero.
    pub fn new(pt: Point, rect: Rectangle) -> (ts: TouchState)
        ensures
            ts == (TouchState { pt, rect, last_update_time: Timestamp { sec: 0, usec: 0 } }),
    {
        TouchState { pt, rect, last_update_time: Timestamp { sec: 0, usec: 0 } }
    }
}

/// The state of the loop between two events.
pub struct SketchState {
    pub dims: (u32, u32),
    pub fingers: Map<i32, TouchState>,
    pub has_drawn: bool,
    pub last_pressed_time: Timestamp,
}

/// What an event, or a run of events, brings about: the state it leaves,
/// the requests to the raster surface in order, and whether the loop ends.
pub struct Effect {
    pub next: SketchState,
    pub actions: Seq<Action>,
    pub quit: bool,
}

/// Whether two times lie further apart than one refresh interval.
pub open spec fn refresh_is_due(now: Timestamp, last: Timestamp) -> bool {
    now.spec_distance(last) * REFRESH_RATE > MICROS_PER_SECOND
}

/// Whether a release at `now` ends a tap that began at `pressed`.
pub open spec fn is_tap(now: Timestamp, pressed: Timestamp) -> bool {
    now.spec_distance(pressed) < INVERSE_INTERVAL
}

impl SketchState {
    /// The state of a loop that has seen nothing yet.
    pub open spec fn initial(dims: (u32, u32)) -> SketchState {
        SketchState {
            dims,
            fingers: Map::empty(),
            has_drawn: false,
            last_pressed_time: Timestamp { sec: 0, usec: 0 },
        }
    }

    /// The bounds of the whole surface.
    pub open spec fn surface(self) -> Rectangle {
        Rectangle::spec_surface(self.dims.0, self.dims.1)
    }

    /// A refresh of the whole surface, waited for.
    pub open spec fn full_refresh(self) -> Seq<Action> {
        seq![Action::Refresh { rect: self.surface(), mode: Mode::Full }, Action::Wait]
    }

    /// Blanking the surface.
    pub open spec fn clearing(self) -> Effect {
        Effect {
            next: SketchState { has_drawn: false, ..self },
            actions: seq![Action::Fill { color: BLANK }] + self.full_refresh(),
            quit: false,
        }
    }

    /// An event that changes nothing.
    pub open spec fn ignoring(self) -> Effect {
        Effect { next: self, actions: Seq::empty(), quit: false }
    }

    /// A finger coming down at `position` at `time`. The refresh interval
    /// of the finger starts then.
    pub open spec fn touching(self, id: i32, position: Point, time: Timestamp) -> Effect {
        let ts = TouchState {
            pt: position,
            rect: Rectangle { min: position, max: position },
            last_update_time: time,
        };
        Effect {
            next: SketchState { fingers: self.fingers.insert(id, ts), ..self },
            actions: Seq::empty(),
            quit: false,
        }
    }

    /// A finger that is down moving to `position` at `time`.
    pub open spec fn moving(self, id: i32, position: Point, time: Timestamp) -> Effect {
        let ts = self.fingers[id];
        let grown = ts.rect.merged(position);
        let stroke = Action::DrawLine { from: ts.pt, to: position, color: INK };
        if refresh_is_due(time, ts.last_update_time) {
            let fresh = TouchState {
                pt: position,
                rect: Rectangle { min: position, max: position },
                last_update_time: time,
            };
            Effect {
                next: SketchState { fingers: self.fingers.insert(id, fresh), ..self },
                actions: seq![stroke, Action::Refresh { rect: grown, mode: Mode::Fast }],
                quit: false,
            }
        } else {
            let kept = TouchState {
                pt: position,
                rect: grown,
                last_update_time: ts.last_update_time,
            };
            Effect {
                next: SketchState { fingers: self.fingers.insert(id, kept), ..self },
                actions: seq![stroke],
                quit: false,
            }
        }
    }

    /// A finger that is down lifting at `position`.
    pub open spec fn lifting(self, id: i32, position: Point) -> Effect {
        let ts = self.fingers[id];
        Effect {
            next: SketchState { fingers: self.fingers.remove(id), has_drawn: true, ..self },
            actions: seq![
                Action::DrawLine { from: ts.pt, to: position, color: INK },
                Action::Refresh { rect: ts.rect, mode: Mode::Fast },
            ],
            quit: false,
        }
    }

    /// The power button being released at `time`.
    pub open spec fn releasing(self, time: Timestamp) -> Effect {
        if is_tap(time, self.last_pressed_time) {
            if self.has_drawn {
                Effect {
                    next: self.clearing().next,
                    actions: seq![Action::Persist] + self.clearing().actions,
                    quit: false,
                }
            } else {
                Effect { next: self, actions: Seq::empty(), quit: true }
            }
        } else {
            Effect {
                next: self,
                actions: seq![Action::Invert] + self.full_refresh(),
                quit: false,
            }
        }
    }

    /// What the event `e` brings about.
    pub open spec fn react(self, e: DeviceEvent) -> Effect {
        match e {
            DeviceEvent::Finger { time, id, status, position } => match status {
                FingerStatus::Down => self.touching(id, position, time),
                FingerStatus::Motion => if self.fingers.contains_key(id) {
                    self.moving(id, position, time)
                } else {
                    self.ignoring()
                },
                FingerStatus::Up => if self.fingers.contains_key(id) {
                    self.lifting(id, position)
                } else {
                    self.ignoring()
                },
            },
            DeviceEvent::Button { time, code, status } => match status {
                ButtonStatus::Pressed => Effect {
                    next: SketchState { last_pressed_time: time, ..self },
                    actions: Seq::empty(),
                    quit: false,
                },
                ButtonStatus::Released => self.releasing(time),
            },
        }
    }

    /// What a run of events brings about. Events after the one that ends
    /// the loop bring about nothing.
    pub open spec fn ran(self, events: Seq<DeviceEvent>) -> Effect
        decreases events.len(),
    {
        if events.len() == 0 {
            self.ignoring()
        } else {
            let before = self.ran(events.drop_last());
            if before.quit {
                before
            } else {
                let last = before.next.react(events.last());
                Effect {
                    next: last.next,
                    actions: before.actions + last.actions,
                    quit: last.quit,
                }
            }
        }
    }

    /// What the loop brings about from its start: it blanks the surface,
    /// then takes the events in order.
    pub open spec fn looping(self, events: Seq<DeviceEvent>) -> Effect {
        let run = self.clearing().next.ran(events);
        Effect { next: run.next, actions: self.clearing().actions + run.actions, quit: run.quit }
    }
}

/// Once the loop has ended, further events change nothing.
pub proof fn lemma_quit_is_final(s: SketchState, events: Seq<DeviceEvent>, n: int)
    requires
        0 <= n <= events.len(),
        s.ran(events.take(n)).quit,
    ensures
        s.ran(events) == s.ran(events.take(n)),
    decreases events.len(),
{
    if n == events.len() {
        assert(events.take(n) == events);
    } else {
        assert(events.drop_last().take(n) == events.take(n));
        lemma_quit_is_final(s, events.drop_last(), n);
    }
}

/// Whether `c` is one of the ten decimal digits.
pub open spec fn is_digit(c: char) -> bool {
    '0' <= c <= '9'
}

/// Whether `s` ends in a time of the form `YYYYMMDD_HHMMSS`: eight digits,
/// an underscore and six digits. A year of more than four digits, or its
/// sign, stands before them.
pub open spec fn is_stamp(s: Seq<char>) -> bool {
    &&& s.len() >= 15
    &&& s[s.len() - 7] == '_'
    &&& forall|i: int| s.len() - 15 <= i < s.len() && i != s.len() - 7 ==> is_digit(#[trigger] s[i])
}

/// The name of the image file of a drawing saved at the time `stamp`.
pub open spec fn drawing_name(stamp: Seq<char>) -> Seq<char> {
    "drawing-"@ + stamp + ".png"@
}

/// The pattern of the time in a file name: year, month, day, an underscore,
/// hour, minute and second.
pub open spec fn stamp_pattern() -> Seq<char> {
    "%Y%m%d_%H%M%S"@
}

/// The local time of the call, written after `pattern`.
///
/// Calls `chrono::Local::now` and formats the result with chrono's
/// `DateTime::format`. The time depends on the clock and the time zone of
/// the host, so the contract claims only the shape that the one pattern it
/// admits gives to every time: chrono pads the month, the day, the hour,
/// the minute and the second to two digits and the year to four at least,
/// with a sign before a year of more than four digits or below zero. The
/// call aborts where the clock reads before 1970 or the host gives no
/// usable offset from UTC, whatever the pattern.
#[verifier::external_body]
fn local_time(pattern: &str) -> (stamp: String)
    requires
        pattern@ == stamp_pattern(),
    ensures
        is_stamp(stamp@),
{
    chrono::Local::now().format(pattern).to_string()
}

/// The name of the image file of a drawing saved at the time `stamp`.
pub fn drawing_file_name(stamp: &str) -> (name: String)
    ensures
        name@ == drawing_name(stamp@),
{
    let mut name = String::from_str("drawing-");
    name.append(stamp);
    name.append(".png");
    name
}

/// The requests to the raster surface that an event gave rise to, and
/// whether the loop is to end.
#[derive(Clone, Debug, PartialEq, Eq)]
pub struct Reaction {
    pub actions: Vec<Action>,
    pub quit: bool,
}

/// The loop's state: the fingers that are down, whether anything was drawn
/// since the surface was last blank, and when the button was last pressed.
pub struct Sketch {
    dims: (u32, u32),
    fingers: HashMap<i32, TouchState>,
    has_drawn: bool,
    last_pressed_time: Timestamp,
}

impl View for Sketch {
    type V = SketchState;

    closed spec fn view(&self) -> SketchState {
        SketchState {
            dims: self.dims,
            fingers: self.fingers@,
            has_drawn: self.has_drawn,
            last_pressed_time: self.last_pressed_time,
        }
    }
}

impl Sketch {
    /// A loop for a surface of `dims` (width, height) pixels.
    pub fn new(dims: (u32, u32)) -> (s: Sketch)
        ensures
            s@ == SketchState::initial(dims),
    {
        Sketch {
            dims,
            fingers: HashMap::new(),
            has_drawn: false,
            last_pressed_time: Timestamp { sec: 0, usec: 0 },
        }
    }

    /// The surface's width and height in pixels.
    pub fn dims(&self) -> (d: (u32, u32))
        ensures
            d == self@.dims,
    {
        self.dims
    }

    /// Whether anything was drawn since the surface was last blank.
    pub fn has_drawn(&self) -> (b: bool)
        ensures
            b == self@.has_drawn,
    {
        self.has_drawn
    }

    /// When the power button was last pressed.
    pub fn last_pressed_time(&self) -> (t: Timestamp)
        ensures
            t == self@.last_pressed_time,
    {
        self.last_pressed_time
    }

    /// What the loop remembers of the finger `id`, if it is down.
    pub fn touch(&self, id: i32) -> (ts: Option<TouchState>)
        ensures
            ts == if self@.fingers.contains_key(id) {
                Some(self@.fingers[id])
            } else {
                None
            },
    {
        match self.fingers.get(&id) {
            Some(ts) => Some(*ts),
            None => None,
        }
    }

    /// The number of fingers that are down.
    pub fn touch_count(&self) -> (n: usize)
        ensures
            n == self@.fingers.len(),
    {
        self.fingers.len()
    }

    /// Appends a refresh of the whole surface, waited for.
    fn push_full_refresh(&self, actions: &mut Vec<Action>)
        ensures
            final(actions)@ == old(actions)@ + self@.full_refresh(),
    {
        actions.push(
            Action::Refresh { rect: Rectangle::surface(self.dims.0, self.dims.1), mode: Mode::Full },
        );
        actions.push(Action::Wait);
    }

    /// Blanks the surface: the requests that do so, in order. Nothing
    /// counts as drawn afterwards.
    pub fn clear(&mut self) -> (actions: Vec<Action>)
        ensures
            final(self)@ == old(self)@.clearing().next,
            actions@ == old(self)@.clearing().actions,
    {
        let mut actions: Vec<Action> = Vec::new();
        actions.push(Action::Fill { color: BLANK });
        self.push_full_refresh(&mut actions);
        self.has_drawn = false;
        actions
    }

    /// Takes in one event.
    pub fn handle(&mut self, evt: &DeviceEvent) -> (r: Reaction)
        ensures
            final(self)@ == old(self)@.react(*evt).next,
            r.actions@ == old(self)@.react(*evt).actions,
            r.quit == old(self)@.react(*evt).quit,
    {
        let mut actions: Vec<Action> = Vec::new();
        let mut quit = false;
        match *evt {
            DeviceEvent::Finger { status: FingerStatus::Motion, id, position, time } => {
                let known: Option<TouchState> = match self.fingers.get(&id) {
                    Some(ts) => Some(*ts),
                    None => None,
                };
                if let Some(mut ts) = known {
                    ts.rect.merge(&position);
                    actions.push(Action::DrawLine { from: ts.pt, to: position, color: INK });
                    if time.distance(&ts.last_update_time) * REFRESH_RATE > MICROS_PER_SECOND {
                        actions.push(Action::Refresh { rect: ts.rect, mode: Mode::Fast });
                        ts.last_update_time = time;
                        ts.rect = Rectangle::from_point(&position);
                    }
                    ts.pt = position;
                    self.fingers.insert(id, ts);
                }
            },
            DeviceEvent::Finger { status: FingerStatus::Down, id, position, time } => {
                let mut ts = TouchState::new(position, Rectangle::from_point(&position));
                ts.last_update_time = time;
                self.fingers.insert(id, ts);
            },
            DeviceEvent::Finger { status: FingerStatus::Up, id, position, .. } => {
                let known: Option<TouchState> = match self.fingers.get(&id) {
                    Some(ts) => Some(*ts),
                    None => None,
                };
                if let Some(ts) = known {
                    actions.push(Action::DrawLine { from: ts.pt, to: position, color: INK });
                    actions.push(Action::Refresh { rect: ts.rect, mode: Mode::Fast });
                    self.fingers.remove(&id);
                    self.has_drawn = true;
                }
            },
            DeviceEvent::Button { status, code: ButtonCode::Power, time } => {
                match status {
                    ButtonStatus::Pressed => {
                        self.last_pressed_time = time;
                    },
                    ButtonStatus::Released => {
                        if time.distance(&self.last_pressed_time) < INVERSE_INTERVAL {
                            if self.has_drawn {
                                actions.push(Action::Persist);
                                let mut cleared = self.clear();
                                actions.append(&mut cleared);
                            } else {
                                quit = true;
                            }
                        } else {
                            actions.push(Action::Invert);
                            self.push_full_refresh(&mut actions);
                        }
                    },
                }
            },
        }
        Reaction { actions, quit }
    }

    /// Names the image file that a `Persist` request made now writes: the
    /// fixed prefix, the local time of the call and the extension.
    ///
    /// The time is chrono's. Reading it aborts the process where the clock
    /// of the host reads before 1970, and where neither the environment nor
    /// the zone file of the host gives a usable offset from UTC.
    pub fn save(&self) -> (name: String)
        ensures
            exists|stamp: Seq<char>| is_stamp(stamp) && name@ == #[trigger] drawing_name(stamp),
    {
        let stamp = local_time("%Y%m%d_%H%M%S");
        drawing_file_name(stamp.as_str())
    }

    /// Runs the loop over `events`: blanks the surface, then takes the
    /// events in order until one ends the loop or none is left.
    pub fn run(&mut self, events: &[DeviceEvent]) -> (r: Reaction)
        ensures
            final(self)@ == old(self)@.looping(events@).next,
            r.actions@ == old(self)@.looping(events@).actions,
            r.quit == old(self)@.looping(events@).quit,
    {
        let ghost start = self@.clearing().next;
        let ghost opening = self@.clearing().actions;
        let mut actions = self.clear();
        let mut quit = false;
        let mut i: usize = 0;
        while i < events.len() && !quit
            invariant
                i <= events.len(),
                self@ == start.ran(events@.take(i as int)).next,
                actions@ == opening + start.ran(events@.take(i as int)).actions,
                quit == start.ran(events@.take(i as int)).quit,
            decreases events.len() - i,
        {
            proof {
                let grown = events@.take(i + 1);
                assert(grown.drop_last() == events@.take(i as int));
                assert(grown.last() == events@[i as int]);
            }
            let mut step = self.handle(&events[i]);
            actions.append(&mut step.actions);
            quit = step.quit;
            i = i + 1;
        }
        proof {
            if quit {
                lemma_quit_is_final(start, events@, i as int);
            } else {
                assert(events@.take(i as int) == events@);
            }
        }
        Reaction { actions, quit }
    }
}

} // verus!
