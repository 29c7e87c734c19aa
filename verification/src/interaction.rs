//! Laws of the touch-to-draw loop: what a stroke refreshes, and what the
//! power button does.

use crate::geom::{Point, Rectangle};
use crate::input::{ButtonCode, ButtonStatus, DeviceEvent, FingerStatus, Timestamp};
use crate::sketch::{is_tap, refresh_is_due, Action, Mode, SketchState, BLANK, INK};
use vstd::prelude::*;

verus! {

/// Whether the damage rectangle of every finger that is down holds the
/// finger's anchor.
pub open spec fn anchored(s: SketchState) -> bool {
    forall|id: i32|
        s.fingers.contains_key(id) ==> (#[trigger] s.fingers[id]).rect.contains(s.fingers[id].pt)
}

/// The finger `id` reporting `status` at `position`.
pub open spec fn finger_event(
    time: Timestamp,
    id: i32,
    status: FingerStatus,
    position: Point,
) -> DeviceEvent {
    DeviceEvent::Finger { time, id, status, position }
}

/// The power button reporting `status`.
pub open spec fn button_event(time: Timestamp, status: ButtonStatus) -> DeviceEvent {
    DeviceEvent::Button { time, code: ButtonCode::Power, status }
}

/// A loop that has seen nothing has no finger to anchor.
pub proof fn lemma_initial_is_anchored(dims: (u32, u32))
    ensures
        anchored(SketchState::initial(dims)),
{
}

/// No event takes an anchor out of its damage rectangle.
pub proof fn lemma_react_keeps_anchors(s: SketchState, e: DeviceEvent)
    requires
        anchored(s),
    ensures
        anchored(s.react(e).next),
{
    let next = s.react(e).next;
    assert forall|id: i32| next.fingers.contains_key(id) implies (#[trigger] next.fingers[id]).rect.contains(
        next.fingers[id].pt,
    ) by {
        if s.fingers.contains_key(id) {
            assert(s.fingers[id].rect.contains(s.fingers[id].pt));
        }
    }
}

/// No run of events takes an anchor out of its damage rectangle.
pub proof fn lemma_ran_keeps_anchors(s: SketchState, events: Seq<DeviceEvent>)
    requires
        anchored(s),
    ensures
        anchored(s.ran(events).next),
    decreases events.len(),
{
    if events.len() > 0 {
        lemma_ran_keeps_anchors(s, events.drop_last());
        let before = s.ran(events.drop_last());
        if !before.quit {
            lemma_react_keeps_anchors(before.next, events.last());
        }
    }
}

/// A motion draws one segment, from the anchor to the new position. The
/// refresh that follows it when one is due covers both ends of the
/// segment, and all that the damage rectangle held before.
pub proof fn lemma_motion_refresh_covers_stroke(
    s: SketchState,
    time: Timestamp,
    id: i32,
    position: Point,
)
    requires
        anchored(s),
        s.fingers.contains_key(id),
    ensures
        ({
            let ts = s.fingers[id];
            let actions = s.react(finger_event(time, id, FingerStatus::Motion, position)).actions;
            let stroke = Action::DrawLine { from: ts.pt, to: position, color: INK };
            let damage = ts.rect.merged(position);
            &&& damage.contains(ts.pt)
            &&& damage.contains(position)
            &&& damage.covers(ts.rect)
            &&& actions == if refresh_is_due(time, ts.last_update_time) {
                seq![stroke, Action::Refresh { rect: damage, mode: Mode::Fast }]
            } else {
                seq![stroke]
            }
        }),
{
    assert(s.fingers[id].rect.contains(s.fingers[id].pt));
}

/// A stroke of one motion that follows the touch within the refresh
/// interval: a finger comes down at `a`, moves to `b` and lifts at `b`. The
/// loop draws the segment from `a` to `b`, then the one from `b` to `b`,
/// and refreshes once, at the lift, the bounds of `a` and `b`. The finger
/// is then gone and the drawing dirty.
pub proof fn lemma_short_stroke_refreshes_once(
    s: SketchState,
    id: i32,
    a: Point,
    b: Point,
    down: Timestamp,
    moved: Timestamp,
    up: Timestamp,
)
    requires
        !refresh_is_due(moved, down),
    ensures
        ({
            let events = seq![
                finger_event(down, id, FingerStatus::Down, a),
                finger_event(moved, id, FingerStatus::Motion, b),
                finger_event(up, id, FingerStatus::Up, b),
            ];
            let bounds = (Rectangle { min: a, max: a }).merged(b);
            let run = s.ran(events);
            &&& run.actions == seq![
                Action::DrawLine { from: a, to: b, color: INK },
                Action::DrawLine { from: b, to: b, color: INK },
                Action::Refresh { rect: bounds, mode: Mode::Fast },
            ]
            &&& !run.quit
            &&& run.next == SketchState { fingers: s.fingers.remove(id), has_drawn: true, ..s }
            &&& bounds.contains(a)
            &&& bounds.contains(b)
        }),
{
    let e0 = finger_event(down, id, FingerStatus::Down, a);
    let e1 = finger_event(moved, id, FingerStatus::Motion, b);
    let e2 = finger_event(up, id, FingerStatus::Up, b);
    let events = seq![e0, e1, e2];
    let two = seq![e0, e1];
    let one = seq![e0];
    assert(events.drop_last() == two);
    assert(two.drop_last() == one);
    assert(one.drop_last() == Seq::<DeviceEvent>::empty());
    reveal_with_fuel(SketchState::ran, 4);
    let s1 = s.react(e0).next;
    let s2 = s1.react(e1).next;
    let s3 = s2.react(e2).next;
    assert(s.ran(one).next == s1);
    assert(s.ran(two).next == s2);
    assert(s3.fingers =~= s.fingers.remove(id));
    assert(s.ran(events).actions =~= seq![
        Action::DrawLine { from: a, to: b, color: INK },
        Action::DrawLine { from: b, to: b, color: INK },
        Action::Refresh { rect: (Rectangle { min: a, max: a }).merged(b), mode: Mode::Fast },
    ]);
}

/// A tap of the power button while nothing is drawn ends the loop and asks
/// nothing of the surface.
pub proof fn lemma_tap_without_drawing_quits(
    s: SketchState,
    pressed: Timestamp,
    released: Timestamp,
)
    requires
        !s.has_drawn,
        is_tap(released, pressed),
    ensures
        ({
            let held = s.react(button_event(pressed, ButtonStatus::Pressed));
            let let_go = held.next.react(button_event(released, ButtonStatus::Released));
            &&& held.actions == Seq::<Action>::empty()
            &&& !held.quit
            &&& let_go.actions == Seq::<Action>::empty()
            &&& let_go.quit
            &&& let_go.next == SketchState { last_pressed_time: pressed, ..s }
        }),
{
}

/// A tap of the power button over a drawing saves it once, then blanks and
/// refreshes the whole surface and waits. Nothing counts as drawn
/// afterwards, and the loop goes on.
pub proof fn lemma_tap_after_drawing_saves_and_clears(
    s: SketchState,
    pressed: Timestamp,
    released: Timestamp,
)
    requires
        s.has_drawn,
        is_tap(released, pressed),
    ensures
        ({
            let held = s.react(button_event(pressed, ButtonStatus::Pressed));
            let let_go = held.next.react(button_event(released, ButtonStatus::Released));
            &&& held.actions == Seq::<Action>::empty()
            &&& let_go.actions == seq![
                Action::Persist,
                Action::Fill { color: BLANK },
                Action::Refresh { rect: s.surface(), mode: Mode::Full },
                Action::Wait,
            ]
            &&& !let_go.quit
            &&& let_go.next == SketchState { last_pressed_time: pressed, has_drawn: false, ..s }
        }),
{
    let held = s.react(button_event(pressed, ButtonStatus::Pressed));
    let let_go = held.next.react(button_event(released, ButtonStatus::Released));
    assert(let_go.actions =~= seq![
        Action::Persist,
        Action::Fill { color: BLANK },
        Action::Refresh { rect: s.surface(), mode: Mode::Full },
        Action::Wait,
    ]);
}

/// A press of the power button that is held for the debounce window or
/// longer inverts the surface, refreshes all of it and waits. It saves
/// nothing, it leaves the drawing as it is, and the loop goes on.
pub proof fn lemma_held_press_inverts(s: SketchState, pressed: Timestamp, released: Timestamp)
    requires
        !is_tap(released, pressed),
    ensures
        ({
            let held = s.react(button_event(pressed, ButtonStatus::Pressed));
            let let_go = held.next.react(button_event(released, ButtonStatus::Released));
            &&& held.actions == Seq::<Action>::empty()
            &&& let_go.actions == seq![
                Action::Invert,
                Action::Refresh { rect: s.surface(), mode: Mode::Full },
                Action::Wait,
            ]
            &&& !let_go.quit
            &&& let_go.next == SketchState { last_pressed_time: pressed, ..s }
        }),
{
    let held = s.react(button_event(pressed, ButtonStatus::Pressed));
    let let_go = held.next.react(button_event(released, ButtonStatus::Released));
    assert(let_go.actions =~= seq![
        Action::Invert,
        Action::Refresh { rect: s.surface(), mode: Mode::Full },
        Action::Wait,
    ]);
}

/// Only a release of the power button ends the loop, and only as a tap
/// while nothing is drawn.
pub proof fn lemma_quit_needs_clean_tap(s: SketchState, e: DeviceEvent)
    ensures
        s.react(e).quit <==> (e matches DeviceEvent::Button {
            time,
            status: ButtonStatus::Released,
            ..
        } && is_tap(time, s.last_pressed_time) && !s.has_drawn),
{
}

} // verus!
