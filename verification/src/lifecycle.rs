//! Laws of the finger lifecycle: what the synthesizer reports for a finger
//! between the frame in which it comes down and the frame in which it
//! lifts.

use crate::geom::Point;
use crate::input::{
    DeviceEvent, FingerStatus, InputEvent, SynthState, ABS_MT_POSITION_X, ABS_MT_POSITION_Y,
    EV_ABS,
};
use vstd::prelude::*;

verus! {

/// Whether `e` reports the finger `id`.
pub open spec fn is_finger(e: DeviceEvent, id: i32) -> bool {
    e matches DeviceEvent::Finger { id: i, .. } && i == id
}

/// Whether `e` reports a finger with the given status.
pub open spec fn has_status(e: DeviceEvent, status: FingerStatus) -> bool {
    e matches DeviceEvent::Finger { status: s, .. } && s == status
}

/// The fingers that are down after `events`, where those of `down` were
/// down before.
pub open spec fn alive(down: Set<i32>, events: Seq<DeviceEvent>) -> Set<i32>
    decreases events.len(),
{
    if events.len() == 0 {
        down
    } else {
        let before = alive(down, events.drop_last());
        match events.last() {
            DeviceEvent::Finger { id, status: FingerStatus::Down, .. } => before.insert(id),
            DeviceEvent::Finger { id, status: FingerStatus::Up, .. } => before.remove(id),
            _ => before,
        }
    }
}

/// Whether `e` may follow where the fingers of `down` are down: a finger
/// comes down only when it is up, and moves or lifts only when it is down.
pub open spec fn permitted(down: Set<i32>, e: DeviceEvent) -> bool {
    match e {
        DeviceEvent::Finger { id, status, .. } => match status {
            FingerStatus::Down => !down.contains(id),
            FingerStatus::Motion => down.contains(id),
            FingerStatus::Up => down.contains(id),
        },
        DeviceEvent::Button { .. } => true,
    }
}

/// Whether every event of `events` is permitted where it stands, the
/// fingers of `down` being down before the first.
pub open spec fn orderly(down: Set<i32>, events: Seq<DeviceEvent>) -> bool
    decreases events.len(),
{
    events.len() == 0 || (orderly(down, events.drop_last()) && permitted(
        alive(down, events.drop_last()),
        events.last(),
    ))
}

/// Axis records report nothing and leave the fingers as they are.
pub proof fn lemma_axes_are_silent(s: SynthState, axes: Seq<InputEvent>)
    requires
        forall|i: int| 0 <= i < axes.len() ==> (#[trigger] axes[i]).is_axis(),
    ensures
        s.events(axes) == Seq::<DeviceEvent>::empty(),
        s.after(axes).fingers == s.fingers,
        s.after(axes).dims == s.dims,
    decreases axes.len(),
{
    if axes.len() > 0 {
        lemma_axes_are_silent(s, axes.drop_last());
        assert(axes.last().is_axis());
    }
}

/// After any axis records, a frame marker for a tracking id that is not
/// negative and not yet tracked reports exactly one event, the finger
/// coming down at the accumulated position, and the id is tracked from
/// then on.
pub proof fn lemma_unknown_id_goes_down(s: SynthState, axes: Seq<InputEvent>, sync: InputEvent)
    requires
        forall|i: int| 0 <= i < axes.len() ==> (#[trigger] axes[i]).is_axis(),
        sync.is_sync(),
        s.after(axes).id >= 0,
        !s.fingers.contains_key(s.after(axes).id),
    ensures
        s.events(axes.push(sync)) == seq![
            DeviceEvent::Finger {
                time: sync.time,
                id: s.after(axes).id,
                status: FingerStatus::Down,
                position: s.after(axes).position,
            },
        ],
        s.after(axes.push(sync)).fingers == s.fingers.insert(
            s.after(axes).id,
            s.after(axes).position,
        ),
        s.after(axes.push(sync)).fingers.contains_key(s.after(axes).id),
{
    lemma_axes_are_silent(s, axes);
    let all = axes.push(sync);
    assert(all.drop_last() == axes);
    assert(all.last() == sync);
}

/// A frame marker for a tracked id with a contact size of zero reports
/// exactly the finger lifting, at the accumulated position, and the id is
/// tracked no longer.
pub proof fn lemma_zero_contact_goes_up(s: SynthState, sync: InputEvent)
    requires
        sync.is_sync(),
        s.fingers.contains_key(s.id),
        s.pressure == 0,
    ensures
        s.emitted(sync) == Some(
            DeviceEvent::Finger {
                time: sync.time,
                id: s.id,
                status: FingerStatus::Up,
                position: s.position,
            },
        ),
        s.next(sync).fingers == s.fingers.remove(s.id),
        !s.next(sync).fingers.contains_key(s.id),
{
}

/// A frame marker for a tracked id whose position has not changed does not
/// report a motion; with a contact size other than zero it reports nothing
/// and leaves the state as it is.
pub proof fn lemma_no_motion_without_movement(s: SynthState, sync: InputEvent)
    requires
        sync.is_sync(),
        s.fingers.contains_key(s.id),
        s.fingers[s.id] == s.position,
    ensures
        s.emitted(sync) matches Some(e) ==> !has_status(e, FingerStatus::Motion),
        s.pressure != 0 ==> s.emitted(sync) is None && s.next(sync) == s,
{
    if s.pressure != 0 {
        assert(s.fingers.insert(s.id, s.position) =~= s.fingers);
    }
}

/// The raw axes map to the display exactly: a raw X sample `x` and a raw Y
/// sample `y`, in either order, leave the position at display X `y` and
/// display Y `height - 1 - x`.
pub proof fn lemma_remap_is_exact(s: SynthState, time: crate::input::Timestamp, x: i32, y: i32)
    ensures
        ({
            let rx = InputEvent { time, kind: EV_ABS, code: ABS_MT_POSITION_X, value: x };
            let ry = InputEvent { time, kind: EV_ABS, code: ABS_MT_POSITION_Y, value: y };
            let p = Point { x: y as i64, y: (s.dims.1 - 1 - x) as i64 };
            &&& s.next(rx).next(ry).position == p
            &&& s.next(ry).next(rx).position == p
            &&& p.x == y
            &&& p.y == s.dims.1 - 1 - x
        }),
{
}

/// The synthesizer's reports are orderly, and the fingers it tracks are
/// those that its reports leave down: no finger comes down twice without
/// lifting in between, and none moves or lifts that is not down.
pub proof fn lemma_reports_are_orderly(s: SynthState, records: Seq<InputEvent>)
    ensures
        orderly(s.fingers.dom(), s.events(records)),
        alive(s.fingers.dom(), s.events(records)) == s.after(records).fingers.dom(),
    decreases records.len(),
{
    if records.len() > 0 {
        let earlier = records.drop_last();
        lemma_reports_are_orderly(s, earlier);
        let before = s.after(earlier);
        let out = s.events(earlier);
        match before.emitted(records.last()) {
            Some(e) => {
                assert(out.push(e).drop_last() == out);
                assert(out.push(e).last() == e);
                assert(alive(s.fingers.dom(), out.push(e)) =~= before.next(
                    records.last(),
                ).fingers.dom());
            },
            None => {
                assert(before.next(records.last()).fingers.dom() =~= before.fingers.dom());
            },
        }
    }
}

/// Events that do not report `id` leave it down or up as it was.
pub proof fn lemma_alive_without_reports(down: Set<i32>, events: Seq<DeviceEvent>, id: i32)
    requires
        forall|j: int| 0 <= j < events.len() ==> !is_finger(#[trigger] events[j], id),
    ensures
        alive(down, events).contains(id) == down.contains(id),
    decreases events.len(),
{
    if events.len() > 0 {
        lemma_alive_without_reports(down, events.drop_last(), id);
        assert(!is_finger(events.last(), id));
    }
}

/// In orderly events, each is permitted after those before it.
pub proof fn lemma_orderly_at(down: Set<i32>, events: Seq<DeviceEvent>, k: int)
    requires
        orderly(down, events),
        0 <= k < events.len(),
    ensures
        orderly(down, events.take(k)),
        permitted(alive(down, events.take(k)), events[k]),
    decreases events.len(),
{
    if k == events.len() - 1 {
        assert(events.take(k) == events.drop_last());
    } else {
        lemma_orderly_at(down, events.drop_last(), k);
        assert(events.drop_last().take(k) == events.take(k));
    }
}

/// Once a finger has lifted, or while it has never been down, nothing is
/// reported of it until it comes down: the first report of an id that is
/// not tracked is the finger coming down.
pub proof fn lemma_untracked_id_is_silent_until_down(
    s: SynthState,
    records: Seq<InputEvent>,
    id: i32,
    k: int,
)
    requires
        !s.fingers.contains_key(id),
        0 <= k < s.events(records).len(),
        is_finger(s.events(records)[k], id),
        forall|j: int| 0 <= j < k ==> !is_finger(#[trigger] s.events(records)[j], id),
    ensures
        has_status(s.events(records)[k], FingerStatus::Down),
{
    let events = s.events(records);
    let down = s.fingers.dom();
    lemma_reports_are_orderly(s, records);
    lemma_orderly_at(down, events, k);
    assert forall|j: int| 0 <= j < events.take(k).len() implies !is_finger(
        #[trigger] events.take(k)[j],
        id,
    ) by {
        assert(events.take(k)[j] == events[j]);
    }
    lemma_alive_without_reports(down, events.take(k), id);
}

} // verus!
