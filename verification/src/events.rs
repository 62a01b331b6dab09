//! The event classifier: every platform-level windowing event maps to
//! exactly one frame state store mutation, or is ignored when it has no
//! mapped semantics. Classification is total, applied strictly in delivery
//! order, and has no side effect beyond the single delegated mutation.

use vstd::prelude::*;

use crate::state::AFError;
use crate::state::AFFrameState;
use crate::state::AFFrameStateView;
use crate::state::lemma_push_if_absent;
use crate::state::lemma_remove_value;

verus! {

/// A platform windowing event, reduced to the plain values the frame loop
/// core reads. Events the loop does not handle (cursor movement, touch,
/// scale-factor changes and the like) all arrive as `Unhandled`.
#[derive(PartialEq, Eq, Debug)]
pub enum AFWindowEvent {
    CloseRequested,
    Resized(u32, u32),
    Focused(bool),
    HoveredFile(String),
    HoveredFileCancelled,
    DroppedFile(String),
    KeyPressed(u32),
    KeyReleased(u32),
    Unhandled,
}

/// The one store mutation each event stands for. Total: an unhandled event
/// and an inadmissible key release both leave the state unchanged.
pub open spec fn apply_event_spec(v: AFFrameStateView, event: AFWindowEvent) -> AFFrameStateView {
    match event {
        AFWindowEvent::CloseRequested => v.close_request_spec(),
        AFWindowEvent::Resized(width, height) => v.resize_spec(width, height),
        AFWindowEvent::Focused(focused) => v.focus_spec(focused),
        AFWindowEvent::HoveredFile(path) => v.file_hover_spec(path@),
        AFWindowEvent::HoveredFileCancelled => v.hover_cancel_spec(),
        AFWindowEvent::DroppedFile(path) => v.file_drop_spec(path@),
        AFWindowEvent::KeyPressed(key) => v.key_down_spec(key),
        AFWindowEvent::KeyReleased(key) => v.key_up_spec(key),
        AFWindowEvent::Unhandled => v,
    }
}

/// Whether an event is admissible in a state: only a key release can be
/// inadmissible, when its key is not currently held.
pub open spec fn event_admissible(v: AFFrameStateView, event: AFWindowEvent) -> bool {
    match event {
        AFWindowEvent::KeyReleased(key) => v.key_up_allowed(key),
        _ => true,
    }
}

/// The state after classifying a whole event sequence in delivery order.
pub open spec fn run_events(v: AFFrameStateView, events: Seq<AFWindowEvent>) -> AFFrameStateView
    decreases events.len(),
{
    if events.len() == 0 {
        v
    } else {
        run_events(apply_event_spec(v, events[0]), events.drop_first())
    }
}

/// Whether a whole event sequence is admissible: every event is admissible
/// in the state the preceding events produced.
pub open spec fn events_admissible(v: AFFrameStateView, events: Seq<AFWindowEvent>) -> bool
    decreases events.len(),
{
    events.len() == 0 || (event_admissible(v, events[0]) && events_admissible(
        apply_event_spec(v, events[0]),
        events.drop_first(),
    ))
}

/// Classifying one event preserves well-formedness of the store model.
pub proof fn lemma_apply_event_wf(v: AFFrameStateView, event: AFWindowEvent)
    requires
        v.wf(),
    ensures
        apply_event_spec(v, event).wf(),
{
    match event {
        AFWindowEvent::KeyPressed(key) => {
            lemma_push_if_absent(v.pressed, key);
            lemma_push_if_absent(v.clicked, key);
        },
        AFWindowEvent::KeyReleased(key) => {
            lemma_remove_value(v.pressed, key);
        },
        _ => {},
    }
}

/// Classifying a whole sequence preserves well-formedness.
pub proof fn lemma_run_events_wf(v: AFFrameStateView, events: Seq<AFWindowEvent>)
    requires
        v.wf(),
    ensures
        run_events(v, events).wf(),
    decreases events.len(),
{
    if events.len() > 0 {
        lemma_apply_event_wf(v, events[0]);
        lemma_run_events_wf(apply_event_spec(v, events[0]), events.drop_first());
    }
}

/// Classifying `events` and then one more event is classifying
/// `events.push(event)`.
pub proof fn lemma_run_events_snoc(
    v: AFFrameStateView,
    events: Seq<AFWindowEvent>,
    event: AFWindowEvent,
)
    ensures
        run_events(v, events.push(event)) == apply_event_spec(run_events(v, events), event),
    decreases events.len(),
{
    if events.len() == 0 {
        reveal_with_fuel(run_events, 2);
        assert(events.push(event)[0] == event);
        assert(events.push(event).drop_first() =~= Seq::<AFWindowEvent>::empty());
    } else {
        assert(events.push(event)[0] == events[0]);
        assert(events.push(event).drop_first() =~= events.drop_first().push(event));
        lemma_run_events_snoc(apply_event_spec(v, events[0]), events.drop_first(), event);
    }
}

/// A sequence extended by one event is admissible exactly when the
/// sequence is and the new event is admissible in the state it produced.
pub proof fn lemma_events_admissible_snoc(
    v: AFFrameStateView,
    events: Seq<AFWindowEvent>,
    event: AFWindowEvent,
)
    ensures
        events_admissible(v, events.push(event)) == (events_admissible(v, events)
            && event_admissible(run_events(v, events), event)),
    decreases events.len(),
{
    lemma_run_events_snoc(v, events, event);
    if events.len() == 0 {
        reveal_with_fuel(run_events, 2);
        reveal_with_fuel(events_admissible, 2);
        assert(events.push(event)[0] == event);
        assert(events.push(event).drop_first() =~= Seq::<AFWindowEvent>::empty());
    } else {
        assert(events.push(event)[0] == events[0]);
        assert(events.push(event).drop_first() =~= events.drop_first().push(event));
        lemma_events_admissible_snoc(apply_event_spec(v, events[0]), events.drop_first(), event);
    }
}

/// In an admissible sequence, every prefix is admissible and the event
/// after a prefix is admissible in the state the prefix produced.
pub proof fn lemma_admissible_at(v: AFFrameStateView, events: Seq<AFWindowEvent>, n: int)
    requires
        0 <= n < events.len(),
        events_admissible(v, events),
    ensures
        events_admissible(v, events.take(n)),
        event_admissible(run_events(v, events.take(n)), events[n]),
    decreases n,
{
    if n == 0 {
        assert(events.take(0) =~= Seq::<AFWindowEvent>::empty());
    } else {
        let rest = events.drop_first();
        lemma_admissible_at(apply_event_spec(v, events[0]), rest, n - 1);
        assert(events.take(n)[0] == events[0]);
        assert(events.take(n).drop_first() =~= rest.take(n - 1));
        assert(rest[n - 1] == events[n]);
    }
}

/// Classifies one event: the single mutation it stands for is applied to
/// the store. A key release with no matching press is the one failure; it
/// leaves the store unchanged and is fatal to the loop.
pub fn classify_event(state: &mut AFFrameState, event: AFWindowEvent) -> (r: Result<(), AFError>)
    requires
        old(state)@.wf(),
    ensures
        final(state)@.wf(),
        event_admissible(old(state)@, event) ==> r == Ok::<(), AFError>(()) && final(state)@
            == apply_event_spec(old(state)@, event),
        !event_admissible(old(state)@, event) ==> r == Err::<(), AFError>(
            AFError::InvariantViolation,
        ) && final(state)@ == old(state)@,
{
    match event {
        AFWindowEvent::CloseRequested => {
            state.record_close_request();
            Ok(())
        },
        AFWindowEvent::Resized(width, height) => {
            state.record_resize(width, height);
            Ok(())
        },
        AFWindowEvent::Focused(focused) => {
            state.record_focus(focused);
            Ok(())
        },
        AFWindowEvent::HoveredFile(path) => {
            state.record_file_hover(path);
            Ok(())
        },
        AFWindowEvent::HoveredFileCancelled => {
            state.record_file_hover_cancel();
            Ok(())
        },
        AFWindowEvent::DroppedFile(path) => {
            state.record_file_drop(path);
            Ok(())
        },
        AFWindowEvent::KeyPressed(key) => {
            state.record_key_down(key);
            Ok(())
        },
        AFWindowEvent::KeyReleased(key) => {
            let r = state.record_key_up(key);
            proof {
                if !old(state)@.key_up_allowed(key) {
                    lemma_remove_value(old(state)@.pressed, key);
                }
            }
            r
        },
        AFWindowEvent::Unhandled => {
            Ok(())
        },
    }
}

/// Classifies a whole tick's pending events in delivery order. Stops at
/// the first inadmissible event: the store then reflects exactly the
/// admissible prefix and the violation is reported to the caller.
pub fn classify_events(state: &mut AFFrameState, events: Vec<AFWindowEvent>) -> (r: Result<
    (),
    AFError,
>)
    requires
        old(state)@.wf(),
    ensures
        final(state)@.wf(),
        events_admissible(old(state)@, events@) ==> r == Ok::<(), AFError>(()) && final(state)@
            == run_events(old(state)@, events@),
        !events_admissible(old(state)@, events@) ==> r == Err::<(), AFError>(
            AFError::InvariantViolation,
        ) && (exists|n: int|
            0 <= n < events@.len() && events_admissible(old(state)@, events@.take(n))
                && !event_admissible(run_events(old(state)@, events@.take(n)), events@[n])
                && final(state)@ == run_events(old(state)@, events@.take(n))),
{
    let ghost all = events@;
    let ghost v0 = old(state)@;
    let mut pending = events;
    proof {
        assert(all.skip(0) =~= all);
        assert(all.take(0) =~= Seq::<AFWindowEvent>::empty());
    }
    while pending.len() > 0
        invariant
            v0 == old(state)@,
            all == events@,
            v0.wf(),
            state@.wf(),
            pending@.len() <= all.len(),
            all.skip(all.len() - pending@.len()) == pending@,
            events_admissible(v0, all.take(all.len() - pending@.len())),
            state@ == run_events(v0, all.take(all.len() - pending@.len())),
        decreases pending@.len(),
    {
        let ghost i: int = all.len() - pending@.len();
        proof {
            assert(all[i] == all.skip(i)[0]);
        }
        let event = pending.remove(0);
        proof {
            assert(pending@ =~= all.skip(i + 1));
            assert(event == all[i]);
        }
        let step = classify_event(state, event);
        proof {
            lemma_events_admissible_snoc(v0, all.take(i), all[i]);
            lemma_run_events_snoc(v0, all.take(i), all[i]);
            assert(all.take(i).push(all[i]) =~= all.take(i + 1));
        }
        match step {
            Ok(()) => {},
            Err(violation) => {
                proof {
                    assert(state@ == run_events(v0, all.take(i)));
                    assert(!event_admissible(run_events(v0, all.take(i)), all[i]));
                    if events_admissible(v0, all) {
                        lemma_admissible_at(v0, all, i);
                        assert(false);
                    }
                    assert(violation == AFError::InvariantViolation);
                    assert(0 <= i < all.len() && events_admissible(v0, all.take(i))
                        && !event_admissible(run_events(v0, all.take(i)), all[i])
                        && state@ == run_events(v0, all.take(i)));
                    assert(exists|n: int|
                        0 <= n < all.len() && events_admissible(v0, all.take(n))
                            && !event_admissible(run_events(v0, all.take(n)), all[n])
                            && state@ == run_events(v0, all.take(n)));
                }
                return Err(violation);
            },
        }
    }
    proof {
        assert(all.take(all.len() as int) =~= all);
    }
    Ok(())
}

/// Pressing a key and then immediately releasing it is always admissible,
/// and the key is no longer held afterwards.
pub proof fn lemma_key_down_then_up(v: AFFrameStateView, key: u32)
    requires
        v.wf(),
    ensures
        event_admissible(apply_event_spec(v, AFWindowEvent::KeyPressed(key)),
            AFWindowEvent::KeyReleased(key)),
        !apply_event_spec(
            apply_event_spec(v, AFWindowEvent::KeyPressed(key)),
            AFWindowEvent::KeyReleased(key),
        ).pressed.contains(key),
{
    lemma_push_if_absent(v.pressed, key);
    lemma_push_if_absent(v.clicked, key);
    lemma_remove_value(apply_event_spec(v, AFWindowEvent::KeyPressed(key)).pressed, key);
}

/// A key that is not held and is never pressed over a whole event sequence
/// is still not held at its end, so releasing it then is inadmissible: a
/// release with no prior unmatched press is always a violation.
pub proof fn lemma_unmatched_key_up_rejected(
    v: AFFrameStateView,
    events: Seq<AFWindowEvent>,
    key: u32,
)
    requires
        v.wf(),
        !v.pressed.contains(key),
        forall|i: int| 0 <= i < events.len() ==> events[i] != AFWindowEvent::KeyPressed(key),
    ensures
        !run_events(v, events).pressed.contains(key),
        !events_admissible(v, events.push(AFWindowEvent::KeyReleased(key))),
    decreases events.len(),
{
    lemma_run_events_wf(v, events);
    if events.len() == 0 {
        assert(events.push(AFWindowEvent::KeyReleased(key))[0]
            == AFWindowEvent::KeyReleased(key));
    } else {
        let next = apply_event_spec(v, events[0]);
        lemma_apply_event_wf(v, events[0]);
        match events[0] {
            AFWindowEvent::KeyPressed(other) => {
                assert(other != key);
                lemma_push_if_absent(v.pressed, other);
                assert(!next.pressed.contains(key));
            },
            AFWindowEvent::KeyReleased(other) => {
                lemma_remove_value(v.pressed, other);
                assert(!next.pressed.contains(key));
            },
            _ => {
                assert(next.pressed == v.pressed);
            },
        }
        assert(forall|i: int|
            0 <= i < events.drop_first().len() ==> events.drop_first()[i] == events[i + 1]);
        lemma_unmatched_key_up_rejected(next, events.drop_first(), key);
        let whole = events.push(AFWindowEvent::KeyReleased(key));
        assert(whole[0] == events[0]);
        assert(whole.drop_first() =~= events.drop_first().push(AFWindowEvent::KeyReleased(key)));
    }
}

/// A key release whose key is not held after the events so far — never
/// pressed, or pressed and already released — makes the sequence
/// inadmissible, wherever it stands.
pub proof fn lemma_release_without_hold_rejected(
    v: AFFrameStateView,
    events: Seq<AFWindowEvent>,
    key: u32,
)
    requires
        events_admissible(v, events),
        !run_events(v, events).pressed.contains(key),
    ensures
        !events_admissible(v, events.push(AFWindowEvent::KeyReleased(key))),
{
    lemma_events_admissible_snoc(v, events, AFWindowEvent::KeyReleased(key));
}

/// A file drop always empties the hover list and queues the dropped path
/// as the last element of the drop queue.
pub proof fn lemma_file_drop(v: AFFrameStateView, path: Seq<char>)
    ensures
        v.file_drop_spec(path).hovering == Seq::<Seq<char>>::empty(),
        v.file_drop_spec(path).dropped == v.dropped.push(path),
        v.file_drop_spec(path).dropped.len() >= 1,
        v.file_drop_spec(path).dropped.last() == path,
{
}

} // verus!
