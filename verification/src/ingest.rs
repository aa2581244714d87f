use crate::key::LogicalKey;
use crate::keyboard::{keys_spec, on_cap};
use crate::keystroke::KeystrokeState;
use crate::registry::counts_one_press;
use crate::scheduler::{deadline_after, RepaintScheduler};
use vstd::prelude::*;

verus! {

/// The scheduler after a press at time `now` has been taken note of.
pub open spec fn noted(scheduler: RepaintScheduler, now: u64) -> RepaintScheduler {
    RepaintScheduler {
        deadline: Some(deadline_after(now, scheduler.lit_duration)),
        ..scheduler
    }
}

/// Takes one key event from the key hook, delivered at time `now`. Every key of
/// the on-screen keyboard, and every other key with a slot, is recorded and moves
/// the repaint deadline; the result then tells the caller to wake the scheduler
/// thread. Only a raw code outside the fixed table is dropped without a trace.
pub fn deliver(
    state: &mut KeystrokeState,
    scheduler: &mut RepaintScheduler,
    key: &LogicalKey,
    now: u64,
) -> (recorded: bool)
    ensures
        recorded == (key.slot_spec() is Some),
        on_cap(keys_spec(), *key) ==> recorded,
        final(state)@ == old(state)@.record_press(*key, now),
        final(state)@.wf(),
        recorded ==> counts_one_press(old(state)@, final(state)@, *key, now),
        *final(scheduler) == (if recorded {
            noted(*old(scheduler), now)
        } else {
            *old(scheduler)
        }),
{
    state.record_press(key, now);
    let recorded = key.slot().is_some();
    if recorded {
        scheduler.note_press(now);
    }
    recorded
}

/// Takes one key event from the key hook at the present moment. For every key of
/// the on-screen keyboard, and every other key with a slot, the result is the time
/// that the press was stamped with, and the caller wakes the scheduler thread. For
/// a raw code outside the fixed table it is `None`, and nothing has changed.
pub fn log_key(
    state: &mut KeystrokeState,
    scheduler: &mut RepaintScheduler,
    key: &LogicalKey,
) -> (pressed_at: Option<u64>)
    ensures
        pressed_at is Some == (key.slot_spec() is Some),
        on_cap(keys_spec(), *key) ==> pressed_at is Some,
        final(state)@.wf(),
        match pressed_at {
            Some(now) => final(state)@ == old(state)@.record_press(*key, now) && counts_one_press(
                old(state)@,
                final(state)@,
                *key,
                now,
            ) && *final(scheduler) == noted(*old(scheduler), now),
            None => final(state)@ == old(state)@ && *final(scheduler) == *old(scheduler),
        },
{
    let now = state.log_keystroke(key);
    if key.slot().is_some() {
        scheduler.note_press(now);
        Some(now)
    } else {
        None
    }
}

} // verus!
