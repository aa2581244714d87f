use vstd::prelude::*;

verus! {

/// How long a key stays lit after its last press, in milliseconds.
pub const KEY_PRESSED_LIT_DELAY: u64 = 250;

/// How long the decay sweeper sleeps between two passes, in milliseconds.
pub const LAST_PRESSED_CLEANUP_CHECK_INTERVAL: u64 = 1000;

/// The oldest press that is still remembered, in milliseconds.
pub const LAST_PRESSED_MAX_AGE: u64 = 60_000;

/// A press at time `last` has decayed at time `now` once more than `max_age` lies between them.
pub open spec fn is_stale_spec(last: u64, max_age: u64, now: u64) -> bool {
    now - last > max_age
}

/// A press that has not decayed yet.
pub open spec fn is_fresh_spec(last: u64, max_age: u64, now: u64) -> bool {
    !is_stale_spec(last, max_age, now)
}

/// Tells whether a press at time `last` has decayed at time `now`.
pub fn is_stale(last: u64, max_age: u64, now: u64) -> (r: bool)
    ensures
        r == is_stale_spec(last, max_age, now),
{
    now > last && now - last > max_age
}

/// Tells whether a press at time `last` is still within `max_age` at time `now`.
pub fn is_fresh(last: u64, max_age: u64, now: u64) -> (r: bool)
    ensures
        r == is_fresh_spec(last, max_age, now),
{
    !is_stale(last, max_age, now)
}

} // verus!
