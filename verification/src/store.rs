//! The containers behind the keystroke registry and the clock that stamps presses.
//!
//! Everything in this file is taken on trust: each contract restates what the
//! named outside function does, and nothing here is proved. The maps are only
//! ever reached through a unique reference, so no other thread and no guard into
//! a map can be in the way of a call.

use crate::decay::is_fresh;
use crate::registry::fresh_entries;
use dashmap::DashMap;
use enum_map::EnumMap;
use std::time::Instant;
use vstd::prelude::*;

verus! {

/// `dashmap::DashMap`, carried as an opaque value.
#[verifier::external_type_specification]
#[verifier::external_body]
#[verifier::reject_recursive_types(K)]
#[verifier::reject_recursive_types(V)]
#[verifier::reject_recursive_types(S)]
pub struct ExDashMap<K, V, S>(DashMap<K, V, S>);

/// `std::time::Instant`, carried as an opaque value.
#[verifier::external_type_specification]
#[verifier::external_body]
pub struct ExInstant(Instant);

/// An `enum_map::EnumMap<u8, u64>`: one counter for each of the 256 values of `u8`.
#[verifier::external_body]
pub struct CountTable {
    cells: EnumMap<u8, u64>,
}

/// The entries that a `DashMap<u8, u64>` holds.
pub uninterp spec fn stamp_entries(m: DashMap<u8, u64>) -> Map<u8, u64>;

/// The counters of a `CountTable`, in key order.
pub uninterp spec fn count_cells(t: CountTable) -> Seq<u64>;

/// `DashMap::new`: a map without entries.
#[verifier::external_body]
pub(crate) fn stamps_new() -> (m: DashMap<u8, u64>)
    ensures
        (stamp_entries(m) == Map::<u8, u64>::empty()),
{
    DashMap::new()
}

/// `DashMap::insert`: afterwards `key` maps to `at`, and every other entry is as it
/// was. The call does not panic.
#[verifier::external_body]
pub(crate) fn stamps_insert(m: &mut DashMap<u8, u64>, key: u8, at: u64)
    ensures
        stamp_entries(*final(m)) == stamp_entries(*old(m)).insert(key, at),
    no_unwind
{
    m.insert(key, at);
}

/// `DashMap::get`: the value stored under `key`, if there is one.
#[verifier::external_body]
pub(crate) fn stamps_get(m: &DashMap<u8, u64>, key: u8) -> (r: Option<u64>)
    ensures
        r == (if stamp_entries(*m).dom().contains(key) {
            Some(stamp_entries(*m)[key])
        } else {
            None
        }),
{
    m.get(&key).map(|at| *at)
}

/// `DashMap::remove`: afterwards `key` has no entry, and every other entry is as it
/// was. The call does not panic.
#[verifier::external_body]
pub(crate) fn stamps_remove(m: &mut DashMap<u8, u64>, key: u8)
    ensures
        stamp_entries(*final(m)) == stamp_entries(*old(m)).remove(key),
    no_unwind
{
    m.remove(&key);
}

/// `DashMap::retain`, with `is_fresh` of the stored time as the predicate: the
/// entries for which it holds stay as they were, the others are gone. The call
/// does not panic.
#[verifier::external_body]
pub(crate) fn stamps_retain_fresh(m: &mut DashMap<u8, u64>, max_age: u64, now: u64)
    ensures
        stamp_entries(*final(m)) == fresh_entries(stamp_entries(*old(m)), max_age, now),
    no_unwind
{
    m.retain(|_, at| is_fresh(*at, max_age, now));
}

/// `EnumMap::default`: every one of the 256 counters is zero.
#[verifier::external_body]
pub(crate) fn counts_new() -> (t: CountTable)
    ensures
        count_cells(t) == Seq::new(256, |i: int| 0u64),
{
    CountTable { cells: EnumMap::default() }
}

/// Indexing an `EnumMap` by key: the counter stored for `key`. Every `u8` is a
/// valid key.
#[verifier::external_body]
pub(crate) fn counts_get(t: &CountTable, key: u8) -> (n: u64)
    ensures
        n == count_cells(*t)[key as int],
{
    t.cells[key]
}

/// Assigning through an `EnumMap` index: the counter for `key` becomes `n`, and
/// every other counter is as it was. Every `u8` is a valid key, so the call does
/// not panic.
#[verifier::external_body]
pub(crate) fn counts_set(t: &mut CountTable, key: u8, n: u64)
    ensures
        count_cells(*final(t)) == count_cells(*old(t)).update(key as int, n),
    no_unwind
{
    t.cells[key] = n;
}

/// `Instant::now`: the current reading of the monotonic clock. Nothing is known of it.
#[verifier::external_body]
pub(crate) fn clock_start() -> Instant {
    Instant::now()
}

/// `Instant::elapsed`, in whole milliseconds, held at `u64::MAX` should it ever
/// exceed that. The reading depends on when it is taken, so nothing is promised of it.
#[verifier::external_body]
pub(crate) fn clock_elapsed_ms(epoch: &Instant) -> u64 {
    u64::try_from(epoch.elapsed().as_millis()).unwrap_or(u64::MAX)
}

} // verus!
