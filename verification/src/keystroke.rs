use crate::decay::is_stale;
use crate::key::LogicalKey;
use crate::keyboard::{keys_spec, on_cap};
use crate::registry::{bump, counts_one_press, lemma_layout_press_is_recorded, Registry};
use crate::store::{
    clock_elapsed_ms, clock_start, count_cells, counts_get, counts_new, counts_set,
    stamp_entries, stamps_get, stamps_insert, stamps_new, stamps_remove, stamps_retain_fresh,
    CountTable,
};
use dashmap::DashMap;
use std::time::Instant;
use vstd::prelude::*;

verus! {

/// What outlives a restart: the running total and the press counters, by slot.
pub struct SavedKeystrokes {
    pub keystrokes: u64,
    pub keystroke_map: Vec<u64>,
}

/// The keystroke-related application state.
pub struct KeystrokeState {
    /// Number of total keystrokes ever
    keystrokes: u64,
    /// Number of keystrokes per key
    keystroke_map: CountTable,
    /// Last time keys were pressed; a key is lit while it has an entry
    last_pressed_map: DashMap<u8, u64>,
    /// The instant from which press times are measured
    epoch: Instant,
}

impl View for KeystrokeState {
    type V = Registry;

    closed spec fn view(&self) -> Registry {
        Registry {
            keystrokes: self.keystrokes,
            counts: count_cells(self.keystroke_map),
            stamps: stamp_entries(self.last_pressed_map),
        }
    }
}

impl Default for KeystrokeState {
    fn default() -> (state: Self)
        ensures
            state@ == Registry::empty(),
    {
        KeystrokeState {
            keystrokes: 0,
            keystroke_map: counts_new(),
            last_pressed_map: stamps_new(),
            epoch: clock_start(),
        }
    }
}

impl KeystrokeState {
    #[verifier::type_invariant]
    spec fn inv(self) -> bool {
        count_cells(self.keystroke_map).len() == 256
    }

    /// Brings the registry back after a restart. Nothing is lit, whatever was lit
    /// when the counters were saved.
    pub fn restore(saved: &SavedKeystrokes) -> (state: Self)
        ensures
            state@ == Registry::restored(saved.keystrokes, saved.keystroke_map@),
    {
        let mut table = counts_new();
        let n = saved.keystroke_map.len();
        let mut i: usize = 0;
        while i < n && i < 256
            invariant
                n == saved.keystroke_map@.len(),
                i <= 256,
                i <= n,
                count_cells(table).len() == 256,
                forall|j: int|
                    0 <= j < 256 ==> count_cells(table)[j] == (if j < i {
                        saved.keystroke_map@[j]
                    } else {
                        0u64
                    }),
            decreases 256 - i,
        {
            counts_set(&mut table, i as u8, saved.keystroke_map[i]);
            i = i + 1;
        }
        KeystrokeState {
            keystrokes: saved.keystrokes,
            keystroke_map: table,
            last_pressed_map: stamps_new(),
            epoch: clock_start(),
        }
    }

    /// What has to be written down so that the counters outlive a restart.
    pub fn save(&self) -> (saved: SavedKeystrokes)
        ensures
            saved.keystrokes == self@.keystrokes,
            saved.keystroke_map@ == self@.counts,
            self@.wf(),
    {
        proof {
            use_type_invariant(self);
        }
        let mut cells: Vec<u64> = Vec::new();
        let mut i: usize = 0;
        while i < 256
            invariant
                i <= 256,
                count_cells(self.keystroke_map).len() == 256,
                cells@ == count_cells(self.keystroke_map).take(i as int),
            decreases 256 - i,
        {
            cells.push(counts_get(&self.keystroke_map, i as u8));
            i = i + 1;
        }
        SavedKeystrokes { keystrokes: self.keystrokes, keystroke_map: cells }
    }

    /// Total keystrokes recorded so far.
    pub fn total_keystrokes(&self) -> (n: u64)
        ensures
            n == self@.keystrokes,
            self@.wf(),
    {
        proof {
            use_type_invariant(self);
        }
        self.keystrokes
    }

    /// How often `key` was pressed.
    pub fn press_count(&self, key: &LogicalKey) -> (n: u64)
        ensures
            n == self@.press_count(*key),
    {
        match key.slot() {
            Some(slot) => counts_get(&self.keystroke_map, slot),
            None => 0,
        }
    }

    /// When `key` was last pressed, if it is lit.
    pub fn last_active_at(&self, key: &LogicalKey) -> (at: Option<u64>)
        ensures
            at == self@.last_active_at(*key),
    {
        match key.slot() {
            Some(slot) => stamps_get(&self.last_pressed_map, slot),
            None => None,
        }
    }

    /// Tells whether `key` is lit right now.
    pub fn is_lit(&self, key: &LogicalKey) -> (lit: bool)
        ensures
            lit == self@.is_lit(*key),
    {
        self.last_active_at(key).is_some()
    }

    /// Records one press of `key` at time `now`: its counter and the total go up by
    /// one, and the key is lit from this moment on. That is so for every key of the
    /// on-screen keyboard, gaps and unbound caps included, and for every other key
    /// with a slot. Only a raw code outside the fixed table is dropped.
    pub fn record_press(&mut self, key: &LogicalKey, now: u64)
        ensures
            final(self)@ == old(self)@.record_press(*key, now),
            final(self)@.wf(),
            key.slot_spec() is Some || on_cap(keys_spec(), *key) ==> counts_one_press(
                old(self)@,
                final(self)@,
                *key,
                now,
            ),
            key.slot_spec() is None ==> final(self)@ == old(self)@,
    {
        proof {
            use_type_invariant(&*self);
            if on_cap(keys_spec(), *key) {
                lemma_layout_press_is_recorded(self@, *key, now);
            }
        }
        match key.slot() {
            Some(slot) => {
                let count = counts_get(&self.keystroke_map, slot);
                counts_set(&mut self.keystroke_map, slot, bump_count(count));
                self.keystrokes = bump_count(self.keystrokes);
                stamps_insert(&mut self.last_pressed_map, slot, now);
            },
            None => {},
        }
    }

    /// The present moment on the clock that presses are stamped with, in
    /// milliseconds since the registry was made.
    pub fn now(&self) -> u64 {
        clock_elapsed_ms(&self.epoch)
    }

    /// Records one press of `key` at the present moment, and returns the time that
    /// the press was stamped with. Every key of the on-screen keyboard is recorded,
    /// gaps and unbound caps included; only a raw code outside the fixed table is
    /// dropped.
    pub fn log_keystroke(&mut self, key: &LogicalKey) -> (now: u64)
        ensures
            final(self)@ == old(self)@.record_press(*key, now),
            final(self)@.wf(),
            key.slot_spec() is Some || on_cap(keys_spec(), *key) ==> counts_one_press(
                old(self)@,
                final(self)@,
                *key,
                now,
            ),
            key.slot_spec() is None ==> final(self)@ == old(self)@,
    {
        let now = clock_elapsed_ms(&self.epoch);
        self.record_press(key, now);
        now
    }

    /// Puts out `key` if more than `max_age` has passed since its last press.
    pub fn clear_if_stale(&mut self, key: &LogicalKey, max_age: u64, now: u64)
        ensures
            final(self)@ == old(self)@.clear_if_stale(*key, max_age, now),
            final(self)@.wf(),
    {
        proof {
            use_type_invariant(&*self);
        }
        if let Some(slot) = key.slot() {
            if let Some(last) = stamps_get(&self.last_pressed_map, slot) {
                if is_stale(last, max_age, now) {
                    stamps_remove(&mut self.last_pressed_map, slot);
                }
            }
        }
    }

    /// One pass of the decay sweeper at time `now`: puts out every key whose last
    /// press is more than `max_age` old. Counters are left alone.
    pub fn sweep(&mut self, max_age: u64, now: u64)
        ensures
            final(self)@ == old(self)@.sweep(max_age, now),
            final(self)@.wf(),
    {
        proof {
            use_type_invariant(&*self);
        }
        stamps_retain_fresh(&mut self.last_pressed_map, max_age, now);
    }

    /// One pass of the decay sweeper at the present moment, and the time at which
    /// the pass was made. `max_age`: how old from time of insertion the values can be.
    pub fn cleanup_outdated(&mut self, max_age: u64) -> (now: u64)
        ensures
            final(self)@ == old(self)@.sweep(max_age, now),
            final(self)@.wf(),
    {
        let now = clock_elapsed_ms(&self.epoch);
        self.sweep(max_age, now);
        now
    }
}

/// Adds one press to a counter that stops at `u64::MAX`.
pub fn bump_count(n: u64) -> (r: u64)
    ensures
        r == bump(n),
{
    if n < u64::MAX {
        n + 1
    } else {
        n
    }
}

} // verus!
