use crate::decay::{is_fresh_spec, is_stale_spec};
use crate::key::{lemma_slot_in_range, lemma_slot_injective, LogicalKey};
use crate::keyboard::{keys_spec, lemma_layout_keys_have_slots, on_cap};
use vstd::prelude::*;

verus! {

/// The keystroke registry as plain mathematics: the running total, one press
/// counter per slot, and the time of the last press of every lit slot.
#[verifier::ext_equal]
pub struct Registry {
    pub keystrokes: u64,
    pub counts: Seq<u64>,
    pub stamps: Map<u8, u64>,
}

/// The entries of `m` whose stamp has not yet aged past `max_age` at time `now`.
pub open spec fn fresh_entries(m: Map<u8, u64>, max_age: u64, now: u64) -> Map<u8, u64> {
    m.restrict(Set::new(|k: u8| m.dom().contains(k) && is_fresh_spec(m[k], max_age, now)))
}

/// A counter one press later. It stops at `u64::MAX` rather than wrap around.
pub open spec fn bump(n: u64) -> u64 {
    if n < u64::MAX {
        (n + 1) as u64
    } else {
        n
    }
}

impl Registry {
    /// There is a counter for each value of `u8`.
    pub open spec fn wf(self) -> bool {
        self.counts.len() == 256
    }

    /// The registry at first start: nothing counted, nothing lit.
    pub open spec fn empty() -> Registry {
        Registry { keystrokes: 0, counts: Seq::new(256, |i: int| 0u64), stamps: Map::empty() }
    }

    /// The registry after a restart: the saved counters, and nothing lit. Counters
    /// that the saved list lacks are zero.
    pub open spec fn restored(keystrokes: u64, counts: Seq<u64>) -> Registry {
        Registry {
            keystrokes,
            counts: Seq::new(
                256,
                |i: int|
                    if i < counts.len() {
                        counts[i]
                    } else {
                        0u64
                    },
            ),
            stamps: Map::empty(),
        }
    }

    /// How often `key` was pressed. A raw code outside the fixed table has no slot
    /// and is never recorded.
    pub open spec fn press_count(self, key: LogicalKey) -> u64 {
        match key.slot_spec() {
            Some(slot) => self.counts[slot as int],
            None => 0,
        }
    }

    /// When `key` was last pressed, as long as that press has not been swept away.
    pub open spec fn last_active_at(self, key: LogicalKey) -> Option<u64> {
        match key.slot_spec() {
            Some(slot) => if self.stamps.dom().contains(slot) {
                Some(self.stamps[slot])
            } else {
                None
            },
            None => None,
        }
    }

    /// A key is lit from its press until a sweep finds the press decayed.
    pub open spec fn is_lit(self, key: LogicalKey) -> bool {
        self.last_active_at(key) is Some
    }

    /// One press of `key` at time `now`: the total and the counter of the key go up
    /// by one, and the key is stamped with `now`. The one input that is dropped is
    /// a raw code outside the fixed table, which has no slot: it changes nothing.
    pub open spec fn record_press(self, key: LogicalKey, now: u64) -> Registry {
        match key.slot_spec() {
            Some(slot) => Registry {
                keystrokes: bump(self.keystrokes),
                counts: self.counts.update(slot as int, bump(self.counts[slot as int])),
                stamps: self.stamps.insert(slot, now),
            },
            None => self,
        }
    }

    /// Puts out `key` if its last press has decayed at time `now`.
    pub open spec fn clear_if_stale(self, key: LogicalKey, max_age: u64, now: u64) -> Registry {
        match self.last_active_at(key) {
            Some(last) => if is_stale_spec(last, max_age, now) {
                Registry { stamps: self.stamps.remove(key.slot_spec().unwrap()), ..self }
            } else {
                self
            },
            None => self,
        }
    }

    /// One pass of the decay sweeper at time `now`: every decayed key goes out.
    pub open spec fn sweep(self, max_age: u64, now: u64) -> Registry {
        Registry { stamps: fresh_entries(self.stamps, max_age, now), ..self }
    }
}

/// Something that happens to the registry: a press delivered by the key hook, or
/// a pass of the decay sweeper.
pub enum RegistryEvent {
    Press { key: LogicalKey, now: u64 },
    Sweep { max_age: u64, now: u64 },
}

impl RegistryEvent {
    /// A press of a key that has a slot. A press of a raw code outside the fixed
    /// table, the one input without a slot, is dropped and does not count.
    pub open spec fn is_recorded_press(self) -> bool {
        self matches RegistryEvent::Press { key, .. } && key.slot_spec() is Some
    }

    /// A press of `key`.
    pub open spec fn is_press_of(self, key: LogicalKey) -> bool {
        self matches RegistryEvent::Press { key: pressed, .. } && pressed == key
    }
}

impl Registry {
    /// The registry after one event.
    pub open spec fn step(self, event: RegistryEvent) -> Registry {
        match event {
            RegistryEvent::Press { key, now } => self.record_press(key, now),
            RegistryEvent::Sweep { max_age, now } => self.sweep(max_age, now),
        }
    }

    /// The registry after a run of events, the first of them first.
    pub open spec fn run(self, events: Seq<RegistryEvent>) -> Registry
        decreases events.len(),
    {
        if events.len() == 0 {
            self
        } else {
            self.run(events.drop_last()).step(events.last())
        }
    }
}

/// How many of `events` are presses of a key that has a slot.
pub open spec fn recorded_presses(events: Seq<RegistryEvent>) -> nat
    decreases events.len(),
{
    if events.len() == 0 {
        0
    } else {
        recorded_presses(events.drop_last()) + if events.last().is_recorded_press() {
            1nat
        } else {
            0nat
        }
    }
}

/// How many of `events` are presses of `key`.
pub open spec fn presses_of(events: Seq<RegistryEvent>, key: LogicalKey) -> nat
    decreases events.len(),
{
    if events.len() == 0 {
        0
    } else {
        presses_of(events.drop_last(), key) + if events.last().is_press_of(key) {
            1nat
        } else {
            0nat
        }
    }
}

/// A counter that has seen `n` more presses.
pub open spec fn bumped_by(start: u64, n: nat) -> u64 {
    if start + n <= u64::MAX {
        (start + n) as u64
    } else {
        u64::MAX
    }
}

/// `merged` deals out the events of `a` and of `b`, each in its own order, as two
/// threads that deliver them at the same time might.
pub open spec fn is_interleaving(
    merged: Seq<RegistryEvent>,
    a: Seq<RegistryEvent>,
    b: Seq<RegistryEvent>,
) -> bool
    decreases merged.len(),
{
    if merged.len() == 0 {
        a.len() == 0 && b.len() == 0
    } else {
        ||| a.len() > 0 && a.last() == merged.last() && is_interleaving(
            merged.drop_last(),
            a.drop_last(),
            b,
        )
        ||| b.len() > 0 && b.last() == merged.last() && is_interleaving(
            merged.drop_last(),
            a,
            b.drop_last(),
        )
    }
}

/// A run of events keeps the registry well formed.
pub proof fn lemma_run_keeps_wf(m: Registry, events: Seq<RegistryEvent>)
    requires
        m.wf(),
    ensures
        m.run(events).wf(),
    decreases events.len(),
{
    if events.len() > 0 {
        lemma_run_keeps_wf(m, events.drop_last());
    }
}

/// The total equals the number of recorded presses: after any run of events it
/// has grown by the number of presses of keys with a slot among them, whatever
/// else happened in between, and stops only at `u64::MAX`. Presses of raw codes
/// outside the fixed table are dropped and add nothing.
pub proof fn lemma_total_counts_every_press(m: Registry, events: Seq<RegistryEvent>)
    ensures
        m.run(events).keystrokes == bumped_by(m.keystrokes, recorded_presses(events)),
    decreases events.len(),
{
    if events.len() > 0 {
        lemma_total_counts_every_press(m, events.drop_last());
    }
}

/// The total never goes down: it is at least what it was after any earlier part
/// of the run.
pub proof fn lemma_total_never_decreases(m: Registry, events: Seq<RegistryEvent>, earlier: int)
    requires
        0 <= earlier <= events.len(),
    ensures
        m.run(events.take(earlier)).keystrokes <= m.run(events).keystrokes,
    decreases events.len() - earlier,
{
    if earlier == events.len() {
        assert(events.take(earlier) =~= events);
    } else {
        lemma_total_never_decreases(m, events, earlier + 1);
        assert(events.take(earlier + 1).drop_last() =~= events.take(earlier));
    }
}

/// The counter of a key equals the number of presses of that key: after any run
/// of events it has grown by exactly that many.
pub proof fn lemma_press_count_counts_every_press(
    m: Registry,
    events: Seq<RegistryEvent>,
    key: LogicalKey,
)
    requires
        m.wf(),
        key.slot_spec() is Some,
    ensures
        m.run(events).press_count(key) == bumped_by(m.press_count(key), presses_of(events, key)),
    decreases events.len(),
{
    if events.len() > 0 {
        let before = m.run(events.drop_last());
        lemma_press_count_counts_every_press(m, events.drop_last(), key);
        lemma_run_keeps_wf(m, events.drop_last());
        lemma_slot_in_range(key);
        match events.last() {
            RegistryEvent::Press { key: pressed, now } => {
                if pressed != key && pressed.slot_spec() is Some {
                    lemma_slot_in_range(pressed);
                    if pressed.slot_spec() == key.slot_spec() {
                        lemma_slot_injective(pressed, key);
                    }
                }
            },
            RegistryEvent::Sweep { .. } => {},
        }
    }
}

/// However the presses of two threads are dealt out, the recorded presses of the
/// merged run are those of the one thread plus those of the other.
pub proof fn lemma_interleaving_keeps_presses(
    merged: Seq<RegistryEvent>,
    a: Seq<RegistryEvent>,
    b: Seq<RegistryEvent>,
)
    requires
        is_interleaving(merged, a, b),
    ensures
        recorded_presses(merged) == recorded_presses(a) + recorded_presses(b),
    decreases merged.len(),
{
    if merged.len() > 0 {
        if a.len() > 0 && a.last() == merged.last() && is_interleaving(
            merged.drop_last(),
            a.drop_last(),
            b,
        ) {
            lemma_interleaving_keeps_presses(merged.drop_last(), a.drop_last(), b);
        } else {
            lemma_interleaving_keeps_presses(merged.drop_last(), a, b.drop_last());
        }
    }
}

/// No update is lost: whichever way the events of two threads are interleaved,
/// the total ends at the same value, the old total plus every recorded press of
/// both.
pub proof fn lemma_total_ignores_interleaving(
    m: Registry,
    merged: Seq<RegistryEvent>,
    a: Seq<RegistryEvent>,
    b: Seq<RegistryEvent>,
)
    requires
        is_interleaving(merged, a, b),
    ensures
        m.run(merged).keystrokes == bumped_by(
            m.keystrokes,
            recorded_presses(a) + recorded_presses(b),
        ),
{
    lemma_interleaving_keeps_presses(merged, a, b);
    lemma_total_counts_every_press(m, merged);
}

/// A press lights its key at once, stamped with the time of the press.
pub proof fn lemma_press_lights_at_once(m: Registry, key: LogicalKey, now: u64)
    requires
        key.slot_spec() is Some,
    ensures
        m.record_press(key, now).last_active_at(key) == Some(now),
        m.record_press(key, now).is_lit(key),
{
}

/// A press of one key leaves every other key as it was.
pub proof fn lemma_press_leaves_other_keys(
    m: Registry,
    key: LogicalKey,
    other: LogicalKey,
    now: u64,
)
    requires
        m.wf(),
        key != other,
    ensures
        m.record_press(key, now).last_active_at(other) == m.last_active_at(other),
        m.record_press(key, now).press_count(other) == m.press_count(other),
{
    if key.slot_spec() is Some && other.slot_spec() is Some {
        lemma_slot_in_range(key);
        lemma_slot_in_range(other);
        if key.slot_spec() == other.slot_spec() {
            lemma_slot_injective(key, other);
        }
    }
}

/// A sweep does to every key what `clear_if_stale` does to one, and touches no
/// counter.
pub proof fn lemma_sweep_clears_every_stale_key(
    m: Registry,
    key: LogicalKey,
    max_age: u64,
    now: u64,
)
    ensures
        m.sweep(max_age, now).last_active_at(key) == m.clear_if_stale(
            key,
            max_age,
            now,
        ).last_active_at(key),
        m.sweep(max_age, now).keystrokes == m.keystrokes,
        m.sweep(max_age, now).counts == m.counts,
        m.clear_if_stale(key, max_age, now).keystrokes == m.keystrokes,
        m.clear_if_stale(key, max_age, now).counts == m.counts,
{
}

/// A sweep made while no more than `max_age` has passed since the last press of a
/// key, so at any time from the press up to `max_age` later, leaves the key lit.
pub proof fn lemma_sweep_keeps_fresh_key(
    m: Registry,
    key: LogicalKey,
    last: u64,
    max_age: u64,
    now: u64,
)
    requires
        m.last_active_at(key) == Some(last),
        now - last <= max_age,
    ensures
        m.sweep(max_age, now).last_active_at(key) == Some(last),
{
}

/// A sweep made more than `max_age` after the last press of a key puts it out.
pub proof fn lemma_sweep_puts_out_decayed_key(
    m: Registry,
    key: LogicalKey,
    last: u64,
    max_age: u64,
    now: u64,
)
    requires
        m.last_active_at(key) == Some(last),
        now - last > max_age,
    ensures
        !m.sweep(max_age, now).is_lit(key),
{
}

/// As long as a key is not pressed, it is either still lit by its last press or out.
pub proof fn lemma_unpressed_key_only_decays(
    m: Registry,
    events: Seq<RegistryEvent>,
    key: LogicalKey,
)
    requires
        m.wf(),
        forall|j: int| 0 <= j < events.len() ==> !events[j].is_press_of(key),
    ensures
        m.run(events).last_active_at(key) == m.last_active_at(key) || m.run(
            events,
        ).last_active_at(key) is None,
    decreases events.len(),
{
    if events.len() > 0 {
        let before = m.run(events.drop_last());
        lemma_unpressed_key_only_decays(m, events.drop_last(), key);
        lemma_run_keeps_wf(m, events.drop_last());
        match events.last() {
            RegistryEvent::Press { key: pressed, now } => {
                assert(!events[events.len() - 1].is_press_of(key));
                lemma_press_leaves_other_keys(before, pressed, key, now);
            },
            RegistryEvent::Sweep { .. } => {},
        }
    }
}

/// The decay bound. Say the last press of a key was at time `last`, and the
/// sweeper makes a pass at least once in every `sweep_interval`. Then at any time
/// `read_at` from `last + max_age + sweep_interval` on, the key is out: the latest
/// pass, less than `sweep_interval` before `read_at`, found the press decayed, and
/// nothing but a new press lights the key again.
pub proof fn lemma_decay_bound(
    m: Registry,
    events: Seq<RegistryEvent>,
    key: LogicalKey,
    last: u64,
    max_age: u64,
    sweep_interval: u64,
    read_at: u64,
    pass: int,
)
    requires
        m.wf(),
        m.last_active_at(key) == Some(last),
        forall|j: int| 0 <= j < events.len() ==> !events[j].is_press_of(key),
        read_at >= last + max_age + sweep_interval,
        0 <= pass < events.len(),
        events[pass] matches RegistryEvent::Sweep { max_age: age, now: swept_at } && age == max_age
            && read_at - sweep_interval < swept_at <= read_at,
    ensures
        !m.run(events).is_lit(key),
    decreases events.len(),
{
    let before = m.run(events.drop_last());
    lemma_run_keeps_wf(m, events.drop_last());
    if pass == events.len() - 1 {
        lemma_unpressed_key_only_decays(m, events.drop_last(), key);
    } else {
        lemma_decay_bound(
            m,
            events.drop_last(),
            key,
            last,
            max_age,
            sweep_interval,
            read_at,
            pass,
        );
        match events.last() {
            RegistryEvent::Press { key: pressed, now } => {
                assert(!events[events.len() - 1].is_press_of(key));
                lemma_press_leaves_other_keys(before, pressed, key, now);
            },
            RegistryEvent::Sweep { .. } => {},
        }
    }
}

/// The other half of the decay bound. Say the last press of a key was at time
/// `last`. Whatever else is pressed, and however often the sweeper passes, the
/// key stays lit as long as every pass is made no later than the `max_age` of
/// that pass after `last`.
pub proof fn lemma_lit_until_decay(
    m: Registry,
    events: Seq<RegistryEvent>,
    key: LogicalKey,
    last: u64,
)
    requires
        m.wf(),
        m.last_active_at(key) == Some(last),
        forall|j: int| 0 <= j < events.len() ==> !events[j].is_press_of(key),
        forall|j: int|
            0 <= j < events.len() ==> (#[trigger] events[j] matches RegistryEvent::Sweep {
                max_age,
                now,
            } ==> now - last <= max_age),
    ensures
        m.run(events).last_active_at(key) == Some(last),
    decreases events.len(),
{
    if events.len() > 0 {
        let before = m.run(events.drop_last());
        lemma_lit_until_decay(m, events.drop_last(), key, last);
        lemma_run_keeps_wf(m, events.drop_last());
        match events.last() {
            RegistryEvent::Press { key: pressed, now } => {
                assert(!events[events.len() - 1].is_press_of(key));
                lemma_press_leaves_other_keys(before, pressed, key, now);
            },
            RegistryEvent::Sweep { max_age, now } => {
                assert(events[events.len() - 1] is Sweep);
            },
        }
    }
}

/// A restart keeps the total and every counter exactly, and leaves no key lit,
/// whatever was lit before.
pub proof fn lemma_restart_keeps_counts(m: Registry, key: LogicalKey)
    requires
        m.wf(),
    ensures
        Registry::restored(m.keystrokes, m.counts).wf(),
        Registry::restored(m.keystrokes, m.counts).keystrokes == m.keystrokes,
        Registry::restored(m.keystrokes, m.counts).counts == m.counts,
        Registry::restored(m.keystrokes, m.counts).press_count(key) == m.press_count(key),
        !Registry::restored(m.keystrokes, m.counts).is_lit(key),
{
    assert(Registry::restored(m.keystrokes, m.counts).counts =~= m.counts);
}

/// `after` is `before` with one more press of `key` counted, at time `now`: the
/// total and the counter of the key have gone up by one, and the key is lit,
/// stamped with `now`.
pub open spec fn counts_one_press(
    before: Registry,
    after: Registry,
    key: LogicalKey,
    now: u64,
) -> bool {
    &&& after.keystrokes == bump(before.keystrokes)
    &&& after.press_count(key) == bump(before.press_count(key))
    &&& after.last_active_at(key) == Some(now)
}

/// How many of `events` are presses, of whatever key.
pub open spec fn press_events(events: Seq<RegistryEvent>) -> nat
    decreases events.len(),
{
    if events.len() == 0 {
        0
    } else {
        press_events(events.drop_last()) + if events.last() is Press {
            1nat
        } else {
            0nat
        }
    }
}

/// Every press in `events` is of a key that lies on a cap of the on-screen
/// keyboard, be it a key cap, a gap or an unbound cap.
pub open spec fn presses_on_layout(events: Seq<RegistryEvent>) -> bool {
    forall|j: int|
        0 <= j < events.len() ==> (#[trigger] events[j] matches RegistryEvent::Press { key, .. }
            ==> on_cap(keys_spec(), key))
}

/// A press of a key that lies on a cap of the on-screen keyboard, gaps and
/// unbound caps included, is never dropped: the total and the counter of the key
/// go up by one, and the key is lit at once, stamped with the time of the press.
pub proof fn lemma_layout_press_is_recorded(m: Registry, key: LogicalKey, now: u64)
    requires
        m.wf(),
        on_cap(keys_spec(), key),
    ensures
        counts_one_press(m, m.record_press(key, now), key, now),
        m.record_press(key, now).is_lit(key),
{
    lemma_layout_keys_have_slots(key);
    lemma_slot_in_range(key);
}

/// The only input that is dropped lies on no cap of the on-screen keyboard: it is
/// a raw code outside the fixed table, and a press of it changes nothing.
pub proof fn lemma_dropped_input_is_off_layout(m: Registry, key: LogicalKey, now: u64)
    requires
        key.slot_spec() is None,
    ensures
        key is OtherKey,
        !on_cap(keys_spec(), key),
        m.record_press(key, now) == m,
{
    if on_cap(keys_spec(), key) {
        lemma_layout_keys_have_slots(key);
    }
}

/// Every press of a key of the layout is a recorded press.
pub proof fn lemma_layout_presses_are_recorded(events: Seq<RegistryEvent>)
    requires
        presses_on_layout(events),
    ensures
        recorded_presses(events) == press_events(events),
    decreases events.len(),
{
    if events.len() > 0 {
        assert forall|j: int| 0 <= j < events.drop_last().len() implies (
        #[trigger] events.drop_last()[j] matches RegistryEvent::Press { key, .. } ==> on_cap(
            keys_spec(),
            key,
        )) by {
            assert(events.drop_last()[j] == events[j]);
        }
        lemma_layout_presses_are_recorded(events.drop_last());
        let last = events[events.len() - 1];
        match last {
            RegistryEvent::Press { key, .. } => {
                lemma_layout_keys_have_slots(key);
            },
            RegistryEvent::Sweep { .. } => {},
        }
    }
}

/// The total equals the number of presses delivered: after any run of events in
/// which every press is of a key of the layout, the total has grown by the number
/// of presses, whatever else happened in between, and stops only at `u64::MAX`.
pub proof fn lemma_total_counts_every_layout_press(m: Registry, events: Seq<RegistryEvent>)
    requires
        presses_on_layout(events),
    ensures
        m.run(events).keystrokes == bumped_by(m.keystrokes, press_events(events)),
{
    lemma_layout_presses_are_recorded(events);
    lemma_total_counts_every_press(m, events);
}

} // verus!
