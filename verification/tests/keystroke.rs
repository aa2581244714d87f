use bongocat_rs::decay::{
    is_fresh, is_stale, KEY_PRESSED_LIT_DELAY, LAST_PRESSED_CLEANUP_CHECK_INTERVAL,
    LAST_PRESSED_MAX_AGE,
};
use bongocat_rs::key::{LogicalKey, SPACER_CODE, UNBOUND_CODE};
use bongocat_rs::keystroke::{bump_count, KeystrokeState, SavedKeystrokes};
use std::sync::{Arc, Mutex};
use std::time::{Duration, Instant};

#[test]
fn fresh_registry_is_dark_and_empty() {
    let state = KeystrokeState::default();
    assert_eq!(state.total_keystrokes(), 0);
    assert_eq!(state.press_count(&LogicalKey::QKey), 0);
    assert_eq!(state.press_count(&LogicalKey::EqualKey), 0);
    assert_eq!(state.last_active_at(&LogicalKey::QKey), None);
    assert!(!state.is_lit(&LogicalKey::QKey));
    assert!(!state.is_lit(&LogicalKey::OtherKey(61)));
}

#[test]
fn press_lights_the_key_at_once() {
    let mut state = KeystrokeState::default();
    state.record_press(&LogicalKey::QKey, 17);
    assert!(state.is_lit(&LogicalKey::QKey));
    assert_eq!(state.last_active_at(&LogicalKey::QKey), Some(17));
    assert_eq!(state.press_count(&LogicalKey::QKey), 1);
    assert_eq!(state.total_keystrokes(), 1);
    assert!(!state.is_lit(&LogicalKey::WKey));
    assert_eq!(state.press_count(&LogicalKey::WKey), 0);
}

#[test]
fn a_second_press_restarts_the_clock() {
    let mut state = KeystrokeState::default();
    state.record_press(&LogicalKey::AKey, 10);
    state.record_press(&LogicalKey::AKey, 200);
    assert_eq!(state.last_active_at(&LogicalKey::AKey), Some(200));
    assert_eq!(state.press_count(&LogicalKey::AKey), 2);
    state.sweep(250, 300);
    assert!(state.is_lit(&LogicalKey::AKey));
    state.sweep(250, 451);
    assert!(!state.is_lit(&LogicalKey::AKey));
    assert_eq!(state.press_count(&LogicalKey::AKey), 2);
}

#[test]
fn q_and_w_decay_after_max_age_and_one_sweep_interval() {
    let max_age = KEY_PRESSED_LIT_DELAY;
    let sweep_interval = LAST_PRESSED_CLEANUP_CHECK_INTERVAL;
    let mut state = KeystrokeState::default();
    state.record_press(&LogicalKey::QKey, 0);
    state.record_press(&LogicalKey::WKey, 0);
    assert_eq!(state.total_keystrokes(), 2);

    state.sweep(max_age, 100);
    assert!(state.is_lit(&LogicalKey::QKey));
    assert!(state.is_lit(&LogicalKey::WKey));
    assert_eq!(state.total_keystrokes(), 2);

    state.sweep(max_age, max_age + sweep_interval + 1);
    assert!(!state.is_lit(&LogicalKey::QKey));
    assert!(!state.is_lit(&LogicalKey::WKey));
    assert_eq!(state.total_keystrokes(), 2);
    assert_eq!(state.press_count(&LogicalKey::QKey), 1);
    assert_eq!(state.press_count(&LogicalKey::WKey), 1);
}

#[test]
fn a_press_decays_only_once_more_than_max_age_has_passed() {
    let mut state = KeystrokeState::default();
    state.record_press(&LogicalKey::JKey, 1000);
    state.sweep(250, 1000);
    assert!(state.is_lit(&LogicalKey::JKey));
    state.sweep(250, 1249);
    assert!(state.is_lit(&LogicalKey::JKey));
    state.sweep(250, 1250);
    assert!(state.is_lit(&LogicalKey::JKey));
    state.sweep(250, 1251);
    assert!(!state.is_lit(&LogicalKey::JKey));
    assert_eq!(state.last_active_at(&LogicalKey::JKey), None);
}

#[test]
fn a_sweep_before_the_press_time_keeps_the_key() {
    let mut state = KeystrokeState::default();
    state.record_press(&LogicalKey::JKey, 1000);
    state.sweep(0, 5);
    assert!(state.is_lit(&LogicalKey::JKey));
    state.clear_if_stale(&LogicalKey::JKey, 0, 999);
    assert!(state.is_lit(&LogicalKey::JKey));
}

#[test]
fn sweep_puts_out_the_stale_keys_only() {
    let mut state = KeystrokeState::default();
    state.record_press(&LogicalKey::AKey, 0);
    state.record_press(&LogicalKey::BKey, 400);
    state.record_press(&LogicalKey::OtherKey(96), 100);
    state.sweep(250, 500);
    assert!(!state.is_lit(&LogicalKey::AKey));
    assert!(state.is_lit(&LogicalKey::BKey));
    assert!(!state.is_lit(&LogicalKey::OtherKey(96)));
    assert_eq!(state.last_active_at(&LogicalKey::BKey), Some(400));
    assert_eq!(state.total_keystrokes(), 3);
}

#[test]
fn sweeping_a_dark_registry_changes_nothing() {
    let mut state = KeystrokeState::default();
    state.sweep(250, 10_000);
    assert_eq!(state.total_keystrokes(), 0);
    assert!(!state.is_lit(&LogicalKey::SpaceKey));
}

#[test]
fn clear_if_stale_touches_one_key() {
    let mut state = KeystrokeState::default();
    state.record_press(&LogicalKey::AKey, 0);
    state.record_press(&LogicalKey::BKey, 0);
    state.clear_if_stale(&LogicalKey::AKey, 250, 250);
    assert!(state.is_lit(&LogicalKey::AKey));
    state.clear_if_stale(&LogicalKey::AKey, 250, 251);
    assert!(!state.is_lit(&LogicalKey::AKey));
    assert!(state.is_lit(&LogicalKey::BKey));
    state.clear_if_stale(&LogicalKey::CKey, 250, 251);
    assert!(!state.is_lit(&LogicalKey::CKey));
    assert_eq!(state.total_keystrokes(), 2);
}

#[test]
fn a_press_of_a_gap_or_an_unbound_cap_is_recorded() {
    let mut state = KeystrokeState::default();
    state.record_press(&LogicalKey::OtherKey(SPACER_CODE), 5);
    assert_eq!(state.total_keystrokes(), 1);
    assert_eq!(state.press_count(&LogicalKey::OtherKey(SPACER_CODE)), 1);
    assert_eq!(state.last_active_at(&LogicalKey::OtherKey(SPACER_CODE)), Some(5));
    assert!(state.is_lit(&LogicalKey::OtherKey(SPACER_CODE)));
    assert!(!state.is_lit(&LogicalKey::OtherKey(UNBOUND_CODE)));

    state.record_press(&LogicalKey::OtherKey(UNBOUND_CODE), 6);
    state.record_press(&LogicalKey::OtherKey(UNBOUND_CODE), 9);
    assert_eq!(state.total_keystrokes(), 3);
    assert_eq!(state.press_count(&LogicalKey::OtherKey(UNBOUND_CODE)), 2);
    assert_eq!(state.press_count(&LogicalKey::OtherKey(SPACER_CODE)), 1);
    assert_eq!(state.last_active_at(&LogicalKey::OtherKey(UNBOUND_CODE)), Some(9));

    state.sweep(250, 256);
    assert!(!state.is_lit(&LogicalKey::OtherKey(SPACER_CODE)));
    assert!(state.is_lit(&LogicalKey::OtherKey(UNBOUND_CODE)));
    assert_eq!(state.total_keystrokes(), 3);

    let at = state.log_keystroke(&LogicalKey::OtherKey(SPACER_CODE));
    assert_eq!(state.total_keystrokes(), 4);
    assert_eq!(state.press_count(&LogicalKey::OtherKey(SPACER_CODE)), 2);
    assert_eq!(state.last_active_at(&LogicalKey::OtherKey(SPACER_CODE)), Some(at));
}

#[test]
fn every_key_of_the_keyboard_is_recorded() {
    let mut state = KeystrokeState::default();
    let mut pressed = 0;
    for row in bongocat_rs::keyboard::keys() {
        for cap in row {
            let before = state.press_count(&cap.key);
            state.record_press(&cap.key, pressed);
            pressed += 1;
            assert_eq!(state.total_keystrokes(), pressed);
            assert_eq!(state.press_count(&cap.key), before + 1);
            assert_eq!(state.last_active_at(&cap.key), Some(pressed - 1));
        }
    }
    assert_eq!(pressed, 119);
}

#[test]
fn raw_codes_outside_the_table_are_dropped() {
    let mut state = KeystrokeState::default();
    state.record_press(&LogicalKey::OtherKey(12345), 5);
    state.record_press(&LogicalKey::OtherKey(u64::MAX), 5);
    state.record_press(&LogicalKey::OtherKey(0), 5);
    assert_eq!(state.total_keystrokes(), 0);
    assert!(!state.is_lit(&LogicalKey::OtherKey(12345)));
    assert!(!state.is_lit(&LogicalKey::OtherKey(u64::MAX)));
    assert_eq!(state.press_count(&LogicalKey::OtherKey(12345)), 0);
    assert_eq!(state.last_active_at(&LogicalKey::OtherKey(0)), None);
    state.clear_if_stale(&LogicalKey::OtherKey(12345), 0, 100);
    assert_eq!(state.total_keystrokes(), 0);
    assert_eq!(state.save().keystroke_map, vec![0; 256]);
}

#[test]
fn numeric_pad_operators_are_recorded_by_raw_code() {
    let mut state = KeystrokeState::default();
    for code in [61u64, 63, 69, 96, 109] {
        state.record_press(&LogicalKey::OtherKey(code), 1);
        assert!(state.is_lit(&LogicalKey::OtherKey(code)));
        assert_eq!(state.press_count(&LogicalKey::OtherKey(code)), 1);
    }
    assert_eq!(state.total_keystrokes(), 5);
    assert!(!state.is_lit(&LogicalKey::OtherKey(62)));
}

#[test]
fn total_equals_the_number_of_presses() {
    let keys = [
        LogicalKey::AKey,
        LogicalKey::SKey,
        LogicalKey::DKey,
        LogicalKey::FKey,
        LogicalKey::AKey,
        LogicalKey::SpaceKey,
        LogicalKey::AKey,
    ];
    let mut state = KeystrokeState::default();
    let mut last = 0;
    for (i, key) in keys.iter().enumerate() {
        state.record_press(key, i as u64);
        if i % 2 == 0 {
            state.sweep(1, i as u64);
        }
        assert!(state.total_keystrokes() >= last);
        last = state.total_keystrokes();
        assert_eq!(last, i as u64 + 1);
    }
    assert_eq!(state.total_keystrokes(), 7);
    assert_eq!(state.press_count(&LogicalKey::AKey), 3);
    assert_eq!(state.press_count(&LogicalKey::SKey), 1);
    assert_eq!(state.press_count(&LogicalKey::SpaceKey), 1);
    assert_eq!(state.press_count(&LogicalKey::ZKey), 0);
}

#[test]
fn two_streams_of_ten_thousand_presses_lose_no_update() {
    let state = Arc::new(Mutex::new(KeystrokeState::default()));
    let streams = [(Arc::clone(&state), LogicalKey::QKey), (Arc::clone(&state), LogicalKey::PKey)];
    let mut left = [10_000u64, 10_000u64];
    let mut seed = 0x9E37_79B9_7F4A_7C15u64;
    while left[0] + left[1] > 0 {
        seed = seed.wrapping_mul(6364136223846793005).wrapping_add(1442695040888963407);
        let mut turn = (seed >> 33) as usize % 2;
        if left[turn] == 0 {
            turn = 1 - turn;
        }
        let (shared, key) = &streams[turn];
        shared.lock().unwrap().record_press(key, 10_000 - left[turn]);
        left[turn] -= 1;
    }
    let state = state.lock().unwrap();
    assert_eq!(state.total_keystrokes(), 20_000);
    assert_eq!(state.press_count(&LogicalKey::QKey), 10_000);
    assert_eq!(state.press_count(&LogicalKey::PKey), 10_000);
}

#[test]
fn interleaved_presses_give_the_same_total_as_presses_in_turn() {
    let mut in_turn = KeystrokeState::default();
    for now in 0..50u64 {
        in_turn.record_press(&LogicalKey::QKey, now);
    }
    for now in 0..50u64 {
        in_turn.record_press(&LogicalKey::PKey, now);
    }
    let mut dealt = KeystrokeState::default();
    for now in 0..50u64 {
        dealt.record_press(&LogicalKey::PKey, now);
        dealt.record_press(&LogicalKey::QKey, now);
    }
    assert_eq!(in_turn.total_keystrokes(), 100);
    assert_eq!(dealt.total_keystrokes(), 100);
    assert_eq!(dealt.press_count(&LogicalKey::QKey), in_turn.press_count(&LogicalKey::QKey));
    assert_eq!(dealt.press_count(&LogicalKey::PKey), in_turn.press_count(&LogicalKey::PKey));
}

#[test]
fn counters_survive_a_restart_and_lights_do_not() {
    let mut state = KeystrokeState::default();
    state.record_press(&LogicalKey::QKey, 1);
    state.record_press(&LogicalKey::QKey, 2);
    state.record_press(&LogicalKey::EqualKey, 3);
    state.record_press(&LogicalKey::OtherKey(109), 4);
    assert!(state.is_lit(&LogicalKey::QKey));

    let saved = state.save();
    assert_eq!(saved.keystrokes, 4);
    assert_eq!(saved.keystroke_map.len(), 256);
    assert_eq!(saved.keystroke_map.iter().sum::<u64>(), 4);

    let reloaded = KeystrokeState::restore(&saved);
    assert_eq!(reloaded.total_keystrokes(), 4);
    assert_eq!(reloaded.press_count(&LogicalKey::QKey), 2);
    assert_eq!(reloaded.press_count(&LogicalKey::EqualKey), 1);
    assert_eq!(reloaded.press_count(&LogicalKey::OtherKey(109)), 1);
    assert_eq!(reloaded.press_count(&LogicalKey::WKey), 0);
    assert!(!reloaded.is_lit(&LogicalKey::QKey));
    assert!(!reloaded.is_lit(&LogicalKey::EqualKey));
    assert_eq!(reloaded.last_active_at(&LogicalKey::QKey), None);

    let again = reloaded.save();
    assert_eq!(again.keystrokes, saved.keystrokes);
    assert_eq!(again.keystroke_map, saved.keystroke_map);
}

#[test]
fn restore_fills_missing_counters_with_zero_and_drops_extra_ones() {
    let short = SavedKeystrokes { keystrokes: 9, keystroke_map: vec![4, 5] };
    let state = KeystrokeState::restore(&short);
    assert_eq!(state.total_keystrokes(), 9);
    assert_eq!(state.press_count(&LogicalKey::BackspaceKey), 4);
    assert_eq!(state.press_count(&LogicalKey::TabKey), 5);
    assert_eq!(state.press_count(&LogicalKey::EnterKey), 0);

    let long = SavedKeystrokes { keystrokes: 1, keystroke_map: vec![7; 300] };
    let state = KeystrokeState::restore(&long);
    assert_eq!(state.press_count(&LogicalKey::EqualKey), 7);
    assert_eq!(state.save().keystroke_map, vec![7; 256]);

    let none = SavedKeystrokes { keystrokes: 0, keystroke_map: Vec::new() };
    let state = KeystrokeState::restore(&none);
    assert_eq!(state.save().keystroke_map, vec![0; 256]);
}

#[test]
fn counters_stop_at_the_largest_value() {
    let mut cells = vec![0u64; 256];
    cells[0] = u64::MAX;
    let saved = SavedKeystrokes { keystrokes: u64::MAX - 1, keystroke_map: cells };
    let mut state = KeystrokeState::restore(&saved);
    state.record_press(&LogicalKey::BackspaceKey, 0);
    assert_eq!(state.total_keystrokes(), u64::MAX);
    assert_eq!(state.press_count(&LogicalKey::BackspaceKey), u64::MAX);
    state.record_press(&LogicalKey::BackspaceKey, 1);
    assert_eq!(state.total_keystrokes(), u64::MAX);
    assert_eq!(bump_count(41), 42);
    assert_eq!(bump_count(u64::MAX), u64::MAX);
}

#[test]
fn log_keystroke_stamps_the_press_with_the_time_it_returns() {
    let mut state = KeystrokeState::default();
    let first = state.log_keystroke(&LogicalKey::WKey);
    assert!(state.is_lit(&LogicalKey::WKey));
    assert_eq!(state.last_active_at(&LogicalKey::WKey), Some(first));
    assert_eq!(state.total_keystrokes(), 1);
    let second = state.log_keystroke(&LogicalKey::WKey);
    assert!(second >= first);
    assert_eq!(state.last_active_at(&LogicalKey::WKey), Some(second));
    assert_eq!(state.press_count(&LogicalKey::WKey), 2);
    assert_eq!(state.log_keystroke(&LogicalKey::OtherKey(12345)) >= second, true);
    assert_eq!(state.total_keystrokes(), 2);
}

#[test]
fn the_clock_does_not_run_backwards() {
    let mut state = KeystrokeState::default();
    let before = state.now();
    let pressed = state.log_keystroke(&LogicalKey::EKey);
    let after = state.now();
    assert!(before <= pressed);
    assert!(pressed <= after);
    assert!(after < 60_000);
}

#[test]
fn cleanup_outdated_sweeps_at_the_time_it_returns() {
    let mut state = KeystrokeState::default();
    let pressed = state.log_keystroke(&LogicalKey::EKey);
    let swept = state.cleanup_outdated(LAST_PRESSED_MAX_AGE);
    assert!(swept >= pressed);
    assert!(state.is_lit(&LogicalKey::EKey));

    let started = Instant::now();
    loop {
        let now = state.cleanup_outdated(0);
        if now > pressed {
            assert!(!state.is_lit(&LogicalKey::EKey));
            break;
        }
        assert!(state.is_lit(&LogicalKey::EKey));
        assert!(started.elapsed() < Duration::from_secs(10));
    }
    assert_eq!(state.total_keystrokes(), 1);
    assert_eq!(state.press_count(&LogicalKey::EKey), 1);
}

#[test]
fn stale_means_older_than_max_age() {
    assert!(!is_stale(100, 250, 100));
    assert!(!is_stale(100, 250, 350));
    assert!(is_stale(100, 250, 351));
    assert!(!is_stale(100, 250, 0));
    assert!(is_stale(0, 0, 1));
    assert!(!is_stale(0, u64::MAX, u64::MAX));
    assert!(is_fresh(100, 250, 350));
    assert!(!is_fresh(100, 250, 351));
    assert_eq!(KEY_PRESSED_LIT_DELAY, 250);
    assert_eq!(LAST_PRESSED_CLEANUP_CHECK_INTERVAL, 1000);
    assert_eq!(LAST_PRESSED_MAX_AGE, 60_000);
}
