use bongocat_rs::decay::{KEY_PRESSED_LIT_DELAY, LAST_PRESSED_CLEANUP_CHECK_INTERVAL};
use bongocat_rs::ingest::{deliver, log_key};
use bongocat_rs::key::{LogicalKey, SPACER_CODE};
use bongocat_rs::keystroke::KeystrokeState;
use bongocat_rs::scheduler::{sweeper_action, RepaintScheduler, SchedulerAction, SweeperAction};

#[test]
fn an_idle_scheduler_sleeps_for_the_idle_interval() {
    let scheduler = RepaintScheduler::new(250, 1000);
    assert_eq!(scheduler.deadline, None);
    assert_eq!(scheduler.lit_duration, 250);
    assert_eq!(scheduler.idle_interval, 1000);
    assert_eq!(scheduler.next_action(false, 0), SchedulerAction::Sleep { timeout: 1000 });
    assert_eq!(scheduler.next_action(false, 99_999), SchedulerAction::Sleep { timeout: 1000 });
    assert_eq!(scheduler.next_action(true, 0), SchedulerAction::Stop);
}

#[test]
fn a_press_sets_the_deadline_and_a_later_press_overwrites_it() {
    let mut scheduler = RepaintScheduler::new(250, 1000);
    scheduler.note_press(100);
    assert_eq!(scheduler.deadline, Some(350));
    assert_eq!(scheduler.next_action(false, 100), SchedulerAction::Sleep { timeout: 250 });
    assert_eq!(scheduler.next_action(false, 300), SchedulerAction::Sleep { timeout: 50 });
    scheduler.note_press(300);
    assert_eq!(scheduler.deadline, Some(550));
    scheduler.note_press(200);
    assert_eq!(scheduler.deadline, Some(450));
    assert_eq!(scheduler.next_action(false, 450), SchedulerAction::Sleep { timeout: 0 });
    assert_eq!(scheduler.next_action(false, 9000), SchedulerAction::Sleep { timeout: 0 });
    assert_eq!(scheduler.next_action(true, 300), SchedulerAction::Stop);
}

#[test]
fn the_deadline_stops_at_the_end_of_time() {
    let mut scheduler = RepaintScheduler::new(250, 1000);
    scheduler.note_press(u64::MAX - 10);
    assert_eq!(scheduler.deadline, Some(u64::MAX));
    scheduler.note_press(u64::MAX - 250);
    assert_eq!(scheduler.deadline, Some(u64::MAX));
}

#[test]
fn waking_drops_a_deadline_that_has_been_reached() {
    let mut scheduler = RepaintScheduler::new(250, 1000);
    scheduler.note_press(100);
    assert_eq!(scheduler.on_wake(false, 200), SchedulerAction::Sleep { timeout: 150 });
    assert_eq!(scheduler.deadline, Some(350));
    assert_eq!(scheduler.on_wake(false, 350), SchedulerAction::Sleep { timeout: 1000 });
    assert_eq!(scheduler.deadline, None);
    assert_eq!(scheduler.on_wake(false, 400), SchedulerAction::Sleep { timeout: 1000 });
    scheduler.note_press(500);
    assert_eq!(scheduler.on_wake(true, 600), SchedulerAction::Stop);
    assert_eq!(scheduler.deadline, Some(750));
    assert_eq!(scheduler.on_wake(true, 800), SchedulerAction::Stop);
    assert_eq!(scheduler.deadline, None);
    assert_eq!(scheduler.lit_duration, 250);
    assert_eq!(scheduler.idle_interval, 1000);
}

#[test]
fn the_sweeper_sleeps_then_sweeps_until_exit() {
    assert_eq!(sweeper_action(true), SweeperAction::Stop);
    assert_eq!(
        sweeper_action(false),
        SweeperAction::SleepThenSweep {
            interval: LAST_PRESSED_CLEANUP_CHECK_INTERVAL,
            max_age: KEY_PRESSED_LIT_DELAY,
        }
    );
    assert_eq!(sweeper_action(false), SweeperAction::SleepThenSweep { interval: 1000, max_age: 250 });
}

#[test]
fn a_delivered_key_is_recorded_and_wakes_the_scheduler() {
    let mut state = KeystrokeState::default();
    let mut scheduler = RepaintScheduler::new(250, 1000);
    assert!(deliver(&mut state, &mut scheduler, &LogicalKey::QKey, 40));
    assert!(state.is_lit(&LogicalKey::QKey));
    assert_eq!(state.last_active_at(&LogicalKey::QKey), Some(40));
    assert_eq!(state.total_keystrokes(), 1);
    assert_eq!(scheduler.deadline, Some(290));
    assert!(deliver(&mut state, &mut scheduler, &LogicalKey::WKey, 90));
    assert_eq!(scheduler.deadline, Some(340));
    assert_eq!(state.total_keystrokes(), 2);
}

#[test]
fn a_delivered_raw_code_outside_the_table_is_dropped() {
    let mut state = KeystrokeState::default();
    let mut scheduler = RepaintScheduler::new(250, 1000);
    assert!(!deliver(&mut state, &mut scheduler, &LogicalKey::OtherKey(4242), 40));
    assert!(!deliver(&mut state, &mut scheduler, &LogicalKey::OtherKey(u64::MAX), 40));
    assert_eq!(state.total_keystrokes(), 0);
    assert_eq!(scheduler.deadline, None);
    assert_eq!(log_key(&mut state, &mut scheduler, &LogicalKey::OtherKey(4242)), None);
    assert_eq!(state.total_keystrokes(), 0);
    assert_eq!(scheduler, RepaintScheduler::new(250, 1000));
}

#[test]
fn a_delivered_gap_is_recorded_like_any_key_of_the_keyboard() {
    let mut state = KeystrokeState::default();
    let mut scheduler = RepaintScheduler::new(250, 1000);
    assert!(deliver(&mut state, &mut scheduler, &LogicalKey::OtherKey(SPACER_CODE), 40));
    assert_eq!(state.total_keystrokes(), 1);
    assert_eq!(state.press_count(&LogicalKey::OtherKey(SPACER_CODE)), 1);
    assert_eq!(state.last_active_at(&LogicalKey::OtherKey(SPACER_CODE)), Some(40));
    assert_eq!(scheduler.deadline, Some(290));
    let at = log_key(&mut state, &mut scheduler, &LogicalKey::OtherKey(SPACER_CODE)).unwrap();
    assert_eq!(state.total_keystrokes(), 2);
    assert_eq!(state.last_active_at(&LogicalKey::OtherKey(SPACER_CODE)), Some(at));
    assert_eq!(scheduler.deadline, Some(at + 250));
}

#[test]
fn log_key_stamps_the_press_and_moves_the_deadline() {
    let mut state = KeystrokeState::default();
    let mut scheduler = RepaintScheduler::new(250, 1000);
    let at = log_key(&mut state, &mut scheduler, &LogicalKey::SpaceKey).unwrap();
    assert_eq!(state.last_active_at(&LogicalKey::SpaceKey), Some(at));
    assert_eq!(state.press_count(&LogicalKey::SpaceKey), 1);
    assert_eq!(scheduler.deadline, Some(at + 250));
}
