use dioxus_timer::{format_hms, DioxusTimer, TimerState, NANOS_PER_SEC};

const S: u128 = NANOS_PER_SEC;

#[test]
fn new_timer_is_idle_and_empty() {
    let t = DioxusTimer::new();
    assert_eq!(t.state(), TimerState::Inactive);
    assert_eq!(t.remaining_time(), 0);
    assert_eq!(t.to_hms_string(), "00:00:00");
    let d = DioxusTimer::default();
    assert_eq!(d.state(), TimerState::Inactive);
    assert_eq!(d.remaining_time(), 0);
}

#[test]
fn start_runs_with_positive_length() {
    let mut t = DioxusTimer::new();
    t.set_preset_time(10 * S);
    t.start();
    assert_eq!(t.state(), TimerState::Working);
    assert_eq!(t.remaining_time(), 10 * S);
}

#[test]
fn start_with_zero_length_stays_idle() {
    let mut t = DioxusTimer::new();
    t.set_preset_time(0);
    t.start();
    assert_eq!(t.state(), TimerState::Inactive);
    t.update_at(3 * S);
    assert_eq!(t.state(), TimerState::Inactive);
}

#[test]
fn running_remaining_does_not_grow() {
    let mut t = DioxusTimer::new();
    t.set_preset_time(10 * S);
    t.start();
    let mut last = t.remaining_time();
    for now in [0, S, S, 3 * S, 7 * S] {
        t.update_at(now);
        assert_eq!(t.state(), TimerState::Working);
        assert!(t.remaining_time() <= last);
        last = t.remaining_time();
    }
    assert_eq!(last, 3 * S);
}

#[test]
fn paused_remaining_is_frozen() {
    let mut t = DioxusTimer::new();
    t.set_preset_time(10 * S);
    t.start();
    t.update_at(2 * S);
    t.pause_at(3 * S);
    t.update_at(4 * S);
    assert_eq!(t.remaining_time(), 7 * S);
    for now in [5 * S, 9 * S, 100 * S] {
        t.update_at(now);
        assert_eq!(t.state(), TimerState::Paused);
        assert_eq!(t.remaining_time(), 7 * S);
    }
}

#[test]
fn pause_time_is_not_counted() {
    // length 60 s; runs 5 s, pauses 20 s, runs 7 s more
    let mut t = DioxusTimer::new();
    t.set_preset_time(60 * S);
    t.start();
    t.update_at(0);
    t.pause_at(5 * S);
    t.update_at(25 * S);
    t.start();
    assert_eq!(t.state(), TimerState::Working);
    t.update_at(32 * S);
    assert_eq!(t.remaining_time(), 48 * S);
}

#[test]
fn completion_at_target() {
    let mut t = DioxusTimer::new();
    t.set_preset_time(10 * S);
    t.start();
    t.update_at(10 * S - 1);
    assert_eq!(t.state(), TimerState::Working);
    assert_eq!(t.remaining_time(), 1);
    t.update_at(10 * S);
    assert_eq!(t.state(), TimerState::Finished);
    assert_eq!(t.remaining_time(), 0);
    t.update_at(12 * S);
    assert_eq!(t.state(), TimerState::Finished);
    assert_eq!(t.remaining_time(), 0);
    t.start();
    t.pause_at(13 * S);
    assert_eq!(t.state(), TimerState::Finished);
}

#[test]
fn reset_from_finished_goes_idle() {
    let mut t = DioxusTimer::new();
    t.set_preset_time(10 * S);
    t.start();
    t.update_at(15 * S);
    assert_eq!(t.state(), TimerState::Finished);
    t.reset();
    assert_eq!(t.state(), TimerState::Inactive);
    t.update_at(20 * S);
    assert_eq!(t.state(), TimerState::Inactive);
    assert_eq!(t.remaining_time(), 10 * S);
}

#[test]
fn reset_rearms_running_timer() {
    let mut t = DioxusTimer::new();
    t.set_preset_time(10 * S);
    t.start();
    t.update_at(4 * S);
    assert_eq!(t.remaining_time(), 6 * S);
    t.reset();
    assert_eq!(t.state(), TimerState::Working);
    assert_eq!(t.remaining_time(), 10 * S);
}

#[test]
fn pause_twice_is_pause_once() {
    let mut t = DioxusTimer::new();
    t.set_preset_time(10 * S);
    t.start();
    t.update_at(S);
    t.pause_at(2 * S);
    let once = t.clone();
    t.pause_at(5 * S);
    assert_eq!(t.state(), TimerState::Paused);
    t.update_at(6 * S);
    let mut u = once;
    u.update_at(6 * S);
    assert_eq!(t.remaining_time(), u.remaining_time());
    assert_eq!(t.remaining_time(), 8 * S);
}

#[test]
fn pause_only_when_running() {
    let mut t = DioxusTimer::new();
    t.set_preset_time(10 * S);
    t.pause_at(S);
    assert_eq!(t.state(), TimerState::Inactive);
}

#[test]
fn renders_hours_minutes_seconds() {
    let mut t = DioxusTimer::new();
    t.set_preset_time(3725 * S);
    assert_eq!(t.remaining_time(), 3725 * S);
    assert_eq!(t.to_hms_string(), "01:02:05");
}

#[test]
fn format_hms_values() {
    assert_eq!(format_hms(0), "00:00:00");
    assert_eq!(format_hms(59), "00:00:59");
    assert_eq!(format_hms(3600), "01:00:00");
    assert_eq!(format_hms(86399), "23:59:59");
    assert_eq!(format_hms(360000), "100:00:00");
}

#[test]
fn partial_seconds_round_down() {
    let mut t = DioxusTimer::new();
    t.set_preset_time(61 * S + S / 2);
    assert_eq!(t.to_hms_string(), "00:01:01");
}

#[test]
fn finished_timer_ignores_new_length() {
    let mut t = DioxusTimer::new();
    t.set_preset_time(10 * S);
    t.start();
    t.update_at(11 * S);
    assert_eq!(t.state(), TimerState::Finished);
    t.set_preset_time(50 * S);
    assert_eq!(t.remaining_time(), 0);
    t.reset();
    t.update_at(11 * S);
    assert_eq!(t.remaining_time(), 10 * S);
}

#[test]
fn new_length_applies_at_once() {
    let mut t = DioxusTimer::new();
    t.set_preset_time(10 * S);
    t.start();
    t.update_at(4 * S);
    t.set_preset_time(30 * S);
    assert_eq!(t.state(), TimerState::Working);
    assert_eq!(t.remaining_time(), 30 * S);
}

#[test]
fn overflowing_target_clamps_to_current() {
    let mut t = DioxusTimer::new();
    t.update_at(5);
    t.set_preset_time(u128::MAX);
    assert_eq!(t.remaining_time(), 0);
    let mut u = DioxusTimer::new();
    u.set_preset_time(u128::MAX);
    assert_eq!(u.remaining_time(), u128::MAX);
}

#[test]
fn paused_overflow_clamps_to_now() {
    let mut t = DioxusTimer::new();
    t.set_preset_time(u128::MAX - 10);
    t.start();
    t.pause_at(0);
    t.update_at(20);
    assert_eq!(t.state(), TimerState::Paused);
    assert_eq!(t.remaining_time(), 0);
}

#[test]
fn clock_driven_operations() {
    let mut t = DioxusTimer::new();
    t.set_preset_time(3600 * S);
    t.start();
    t.update();
    assert_eq!(t.state(), TimerState::Working);
    assert!(t.remaining_time() <= 3600 * S);
    t.pause();
    assert_eq!(t.state(), TimerState::Paused);
    t.update();
    let frozen = t.remaining_time();
    t.update();
    assert_eq!(t.remaining_time(), frozen);
    t.start();
    assert_eq!(t.state(), TimerState::Working);
}

#[test]
fn state_labels() {
    assert_eq!(TimerState::Inactive.as_str(), "Inactive");
    assert_eq!(TimerState::Working.as_str(), "Working");
    assert_eq!(TimerState::Finished.as_str(), "Finished");
    assert_eq!(TimerState::Paused.as_str(), "Paused");
}
