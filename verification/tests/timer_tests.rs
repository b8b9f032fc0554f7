use kart_core::timer::{Timer, TimerMode};

#[test]
fn once_timers_saturate_and_stay_finished() {
    let mut t = Timer::from_millis(1000, TimerMode::Once);
    t.tick(400);
    assert!(!t.finished());
    assert!(!t.just_finished());
    t.tick(700);
    assert!(t.finished());
    assert!(t.just_finished());
    t.tick(100);
    assert!(t.finished());
}

#[test]
fn repeating_timers_report_each_crossing() {
    let mut t = Timer::from_millis(500, TimerMode::Repeating);
    t.tick(499);
    assert!(!t.just_finished());
    t.tick(1);
    assert!(t.just_finished());
    // the wrap restarted the countdown
    t.tick(200);
    assert!(!t.just_finished());
    t.tick(300);
    assert!(t.just_finished());
}

#[test]
fn zero_duration_once_timers_finish_immediately() {
    let mut t = Timer::from_millis(0, TimerMode::Once);
    t.tick(0);
    assert!(t.finished());
}
