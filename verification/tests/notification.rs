use hourglass::notify::append_decimal;
use hourglass::notify::notification_body;
use hourglass::notify::wake_step;
use hourglass::notify::wake_step_at;
use hourglass::notify::WakeStep;
use hourglass::state::TimerState;

fn state_with_end(end: &str) -> TimerState {
    let mut s = TimerState::new();
    s.set_dates("1970-01-01T00:00:00Z".to_string(), end.to_string()).unwrap();
    s
}

#[test]
fn decimal_rendering() {
    let mut s = String::new();
    append_decimal(&mut s, 0);
    assert_eq!(s, "0");
    let mut s = String::from("n = ");
    append_decimal(&mut s, 205);
    assert_eq!(s, "n = 205");
    let mut s = String::new();
    append_decimal(&mut s, u64::MAX);
    assert_eq!(s, "18446744073709551615");
}

#[test]
fn body_names_days_and_hours_only_when_days_remain() {
    // 2 days, 5 hours, 10 minutes = 191,400,000 ms after the epoch.
    let s = state_with_end("1970-01-03T05:10:00Z");
    let body = notification_body(&s, 0);
    assert_eq!(body, "⏳ Time remaining: 2 days, 5 hours");
    assert!(body.contains("days") && body.contains("hours"));
    assert!(!body.contains("minutes") && !body.contains("seconds"));
}

#[test]
fn body_names_hours_and_minutes_when_no_days_remain() {
    // 5 hours, 10 minutes, 30 seconds left: seconds never appear.
    let s = state_with_end("1970-01-01T05:10:30Z");
    assert_eq!(notification_body(&s, 0), "⏳ Time remaining: 5 hours, 10 minutes");
}

#[test]
fn body_names_minutes_alone_when_no_hours_remain() {
    let s = state_with_end("1970-01-01T00:10:30Z");
    assert_eq!(notification_body(&s, 0), "⏳ Time remaining: 10 minutes");
}

#[test]
fn body_announces_expiry_once_the_end_has_passed() {
    let s = state_with_end("1970-01-01T00:10:00Z");
    assert_eq!(
        notification_body(&s, 600_000),
        "⏰ Time's up! Your hourglass has run out of sand."
    );
}

#[test]
fn body_falls_back_when_no_end_date_is_set() {
    let s = TimerState::new();
    assert_eq!(
        notification_body(&s, 0),
        "⏳ Time keeps flowing... Set your dates to see time remaining!"
    );
}

#[test]
fn body_falls_back_when_the_end_date_does_not_parse() {
    let s = TimerState {
        enabled: true,
        start_date: None,
        end_date: Some("not-a-date".to_string()),
        active_task: None,
        next_task_id: 0,
    };
    assert_eq!(
        notification_body(&s, 0),
        "⏳ Time keeps flowing... Check your hourglass progress!"
    );
}

#[test]
fn wake_exits_once_disabled() {
    let mut s = state_with_end("1970-01-01T00:10:00Z");
    s.disable();
    assert!(matches!(wake_step_at(&s, 0), WakeStep::Exit));
    assert!(matches!(wake_step(&s), WakeStep::Exit));
}

#[test]
fn wake_notifies_while_enabled() {
    let s = state_with_end("1970-01-01T00:10:00Z");
    match wake_step_at(&s, 0) {
        WakeStep::Notify(body) => assert_eq!(body, "⏳ Time remaining: 10 minutes"),
        WakeStep::Exit => panic!("an enabled state must notify"),
    }
    assert!(matches!(wake_step(&s), WakeStep::Notify(_)));
}
