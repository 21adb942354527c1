use hourglass::remaining::get_time_remaining;
use hourglass::remaining::time_remaining_at;
use hourglass::remaining::TimeRemaining;
use hourglass::state::TimerError;
use hourglass::state::TimerState;

fn state_with_end(end: &str) -> TimerState {
    let mut s = TimerState::new();
    s.set_dates("1970-01-01T00:00:00Z".to_string(), end.to_string()).unwrap();
    s
}

#[test]
fn no_end_date_is_not_configured() {
    let s = TimerState::new();
    assert_eq!(time_remaining_at(&s, 0), Err(TimerError::NotConfigured));
    assert_eq!(get_time_remaining(&s), Err(TimerError::NotConfigured));
}

#[test]
fn unparsable_end_date_is_invalid() {
    // `set_dates` never stores an unparsable string, so build the record
    // directly to exercise the error path.
    let s = TimerState {
        enabled: true,
        start_date: Some("1970-01-01T00:00:00Z".to_string()),
        end_date: Some("garbage".to_string()),
        active_task: None,
        next_task_id: 0,
    };
    assert_eq!(time_remaining_at(&s, 0), Err(TimerError::InvalidDate));
}

#[test]
fn past_end_date_gives_the_exact_expired_record() {
    let s = state_with_end("2000-01-01T00:00:00Z");
    let expected = TimeRemaining {
        days: 0,
        hours: 0,
        minutes: 0,
        seconds: 0,
        total_ms: 0,
        is_expired: true,
    };
    // An instant well after the end date.
    assert_eq!(time_remaining_at(&s, 4_000_000_000_000), Ok(expected));
    // The real clock is also long past that end date.
    assert_eq!(get_time_remaining(&s), Ok(expected));
}

#[test]
fn end_exactly_now_counts_as_expired() {
    // 1970-01-02T00:00:00Z is 86,400,000 ms after the epoch.
    let s = state_with_end("1970-01-02T00:00:00Z");
    let r = time_remaining_at(&s, 86_400_000).unwrap();
    assert!(r.is_expired);
    assert_eq!(r.total_ms, 0);
}

#[test]
fn example_delta_decomposes_to_one_day_one_hour() {
    // End 90,200,000 ms after the epoch (1 day, 1 hour, 3 minutes, 20 s),
    // queried at the epoch itself.
    let s = state_with_end("1970-01-02T01:03:20Z");
    let r = time_remaining_at(&s, 0).unwrap();
    assert_eq!(
        r,
        TimeRemaining {
            days: 1,
            hours: 1,
            minutes: 3,
            seconds: 20,
            total_ms: 90_200_000,
            is_expired: false,
        }
    );
}

#[test]
fn offset_timestamps_name_the_same_instant() {
    // 01:00 at +01:00 is the epoch instant, so one second later it is expired.
    let s = state_with_end("1970-01-01T01:00:00+01:00");
    let r = time_remaining_at(&s, 1_000).unwrap();
    assert!(r.is_expired);
    // A minute earlier there are 60 seconds left.
    let r = time_remaining_at(&s, -60_000).unwrap();
    assert!(!r.is_expired);
    assert_eq!(r.seconds, 0);
    assert_eq!(r.minutes, 1);
    assert_eq!(r.total_ms, 60_000);
}

#[test]
fn subsecond_remainder_is_dropped_from_seconds() {
    // End half a second after the epoch: not expired, but zero whole seconds.
    let s = state_with_end("1970-01-01T00:00:00.500Z");
    let r = time_remaining_at(&s, 0).unwrap();
    assert!(!r.is_expired);
    assert_eq!(r.total_ms, 500);
    assert_eq!((r.days, r.hours, r.minutes, r.seconds), (0, 0, 0, 0));
}
