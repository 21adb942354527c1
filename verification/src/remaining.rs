//! Computing the time left until the configured end date.

use vstd::prelude::*;
use crate::dates::MAX_EPOCH_MILLIS;
use crate::dates::now_millis;
use crate::dates::parse_rfc3339_millis;
use crate::dates::rfc3339_millis_of;
use crate::duration::calculate_time_components;
use crate::duration::spec_days;
use crate::duration::spec_hours;
use crate::duration::spec_minutes;
use crate::duration::spec_seconds;
use crate::state::TimerError;
use crate::state::TimerState;

verus! {

/// A millisecond delta broken into calendar-agnostic units, plus the expiry
/// flag. Computed on demand, never stored.
#[derive(Clone, Copy, PartialEq, Eq, Structural, Debug)]
pub struct TimeRemaining {
    pub days: i64,
    pub hours: i64,
    pub minutes: i64,
    pub seconds: i64,
    pub total_ms: i64,
    pub is_expired: bool,
}

/// The record returned once the end date has passed: all fields zero, expired.
pub open spec fn spec_expired() -> TimeRemaining {
    TimeRemaining { days: 0, hours: 0, minutes: 0, seconds: 0, total_ms: 0, is_expired: true }
}

/// The decomposition of a positive millisecond delta, not yet expired.
pub open spec fn spec_live_remaining(delta_ms: int) -> TimeRemaining {
    TimeRemaining {
        days: spec_days(delta_ms) as i64,
        hours: spec_hours(delta_ms) as i64,
        minutes: spec_minutes(delta_ms) as i64,
        seconds: spec_seconds(delta_ms) as i64,
        total_ms: delta_ms as i64,
        is_expired: false,
    }
}

/// What querying the remaining time yields at instant `now_ms`: an error when
/// no end date is set or the stored string does not parse, the expired record
/// once the end has passed, and otherwise the decomposition of the positive
/// delta.
pub open spec fn spec_time_remaining(s: TimerState, now_ms: i64) -> Result<
    TimeRemaining,
    TimerError,
> {
    match s.end_date {
        None => Err(TimerError::NotConfigured),
        Some(end) => match rfc3339_millis_of(end@) {
            None => Err(TimerError::InvalidDate),
            Some(end_ms) => if end_ms <= now_ms {
                Ok(spec_expired())
            } else {
                Ok(spec_live_remaining(end_ms - now_ms))
            },
        },
    }
}

/// Remaining time against an explicit instant `now_ms` (epoch milliseconds).
pub fn time_remaining_at(state: &TimerState, now_ms: i64) -> (r: Result<
    TimeRemaining,
    TimerError,
>)
    requires
        -MAX_EPOCH_MILLIS <= now_ms <= MAX_EPOCH_MILLIS,
    ensures
        r == spec_time_remaining(*state, now_ms),
{
    match &state.end_date {
        None => Err(TimerError::NotConfigured),
        Some(end) => {
            match parse_rfc3339_millis(end.as_str()) {
                None => Err(TimerError::InvalidDate),
                Some(end_ms) => {
                    if end_ms <= now_ms {
                        Ok(
                            TimeRemaining {
                                days: 0,
                                hours: 0,
                                minutes: 0,
                                seconds: 0,
                                total_ms: 0,
                                is_expired: true,
                            },
                        )
                    } else {
                        let delta = end_ms - now_ms;
                        let (days, hours, minutes, seconds) = calculate_time_components(delta);
                        Ok(
                            TimeRemaining {
                                days,
                                hours,
                                minutes,
                                seconds,
                                total_ms: delta,
                                is_expired: false,
                            },
                        )
                    }
                },
            }
        },
    }
}

/// Remaining time against the system clock: the result is what
/// `spec_time_remaining` yields at some instant chrono can represent.
pub fn get_time_remaining(state: &TimerState) -> (r: Result<TimeRemaining, TimerError>)
    ensures
        exists|now_ms: i64|
            -MAX_EPOCH_MILLIS <= now_ms <= MAX_EPOCH_MILLIS && r == #[trigger] spec_time_remaining(
                *state,
                now_ms,
            ),
{
    let now_ms = now_millis();
    time_remaining_at(state, now_ms)
}

} // verus!
