//! Building the periodic notification body and the per-wake decision.

use vstd::prelude::*;
use vstd::string::StringExecFns;
use crate::dates::MAX_EPOCH_MILLIS;
use crate::dates::now_millis;
use crate::dates::parse_rfc3339_millis;
use crate::dates::rfc3339_millis_of;
use crate::duration::calculate_time_components;
use crate::duration::spec_days;
use crate::duration::spec_hours;
use crate::duration::spec_minutes;
use crate::state::TimerState;

verus! {

/// How long the scheduler waits between wakes, in seconds (six hours).
pub const WAKE_PERIOD_SECONDS: u64 = 21600;

/// The decimal digit for a value below ten.
pub open spec fn spec_digit_char(d: int) -> char {
    if d == 0 {
        '0'
    } else if d == 1 {
        '1'
    } else if d == 2 {
        '2'
    } else if d == 3 {
        '3'
    } else if d == 4 {
        '4'
    } else if d == 5 {
        '5'
    } else if d == 6 {
        '6'
    } else if d == 7 {
        '7'
    } else if d == 8 {
        '8'
    } else {
        '9'
    }
}

/// The decimal digits of `n`, most significant first, no leading zeros
/// except for `n == 0` itself.
pub open spec fn spec_decimal(n: nat) -> Seq<char>
    decreases n,
{
    if n < 10 {
        seq![spec_digit_char(n as int)]
    } else {
        spec_decimal(n / 10) + seq![spec_digit_char((n % 10) as int)]
    }
}

/// Append the decimal rendering of `n` to `out`.
pub fn append_decimal(out: &mut String, n: u64)
    ensures
        final(out)@ == old(out)@ + spec_decimal(n as nat),
    decreases n,
{
    if n >= 10 {
        append_decimal(out, n / 10);
    }
    let d = n % 10;
    let digit: &str;
    if d == 0 {
        digit = "0";
        proof {
            reveal_strlit("0");
        }
    } else if d == 1 {
        digit = "1";
        proof {
            reveal_strlit("1");
        }
    } else if d == 2 {
        digit = "2";
        proof {
            reveal_strlit("2");
        }
    } else if d == 3 {
        digit = "3";
        proof {
            reveal_strlit("3");
        }
    } else if d == 4 {
        digit = "4";
        proof {
            reveal_strlit("4");
        }
    } else if d == 5 {
        digit = "5";
        proof {
            reveal_strlit("5");
        }
    } else if d == 6 {
        digit = "6";
        proof {
            reveal_strlit("6");
        }
    } else if d == 7 {
        digit = "7";
        proof {
            reveal_strlit("7");
        }
    } else if d == 8 {
        digit = "8";
        proof {
            reveal_strlit("8");
        }
    } else {
        digit = "9";
        proof {
            reveal_strlit("9");
        }
    }
    assert(digit@ =~= seq![spec_digit_char(d as int)]);
    out.append(digit);
    assert(out@ =~= old(out)@ + spec_decimal(n as nat));
}

/// The body of a live countdown notification: the largest two non-zero units
/// of the delta (days and hours, or hours and minutes, or minutes alone).
/// Seconds never appear in the periodic notification.
pub open spec fn spec_remaining_body(delta_ms: int) -> Seq<char> {
    let d = spec_days(delta_ms);
    let h = spec_hours(delta_ms);
    let m = spec_minutes(delta_ms);
    if d > 0 {
        "⏳ Time remaining: "@ + spec_decimal(d as nat) + " days, "@ + spec_decimal(h as nat)
            + " hours"@
    } else if h > 0 {
        "⏳ Time remaining: "@ + spec_decimal(h as nat) + " hours, "@ + spec_decimal(m as nat)
            + " minutes"@
    } else {
        "⏳ Time remaining: "@ + spec_decimal(m as nat) + " minutes"@
    }
}

/// The whole notification body at instant `now_ms`: a fallback when no end
/// date is set or the stored string does not parse, an expiry message once
/// the end has passed, and otherwise the two largest units remaining.
pub open spec fn spec_notification_body(s: TimerState, now_ms: i64) -> Seq<char> {
    match s.end_date {
        None => "⏳ Time keeps flowing... Set your dates to see time remaining!"@,
        Some(end) => match rfc3339_millis_of(end@) {
            None => "⏳ Time keeps flowing... Check your hourglass progress!"@,
            Some(end_ms) => if end_ms <= now_ms {
                "⏰ Time's up! Your hourglass has run out of sand."@
            } else {
                spec_remaining_body(end_ms - now_ms)
            },
        },
    }
}

/// Build the notification body for instant `now_ms`.
pub fn notification_body(state: &TimerState, now_ms: i64) -> (b: String)
    requires
        -MAX_EPOCH_MILLIS <= now_ms <= MAX_EPOCH_MILLIS,
    ensures
        b@ == spec_notification_body(*state, now_ms),
{
    match &state.end_date {
        None => "⏳ Time keeps flowing... Set your dates to see time remaining!".to_owned(),
        Some(end) => {
            match parse_rfc3339_millis(end.as_str()) {
                None => "⏳ Time keeps flowing... Check your hourglass progress!".to_owned(),
                Some(end_ms) => {
                    if end_ms <= now_ms {
                        "⏰ Time's up! Your hourglass has run out of sand.".to_owned()
                    } else {
                        let delta = end_ms - now_ms;
                        let (days, hours, minutes, _seconds) = calculate_time_components(delta);
                        let mut b = "⏳ Time remaining: ".to_owned();
                        if days > 0 {
                            append_decimal(&mut b, days as u64);
                            b.append(" days, ");
                            append_decimal(&mut b, hours as u64);
                            b.append(" hours");
                            assert(b@ =~= spec_remaining_body(delta as int));
                        } else if hours > 0 {
                            append_decimal(&mut b, hours as u64);
                            b.append(" hours, ");
                            append_decimal(&mut b, minutes as u64);
                            b.append(" minutes");
                            assert(b@ =~= spec_remaining_body(delta as int));
                        } else {
                            append_decimal(&mut b, minutes as u64);
                            b.append(" minutes");
                            assert(b@ =~= spec_remaining_body(delta as int));
                        }
                        b
                    }
                },
            }
        },
    }
}

/// What one wake of the scheduler does.
#[derive(Debug)]
pub enum WakeStep {
    /// Notifications were switched off: the task ends itself.
    Exit,
    /// Stay alive and deliver a notification with this body.
    Notify(String),
}

/// The per-wake decision against an explicit instant: exit as soon as the
/// enabled flag is off, otherwise deliver the body for `now_ms`.
pub fn wake_step_at(state: &TimerState, now_ms: i64) -> (w: WakeStep)
    requires
        -MAX_EPOCH_MILLIS <= now_ms <= MAX_EPOCH_MILLIS,
    ensures
        state.enabled <==> w is Notify,
        w matches WakeStep::Notify(b) ==> b@ == spec_notification_body(*state, now_ms),
{
    if !state.enabled {
        WakeStep::Exit
    } else {
        WakeStep::Notify(notification_body(state, now_ms))
    }
}

/// The per-wake decision against the system clock.
pub fn wake_step(state: &TimerState) -> (w: WakeStep)
    ensures
        state.enabled <==> w is Notify,
        w matches WakeStep::Notify(b) ==> exists|now_ms: i64|
            -MAX_EPOCH_MILLIS <= now_ms <= MAX_EPOCH_MILLIS && b@ == #[trigger]
            spec_notification_body(*state, now_ms),
{
    let now_ms = now_millis();
    wake_step_at(state, now_ms)
}

} // verus!
