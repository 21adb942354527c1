//! Decomposition of a millisecond delta into days, hours, minutes and seconds.

use vstd::prelude::*;

verus! {

/// Whole days in a non-negative millisecond delta.
pub open spec fn spec_days(ms: int) -> int {
    (ms / 1000) / 86400
}

/// Hours left over once whole days are taken out.
pub open spec fn spec_hours(ms: int) -> int {
    ((ms / 1000) % 86400) / 3600
}

/// Minutes left over once whole hours are taken out.
pub open spec fn spec_minutes(ms: int) -> int {
    ((ms / 1000) % 3600) / 60
}

/// Seconds left over once whole minutes are taken out.
pub open spec fn spec_seconds(ms: int) -> int {
    (ms / 1000) % 60
}

/// Break a non-negative millisecond delta into (days, hours, minutes,
/// seconds), each unit taken modulo the next larger one.
pub fn calculate_time_components(time_remaining_ms: i64) -> (r: (i64, i64, i64, i64))
    requires
        time_remaining_ms >= 0,
    ensures
        r.0 == spec_days(time_remaining_ms as int),
        r.1 == spec_hours(time_remaining_ms as int),
        r.2 == spec_minutes(time_remaining_ms as int),
        r.3 == spec_seconds(time_remaining_ms as int),
        0 <= r.0,
        0 <= r.1 < 24,
        0 <= r.2 < 60,
        0 <= r.3 < 60,
{
    let total_seconds = time_remaining_ms / 1000;
    let days = total_seconds / (24 * 60 * 60);
    let hours = (total_seconds % (24 * 60 * 60)) / (60 * 60);
    let minutes = (total_seconds % (60 * 60)) / 60;
    let seconds = total_seconds % 60;
    (days, hours, minutes, seconds)
}

/// Reconstructing total seconds from the decomposition loses exactly the
/// sub-second part: for a positive delta `ms`,
/// `((days * 24 + hours) * 60 + minutes) * 60 + seconds == ms / 1000`.
pub proof fn lemma_components_reconstruct(ms: int)
    requires
        ms > 0,
    ensures
        ((spec_days(ms) * 24 + spec_hours(ms)) * 60 + spec_minutes(ms)) * 60 + spec_seconds(ms)
            == ms / 1000,
{
    let t = ms / 1000;
    vstd::arithmetic::div_mod::lemma_fundamental_div_mod(t, 86400);
    vstd::arithmetic::div_mod::lemma_fundamental_div_mod(t % 86400, 3600);
    vstd::arithmetic::div_mod::lemma_fundamental_div_mod(t % 3600, 60);
    vstd::arithmetic::div_mod::lemma_mod_mod(t, 3600, 24);
    vstd::arithmetic::div_mod::lemma_mod_mod(t, 60, 60);
    assert((t % 86400) % 3600 == t % 3600);
    assert((t % 3600) % 60 == t % 60);
    assert(((t / 86400) * 24 + (t % 86400) / 3600) * 60 * 60
        == (t / 86400) * 86400 + ((t % 86400) / 3600) * 3600) by (nonlinear_arith);
    assert((((t / 86400) * 24 + (t % 86400) / 3600) * 60 + (t % 3600) / 60) * 60
        == ((t / 86400) * 24 + (t % 86400) / 3600) * 60 * 60 + ((t % 3600) / 60) * 60)
        by (nonlinear_arith);
}

} // verus!
