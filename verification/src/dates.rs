//! The chrono boundary: RFC 3339 date-string parsing and the current time.

use vstd::prelude::*;

verus! {

/// Magnitude bound on epoch milliseconds of any instant chrono can represent:
/// chrono caps years at roughly 262000 either side of the common era, which
/// keeps `timestamp_millis` well inside this bound.
pub const MAX_EPOCH_MILLIS: i64 = 9_000_000_000_000_000;

/// What chrono's RFC 3339 parser yields for a given string: `Some` of the
/// parsed instant as milliseconds since the Unix epoch when the string is a
/// valid RFC 3339 timestamp, `None` otherwise. The result depends on the
/// string alone.
pub uninterp spec fn rfc3339_millis_of(s: Seq<char>) -> Option<i64>;

/// Relies on chrono's `DateTime::parse_from_rfc3339`, which accepts exactly
/// the valid RFC 3339 timestamps, and on `DateTime::timestamp_millis`, which
/// turns the parsed instant into epoch milliseconds; chrono's bounded year
/// range keeps that value within `MAX_EPOCH_MILLIS`.
#[verifier::external_body]
pub(crate) fn parse_rfc3339_millis(s: &str) -> (r: Option<i64>)
    ensures
        r == rfc3339_millis_of(s@),
        r matches Some(ms) ==> -MAX_EPOCH_MILLIS <= ms <= MAX_EPOCH_MILLIS,
{
    match chrono::DateTime::parse_from_rfc3339(s) {
        Ok(dt) => Some(dt.timestamp_millis()),
        Err(_) => None,
    }
}

/// Relies on chrono's `From<SystemTime>` conversion for the current instant
/// (which, unlike `Utc::now`, handles a clock set before the Unix epoch) and
/// on `DateTime::timestamp_millis`; whatever the system clock reports,
/// chrono's bounded year range keeps the result within `MAX_EPOCH_MILLIS`.
#[verifier::external_body]
pub(crate) fn now_millis() -> (r: i64)
    ensures
        -MAX_EPOCH_MILLIS <= r <= MAX_EPOCH_MILLIS,
{
    chrono::DateTime::<chrono::Utc>::from(std::time::SystemTime::now()).timestamp_millis()
}

} // verus!
