//! Update timestamps: parsing the RFC 3339 text of a repository record and
//! computing its age in whole days against the current time.
use vstd::prelude::*;

verus! {

/// Outcome of parsing an RFC 3339 date-and-time text: the epoch second (UTC)
/// of the instant it names, or nothing when the text is malformed. The
/// outcome depends on the characters alone.
pub uninterp spec fn rfc3339_timestamp(s: Seq<char>) -> Option<i64>;

/// Relies on `chrono::DateTime::parse_from_rfc3339` for which texts parse,
/// and on `chrono::DateTime::timestamp` for the epoch second of the parsed
/// instant; both depend only on the characters of the text.
#[verifier::external_body]
pub(crate) fn parse_rfc3339_secs(s: &str) -> (r: Option<i64>)
    ensures
        r == rfc3339_timestamp(s@),
{
    match chrono::DateTime::parse_from_rfc3339(s) {
        Ok(dt) => Some(dt.timestamp()),
        Err(_) => None,
    }
}

/// Age in whole days of the instant `updated` seen from the instant `now`
/// (both in epoch seconds), truncated toward zero as a second count divided
/// by 86400; negative when `updated` lies in the future.
pub open spec fn age_days_spec(now: int, updated: int) -> int {
    if now >= updated {
        (now - updated) / 86400
    } else {
        -((updated - now) / 86400)
    }
}

/// Whole days elapsed between `updated` and `now`, truncated toward zero.
pub fn age_days(now: i64, updated: i64) -> (r: i64)
    ensures
        r == age_days_spec(now as int, updated as int),
{
    if now >= updated {
        let diff: u128 = (now as i128 - updated as i128) as u128;
        let days: u128 = diff / 86400;
        days as i64
    } else {
        let diff: u128 = (updated as i128 - now as i128) as u128;
        let days: u128 = diff / 86400;
        let r: i64 = (0i128 - days as i128) as i64;
        r
    }
}

} // verus!
