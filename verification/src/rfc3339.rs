//! Parsing RFC 3339 date strings into an epoch instant.  The calendar
//! arithmetic itself is done by the `chrono` crate; its outcome is a function
//! of the input characters alone and is named here, so that every contract
//! downstream can speak of it exactly.

use vstd::prelude::*;

verus! {

/// What parsing `s` as an RFC 3339 date yields: `None` when `s` is malformed,
/// otherwise the whole seconds since the epoch and the sub-second milliseconds.
pub uninterp spec fn rfc3339_instant(s: Seq<char>) -> Option<(int, int)>;

/// Relies on chrono's `DateTime::parse_from_rfc3339`, `DateTime::timestamp`
/// and `DateTime::timestamp_subsec_millis`: parsing either fails or yields an
/// instant, determined by the input characters alone.  The millisecond part is
/// below 1000, except during a leap second, where chrono documents values up
/// to 1999.
#[verifier::external_body]
pub(crate) fn parse_rfc3339(s: &str) -> (r: Option<(i64, u32)>)
    ensures
        r is Some <==> rfc3339_instant(s@) is Some,
        r matches Some(p) ==> rfc3339_instant(s@) == Some((p.0 as int, p.1 as int)) && p.1 < 2000,
{
    match chrono::DateTime::parse_from_rfc3339(s) {
        Ok(date) => Some((date.timestamp(), date.timestamp_subsec_millis())),
        Err(_) => None,
    }
}

} // verus!
