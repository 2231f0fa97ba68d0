//! Instants on the review calendar, and their fixed textual form.
//!
//! An instant is a count of whole seconds since 1970-01-01T00:00:00Z. Its text
//! is RFC 3339 in UTC with whole seconds (`2024-03-01T08:30:00Z`); that one
//! profile is written and read everywhere.
use vstd::prelude::*;

verus! {

/// The earliest instant the engine schedules from: 0001-01-01T00:00:00Z.
pub const EARLIEST_INSTANT: i64 = -62135596800;

/// The latest instant the engine schedules from: the longest interval (36500
/// days) before `LATEST_WRITTEN_INSTANT`, so that every next review it writes
/// falls within year 9999.
pub const LATEST_INSTANT: i64 = 250248700799;

/// The latest instant that is ever written as text: 9999-12-31T23:59:59Z.
pub const LATEST_WRITTEN_INSTANT: i64 = 253402300799;

/// An instant from which the engine schedules.
pub open spec fn valid_instant(t: int) -> bool {
    EARLIEST_INSTANT <= t <= LATEST_INSTANT
}

/// The RFC 3339 text (UTC, whole seconds, `Z` suffix) of an instant of years
/// 1 to 9999.
pub uninterp spec fn rfc3339_text(secs: i64) -> Seq<char>;

/// The instant that an RFC 3339 text denotes, rounded down to a whole second,
/// or `None` where the text is no RFC 3339 date-time.
pub uninterp spec fn rfc3339_instant(text: Seq<char>) -> Option<i64>;

/// Relies on chrono's `DateTime::to_rfc3339_opts` (whole seconds, `Z`) on the
/// UTC date-time of `secs`, which `DateTime::from_timestamp` builds for every
/// instant of years 1 to 262142. For years 1 to 9999 the text has a four-digit
/// year, which `DateTime::parse_from_rfc3339` reads back as the same instant.
#[verifier::external_body]
pub(crate) fn instant_text(secs: i64) -> (r: String)
    requires
        EARLIEST_INSTANT <= secs <= LATEST_WRITTEN_INSTANT,
    ensures
        r@ == rfc3339_text(secs),
        rfc3339_instant(r@) == Some(secs),
{
    let utc = chrono::DateTime::from_timestamp(secs, 0).unwrap();
    utc.to_rfc3339_opts(chrono::SecondsFormat::Secs, true)
}

/// Relies on chrono's `DateTime::parse_from_rfc3339`, which refuses any text
/// shorter than 19 bytes; the parsed date-time is read back with `timestamp`.
#[verifier::external_body]
pub(crate) fn parse_instant(text: &str) -> (r: Option<i64>)
    ensures
        r == rfc3339_instant(text@),
        text@.len() == 0 ==> r is None,
{
    match chrono::DateTime::parse_from_rfc3339(text) {
        Ok(parsed) => Some(parsed.timestamp()),
        Err(_) => None,
    }
}

} // verus!
