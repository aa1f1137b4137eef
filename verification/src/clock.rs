//! Instants in time and the RFC 3339 text that stores them.

use vstd::prelude::*;

verus! {

/// An instant: seconds since the UNIX epoch and the nanoseconds past that
/// second (from 1,000,000,000 up during a leap second).
#[derive(Debug, Clone, Copy, PartialEq, Eq, Structural)]
pub struct Timestamp {
    pub secs: i64,
    pub nanos: u32,
}

impl Timestamp {
    /// `self` is a strictly later instant than `other`.
    pub open spec fn later_than(self, other: Timestamp) -> bool {
        self.secs > other.secs || (self.secs == other.secs && self.nanos > other.nanos)
    }

    /// `self > other` for instants.
    pub fn is_after(&self, other: &Timestamp) -> (r: bool)
        ensures
            r == self.later_than(*other),
    {
        self.secs > other.secs || (self.secs == other.secs && self.nanos > other.nanos)
    }
}

/// The instant that `chrono::DateTime::parse_from_rfc3339` reads from a
/// text, if it accepts it.
pub uninterp spec fn rfc3339_reading(s: Seq<char>) -> Option<Timestamp>;

/// The instant that chrono reaches by adding a number of whole days to an
/// instant, if it stays within chrono's range.
pub uninterp spec fn days_later(secs: i64, nanos: u32, days: i64) -> Option<Timestamp>;

/// The text `chrono::DateTime::<Utc>::to_rfc3339` writes for an instant, if
/// chrono can represent it.
pub uninterp spec fn rfc3339_text(secs: i64, nanos: u32) -> Option<Seq<char>>;

/// `chrono::DateTime::parse_from_rfc3339`, read back as a UNIX timestamp
/// (`timestamp`, `timestamp_subsec_nanos`). The result is named
/// `rfc3339_reading`; which texts chrono accepts is not written out here.
/// The sub-second part is below two seconds, as chrono documents.
#[verifier::external_body]
pub(crate) fn parse_rfc3339(s: &str) -> (r: Option<Timestamp>)
    ensures
        r == rfc3339_reading(s@),
        r matches Some(t) ==> t.nanos < 2_000_000_000,
{
    match chrono::DateTime::parse_from_rfc3339(s) {
        Ok(d) => Some(Timestamp { secs: d.timestamp(), nanos: d.timestamp_subsec_nanos() }),
        Err(_) => None,
    }
}

/// `DateTime<Utc> + TimeDelta::days(days)`, done with chrono's checked
/// operations (`from_timestamp`, `TimeDelta::try_days`,
/// `checked_add_signed`); `None` where one of them is out of range. The
/// result is named `days_later`. As chrono's `NaiveTime::overflowing_add_signed`
/// shows, whole days move the timestamp by `days * 86400` seconds and keep
/// the sub-second part, except that a positive shift leaves a leap second.
/// From an instant of the years 0000 to 9999 outside a leap second, a shift
/// of at most a million days succeeds: chrono's dates reach the years
/// -262143 to 262142 (`MIN_YEAR`, `MAX_YEAR`), and such a delta is far
/// inside `TimeDelta`'s bounds.
#[verifier::external_body]
pub(crate) fn add_days(t: Timestamp, days: i64) -> (r: Option<Timestamp>)
    ensures
        r == days_later(t.secs, t.nanos, days),
        plain_rfc3339_instant(t) && -1_000_000 <= days <= 1_000_000 ==> r is Some,
        r matches Some(u) ==> (t.nanos < 1_000_000_000 ==> u.secs == t.secs + days * 86400
            && u.nanos == t.nanos),
        r matches Some(u) ==> (t.nanos >= 1_000_000_000 && days > 0 ==> u.secs == t.secs + days
            * 86400 && u.nanos == t.nanos - 1_000_000_000),
{
    let start = match chrono::DateTime::from_timestamp(t.secs, t.nanos) {
        Some(d) => d,
        None => return None,
    };
    let delta = match chrono::TimeDelta::try_days(days) {
        Some(d) => d,
        None => return None,
    };
    match start.checked_add_signed(delta) {
        Some(end) => Some(Timestamp { secs: end.timestamp(), nanos: end.timestamp_subsec_nanos() }),
        None => None,
    }
}

/// The instant lies in the years 0000 to 9999 and not in a leap second:
/// chrono writes it as a plain RFC 3339 text, with every digit of the
/// fraction it needs.
pub open spec fn plain_rfc3339_instant(t: Timestamp) -> bool {
    -62167219200 <= t.secs <= 253402300799 && t.nanos < 1_000_000_000
}

/// `chrono::DateTime::<Utc>::to_rfc3339` of the instant (built with
/// `DateTime::from_timestamp`, `None` when chrono cannot represent it). The
/// text is named `rfc3339_text`; its layout is not written out here. For an
/// instant in the years 0000 to 9999 outside a leap second, chrono
/// represents it and writes an RFC 3339 text of that very instant (four
/// digit year, exact fraction), which `DateTime::parse_from_rfc3339`,
/// accepting every RFC 3339 text, reads back as the same instant.
#[verifier::external_body]
pub(crate) fn format_rfc3339(t: Timestamp) -> (r: Option<String>)
    ensures
        r matches Some(x) ==> rfc3339_text(t.secs, t.nanos) == Some(x@),
        r is None ==> rfc3339_text(t.secs, t.nanos) is None,
        plain_rfc3339_instant(t) ==> r is Some,
        r matches Some(x) ==> (plain_rfc3339_instant(t) ==> rfc3339_reading(x@) == Some(t)),
{
    match chrono::DateTime::from_timestamp(t.secs, t.nanos) {
        Some(d) => Some(d.to_rfc3339()),
        None => None,
    }
}

/// The calendar date `DateTime::<Utc>::format("%Y-%m-%d")` writes for an
/// instant, if chrono can represent it.
pub uninterp spec fn utc_date_text(secs: i64, nanos: u32) -> Option<Seq<char>>;

/// `DateTime::from_timestamp` then `format("%Y-%m-%d")`: the UTC calendar
/// date of the instant, named `utc_date_text`; its layout is not written
/// out here. `None` where chrono cannot represent the instant, which does
/// not happen in the years 0000 to 9999 outside a leap second.
#[verifier::external_body]
pub(crate) fn format_utc_date(t: Timestamp) -> (r: Option<String>)
    ensures
        r matches Some(x) ==> utc_date_text(t.secs, t.nanos) == Some(x@),
        r is None ==> utc_date_text(t.secs, t.nanos) is None,
        plain_rfc3339_instant(t) ==> r is Some,
{
    match chrono::DateTime::from_timestamp(t.secs, t.nanos) {
        Some(d) => Some(d.format("%Y-%m-%d").to_string()),
        None => None,
    }
}

} // verus!
