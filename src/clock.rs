//! Points in time as plain values, and what chrono computes from them.

use std::fmt::Write;
use vstd::prelude::*;

verus! {

/// A UTC point in time: whole seconds since the Unix epoch and the nanoseconds
/// past that second.
#[derive(Clone, Copy, Debug, PartialEq, Eq)]
pub struct Timestamp {
    pub secs: i64,
    pub nanos: u32,
}

/// The last whole second that chrono can hold: 31 December 262142,
/// 23:59:59 UTC.
pub const MAX_SECS: i64 = 8_210_266_876_799;

impl Timestamp {
    /// A time from the epoch to the end of chrono's range, with nanoseconds
    /// below one second. The system clock gives such times.
    pub open spec fn wf(self) -> bool {
        0 <= self.secs <= MAX_SECS && self.nanos < 1_000_000_000
    }
}

/// The RFC 3339 text that chrono writes for a UTC time, with as many fraction
/// digits as the nanoseconds need (none, 3, 6 or 9) and `Z` for the offset.
pub uninterp spec fn rfc3339_text(secs: int, nanos: int) -> Seq<char>;

/// The text that chrono's `format` writes for the UTC time at whole seconds
/// `secs` under a strftime pattern.
pub uninterp spec fn utc_format_text(secs: int, pattern: Seq<char>) -> Seq<char>;

/// Relies on `chrono::Utc::now`: the system time as whole seconds since the
/// epoch (never negative, it panics before the epoch) and the nanoseconds of
/// `Duration::subsec_nanos`. It builds its result with
/// `DateTime::from_timestamp(..).unwrap()`, so the time lies in chrono's range.
#[verifier::external_body]
pub(crate) fn now() -> (r: Timestamp)
    ensures
        r.wf(),
{
    let d = chrono::Utc::now();
    Timestamp { secs: d.timestamp(), nanos: d.timestamp_subsec_nanos() }
}

/// Relies on `chrono::DateTime::to_rfc3339_opts(SecondsFormat::AutoSi, true)`,
/// which is what chrono's serde support writes for a `DateTime<Utc>`. The
/// `DateTime` comes from `DateTime::from_timestamp`, which gives `None` for a
/// time out of chrono's range and `Some` for one within it (nanoseconds below
/// one second).
#[verifier::external_body]
pub(crate) fn rfc3339(t: Timestamp) -> (r: Option<String>)
    ensures
        r matches Some(s) ==> s@ == rfc3339_text(t.secs as int, t.nanos as int),
        t.wf() ==> r is Some,
{
    match chrono::DateTime::from_timestamp(t.secs, t.nanos) {
        Some(d) => Some(d.to_rfc3339_opts(chrono::SecondsFormat::AutoSi, true)),
        None => None,
    }
}

/// Relies on `chrono::DateTime::format` for the UTC time at `secs`, written
/// out through `Display`. A time out of chrono's range, or a pattern that
/// chrono cannot write, gives `None`. A time within the range under a pattern
/// of the numeric date and time fields `%Y %m %d %H %M %S` and plain text
/// gives `Some`.
#[verifier::external_body]
pub(crate) fn format_utc(secs: i64, pattern: &str) -> (r: Option<String>)
    ensures
        r matches Some(s) ==> s@ == utc_format_text(secs as int, pattern@),
        0 <= secs <= MAX_SECS && pattern@ == "%Y-%m-%d_%H-%M-%S.json"@ ==> r is Some,
{
    let d = chrono::DateTime::from_timestamp(secs, 0)?;
    let mut out = String::new();
    write!(out, "{}", d.format(pattern)).ok()?;
    Some(out)
}

} // verus!
