//! Instants on the UTC time line, read and written by the `chrono` crate.

use vstd::prelude::*;

verus! {

/// An instant: whole seconds since 1970-01-01 00:00:00 UTC, leap seconds not
/// counted, and the nanoseconds since that second began. During a leap
/// second the nanoseconds run on past 999,999,999.
#[derive(Debug, Clone, Copy, PartialEq, Eq, Structural)]
pub struct Timestamp {
    pub secs: i64,
    pub nanos: u32,
}

impl Timestamp {
    /// Whether this instant is strictly later than `other`.
    pub open spec fn later_than(self, other: Timestamp) -> bool {
        self.secs > other.secs || (self.secs == other.secs && self.nanos > other.nanos)
    }

    /// Whether this instant is strictly later than `other`.
    pub fn is_after(&self, other: &Timestamp) -> (later: bool)
        ensures
            later == self.later_than(*other),
    {
        self.secs > other.secs || (self.secs == other.secs && self.nanos > other.nanos)
    }
}

/// What reading `text` as an RFC 3339 date and time gives: the instant, or
/// the message of the parse error.
pub uninterp spec fn rfc3339_instant(text: Seq<char>) -> Result<Timestamp, Seq<char>>;

/// How an instant is written out as a date and time in UTC, if it lies in
/// the range of dates that can be written.
pub uninterp spec fn utc_display(secs: i64, nanos: u32) -> Option<Seq<char>>;

/// Calls `chrono::DateTime::parse_from_rfc3339`, then `timestamp` and
/// `timestamp_subsec_nanos` on the date, or `to_string` on the error.
/// Trusted: the instant, or the message of the error, depends on the text
/// alone.
#[verifier::external_body]
pub(crate) fn parse_rfc3339(text: &str) -> (r: Result<Timestamp, String>)
    ensures
        match r {
            Ok(t) => rfc3339_instant(text@) == Ok::<Timestamp, Seq<char>>(t),
            Err(message) => rfc3339_instant(text@) == Err::<Timestamp, Seq<char>>(message@),
        },
{
    match chrono::DateTime::parse_from_rfc3339(text) {
        Ok(t) => Ok(Timestamp { secs: t.timestamp(), nanos: t.timestamp_subsec_nanos() }),
        Err(e) => Err(e.to_string()),
    }
}

/// Calls `chrono::DateTime::from_timestamp` and `to_string` on the date.
/// Trusted: the text depends on the instant alone, and there is none where
/// the instant lies outside the dates that `chrono` can hold.
#[verifier::external_body]
pub(crate) fn utc_text(t: Timestamp) -> (r: Option<String>)
    ensures
        match r {
            Some(text) => utc_display(t.secs, t.nanos) == Some(text@),
            None => utc_display(t.secs, t.nanos) is None,
        },
{
    chrono::DateTime::from_timestamp(t.secs, t.nanos).map(|d| d.to_string())
}

/// Calls `chrono::Utc::now`, then `timestamp` and `timestamp_subsec_nanos` on
/// the date: the reading of the system clock. Nothing is claimed of it. The
/// call fails if the system clock stands before 1970.
#[verifier::external_body]
pub(crate) fn current_time() -> Timestamp {
    let now = chrono::Utc::now();
    Timestamp { secs: now.timestamp(), nanos: now.timestamp_subsec_nanos() }
}

} // verus!
