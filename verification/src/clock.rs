//! Points in time, as the token store records them: written and read as
//! RFC 3339 text by `chrono`, compared and moved here. The library reads no
//! clock: its callers hand it the present instant.

use vstd::prelude::*;

verus! {

/// A point in time, in UTC: whole seconds since 1970-01-01 00:00:00 and
/// nanoseconds since the start of that second. During a leap second the
/// nanoseconds go on counting beyond a thousand million.
#[derive(Debug, Clone, Copy, PartialEq, Eq, Structural)]
pub struct Instant {
    pub secs: i64,
    pub nanos: u32,
}

impl Instant {
    /// `self` is not later than `other`.
    pub open spec fn at_or_before(self, other: Instant) -> bool {
        self.secs < other.secs || (self.secs == other.secs && self.nanos <= other.nanos)
    }

    /// The instant `seconds` later, where its seconds can still be counted.
    pub open spec fn later_by(self, seconds: u64) -> Option<Instant> {
        if self.secs + seconds <= i64::MAX {
            Some(Instant { secs: (self.secs + seconds) as i64, nanos: self.nanos })
        } else {
            None
        }
    }

    /// Whether `self` is not later than `other`.
    pub fn is_at_or_before(&self, other: &Instant) -> (r: bool)
        ensures
            r == self.at_or_before(*other),
    {
        self.secs < other.secs || (self.secs == other.secs && self.nanos <= other.nanos)
    }

    /// The instant `seconds` after this one.
    pub fn plus_seconds(&self, seconds: u64) -> (r: Option<Instant>)
        ensures
            r == self.later_by(seconds),
    {
        let sum: i128 = self.secs as i128 + seconds as i128;
        if sum <= i64::MAX as i128 {
            Some(Instant { secs: sum as i64, nanos: self.nanos })
        } else {
            None
        }
    }

    /// Reads an instant from RFC 3339 text.
    pub fn parse(text: &str) -> (r: Option<Instant>)
        ensures
            r == match timestamp_in(text@) {
                Some(t) => Some(Instant { secs: t.0, nanos: t.1 }),
                None => None,
            },
    {
        match read_timestamp(text) {
            Ok(t) => Some(t),
            Err(_) => None,
        }
    }

    /// Writes this instant as RFC 3339 text; `None` where the calendar of
    /// `chrono` does not reach it.
    pub fn to_text(&self) -> (r: Option<String>)
        ensures
            match r {
                Some(s) => timestamp_text(self.secs, self.nanos) == Some(s@),
                None => timestamp_text(self.secs, self.nanos) is None,
            },
    {
        write_timestamp(self.secs, self.nanos)
    }
}

/// `chrono::ParseError`, of which only its presence is used.
#[verifier::external_type_specification]
#[verifier::external_body]
pub struct ExTimestampError(chrono::ParseError);

/// The seconds and nanoseconds of the instant that a text denotes when
/// `chrono` reads it as a date and time in UTC; `None` where it denotes none.
pub uninterp spec fn timestamp_in(text: Seq<char>) -> Option<(i64, u32)>;

/// The RFC 3339 text of the instant with these seconds and nanoseconds;
/// `None` where the calendar of `chrono` does not reach it.
pub uninterp spec fn timestamp_text(secs: i64, nanos: u32) -> Option<Seq<char>>;

/// `str::parse` at the type `chrono::DateTime<chrono::Utc>`, the result taken
/// apart by `DateTime::timestamp` and `DateTime::timestamp_subsec_nanos`. The
/// contract only gives the outcome a name: what is read is a function of the
/// text.
#[verifier::external_body]
fn read_timestamp(text: &str) -> (r: Result<Instant, chrono::ParseError>)
    ensures
        r matches Ok(t) ==> timestamp_in(text@) == Some((t.secs, t.nanos)),
        r is Err ==> timestamp_in(text@) is None,
{
    match text.parse::<chrono::DateTime<chrono::Utc>>() {
        Ok(t) => Ok(Instant { secs: t.timestamp(), nanos: t.timestamp_subsec_nanos() }),
        Err(e) => Err(e),
    }
}

/// `chrono::DateTime::from_timestamp`, then `DateTime::to_rfc3339`. The
/// contract only gives the outcome a name: the text is a function of the
/// seconds and nanoseconds, and so is whether there is one.
#[verifier::external_body]
fn write_timestamp(secs: i64, nanos: u32) -> (r: Option<String>)
    ensures
        r matches Some(s) ==> timestamp_text(secs, nanos) == Some(s@),
        r is None ==> timestamp_text(secs, nanos) is None,
{
    match chrono::DateTime::from_timestamp(secs, nanos) {
        Some(t) => Some(t.to_rfc3339()),
        None => None,
    }
}

} // verus!
