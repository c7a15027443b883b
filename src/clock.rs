//! Instants on the UTC time line, parsed from RFC 3339 text, and their
//! rendering as unsigned nanoseconds since the Unix epoch.

use vstd::prelude::*;

verus! {

/// An instant: whole seconds since the Unix epoch and the nanoseconds past
/// that second (up to 1_999_999_999 inside a leap second).
#[derive(Debug, Clone, Copy, PartialEq, Eq, Structural)]
pub struct Instant {
    pub secs: i64,
    pub subsec_nanos: u32,
}

impl Instant {
    /// Nanoseconds since the Unix epoch.
    pub open spec fn unix_ns(self) -> int {
        self.secs * 1_000_000_000 + self.subsec_nanos
    }

    /// Nanoseconds since the Unix epoch, computed without overflow.
    pub fn nanos(&self) -> (r: i128)
        ensures
            r == self.unix_ns(),
    {
        (self.secs as i128) * 1_000_000_000 + (self.subsec_nanos as i128)
    }
}

/// The instant a parse outcome stands for, if it succeeded.
pub open spec fn instant_of(p: Result<(i64, u32), Seq<char>>) -> Option<Instant> {
    match p {
        Ok((s, n)) => Some(Instant { secs: s, subsec_nanos: n }),
        Err(_) => None,
    }
}

/// The parser's message of a failed parse outcome (empty on success).
pub open spec fn parse_detail(p: Result<(i64, u32), Seq<char>>) -> Seq<char> {
    match p {
        Ok(_) => Seq::empty(),
        Err(e) => e,
    }
}

/// What chrono's RFC 3339 parser makes of a text: Unix seconds and
/// sub-second nanoseconds, or the text of its error.
pub uninterp spec fn chrono_rfc3339(t: Seq<char>) -> Result<(i64, u32), Seq<char>>;

/// What the time crate's RFC 3339 parser makes of a text: Unix seconds and
/// sub-second nanoseconds, or the text of its error.
pub uninterp spec fn time_rfc3339(t: Seq<char>) -> Result<(i64, u32), Seq<char>>;

/// Relies on chrono's `DateTime::parse_from_rfc3339`, read back through
/// `timestamp` and `timestamp_subsec_nanos` (below two seconds' worth of
/// nanoseconds, a leap second included); on failure, the text of chrono's
/// `ParseError`.
#[verifier::external_body]
pub(crate) fn parse_rfc3339_chrono(t: &str) -> (r: Result<Instant, String>)
    ensures
        r is Ok <==> chrono_rfc3339(t@) is Ok,
        r matches Ok(i) ==> Some(i) == instant_of(chrono_rfc3339(t@)),
        r matches Err(e) ==> e@ == parse_detail(chrono_rfc3339(t@)),
        r matches Ok(i) ==> i.subsec_nanos < 2_000_000_000,
{
    match chrono::DateTime::parse_from_rfc3339(t) {
        Ok(d) => Ok(Instant { secs: d.timestamp(), subsec_nanos: d.timestamp_subsec_nanos() }),
        Err(e) => Err(e.to_string()),
    }
}

/// Relies on the time crate's `OffsetDateTime::parse` with the RFC 3339
/// format, read back through `unix_timestamp` and `nanosecond` (always below
/// one second's worth); on failure, the text of the time crate's `Parse`
/// error.
#[verifier::external_body]
pub(crate) fn parse_rfc3339_time(t: &str) -> (r: Result<Instant, String>)
    ensures
        r is Ok <==> time_rfc3339(t@) is Ok,
        r matches Ok(i) ==> Some(i) == instant_of(time_rfc3339(t@)),
        r matches Err(e) ==> e@ == parse_detail(time_rfc3339(t@)),
        r matches Ok(i) ==> i.subsec_nanos < 1_000_000_000,
{
    match time::OffsetDateTime::parse(t, &time::format_description::well_known::Rfc3339) {
        Ok(d) => Ok(Instant { secs: d.unix_timestamp(), subsec_nanos: d.nanosecond() }),
        Err(e) => Err(e.to_string()),
    }
}

/// Relies on chrono's `Utc::now`, read back through `timestamp` and
/// `timestamp_subsec_nanos`: the current time, of which nothing is promised.
#[verifier::external_body]
pub(crate) fn now() -> (r: Instant)
    ensures
        r.subsec_nanos < 2_000_000_000,
{
    let d = chrono::Utc::now();
    Instant { secs: d.timestamp(), subsec_nanos: d.timestamp_subsec_nanos() }
}

/// Nanoseconds since the epoch as written in records: instants before the
/// epoch are written as 0, and those past the `u64` range as its maximum.
pub open spec fn wire_ns(n: int) -> u64 {
    if n < 0 {
        0
    } else if n > u64::MAX {
        u64::MAX
    } else {
        n as u64
    }
}

/// Computes `wire_ns(n)`.
pub fn to_wire_ns(n: i128) -> (r: u64)
    ensures
        r == wire_ns(n as int),
{
    if n < 0 {
        0
    } else if n > u64::MAX as i128 {
        u64::MAX
    } else {
        n as u64
    }
}

} // verus!
