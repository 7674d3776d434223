//! Instants, and the calls into `chrono` that read and give them.
use vstd::prelude::*;

verus! {

/// An instant as seconds since the Unix epoch and the nanoseconds past that
/// second.
#[derive(Clone, Copy, Debug, PartialEq, Eq, Structural)]
pub struct Timestamp {
    pub secs: i64,
    pub nanos: u32,
}

/// `a` comes strictly before `b`.
pub open spec fn ts_before(a: Timestamp, b: Timestamp) -> bool {
    a.secs < b.secs || (a.secs == b.secs && a.nanos < b.nanos)
}

/// `a` comes strictly before `b`.
pub fn timestamp_before(a: Timestamp, b: Timestamp) -> (r: bool)
    ensures
        r == ts_before(a, b),
{
    a.secs < b.secs || (a.secs == b.secs && a.nanos < b.nanos)
}

/// The instant (seconds, nanoseconds) that `chrono::DateTime::parse_from_str`
/// reads from `s` with the format `fmt`, or `None` where it fails.
pub uninterp spec fn chrono_parse_from_str(s: Seq<char>, fmt: Seq<char>) -> Option<(i64, u32)>;

/// The instant that `s.parse::<chrono::DateTime<Utc>>()` reads, or `None`.
pub uninterp spec fn chrono_parse_utc(s: Seq<char>) -> Option<(i64, u32)>;

/// What `chrono::DateTime::parse_from_rfc3339` gives for `s`: the instant
/// it reads, or the text of its parse error.
pub uninterp spec fn chrono_parse_rfc3339(s: Seq<char>) -> Result<(i64, u32), Seq<char>>;

/// The instant of an RFC 3339 reading, if it succeeded.
pub open spec fn rfc3339_instant(s: Seq<char>) -> Option<Timestamp> {
    match chrono_parse_rfc3339(s) {
        Ok((secs, nanos)) => Some(Timestamp { secs, nanos }),
        Err(_) => None,
    }
}

/// A parsed instant as a `Timestamp`.
pub open spec fn to_ts(p: Option<(i64, u32)>) -> Option<Timestamp> {
    match p {
        Some((s, n)) => Some(Timestamp { secs: s, nanos: n }),
        None => None,
    }
}

/// `chrono::DateTime::parse_from_str(s, fmt)`, taken to UTC.  The contract
/// names the result; it does not restate chrono's format language.
#[verifier::external_body]
pub(crate) fn parse_with_format(s: &str, fmt: &str) -> (r: Option<Timestamp>)
    ensures
        r == to_ts(chrono_parse_from_str(s@, fmt@)),
{
    chrono::DateTime::parse_from_str(s, fmt).ok().map(
        |d| Timestamp { secs: d.timestamp(), nanos: d.timestamp_subsec_nanos() },
    )
}

/// `s.parse::<chrono::DateTime<chrono::Utc>>()`.  The contract names the
/// result.
#[verifier::external_body]
pub(crate) fn parse_utc(s: &str) -> (r: Option<Timestamp>)
    ensures
        r == to_ts(chrono_parse_utc(s@)),
{
    s.parse::<chrono::DateTime<chrono::Utc>>().ok().map(
        |d| Timestamp { secs: d.timestamp(), nanos: d.timestamp_subsec_nanos() },
    )
}

/// `chrono::DateTime::parse_from_rfc3339(s)`, taken to UTC, or its error
/// as text.  The contract names the result; it does not restate RFC 3339.
#[verifier::external_body]
pub(crate) fn read_rfc3339(s: &str) -> (r: Result<Timestamp, String>)
    ensures
        match chrono_parse_rfc3339(s@) {
            Ok((secs, nanos)) => r == Ok::<Timestamp, String>(Timestamp { secs, nanos }),
            Err(e) => r matches Err(m) && m@ == e,
        },
{
    match chrono::DateTime::parse_from_rfc3339(s) {
        Ok(d) => Ok(Timestamp { secs: d.timestamp(), nanos: d.timestamp_subsec_nanos() }),
        Err(e) => Err(e.to_string()),
    }
}

/// The instant an RFC 3339 text names, if it names one.
pub fn parse_rfc3339(s: &str) -> (r: Option<Timestamp>)
    ensures
        r == rfc3339_instant(s@),
{
    match read_rfc3339(s) {
        Ok(t) => Some(t),
        Err(_) => None,
    }
}

/// The current time, `chrono::Utc::now()`.  Nothing is promised of it: it
/// is the clock's reading.
#[verifier::external_body]
pub(crate) fn now() -> (r: Timestamp) {
    let d = chrono::Utc::now();
    Timestamp { secs: d.timestamp(), nanos: d.timestamp_subsec_nanos() }
}

} // verus!
