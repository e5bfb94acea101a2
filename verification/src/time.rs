//! Instants on the UTC time line and the distance between them.

use vstd::prelude::*;

verus! {

/// An instant: seconds since the Unix epoch and nanoseconds within the second.
#[derive(Debug, Clone, Copy, PartialEq, Eq, Structural)]
pub struct Instant {
    pub secs: i64,
    pub nanos: u32,
}

/// The instant in nanoseconds since the Unix epoch.
pub open spec fn total_nanos(t: Instant) -> int {
    t.secs as int * 1_000_000_000 + t.nanos as int
}

/// `a / b` rounded toward zero, for `b > 0`.
pub open spec fn div_toward_zero(a: int, b: int) -> int {
    if a >= 0 {
        a / b
    } else {
        -((-a) / b)
    }
}

/// Whole seconds from `from` to `to` (negative when `to` is earlier), the
/// fraction dropped as `chrono::Duration::num_seconds` does.
pub open spec fn whole_seconds_between(from: Instant, to: Instant) -> int {
    div_toward_zero(total_nanos(to) - total_nanos(from), 1_000_000_000)
}

/// Instants chrono can represent: years within about ±262,000
/// (`DateTime::<Utc>::MIN_UTC` to `MAX_UTC`), nanoseconds below two seconds
/// (a leap second is held as an extra second of nanoseconds).
pub open spec fn representable(t: Instant) -> bool {
    -10_000_000_000_000 <= t.secs <= 10_000_000_000_000 && t.nanos < 2_000_000_000
}

/// What `chrono::DateTime::parse_from_rfc3339` makes of `s`, as a UTC
/// instant; `None` when `s` is not an RFC 3339 date-time.
pub uninterp spec fn rfc3339_instant(s: Seq<char>) -> Option<Instant>;

/// What `s.parse::<chrono::DateTime<chrono::Utc>>()` makes of `s` (a relaxed
/// RFC 3339 that also takes a space between date and time).
pub uninterp spec fn utc_instant(s: Seq<char>) -> Option<Instant>;

/// Parses an RFC 3339 date-time (`DateTime::parse_from_rfc3339`, then
/// converted to UTC) into seconds and nanoseconds since the epoch.
#[verifier::external_body]
pub(crate) fn parse_rfc3339(s: &str) -> (r: Option<Instant>)
    ensures
        r == rfc3339_instant(s@),
        r matches Some(t) ==> representable(t),
{
    let t = chrono::DateTime::parse_from_rfc3339(s).ok()?.with_timezone(&chrono::Utc);
    Some(Instant { secs: t.timestamp(), nanos: t.timestamp_subsec_nanos() })
}

/// Parses a date-time with `str::parse::<DateTime<Utc>>`.
#[verifier::external_body]
pub(crate) fn parse_utc(s: &str) -> (r: Option<Instant>)
    ensures
        r == utc_instant(s@),
        r matches Some(t) ==> representable(t),
{
    let t: chrono::DateTime<chrono::Utc> = s.parse().ok()?;
    Some(Instant { secs: t.timestamp(), nanos: t.timestamp_subsec_nanos() })
}

/// The current time (`chrono::Utc::now`): whatever the system clock says,
/// within chrono's range (it panics on a clock before the Unix epoch).
#[verifier::external_body]
pub(crate) fn utc_now() -> (r: Instant)
    ensures
        representable(r),
{
    let t = chrono::Utc::now();
    Instant { secs: t.timestamp(), nanos: t.timestamp_subsec_nanos() }
}

/// Whole seconds from `from` to `to`, truncated toward zero.
pub fn seconds_between(from: Instant, to: Instant) -> (r: i64)
    requires
        representable(from),
        representable(to),
    ensures
        r == whole_seconds_between(from, to),
{
    let a: i128 = to.secs as i128 * 1_000_000_000 + to.nanos as i128;
    let b: i128 = from.secs as i128 * 1_000_000_000 + from.nanos as i128;
    let d: i128 = a - b;
    let q: i128 = if d >= 0 {
        d / 1_000_000_000
    } else {
        -((-d) / 1_000_000_000)
    };
    q as i64
}

} // verus!
