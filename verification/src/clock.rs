//! Reset times as the user reads them: seconds until a reset, and the local
//! wall-clock target shown next to a countdown.

use vstd::prelude::*;
use chrono::{Datelike, Timelike};
use crate::text::{dec, dec2, push_char, push_dec, push_dec2, push_str};
use crate::time::{Instant, parse_utc, representable, utc_instant, utc_now, whole_seconds_between, seconds_between};

verus! {

/// A local date and time of day, as the machine's time zone gives it.
#[derive(Debug, Clone, Copy, PartialEq, Eq, Structural)]
pub struct LocalTime {
    pub year: i32,
    pub month: u32,
    pub day: u32,
    /// Day of the week, 0 for Monday through 6 for Sunday.
    pub weekday: u32,
    pub hour: u32,
    pub minute: u32,
}

pub open spec fn local_time_wf(t: LocalTime) -> bool {
    t.weekday < 7 && t.hour < 24 && t.minute < 60
}

/// Seconds from `now` until the reset `resets_at` (negative once it has
/// passed), or none when the text is not a date-time.
pub open spec fn seconds_until_spec(resets_at: Seq<char>, now: Instant) -> Option<int> {
    match utc_instant(resets_at) {
        Some(reset) => Some(whole_seconds_between(now, reset)),
        None => None,
    }
}

/// Seconds from `now` until a reset timestamp.
pub fn seconds_until_at(resets_at: &str, now: Instant) -> (r: Option<i64>)
    requires
        representable(now),
    ensures
        match seconds_until_spec(resets_at@, now) {
            Some(s) => r matches Some(v) && v == s,
            None => r is None,
        },
{
    match parse_utc(resets_at) {
        Some(reset) => Some(seconds_between(now, reset)),
        None => None,
    }
}

/// Calculate seconds until a reset timestamp, from the current time; none
/// when the text is not a date-time. The count depends on the clock: it is
/// the whole seconds from some representable instant to the reset.
pub fn seconds_until(resets_at: &str) -> (r: Option<i64>)
    ensures
        r is Some <==> utc_instant(resets_at@) is Some,
        r matches Some(s) ==> exists|now: Instant|
            representable(now) && #[trigger] seconds_until_spec(resets_at@, now) == Some(s as int),
{
    let now = utc_now();
    let r = seconds_until_at(resets_at, now);
    proof {
        if r is Some {
            assert(seconds_until_spec(resets_at@, now) == Some(r->0 as int));
        }
    }
    r
}

/// The civil (proleptic Gregorian) date and time `s` seconds after
/// 1970-01-01 00:00, a Thursday: whole days and the second of the day, then
/// the days turned into year, month and day by counting 400-year eras from
/// 0000-03-01.
pub open spec fn civil_time(s: int) -> LocalTime {
    let days = s / 86400;
    let sod = s % 86400;
    let z = days + 719468;
    let era = z / 146097;
    let doe = z - era * 146097;
    let yoe = (doe - doe / 1460 + doe / 36524 - doe / 146096) / 365;
    let doy = doe - (365 * yoe + yoe / 4 - yoe / 100);
    let mp = (5 * doy + 2) / 153;
    let d = doy - (153 * mp + 2) / 5 + 1;
    let m = if mp < 10 {
        mp + 3
    } else {
        mp - 9
    };
    let y = yoe + era * 400 + if m <= 2 {
        1int
    } else {
        0int
    };
    LocalTime {
        year: y as i32,
        month: m as u32,
        day: d as u32,
        weekday: ((days + 3) % 7) as u32,
        hour: (sod / 3600) as u32,
        minute: (sod % 3600 / 60) as u32,
    }
}

/// A time zone's offset from UTC, in seconds: less than a day either way.
pub open spec fn valid_offset(offset: int) -> bool {
    -86400 < offset < 86400
}

/// The wall-clock date and time of the instant `t` in a zone `offset`
/// seconds ahead of UTC.
pub open spec fn local_at(t: Instant, offset: int) -> LocalTime {
    civil_time(t.secs + offset)
}

/// A local date and time that some representable instant has in some zone.
pub open spec fn is_local_time(l: LocalTime) -> bool {
    exists|now: Instant, offset: int|
        representable(now) && valid_offset(offset) && l == #[trigger] local_at(now, offset)
}

/// A local date and time that some representable instant, less `seconds`,
/// has in some zone.
pub open spec fn local_time_before(l: LocalTime, seconds: int) -> bool {
    exists|now: Instant, offset: int|
        representable(now) && valid_offset(offset) && l == #[trigger] civil_time(
            now.secs - seconds + offset,
        )
}

/// The reset time in the machine's time zone (`DateTime<Utc>` parsed as in
/// `parse_utc`, then `with_timezone(&Local)`): the wall-clock fields of the
/// parsed instant in the zone's offset at that instant. Which offset that is
/// depends on the machine's time zone and is not stated.
#[verifier::external_body]
pub(crate) fn local_reset_time(resets_at: &str) -> (r: Option<LocalTime>)
    ensures
        match utc_instant(resets_at@) {
            None => r is None,
            Some(t) => r matches Some(l) && local_time_wf(l) && exists|offset: int|
                valid_offset(offset) && l == #[trigger] local_at(t, offset),
        },
{
    let t: chrono::DateTime<chrono::Utc> = resets_at.parse().ok()?;
    let l = t.with_timezone(&chrono::Local);
    Some(
        LocalTime {
            year: l.year(),
            month: l.month(),
            day: l.day(),
            weekday: l.weekday().num_days_from_monday(),
            hour: l.hour(),
            minute: l.minute(),
        },
    )
}

/// The current local date and time (`chrono::Local::now`, the current UTC
/// time in the machine's time zone); the clock and the zone are not stated.
#[verifier::external_body]
pub(crate) fn local_now() -> (r: LocalTime)
    ensures
        local_time_wf(r),
        is_local_time(r),
{
    let l = chrono::Local::now();
    LocalTime {
        year: l.year(),
        month: l.month(),
        day: l.day(),
        weekday: l.weekday().num_days_from_monday(),
        hour: l.hour(),
        minute: l.minute(),
    }
}

/// The local date and time `seconds` before now (`chrono::Local::now()`
/// minus `chrono::Duration::seconds`): the wall-clock fields of an instant
/// that many seconds before the current one; the clock and the zone are not
/// stated.
#[verifier::external_body]
pub(crate) fn local_time_ago(seconds: i64) -> (r: LocalTime)
    requires
        0 <= seconds <= 86400,
    ensures
        local_time_wf(r),
        local_time_before(r, seconds as int),
{
    let l = chrono::Local::now() - chrono::Duration::seconds(seconds);
    LocalTime {
        year: l.year(),
        month: l.month(),
        day: l.day(),
        weekday: l.weekday().num_days_from_monday(),
        hour: l.hour(),
        minute: l.minute(),
    }
}

/// English weekday abbreviation (chrono's `%a`).
pub open spec fn weekday_abbrev(d: u32) -> Seq<char> {
    if d == 0 {
        "Mon"@
    } else if d == 1 {
        "Tue"@
    } else if d == 2 {
        "Wed"@
    } else if d == 3 {
        "Thu"@
    } else if d == 4 {
        "Fri"@
    } else if d == 5 {
        "Sat"@
    } else {
        "Sun"@
    }
}

/// The time of day: "14:05" on a 24-hour clock, "2:05 PM" on a 12-hour one
/// (the hour without a leading zero).
pub open spec fn clock_text(hour: u32, minute: u32, use_24h: bool) -> Seq<char> {
    if use_24h {
        dec2(hour as nat) + seq![':'] + dec2(minute as nat)
    } else {
        let h12 = if hour % 12 == 0 {
            12
        } else {
            hour % 12
        };
        dec(h12 as nat) + seq![':'] + dec2(minute as nat) + if hour < 12 {
            " AM"@
        } else {
            " PM"@
        }
    }
}

/// The time of day as the chart's tooltip shows it: "14:05" on a 24-hour
/// clock, "02:05 PM" on a 12-hour one (the hour padded to two digits, as
/// chrono's `%I` writes it).
pub open spec fn padded_clock_text(hour: u32, minute: u32, use_24h: bool) -> Seq<char> {
    if use_24h {
        clock_text(hour, minute, use_24h)
    } else {
        let h12 = if hour % 12 == 0 {
            12
        } else {
            hour % 12
        };
        dec2(h12 as nat) + seq![':'] + dec2(minute as nat) + if hour < 12 {
            " AM"@
        } else {
            " PM"@
        }
    }
}

/// The reset target in parentheses: the time alone when the reset is today,
/// else the weekday and the time, e.g. "(14:00)" or "(Thu 2:00 PM)".
pub open spec fn reset_target_spec(reset: LocalTime, today: LocalTime, use_24h: bool) -> Seq<char> {
    if reset.year == today.year && reset.month == today.month && reset.day == today.day {
        seq!['('] + clock_text(reset.hour, reset.minute, use_24h) + seq![')']
    } else {
        seq!['('] + weekday_abbrev(reset.weekday) + seq![' '] + clock_text(
            reset.hour,
            reset.minute,
            use_24h,
        ) + seq![')']
    }
}

fn weekday_abbrev_of(d: u32) -> (r: &'static str)
    ensures
        r@ == weekday_abbrev(d),
{
    if d == 0 {
        "Mon"
    } else if d == 1 {
        "Tue"
    } else if d == 2 {
        "Wed"
    } else if d == 3 {
        "Thu"
    } else if d == 4 {
        "Fri"
    } else if d == 5 {
        "Sat"
    } else {
        "Sun"
    }
}

/// Appends the time of day as `clock_text` writes it.
pub fn push_clock(r: &mut String, hour: u32, minute: u32, use_24h: bool)
    ensures
        final(r)@ == old(r)@ + clock_text(hour, minute, use_24h),
{
    if use_24h {
        push_dec2(r, hour as u64);
        push_char(r, ':');
        push_dec2(r, minute as u64);
    } else {
        let h12: u32 = if hour % 12 == 0 {
            12
        } else {
            hour % 12
        };
        push_dec(r, h12 as u64);
        push_char(r, ':');
        push_dec2(r, minute as u64);
        if hour < 12 {
            push_str(r, " AM");
        } else {
            push_str(r, " PM");
        }
    }
    assert(final(r)@ =~= old(r)@ + clock_text(hour, minute, use_24h));
}

/// Appends the time of day as `padded_clock_text` writes it.
pub fn push_padded_clock(r: &mut String, hour: u32, minute: u32, use_24h: bool)
    ensures
        final(r)@ == old(r)@ + padded_clock_text(hour, minute, use_24h),
{
    if use_24h {
        push_clock(r, hour, minute, use_24h);
    } else {
        let h12: u32 = if hour % 12 == 0 {
            12
        } else {
            hour % 12
        };
        push_dec2(r, h12 as u64);
        push_char(r, ':');
        push_dec2(r, minute as u64);
        if hour < 12 {
            push_str(r, " AM");
        } else {
            push_str(r, " PM");
        }
    }
    assert(final(r)@ =~= old(r)@ + padded_clock_text(hour, minute, use_24h));
}

/// The reset target for a reset at local time `reset`, seen on `today`.
pub fn reset_target_text(reset: LocalTime, today: LocalTime, use_24h: bool) -> (r: String)
    ensures
        r@ == reset_target_spec(reset, today, use_24h),
{
    let mut r = String::new();
    push_char(&mut r, '(');
    if !(reset.year == today.year && reset.month == today.month && reset.day == today.day) {
        push_str(&mut r, weekday_abbrev_of(reset.weekday));
        push_char(&mut r, ' ');
    }
    push_clock(&mut r, reset.hour, reset.minute, use_24h);
    push_char(&mut r, ')');
    assert(r@ =~= reset_target_spec(reset, today, use_24h));
    r
}

/// Format the reset timestamp as a local target time, on a 24-hour or
/// 12-hour clock as the system is set; none when the text is not a
/// date-time. The reset is the parsed instant in the local zone; which
/// offset that zone has, and what today is, depend on the machine and the
/// clock.
pub fn format_reset_target(resets_at: &str, use_24h: bool) -> (r: Option<String>)
    ensures
        match utc_instant(resets_at@) {
            None => r is None,
            Some(t) => r matches Some(s) && exists|offset: int, today: LocalTime|
                valid_offset(offset) && is_local_time(today) && s@ == #[trigger] reset_target_spec(
                    local_at(t, offset),
                    today,
                    use_24h,
                ),
        },
{
    match local_reset_time(resets_at) {
        Some(reset) => {
            let today = local_now();
            Some(reset_target_text(reset, today, use_24h))
        },
        None => None,
    }
}

/// Whether the system clock is set to 24 hours, from the `iTime` registry
/// value: its first code unit and the byte size read, or `None` when it
/// could not be read (24 hours is the default).
pub fn uses_24h_clock(itime: Option<(u16, u32)>) -> (r: bool)
    ensures
        r == match itime {
            Some((first, size)) => size < 2 || first == 0x31,
            None => true,
        },
{
    match itime {
        Some((first, size)) => if size >= 2 {
            first == 0x31
        } else {
            true
        },
        None => true,
    }
}

} // verus!
