//! Usage history: turning bucketed averages from the history database into
//! fixed-size chart series, and rows into CSV lines. The database is queried
//! by the caller.

use vstd::prelude::*;
use crate::text::{dec, dec2, push_char, push_dec, push_dec2, push_str};
use crate::usage::Centis;

verus! {

/// Number of 30-minute buckets in the 24-hour chart.
pub const DAY_SLOTS: usize = 48;

/// Number of 4-hour buckets in the 7-day chart.
pub const WEEK_SLOTS: usize = 42;

/// The slot a bucket lands in: bucket 0 (now) is the last slot, and buckets
/// beyond the range are clamped to the first or last slot.
pub open spec fn slot_of(bucket: int, n: int) -> int {
    let b = if bucket < 0 {
        0
    } else if bucket > n - 1 {
        n - 1
    } else {
        bucket
    };
    n - 1 - b
}

/// The chart after placing `rows` of (bucket, average) in order, starting
/// from `n` empty slots; a later row for the same slot overwrites.
pub open spec fn slots_after(rows: Seq<(i64, Centis)>, n: int) -> Seq<Centis>
    decreases rows.len(),
{
    if rows.len() == 0 {
        Seq::new(n as nat, |i: int| 0u32)
    } else {
        slots_after(rows.drop_last(), n).update(slot_of(rows.last().0 as int, n), rows.last().1)
    }
}

/// A chart of `n` slots, oldest first (slot 0 is the oldest bucket, slot
/// `n - 1` the current one), filled from per-bucket averages; slots without
/// data stay 0.
pub fn chart_slots(rows: &[(i64, Centis)], n: usize) -> (r: Vec<Centis>)
    requires
        0 < n <= 1_000_000,
    ensures
        r@ == slots_after(rows@, n as int),
        r@.len() == n,
{
    let mut slots: Vec<Centis> = Vec::new();
    let mut k: usize = 0;
    while k < n
        invariant
            k <= n,
            slots@ == Seq::new(k as nat, |i: int| 0u32),
        decreases n - k,
    {
        slots.push(0);
        assert(slots@ =~= Seq::new((k + 1) as nat, |i: int| 0u32));
        k = k + 1;
    }
    let mut i: usize = 0;
    assert(rows@.take(0) =~= Seq::<(i64, Centis)>::empty());
    while i < rows.len()
        invariant
            0 < n <= 1_000_000,
            i <= rows@.len(),
            slots@ == slots_after(rows@.take(i as int), n as int),
            slots@.len() == n,
        decreases rows@.len() - i,
    {
        let (bucket, util) = rows[i];
        let b: i64 = if bucket < 0 {
            0
        } else if bucket > (n - 1) as i64 {
            (n - 1) as i64
        } else {
            bucket
        };
        let idx = n - 1 - b as usize;
        slots.set(idx, util);
        assert(rows@.take(i + 1).drop_last() =~= rows@.take(i as int));
        i = i + 1;
    }
    assert(rows@.take(rows@.len() as int) =~= rows@);
    slots
}

/// A utilization with two decimals, as `{:.2}` prints an exact value in
/// hundredths: "45.50".
pub open spec fn two_decimals(c: nat) -> Seq<char> {
    dec(c / 100) + seq!['.'] + dec2(c % 100)
}

/// A CSV line of the history export: timestamp, provider, metric,
/// utilization with two decimals, and the reset time (empty when none).
pub open spec fn csv_line(
    ts: Seq<char>,
    provider: Seq<char>,
    metric: Seq<char>,
    util: nat,
    resets_at: Option<Seq<char>>,
) -> Seq<char> {
    ts + seq![','] + provider + seq![','] + metric + seq![','] + two_decimals(util) + seq![','] + match resets_at {
        Some(r) => r,
        None => Seq::<char>::empty(),
    }
}

pub open spec fn opt_view(o: Option<String>) -> Option<Seq<char>> {
    match o {
        Some(s) => Some(s@),
        None => None,
    }
}

/// The header line of the history export.
pub fn csv_header() -> (r: &'static str)
    ensures
        r@ == "timestamp,provider,metric,utilization,resets_at"@,
{
    "timestamp,provider,metric,utilization,resets_at"
}

/// One line of the history export (without the line break).
pub fn csv_row(
    ts: &str,
    provider: &str,
    metric: &str,
    utilization: Centis,
    resets_at: &Option<String>,
) -> (r: String)
    ensures
        r@ == csv_line(
            ts@,
            provider@,
            metric@,
            utilization as nat,
            opt_view(*resets_at),
        ),
{
    let mut r = String::new();
    push_str(&mut r, ts);
    push_char(&mut r, ',');
    push_str(&mut r, provider);
    push_char(&mut r, ',');
    push_str(&mut r, metric);
    push_char(&mut r, ',');
    push_dec(&mut r, (utilization / 100) as u64);
    push_char(&mut r, '.');
    push_dec2(&mut r, (utilization % 100) as u64);
    push_char(&mut r, ',');
    match resets_at {
        Some(s) => push_str(&mut r, s.as_str()),
        None => {},
    }
    assert(r@ =~= csv_line(ts@, provider@, metric@, utilization as nat, opt_view(*resets_at)));
    r
}

/// The 24-hour chart: 48 half-hour slots, oldest first.
pub fn day_chart(rows: &[(i64, Centis)]) -> (r: Vec<Centis>)
    ensures
        r@ == slots_after(rows@, DAY_SLOTS as int),
{
    chart_slots(rows, DAY_SLOTS)
}

/// The 7-day chart: 42 four-hour slots, oldest first.
pub fn week_chart(rows: &[(i64, Centis)]) -> (r: Vec<Centis>)
    ensures
        r@ == slots_after(rows@, WEEK_SLOTS as int),
{
    chart_slots(rows, WEEK_SLOTS)
}

} // verus!
