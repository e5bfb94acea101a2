//! Weekly burn-rate projection.
//!
//! Given how much of the weekly quota is already spent and how much of the
//! window has elapsed, extrapolate linearly to the reset. Over 100% means the
//! current pace runs into the wall before the window rolls over.

use vstd::prelude::*;
use crate::time::{
    Instant, parse_rfc3339, representable, rfc3339_instant, seconds_between,
    whole_seconds_between,
};
use crate::usage::{Centis, rounded_percent};

verus! {

/// Length of the weekly window in seconds.
pub const WEEK_SECONDS: u64 = 604800;

/// Projected utilization at which the pace counts as overshooting.
pub const HOT_PROJECTION_PERCENT: u32 = 115;

#[derive(Debug, Clone, Copy, PartialEq, Eq, Structural)]
pub struct WeeklyPace {
    /// Utilization the week lands on at reset if the current rate holds.
    pub projected_percent: u32,
    /// How much of the weekly window has elapsed, in seconds (at least 5% of
    /// the week, less than all of it).
    pub elapsed_seconds: u32,
}

/// A projection is only called "hot" once a fifth of the window has passed —
/// early spikes are normal and would otherwise raise a false alarm on day one.
pub open spec fn hot(p: WeeklyPace) -> bool {
    p.elapsed_seconds as int * 5 >= WEEK_SECONDS as int && p.projected_percent
        >= HOT_PROJECTION_PERCENT
}

pub open spec fn over_budget(p: WeeklyPace) -> bool {
    p.projected_percent >= 100
}

/// `utilization / elapsed_fraction`, rounded half away from zero, saturated
/// to `u32` (as `f64 as u32` does).
pub open spec fn projection(c: int, elapsed: int) -> int {
    let x = (2 * c * WEEK_SECONDS as int + 100 * elapsed) / (200 * elapsed);
    if x > u32::MAX {
        u32::MAX as int
    } else {
        x
    }
}

/// The pace for a utilization `c` and `seconds_left` until the reset: none
/// once the reset has passed or while less than 5% of the week has elapsed,
/// where the estimate would explode.
pub open spec fn pace_for(c: int, seconds_left: int) -> Option<WeeklyPace> {
    let elapsed = WEEK_SECONDS as int - seconds_left;
    if seconds_left <= 0 || elapsed * 20 < WEEK_SECONDS as int {
        None
    } else {
        Some(
            WeeklyPace {
                projected_percent: projection(c, elapsed) as u32,
                elapsed_seconds: elapsed as u32,
            },
        )
    }
}

/// The weekly pace for a reset time given as text.
pub open spec fn weekly_pace_spec(c: int, resets_at: Seq<char>, now: Instant) -> Option<
    WeeklyPace,
> {
    match rfc3339_instant(resets_at) {
        None => None,
        Some(reset) => pace_for(c, whole_seconds_between(now, reset)),
    }
}

impl WeeklyPace {
    /// On track to blow through the weekly budget before it resets.
    pub fn is_hot(&self) -> (r: bool)
        ensures
            r == hot(*self),
    {
        self.elapsed_seconds as u64 * 5 >= WEEK_SECONDS && self.projected_percent
            >= HOT_PROJECTION_PERCENT
    }

    /// Projected to reach the limit.
    pub fn is_over_budget(&self) -> (r: bool)
        ensures
            r == over_budget(*self),
    {
        self.projected_percent >= 100
    }
}

/// The pace for utilization `c` with `seconds_left` until the reset.
pub fn pace_from_seconds_left(c: Centis, seconds_left: i64) -> (r: Option<WeeklyPace>)
    ensures
        r == pace_for(c as int, seconds_left as int),
{
    if seconds_left <= 0 {
        return None;
    }
    if seconds_left as i128 >= WEEK_SECONDS as i128 {
        return None;
    }
    let elapsed: u64 = WEEK_SECONDS - seconds_left as u64;
    if elapsed * 20 < WEEK_SECONDS {
        return None;
    }
    let x: u64 = (2 * (c as u64) * WEEK_SECONDS + 100 * elapsed) / (200 * elapsed);
    let projected: u32 = if x > u32::MAX as u64 {
        u32::MAX
    } else {
        x as u32
    };
    Some(WeeklyPace { projected_percent: projected, elapsed_seconds: elapsed as u32 })
}

/// Project the weekly metric forward from its current utilization.
///
/// Returns `None` when the reset time is unparseable, already past, or so
/// recent that less than 5% of the window has elapsed.
pub fn weekly_pace(utilization: Centis, resets_at: &str, now: Instant) -> (r: Option<WeeklyPace>)
    requires
        representable(now),
    ensures
        r == weekly_pace_spec(utilization as int, resets_at@, now),
{
    match parse_rfc3339(resets_at) {
        None => None,
        Some(reset) => {
            let left = seconds_between(now, reset);
            pace_from_seconds_left(utilization, left)
        },
    }
}

/// A hot pace is always over budget.
pub proof fn law_hot_is_over_budget(p: WeeklyPace)
    ensures
        hot(p) ==> over_budget(p),
{
}

/// A projection never falls below the utilization already spent.
pub proof fn law_projection_at_least_current(c: int, seconds_left: int)
    requires
        0 <= c <= u32::MAX,
        pace_for(c, seconds_left) is Some,
    ensures
        pace_for(c, seconds_left)->0.projected_percent >= rounded_percent(c),
{
    let e = WEEK_SECONDS as int - seconds_left;
    let w = WEEK_SECONDS as int;
    assert(0 < e < w);
    let x = (2 * c * w + 100 * e) / (200 * e);
    assert((2 * c * w + 100 * e) / (200 * e) >= (c + 50) / 100) by (nonlinear_arith)
        requires
            0 < e < w,
            0 <= c,
    {
        assert(2 * c * w + 100 * e >= 2 * c * e + 100 * e);
        assert((2 * c * e + 100 * e) / (200 * e) == (c + 50) / 100) by {
            assert(2 * c * e + 100 * e == (c + 50) * (2 * e));
        }
    }
    assert((c + 50) / 100 <= u32::MAX);
}


/// A pace is over budget exactly when it projects reaching the limit (100%
/// or more at reset); a projection from 100% up to 114% is over budget
/// without being hot.
pub proof fn law_over_budget_from_full_projection(p: WeeklyPace)
    ensures
        over_budget(p) <==> p.projected_percent >= 100,
        100 <= p.projected_percent < 115 ==> over_budget(p) && !hot(p),
{
}

} // verus!
