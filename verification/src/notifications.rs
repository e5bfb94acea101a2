//! Threshold notifications that fire once per crossing.

use vstd::prelude::*;
use crate::text::{str_eq, to_string};
use crate::usage::{Centis, reaches};

verus! {

/// A fired (metric, threshold) pair, as the contracts speak of it.
pub type FiredKey = (Seq<char>, u8);

/// Tracks which (metric, threshold) pairs have already been notified
/// to avoid spamming the user.
pub struct NotificationTracker {
    fired: Vec<(String, u8)>,
}

/// The pairs marked after a check of `metric` at utilization `u` against
/// `ts`: for this metric, exactly the listed thresholds it reaches (listed
/// ones it is below are cleared); every other pair as before.
pub open spec fn fired_after(f: Set<FiredKey>, metric: Seq<char>, u: int, ts: Seq<u8>) -> Set<
    FiredKey,
> {
    Set::new(
        |p: FiredKey|
            if p.0 == metric && ts.contains(p.1) {
                reaches(u, p.1 as int)
            } else {
                f.contains(p)
            },
    )
}

/// The thresholds a check newly crosses: listed, reached, and not yet marked.
pub open spec fn newly_crossed(f: Set<FiredKey>, metric: Seq<char>, u: int, ts: Seq<u8>) -> Set<
    u8,
> {
    Set::new(|t: u8| ts.contains(t) && reaches(u, t as int) && !f.contains((metric, t)))
}

/// The result of a check: the single highest newly crossed threshold, or
/// nothing when none is newly crossed.
pub open spec fn check_result(n: Set<u8>, r: Seq<u8>) -> bool {
    &&& r.len() <= 1
    &&& (r.len() == 1 <==> exists|t: u8| n.contains(t))
    &&& r.len() == 1 ==> n.contains(r[0]) && forall|t: u8| n.contains(t) ==> t <= r[0]
}

/// Whether the entries `s` mark the pair `p`.
pub open spec fn marks(s: Seq<(String, u8)>, p: FiredKey) -> bool {
    exists|j: int| 0 <= j < s.len() && #[trigger] s[j].0@ == p.0 && s[j].1 == p.1
}

proof fn lemma_marks_push(s: Seq<(String, u8)>, e: (String, u8), p: FiredKey)
    ensures
        marks(s.push(e), p) <==> (marks(s, p) || (e.0@ == p.0 && e.1 == p.1)),
{
    let t = s.push(e);
    if marks(t, p) {
        let j = choose|j: int| 0 <= j < t.len() && #[trigger] t[j].0@ == p.0 && t[j].1 == p.1;
        if j < s.len() {
            assert(s[j] == t[j]);
        }
    }
    if marks(s, p) {
        let j = choose|j: int| 0 <= j < s.len() && #[trigger] s[j].0@ == p.0 && s[j].1 == p.1;
        assert(t[j] == s[j]);
    }
    if e.0@ == p.0 && e.1 == p.1 {
        assert(t[s.len() as int] == e);
    }
}

impl NotificationTracker {
    /// The (metric, threshold) pairs currently marked as notified.
    pub closed spec fn fired_set(&self) -> Set<FiredKey> {
        Set::new(|p: FiredKey| marks(self.fired@, p))
    }

    pub fn new() -> (r: Self)
        ensures
            r.fired_set() == Set::<FiredKey>::empty(),
    {
        let r = NotificationTracker { fired: Vec::new() };
        assert(r.fired_set() =~= Set::<FiredKey>::empty());
        r
    }

    /// Whether `(metric, t)` is marked.
    pub fn is_fired(&self, metric: &str, t: u8) -> (r: bool)
        ensures
            r == self.fired_set().contains((metric@, t)),
    {
        let mut i: usize = 0;
        while i < self.fired.len()
            invariant
                i <= self.fired@.len(),
                forall|j: int|
                    0 <= j < i ==> !(#[trigger] self.fired@[j].0@ == metric@ && self.fired@[j].1
                        == t),
            decreases self.fired@.len() - i,
        {
            if self.fired[i].1 == t && str_eq(self.fired[i].0.as_str(), metric) {
                assert(marks(self.fired@, (metric@, t)));
                return true;
            }
            i = i + 1;
        }
        false
    }

    fn mark(&mut self, metric: &str, t: u8)
        ensures
            final(self).fired_set() == old(self).fired_set().insert((metric@, t)),
    {
        let e = (to_string(metric), t);
        let ghost before = self.fired@;
        self.fired.push(e);
        assert forall|p: FiredKey| #[trigger]
            marks(self.fired@, p) == old(self).fired_set().insert((metric@, t)).contains(p) by {
            lemma_marks_push(before, e, p);
        }
        assert(self.fired_set() =~= old(self).fired_set().insert((metric@, t)));
    }

    fn unmark(&mut self, metric: &str, t: u8)
        ensures
            final(self).fired_set() == old(self).fired_set().remove((metric@, t)),
    {
        let mut kept: Vec<(String, u8)> = Vec::new();
        let mut i: usize = 0;
        let ghost before = self.fired@;
        assert forall|p: FiredKey| !marks(before.take(0), p) by {}
        while i < self.fired.len()
            invariant
                self.fired@ == before,
                i <= before.len(),
                forall|p: FiredKey| #[trigger]
                    marks(kept@, p) <==> (p != (metric@, t) && marks(before.take(i as int), p)),
            decreases before.len() - i,
        {
            let same = self.fired[i].1 == t && str_eq(self.fired[i].0.as_str(), metric);
            let ghost old_kept = kept@;
            assert(before.take(i + 1) =~= before.take(i as int).push(before[i as int]));
            if !same {
                let e = (to_string(self.fired[i].0.as_str()), self.fired[i].1);
                kept.push(e);
                assert forall|p: FiredKey| #[trigger]
                    marks(kept@, p) <==> (p != (metric@, t) && marks(before.take(i + 1), p)) by {
                    lemma_marks_push(old_kept, e, p);
                    lemma_marks_push(before.take(i as int), before[i as int], p);
                }
            } else {
                assert forall|p: FiredKey| #[trigger]
                    marks(kept@, p) <==> (p != (metric@, t) && marks(before.take(i + 1), p)) by {
                    lemma_marks_push(before.take(i as int), before[i as int], p);
                }
            }
            i = i + 1;
        }
        assert(before.take(before.len() as int) =~= before);
        self.fired = kept;
        assert(self.fired_set() =~= old(self).fired_set().remove((metric@, t)));
    }

    /// Returns the single highest threshold that should fire for this
    /// metric/utilization. Marks all exceeded thresholds as fired. Clears
    /// fired thresholds when utilization drops below them. When multiple
    /// thresholds are crossed at once, only the highest one is returned to
    /// avoid spamming the user with multiple notifications.
    pub fn check(&mut self, metric: &str, utilization: Centis, thresholds: &[u8]) -> (r: Vec<u8>)
        ensures
            final(self).fired_set() == fired_after(
                old(self).fired_set(),
                metric@,
                utilization as int,
                thresholds@,
            ),
            check_result(
                newly_crossed(old(self).fired_set(), metric@, utilization as int, thresholds@),
                r@,
            ),
    {
        let ghost f0 = self.fired_set();
        let ghost m = metric@;
        let ghost u = utilization as int;
        let mut highest_new: Option<u8> = None;
        let mut i: usize = 0;
        assert(fired_after(f0, m, u, thresholds@.take(0)) =~= f0);
        while i < thresholds.len()
            invariant
                i <= thresholds@.len(),
                f0 == old(self).fired_set(),
                m == metric@,
                u == utilization as int,
                self.fired_set() == fired_after(f0, m, u, thresholds@.take(i as int)),
                match highest_new {
                    Some(h) => newly_crossed(f0, m, u, thresholds@.take(i as int)).contains(h)
                        && forall|t: u8| #[trigger]
                        newly_crossed(f0, m, u, thresholds@.take(i as int)).contains(t) ==> t
                            <= h,
                    None => forall|t: u8|
                        !#[trigger] newly_crossed(f0, m, u, thresholds@.take(i as int)).contains(
                            t,
                        ),
                },
            decreases thresholds@.len() - i,
        {
            let threshold = thresholds[i];
            let ghost prev_take = thresholds@.take(i as int);
            let ghost next_take = thresholds@.take(i + 1);
            assert(next_take =~= prev_take.push(threshold));
            assert forall|x: u8| #[trigger] next_take.contains(x) <==> (prev_take.contains(x) || x
                == threshold) by {
                if next_take.contains(x) {
                    let j = choose|j: int| 0 <= j < next_take.len() && next_take[j] == x;
                    if j < prev_take.len() {
                        assert(prev_take[j] == x);
                    }
                }
                if prev_take.contains(x) {
                    let j = choose|j: int| 0 <= j < prev_take.len() && prev_take[j] == x;
                    assert(next_take[j] == x);
                }
                if x == threshold {
                    assert(next_take[i as int] == x);
                }
            }
            if (utilization as u64) >= (threshold as u64) * 100 {
                let was = self.is_fired(metric, threshold);
                if !was {
                    self.mark(metric, threshold);
                    // Track the highest newly-exceeded threshold
                    match highest_new {
                        Some(h) => {
                            if threshold > h {
                                highest_new = Some(threshold);
                            }
                        },
                        None => {
                            highest_new = Some(threshold);
                        },
                    }
                }
                proof {
                    assert(!prev_take.contains(threshold) ==> (f0.contains((m, threshold))
                        == was));
                }
            } else {
                // Reset so it can fire again when usage rises again
                self.unmark(metric, threshold);
            }
            assert(self.fired_set() =~= fired_after(f0, m, u, next_take));
            assert forall|t: u8| #[trigger] newly_crossed(f0, m, u, next_take).contains(t) <==> (
            newly_crossed(f0, m, u, prev_take).contains(t) || (t == threshold && reaches(
                u,
                t as int,
            ) && !f0.contains((m, t)) && !prev_take.contains(t))) by {}
            i = i + 1;
        }
        assert(thresholds@.take(thresholds@.len() as int) =~= thresholds@);
        let mut r: Vec<u8> = Vec::new();
        match highest_new {
            Some(h) => r.push(h),
            None => {},
        }
        r
    }
}

/// Checking again with the same metric, utilization and thresholds fires
/// nothing: a crossing is announced once.
pub proof fn law_repeat_check_is_silent(f: Set<FiredKey>, metric: Seq<char>, u: int, ts: Seq<u8>)
    ensures
        forall|t: u8| !#[trigger] newly_crossed(fired_after(f, metric, u, ts), metric, u, ts).contains(t),
{
}

/// Once usage falls below a listed threshold, that threshold is re-armed:
/// the next check that reaches it announces it again.
pub proof fn law_threshold_rearms(
    f: Set<FiredKey>,
    metric: Seq<char>,
    low: int,
    high: int,
    ts: Seq<u8>,
    t: u8,
)
    requires
        ts.contains(t),
        !reaches(low, t as int),
        reaches(high, t as int),
    ensures
        newly_crossed(fired_after(f, metric, low, ts), metric, high, ts).contains(t),
{
}

/// A check leaves the marks of every other metric as they were.
pub proof fn law_other_metrics_untouched(
    f: Set<FiredKey>,
    metric: Seq<char>,
    u: int,
    ts: Seq<u8>,
    p: FiredKey,
)
    requires
        p.0 != metric,
    ensures
        fired_after(f, metric, u, ts).contains(p) == f.contains(p),
{
}

} // verus!
