//! Logic of the macOS menu-bar agent: notification scripts, command-line
//! flags, Codex metric merging, the downgrade comparison and the chart's
//! reset markers. Running `osascript`, files and the poll loop are the
//! caller's.

use vstd::prelude::*;
use crate::text::{
    contains_seq, dec, push_char, push_dec, push_str, starts_with, str_contains, str_eq,
    str_lower, str_starts_with, to_lowercase, to_string,
};
use crate::usage::{Centis, round_percent, rounded_percent};
use crate::i18n::{I18n, translate};
use crate::history::opt_view;
use crate::keyed::{get_key, keys_unique, map_of, remove_key, set_key};

verus! {

/// The characters an AppleScript string literal needs for `c`: backslash
/// and double quote are escaped with a backslash.
pub open spec fn escape_unit(c: char) -> Seq<char> {
    if c == '\\' {
        seq!['\\', '\\']
    } else if c == '"' {
        seq!['\\', '"']
    } else {
        seq![c]
    }
}

pub open spec fn escaped(s: Seq<char>) -> Seq<char>
    decreases s.len(),
{
    if s.len() == 0 {
        Seq::<char>::empty()
    } else {
        escaped(s.drop_last()) + escape_unit(s.last())
    }
}

/// Escapes a value for an AppleScript string literal.
pub fn escape_applescript(value: &str) -> (r: String)
    ensures
        r@ == escaped(value@),
{
    let n = value.unicode_len();
    let mut r = String::new();
    let mut i: usize = 0;
    assert(value@.take(0) =~= Seq::<char>::empty());
    while i < n
        invariant
            n == value@.len(),
            i <= n,
            r@ == escaped(value@.take(i as int)),
        decreases n - i,
    {
        let c = value.get_char(i);
        if c == '\\' {
            push_char(&mut r, '\\');
            push_char(&mut r, '\\');
        } else if c == '"' {
            push_char(&mut r, '\\');
            push_char(&mut r, '"');
        } else {
            push_char(&mut r, c);
        }
        assert(value@.take(i + 1).drop_last() =~= value@.take(i as int));
        assert(r@ =~= escaped(value@.take(i + 1)));
        i = i + 1;
    }
    assert(value@.take(n as int) =~= value@);
    r
}

/// The AppleScript that shows a notification, with the "Ping" sound when
/// `sound` is on.
pub open spec fn notification_script_spec(title: Seq<char>, message: Seq<char>, sound: bool) -> Seq<
    char,
> {
    "display notification \""@ + escaped(message) + "\" with title \""@ + escaped(title) + "\""@
        + if sound {
        " sound name \"Ping\""@
    } else {
        Seq::<char>::empty()
    }
}

/// The AppleScript for a notification.
pub fn notification_script(title: &str, message: &str, sound: bool) -> (r: String)
    ensures
        r@ == notification_script_spec(title@, message@, sound),
{
    let mut r = to_string("display notification \"");
    let m = escape_applescript(message);
    push_str(&mut r, m.as_str());
    push_str(&mut r, "\" with title \"");
    let t = escape_applescript(title);
    push_str(&mut r, t.as_str());
    push_str(&mut r, "\"");
    if sound {
        push_str(&mut r, " sound name \"Ping\"");
    }
    r
}

/// The value of a command-line flag: the argument after the first `flag`
/// (none when `flag` is last), or else the text after `flag=` in the first
/// argument of that form.
pub open spec fn flag_value_spec(args: Seq<Seq<char>>, flag: Seq<char>) -> Option<Seq<char>> {
    if exists|i: int| 0 <= i < args.len() && args[i] == flag {
        let i = choose|i: int|
            0 <= i < args.len() && args[i] == flag && forall|j: int| 0 <= j < i ==> args[j] != flag;
        if i + 1 < args.len() {
            Some(args[i + 1])
        } else {
            None
        }
    } else {
        let p = flag + seq!['='];
        if exists|i: int| 0 <= i < args.len() && starts_with(args[i], p) {
            let i = choose|i: int|
                0 <= i < args.len() && starts_with(args[i], p) && forall|j: int|
                    0 <= j < i ==> !starts_with(args[j], p);
            Some(args[i].skip(p.len() as int))
        } else {
            None
        }
    }
}

pub open spec fn arg_views(args: Seq<String>) -> Seq<Seq<char>> {
    args.map_values(|a: String| a@)
}

fn suffix_from(s: &str, k: usize) -> (r: String)
    requires
        k <= s@.len(),
    ensures
        r@ == s@.skip(k as int),
{
    let n = s.unicode_len();
    let mut r = String::new();
    let mut i: usize = k;
    while i < n
        invariant
            n == s@.len(),
            k <= i <= n,
            r@ == s@.subrange(k as int, i as int),
        decreases n - i,
    {
        push_char(&mut r, s.get_char(i));
        assert(s@.subrange(k as int, i + 1) =~= s@.subrange(k as int, i as int).push(
            s@[i as int],
        ));
        i = i + 1;
    }
    assert(s@.subrange(k as int, n as int) =~= s@.skip(k as int));
    r
}

/// Value following a CLI flag, e.g. `--set language=uk` or `--set language uk`.
pub fn flag_value(args: &[String], flag: &str) -> (r: Option<String>)
    ensures
        match flag_value_spec(arg_views(args@), flag@) {
            Some(v) => r matches Some(s) && s@ == v,
            None => r is None,
        },
{
    let ghost a = arg_views(args@);
    let mut i: usize = 0;
    while i < args.len()
        invariant
            a == arg_views(args@),
            i <= args@.len(),
            forall|j: int| 0 <= j < i ==> a[j] != flag@,
        decreases args@.len() - i,
    {
        if str_eq(args[i].as_str(), flag) {
            proof {
                let k = choose|k: int|
                    0 <= k < a.len() && a[k] == flag@ && forall|j: int| 0 <= j < k ==> a[j] != flag@;
                assert(a[i as int] == flag@);
                if k < i {
                    assert(a[k] != flag@);
                }
                if k > i {
                    assert(a[i as int] != flag@);
                }
            }
            if i + 1 < args.len() {
                return Some(to_string(args[i + 1].as_str()));
            } else {
                return None;
            }
        }
        i = i + 1;
    }
    let mut prefix = to_string(flag);
    push_char(&mut prefix, '=');
    let ghost p = prefix@;
    let mut i: usize = 0;
    while i < args.len()
        invariant
            a == arg_views(args@),
            p == prefix@,
            p == flag@ + seq!['='],
            forall|j: int| 0 <= j < args@.len() ==> a[j] != flag@,
            i <= args@.len(),
            forall|j: int| 0 <= j < i ==> !starts_with(a[j], p),
        decreases args@.len() - i,
    {
        if str_starts_with(args[i].as_str(), prefix.as_str()) {
            proof {
                let k = choose|k: int|
                    0 <= k < a.len() && starts_with(a[k], p) && forall|j: int|
                        0 <= j < k ==> !starts_with(a[j], p);
                assert(starts_with(a[i as int], p));
                if k < i {
                    assert(!starts_with(a[k], p));
                }
                if k > i {
                    assert(!starts_with(a[i as int], p));
                }
            }
            return Some(suffix_from(args[i].as_str(), prefix.unicode_len()));
        }
        i = i + 1;
    }
    None
}

/// One menu entry of the agent's status: a limit of the subscription or of Codex.
pub struct MetricEntry {
    /// Raw API key, e.g. "five_hour"; Codex entries start with "codex_".
    pub key: String,
    /// Human-readable name, e.g. "Weekly (7-day)".
    pub name: String,
    pub percent: u32,
    pub resets_at: Option<String>,
}

pub open spec fn is_codex(m: MetricEntry) -> bool {
    starts_with(m.key@, "codex_"@)
}

/// Replace any Codex entries in a preserved status with a freshly read set,
/// leaving the subscription metrics untouched (and in order).
pub fn merge_codex(metrics: &mut Vec<MetricEntry>, codex: Vec<MetricEntry>)
    ensures
        final(metrics)@ == old(metrics)@.filter(|m: MetricEntry| !is_codex(m)) + codex@,
{
    let mut kept: Vec<MetricEntry> = Vec::new();
    let ghost before = metrics@;
    while metrics.len() > 0
        invariant
            kept@ + metrics@.filter(|m: MetricEntry| !is_codex(m)) == before.filter(
                |m: MetricEntry| !is_codex(m),
            ),
        decreases metrics@.len(),
    {
        let ghost cur = metrics@;
        let m = metrics.remove(0);
        proof {
            reveal(Seq::filter);
            assert(cur =~= seq![m] + metrics@);
            Seq::<MetricEntry>::filter_distributes_over_add(
                seq![m],
                metrics@,
                |m: MetricEntry| !is_codex(m),
            );
            assert(seq![m].drop_last() =~= Seq::<MetricEntry>::empty());
        }
        if !str_starts_with(m.key.as_str(), "codex_") {
            kept.push(m);
        }
        proof {
            assert(seq![m].filter(|m: MetricEntry| !is_codex(m)) =~= if !is_codex(m) {
                seq![m]
            } else {
                Seq::<MetricEntry>::empty()
            }) by {
                reveal_with_fuel(Seq::filter, 2);
                assert(seq![m].drop_last() =~= Seq::<MetricEntry>::empty());
            }
        }
    }
    assert(metrics@.filter(|m: MetricEntry| !is_codex(m)) =~= Seq::<MetricEntry>::empty()) by {
        reveal(Seq::filter);
    }
    let mut codex = codex;
    kept.append(&mut codex);
    *metrics = kept;
}

/// The highest of `ts` that `percent` reaches, or 0 when it reaches none.
pub open spec fn crossed_level(percent: int, ts: Seq<u8>) -> u8
    decreases ts.len(),
{
    if ts.len() == 0 {
        0
    } else {
        let prev = crossed_level(percent, ts.drop_last());
        let t = ts.last();
        if percent >= t && t > prev {
            t
        } else {
            prev
        }
    }
}

/// A metric's percentage as the alerts compare it (capped at 255).
pub open spec fn capped(p: u32) -> int {
    if p > 255 {
        255
    } else {
        p as int
    }
}

/// The level recorded for `key`, 0 when none is.
pub open spec fn level_in(m: Map<Seq<char>, u8>, key: Seq<char>) -> u8 {
    if m.dom().contains(key) {
        m[key]
    } else {
        0
    }
}

/// The alert levels after going through `ms` in order: each metric records
/// the highest threshold it reaches, or drops its record when it reaches none.
pub open spec fn alerted_after(prev: Map<Seq<char>, u8>, ms: Seq<MetricEntry>, ts: Seq<u8>) -> Map<
    Seq<char>,
    u8,
>
    decreases ms.len(),
{
    if ms.len() == 0 {
        prev
    } else {
        let before = alerted_after(prev, ms.drop_last(), ts);
        let m = ms.last();
        let c = crossed_level(capped(m.percent), ts);
        if c == 0 {
            before.remove(m.key@)
        } else {
            before.insert(m.key@, c)
        }
    }
}

/// A notification to show: its title and message.
pub struct Alert {
    pub title: String,
    pub message: String,
}

/// The message of an alert: "name: 91%".
pub open spec fn alert_message(m: MetricEntry) -> Seq<char> {
    m.name@ + ": "@ + dec(m.percent as nat) + "%"@
}

/// The title of an alert: critical from 90%, else a usage alert.
pub open spec fn alert_title(i: I18n, level: u8) -> Seq<char> {
    if level >= 90 {
        translate(i.spec_strings(), i.spec_fallback(), "Usage Critical"@)
    } else {
        translate(i.spec_strings(), i.spec_fallback(), "Usage Alert"@)
    }
}

/// The notifications raised going through `ms`: one for each metric whose
/// level rises above the one recorded for its key.
pub open spec fn alerts_raised(
    i: I18n,
    prev: Map<Seq<char>, u8>,
    ms: Seq<MetricEntry>,
    ts: Seq<u8>,
) -> Seq<(Seq<char>, Seq<char>)>
    decreases ms.len(),
{
    if ms.len() == 0 {
        Seq::empty()
    } else {
        let rest = alerts_raised(i, prev, ms.drop_last(), ts);
        let before = alerted_after(prev, ms.drop_last(), ts);
        let m = ms.last();
        let c = crossed_level(capped(m.percent), ts);
        if c > level_in(before, m.key@) {
            rest.push((alert_title(i, c), alert_message(m)))
        } else {
            rest
        }
    }
}

pub open spec fn alerts_view(a: Seq<Alert>) -> Seq<(Seq<char>, Seq<char>)> {
    a.map_values(|x: Alert| (x.title@, x.message@))
}

/// The highest threshold `percent` reaches, or 0.
pub fn crossed_threshold(percent: u8, thresholds: &[u8]) -> (r: u8)
    ensures
        r == crossed_level(percent as int, thresholds@),
{
    let mut best: u8 = 0;
    let mut i: usize = 0;
    assert(thresholds@.take(0) =~= Seq::<u8>::empty());
    while i < thresholds.len()
        invariant
            i <= thresholds@.len(),
            best == crossed_level(percent as int, thresholds@.take(i as int)),
        decreases thresholds@.len() - i,
    {
        let t = thresholds[i];
        assert(thresholds@.take(i + 1).drop_last() =~= thresholds@.take(i as int));
        if percent >= t && t > best {
            best = t;
        }
        i = i + 1;
    }
    assert(thresholds@.take(thresholds@.len() as int) =~= thresholds@);
    best
}

/// Fire a notification the first time a metric crosses each configured
/// threshold, and re-arm a threshold once usage falls back below it.
///
/// Takes the per-metric high-water marks recorded so far and returns the
/// updated marks with the notifications to show. With notifications off the
/// marks are returned unchanged and nothing is shown.
pub fn check_alerts(
    previous: Vec<(String, u8)>,
    metrics: &[MetricEntry],
    enabled: bool,
    thresholds: &[u8],
    i18n: &I18n,
) -> (r: (Vec<(String, u8)>, Vec<Alert>))
    requires
        keys_unique(previous@),
    ensures
        keys_unique(r.0@),
        enabled ==> map_of(r.0@) == alerted_after(map_of(previous@), metrics@, thresholds@),
        enabled ==> alerts_view(r.1@) == alerts_raised(
            *i18n,
            map_of(previous@),
            metrics@,
            thresholds@,
        ),
        !enabled ==> r.0@ == previous@ && r.1@.len() == 0,
{
    let mut alerted = previous;
    let mut alerts: Vec<Alert> = Vec::new();
    if !enabled {
        return (alerted, alerts);
    }
    let ghost prev = map_of(alerted@);
    let mut i: usize = 0;
    assert(metrics@.take(0) =~= Seq::<MetricEntry>::empty());
    assert(alerts_view(alerts@) =~= Seq::<(Seq<char>, Seq<char>)>::empty());
    while i < metrics.len()
        invariant
            i <= metrics@.len(),
            keys_unique(alerted@),
            map_of(alerted@) == alerted_after(prev, metrics@.take(i as int), thresholds@),
            alerts_view(alerts@) == alerts_raised(
                *i18n,
                prev,
                metrics@.take(i as int),
                thresholds@,
            ),
        decreases metrics@.len() - i,
    {
        let metric = &metrics[i];
        assert(metrics@.take(i + 1).drop_last() =~= metrics@.take(i as int));
        let percent: u8 = if metric.percent > 255 {
            255
        } else {
            metric.percent as u8
        };
        let previous_level: u8 = match get_key(&alerted, metric.key.as_str()) {
            Some(x) => x,
            None => 0,
        };
        let crossed = crossed_threshold(percent, thresholds);
        if crossed > previous_level {
            let title = if crossed >= 90 {
                to_string(i18n.t("Usage Critical"))
            } else {
                to_string(i18n.t("Usage Alert"))
            };
            let mut message = to_string(metric.name.as_str());
            push_str(&mut message, ": ");
            push_dec(&mut message, metric.percent as u64);
            push_str(&mut message, "%");
            let ghost before_alerts = alerts@;
            alerts.push(Alert { title, message });
            assert(alerts_view(alerts@) =~= alerts_view(before_alerts).push(
                (alert_title(*i18n, crossed), alert_message(*metric)),
            ));
        }
        if crossed == 0 {
            remove_key(&mut alerted, metric.key.as_str());
        } else {
            set_key(&mut alerted, metric.key.as_str(), crossed);
        }
        i = i + 1;
    }
    assert(metrics@.take(metrics@.len() as int) =~= metrics@);
    (alerted, alerts)
}

/// The tier of a plan name already in lower case: "20x" plans, "5x" or bare
/// "max" plans, and "pro" (by substring, in that order).
pub open spec fn tier_of_lowercase(p: Seq<char>) -> Option<u32> {
    if contains_seq(p, "20x"@) {
        Some(20)
    } else if contains_seq(p, "5x"@) || contains_seq(p, "max"@) {
        Some(5)
    } else if contains_seq(p, "pro"@) {
        Some(1)
    } else {
        None
    }
}

/// Plan tier as a multiple of the Pro allowance, read from the plan name in
/// lower case.
pub open spec fn plan_multiplier_spec(plan: Seq<char>) -> Option<u32> {
    tier_of_lowercase(str_lower(plan))
}

/// The next cheaper tier and its multiplier, none at the bottom.
pub open spec fn lower_tier_spec(mult: u32) -> Option<(Seq<char>, u32)> {
    if mult >= 20 {
        Some(("Max 5x"@, 5u32))
    } else if mult >= 5 {
        Some(("Pro"@, 1u32))
    } else {
        None
    }
}

/// The tier multiplier of a lower-case plan name.
pub fn tier_multiplier(lowercase_plan: &str) -> (r: Option<u32>)
    ensures
        r == tier_of_lowercase(lowercase_plan@),
{
    if str_contains(lowercase_plan, "20x") {
        Some(20)
    } else if str_contains(lowercase_plan, "5x") || str_contains(lowercase_plan, "max") {
        Some(5)
    } else if str_contains(lowercase_plan, "pro") {
        Some(1)
    } else {
        None
    }
}

/// Plan tier as a multiple of the Pro base allowance.
pub fn plan_multiplier(plan: &str) -> (r: Option<u32>)
    ensures
        r == plan_multiplier_spec(plan@),
{
    let p = to_lowercase(plan);
    tier_multiplier(p.as_str())
}

/// The next cheaper tier and its multiplier, or None if already at the bottom.
pub fn lower_tier(mult: u32) -> (r: Option<(&'static str, u32)>)
    ensures
        match lower_tier_spec(mult) {
            Some((n, m)) => r matches Some((s, k)) && s@ == n && k == m,
            None => r is None,
        },
{
    if mult >= 20 {
        Some(("Max 5x", 5))
    } else if mult >= 5 {
        Some(("Pro", 1))
    } else {
        None
    }
}

/// "weekly ~96%": a usage estimate on the smaller plan.
pub open spec fn estimate_part(label: Seq<char>, c: int, factor: int) -> Seq<char> {
    label + " ~"@ + dec(rounded_percent(c * factor) as nat) + "%"@
}

/// "On Max 5x: weekly ~96%, session ~124% — would throttle": the session
/// and weekly usage if the same work ran on the next tier down, assuming
/// limits scale linearly with the tier multiplier.
pub open spec fn tier_note_spec(plan: Seq<char>, weekly: Option<Centis>, session: Option<Centis>) -> Option<
    Seq<char>,
> {
    match plan_multiplier_spec(plan) {
        None => None,
        Some(mult) => match lower_tier_spec(mult) {
            None => None,
            Some((name, lower)) => {
                let f = (mult / lower) as int;
                let over = (weekly matches Some(w) && w * f > 10000) || (session matches Some(s)
                    && s * f > 10000);
                let verdict = if over {
                    " \u{2014} would throttle"@
                } else {
                    " \u{2014} would fit"@
                };
                match (weekly, session) {
                    (None, None) => None,
                    (Some(w), None) => Some(
                        "On "@ + name + ": "@ + estimate_part("weekly"@, w as int, f) + verdict,
                    ),
                    (None, Some(s)) => Some(
                        "On "@ + name + ": "@ + estimate_part("session"@, s as int, f) + verdict,
                    ),
                    (Some(w), Some(s)) => Some(
                        "On "@ + name + ": "@ + estimate_part("weekly"@, w as int, f) + ", "@
                            + estimate_part("session"@, s as int, f) + verdict,
                    ),
                }
            },
        },
    }
}

fn scale(c: Centis, factor: u32) -> (r: u64)
    requires
        factor <= 20,
    ensures
        r == c as int * factor as int,
{
    let a = c as u64;
    let b = factor as u64;
    assert(a * b <= 4294967295u64 * 20) by (nonlinear_arith)
        requires
            a <= 4294967295u64,
            b <= 20,
    ;
    a * b
}

fn push_estimate(r: &mut String, label: &str, c: Centis, factor: u32)
    requires
        factor <= 20,
    ensures
        final(r)@ == old(r)@ + estimate_part(label@, c as int, factor as int),
{
    push_str(r, label);
    push_str(r, " ~");
    let scaled: u64 = scale(c, factor);
    let rounded: u64 = scaled / 100 + if scaled % 100 >= 50 {
        1u64
    } else {
        0u64
    };
    push_dec(r, rounded);
    push_str(r, "%");
}

/// The downgrade comparison for a plan, from the weekly and session
/// utilizations; none for an unknown or bottom plan, or without usage.
pub fn build_tier_note(plan: &str, weekly: Option<Centis>, session: Option<Centis>) -> (r: Option<
    String,
>)
    ensures
        match tier_note_spec(plan@, weekly, session) {
            Some(t) => r matches Some(s) && s@ == t,
            None => r is None,
        },
{
    let mult = match plan_multiplier(plan) {
        Some(m) => m,
        None => return None,
    };
    let (lower_name, lower_mult) = match lower_tier(mult) {
        Some(x) => x,
        None => return None,
    };
    let factor = mult / lower_mult;
    assert(factor <= 20);
    if weekly.is_none() && session.is_none() {
        return None;
    }
    let over_week = match weekly {
        Some(w) => scale(w, factor) > 10000,
        None => false,
    };
    let over_session = match session {
        Some(s) => scale(s, factor) > 10000,
        None => false,
    };
    let mut r = to_string("On ");
    push_str(&mut r, lower_name);
    push_str(&mut r, ": ");
    match weekly {
        Some(w) => {
            push_estimate(&mut r, "weekly", w, factor);
            match session {
                Some(s) => {
                    push_str(&mut r, ", ");
                    push_estimate(&mut r, "session", s, factor);
                },
                None => {},
            }
        },
        None => match session {
            Some(s) => push_estimate(&mut r, "session", s, factor),
            None => {},
        },
    }
    if over_week || over_session {
        push_str(&mut r, " \u{2014} would throttle");
    } else {
        push_str(&mut r, " \u{2014} would fit");
    }
    Some(r)
}

/// Past 5-hour session resets as seconds ago, from the most recent reset
/// (five hours before the next one) back in 5-hour steps up to 24 hours.
pub open spec fn resets_from(a: int) -> Seq<int>
    decreases 86400 + 18000 - a,
{
    if a > 86400 {
        Seq::empty()
    } else {
        (if a > 0 {
            seq![a]
        } else {
            Seq::empty()
        }) + resets_from(a + 18000)
    }
}

pub open spec fn ints(v: Seq<i64>) -> Seq<int> {
    v.map_values(|x: i64| x as int)
}

/// The chart's reset markers, in seconds ago, for a next reset
/// `seconds_until_reset` away.
pub fn chart_reset_offsets(seconds_until_reset: i64) -> (r: Vec<i64>)
    ensures
        ints(r@) == resets_from(18000 - seconds_until_reset),
{
    let mut out: Vec<i64> = Vec::new();
    let mut a: i128 = 18000 - seconds_until_reset as i128;
    let ghost start = a as int;
    assert(ints(out@) =~= Seq::<int>::empty());
    if a > 86400 {
        return out;
    }
    while a <= 86400
        invariant
            a <= 86400 + 18000,
            a >= 18000 - 0x8000_0000_0000_0000,
            ints(out@) + resets_from(a as int) == resets_from(start),
        decreases 86400 + 18000 - a,
    {
        let ghost old_out = out@;
        if a > 0 {
            out.push(a as i64);
            assert(ints(out@) =~= ints(old_out) + seq![a as int]);
        }
        assert(ints(out@) + resets_from(a + 18000) =~= ints(old_out) + resets_from(a as int));
        a = a + 18000;
    }
    assert(ints(out@) + resets_from(a as int) =~= ints(out@));
    out
}


/// What the menu's labels read of the configuration.
pub struct MenuSettings {
    /// The alert thresholds as the settings submenu shows them.
    pub thresholds_text: String,
    /// The configured language code, or "auto".
    pub language: String,
    pub show_codex_section: bool,
    pub show_model_limits: bool,
    pub show_extra_usage: bool,
    pub show_startup_notification: bool,
    pub login_expiry_warning: bool,
    pub notification_sound: bool,
    pub notifications_enabled: bool,
}

/// A setting's current value as the menu reads it.
pub open spec fn flag_text(on: bool) -> Seq<char> {
    if on {
        "true"@
    } else {
        "false"@
    }
}

/// The localized menu strings keyed by stable identifiers, in order: the
/// translated labels, then the current setting values so the settings
/// submenu can show check marks without reading the configuration.
pub open spec fn menu_labels_spec(i: I18n, s: MenuSettings) -> Seq<(Seq<char>, Seq<char>)> {
    let tr = |k: Seq<char>| translate(i.spec_strings(), i.spec_fallback(), k);
    seq![
        ("refresh_now"@, tr("Refresh Now"@)),
        ("check_for_updates"@, tr("Check for updates"@)),
        ("open_config"@, tr("Open Config"@)),
        ("export_config"@, tr("Export Config"@)),
        ("import_config"@, tr("Import Config"@)),
        ("export_csv"@, tr("Export History (CSV)"@)),
        ("export_json"@, tr("Export History (JSON)"@)),
        ("enable_autostart"@, tr("Enable Autostart"@)),
        ("disable_autostart"@, tr("Disable Autostart"@)),
        ("open_logs"@, tr("Open Logs"@)),
        ("quit"@, tr("Quit"@)),
        ("settings"@, tr("Settings"@)),
        ("language"@, tr("Language"@)),
        ("auto"@, tr("Auto"@)),
        ("notifications"@, tr("Notifications"@)),
        ("notification_sound"@, tr("Notification sound"@)),
        ("alert_thresholds"@, tr("Alert thresholds"@)),
        ("show_codex_section"@, tr("Show Codex section"@)),
        ("show_model_limits"@, tr("Show model limits"@)),
        ("show_extra_usage"@, tr("Show extra usage"@)),
        ("show_startup_notification"@, tr("Show startup notification"@)),
        ("show_login_expiry_warning"@, tr("Show login expiry warning"@)),
        ("usage_history_24h"@, tr("Usage History (24h)"@)),
        ("freshness"@, tr("Freshness"@)),
        ("live"@, tr("Live"@)),
        ("cached"@, tr("Cached"@)),
        ("api_error"@, tr("api_error"@)),
        ("refreshing"@, tr("Refreshing"@)),
        ("resets_in"@, tr("resets in"@)),
        ("update_available"@, tr("Update available"@)),
        ("latest_version"@, tr("latest_version"@)),
        ("update_check_failed"@, tr("update_check_failed"@)),
        ("pace_too_early"@, tr("pace_too_early"@)),
        ("pace_projection"@, tr("pace_projection"@)),
        ("time_ago"@, tr("time_ago"@)),
        ("value_thresholds"@, s.thresholds_text@),
        ("value_language"@, s.language@),
        ("value_show_codex_section"@, flag_text(s.show_codex_section)),
        ("value_show_model_limits"@, flag_text(s.show_model_limits)),
        ("value_show_extra_usage"@, flag_text(s.show_extra_usage)),
        ("value_show_startup_notification"@, flag_text(s.show_startup_notification)),
        ("value_show_login_expiry_warning"@, flag_text(s.login_expiry_warning)),
        ("value_notification_sound"@, flag_text(s.notification_sound)),
        ("value_notifications_enabled"@, flag_text(s.notifications_enabled)),
    ]
}

pub open spec fn labels_view(v: Seq<(String, String)>) -> Seq<(Seq<char>, Seq<char>)> {
    v.map_values(|e: (String, String)| (e.0@, e.1@))
}

fn flag_str(on: bool) -> (r: &'static str)
    ensures
        r@ == flag_text(on),
{
    if on {
        "true"
    } else {
        "false"
    }
}

fn label(i18n: &I18n, id: &str, key: &str) -> (r: (String, String))
    ensures
        r.0@ == id@,
        r.1@ == translate(i18n.spec_strings(), i18n.spec_fallback(), key@),
{
    (to_string(id), to_string(i18n.t(key)))
}

/// Localized strings for the menu bar app, keyed by stable identifiers.
pub fn menu_labels(i18n: &I18n, settings: &MenuSettings) -> (r: Vec<(String, String)>)
    ensures
        labels_view(r@) == menu_labels_spec(*i18n, *settings),
{
    let r = vec![
        label(i18n, "refresh_now", "Refresh Now"),
        label(i18n, "check_for_updates", "Check for updates"),
        label(i18n, "open_config", "Open Config"),
        label(i18n, "export_config", "Export Config"),
        label(i18n, "import_config", "Import Config"),
        label(i18n, "export_csv", "Export History (CSV)"),
        label(i18n, "export_json", "Export History (JSON)"),
        label(i18n, "enable_autostart", "Enable Autostart"),
        label(i18n, "disable_autostart", "Disable Autostart"),
        label(i18n, "open_logs", "Open Logs"),
        label(i18n, "quit", "Quit"),
        label(i18n, "settings", "Settings"),
        label(i18n, "language", "Language"),
        label(i18n, "auto", "Auto"),
        label(i18n, "notifications", "Notifications"),
        label(i18n, "notification_sound", "Notification sound"),
        label(i18n, "alert_thresholds", "Alert thresholds"),
        label(i18n, "show_codex_section", "Show Codex section"),
        label(i18n, "show_model_limits", "Show model limits"),
        label(i18n, "show_extra_usage", "Show extra usage"),
        label(i18n, "show_startup_notification", "Show startup notification"),
        label(i18n, "show_login_expiry_warning", "Show login expiry warning"),
        label(i18n, "usage_history_24h", "Usage History (24h)"),
        label(i18n, "freshness", "Freshness"),
        label(i18n, "live", "Live"),
        label(i18n, "cached", "Cached"),
        label(i18n, "api_error", "api_error"),
        label(i18n, "refreshing", "Refreshing"),
        label(i18n, "resets_in", "resets in"),
        label(i18n, "update_available", "Update available"),
        label(i18n, "latest_version", "latest_version"),
        label(i18n, "update_check_failed", "update_check_failed"),
        label(i18n, "pace_too_early", "pace_too_early"),
        label(i18n, "pace_projection", "pace_projection"),
        label(i18n, "time_ago", "time_ago"),
        (to_string("value_thresholds"), settings.thresholds_text.clone()),
        (to_string("value_language"), settings.language.clone()),
        (to_string("value_show_codex_section"), to_string(flag_str(settings.show_codex_section))),
        (to_string("value_show_model_limits"), to_string(flag_str(settings.show_model_limits))),
        (to_string("value_show_extra_usage"), to_string(flag_str(settings.show_extra_usage))),
        (to_string("value_show_startup_notification"), to_string(flag_str(settings.show_startup_notification))),
        (to_string("value_show_login_expiry_warning"), to_string(flag_str(settings.login_expiry_warning))),
        (to_string("value_notification_sound"), to_string(flag_str(settings.notification_sound))),
        (to_string("value_notifications_enabled"), to_string(flag_str(settings.notifications_enabled))),
    ];
    assert(labels_view(r@) =~= menu_labels_spec(*i18n, *settings));
    r
}

/// The status the agent publishes for the menu bar app.
pub struct MacStatus {
    /// "live", "refreshing" or "error".
    pub state: String,
    pub title: String,
    pub detail: String,
    pub plan: Option<String>,
    pub percent: Option<u32>,
    /// Per-limit breakdown; empty until the first fetch.
    pub metrics: Vec<MetricEntry>,
    /// Downgrade comparison, e.g. "On Max 5x: weekly ~96%, session ~124%".
    pub tier_note: Option<String>,
    pub last_api_update: Option<String>,
    pub data_age_seconds: Option<u64>,
    pub error: Option<String>,
    /// 24h usage history of the session metric, oldest first, in percent.
    pub chart: Vec<u32>,
    /// Past session resets, in seconds ago (see `chart_reset_offsets`).
    pub chart_resets: Vec<i64>,
    /// Localized menu strings, keyed by a stable identifier.
    pub labels: Vec<(String, String)>,
    /// Highest alert threshold already announced per metric key.
    pub alerted: Vec<(String, u8)>,
}

/// A status without a reading: the given state, title, detail and error,
/// and every other field empty.
pub open spec fn is_placeholder(
    s: MacStatus,
    state: Seq<char>,
    title: Seq<char>,
    detail: Seq<char>,
    error: Option<Seq<char>>,
) -> bool {
    &&& s.state@ == state
    &&& s.title@ == title
    &&& s.detail@ == detail
    &&& s.plan is None
    &&& s.percent is None
    &&& s.metrics@.len() == 0
    &&& s.tier_note is None
    &&& s.last_api_update is None
    &&& s.data_age_seconds is None
    &&& opt_view(s.error) == error
    &&& s.chart@.len() == 0
    &&& s.chart_resets@.len() == 0
    &&& s.labels@.len() == 0
    &&& s.alerted@.len() == 0
}

/// `b` shows the same reading as `a`: everything but the error, the
/// metrics, the labels and the alert marks is kept.
pub open spec fn same_reading(a: MacStatus, b: MacStatus) -> bool {
    &&& b.state == a.state
    &&& b.title == a.title
    &&& b.detail == a.detail
    &&& b.plan == a.plan
    &&& b.percent == a.percent
    &&& b.tier_note == a.tier_note
    &&& b.last_api_update == a.last_api_update
    &&& b.data_age_seconds == a.data_age_seconds
    &&& b.chart == a.chart
    &&& b.chart_resets == a.chart_resets
}

/// What `check_alerts` gives for the marks `prev` and the metrics `ms`: the
/// marks `alerted` and the notifications `alerts`.
pub open spec fn alerts_checked(
    i: I18n,
    prev: Seq<(String, u8)>,
    ms: Seq<MetricEntry>,
    enabled: bool,
    ts: Seq<u8>,
    alerted: Seq<(String, u8)>,
    alerts: Seq<Alert>,
) -> bool {
    &&& keys_unique(alerted)
    &&& enabled ==> map_of(alerted) == alerted_after(map_of(prev), ms, ts)
    &&& enabled ==> alerts_view(alerts) == alerts_raised(i, map_of(prev), ms, ts)
    &&& !enabled ==> alerted == prev && alerts.len() == 0
}

/// The text of the status shown while the first reading is fetched.
pub open spec fn refreshing_detail() -> Seq<char> {
    "Requesting fresh usage data"@
}

impl MacStatus {
    /// The placeholder shown while the first reading is fetched.
    pub fn refreshing() -> (r: Self)
        ensures
            is_placeholder(r, "refreshing"@, "Refreshing..."@, refreshing_detail(), None),
    {
        MacStatus {
            state: to_string("refreshing"),
            title: to_string("Refreshing..."),
            detail: to_string("Requesting fresh usage data"),
            plan: None,
            percent: None,
            metrics: Vec::new(),
            tier_note: None,
            last_api_update: None,
            data_age_seconds: None,
            error: None,
            chart: Vec::new(),
            chart_resets: Vec::new(),
            labels: Vec::new(),
            alerted: Vec::new(),
        }
    }

    /// The status of a failed fetch with no reading to show.
    pub fn error(message: String) -> (r: Self)
        ensures
            is_placeholder(r, "error"@, "API error"@, message@, Some(message@)),
    {
        let detail = message.clone();
        MacStatus {
            state: to_string("error"),
            title: to_string("API error"),
            detail,
            plan: None,
            percent: None,
            metrics: Vec::new(),
            tier_note: None,
            last_api_update: None,
            data_age_seconds: None,
            error: Some(message),
            chart: Vec::new(),
            chart_resets: Vec::new(),
            labels: Vec::new(),
            alerted: Vec::new(),
        }
    }
}

/// The status to publish when a refresh begins, from the last published one.
/// A prior reading stays on screen with its error cleared, so the menu does
/// not flash an empty state every poll; only without one is the refreshing
/// placeholder shown, with its title translated.
pub fn refresh_start(prev: Option<MacStatus>, i18n: &I18n) -> (r: MacStatus)
    ensures
        match prev {
            Some(p) => if p.percent is Some {
                same_reading(p, r) && r.error is None && r.metrics == p.metrics && r.labels
                    == p.labels && r.alerted == p.alerted
            } else {
                is_placeholder(
                    r,
                    "refreshing"@,
                    translate(i18n.spec_strings(), i18n.spec_fallback(), "Refreshing"@),
                    refreshing_detail(),
                    None,
                )
            },
            None => is_placeholder(
                r,
                "refreshing"@,
                translate(i18n.spec_strings(), i18n.spec_fallback(), "Refreshing"@),
                refreshing_detail(),
                None,
            ),
        },
{
    match prev {
        Some(p) => {
            if p.percent.is_some() {
                let mut p = p;
                p.error = None;
                return p;
            }
        },
        None => {},
    }
    let mut status = MacStatus::refreshing();
    status.title = to_string(i18n.t("Refreshing"));
    status
}

/// The status to publish after a failed fetch, from the last published one,
/// with the notifications to show. A prior reading is kept, with the error
/// attached, its Codex entries replaced by `codex`, and the alerts checked
/// again over its metrics; without one, the error status shows the Codex
/// entries alone (they need no API), with its title translated. Either way
/// the alert marks start from the last published ones and the menu labels
/// are rebuilt from the locale and the settings.
pub fn error_status(
    prev: Option<MacStatus>,
    message: String,
    codex: Vec<MetricEntry>,
    settings: &MenuSettings,
    enabled: bool,
    thresholds: &[u8],
    i18n: &I18n,
) -> (r: (MacStatus, Vec<Alert>))
    requires
        prev matches Some(p) ==> keys_unique(p.alerted@),
    ensures
        match prev {
            Some(p) if p.percent is Some => {
                let ms = p.metrics@.filter(|m: MetricEntry| !is_codex(m)) + codex@;
                &&& same_reading(p, r.0)
                &&& opt_view(r.0.error) == Some(message@)
                &&& r.0.metrics@ == ms
                &&& labels_view(r.0.labels@) == menu_labels_spec(*i18n, *settings)
                &&& alerts_checked(*i18n, p.alerted@, ms, enabled, thresholds@, r.0.alerted@, r.1@)
            },
            _ => {
                let prev_alerted = match prev {
                    Some(p) => p.alerted@,
                    None => Seq::empty(),
                };
                &&& r.0.state@ == "error"@
                &&& r.0.title@ == translate(i18n.spec_strings(), i18n.spec_fallback(), "api_error"@)
                &&& r.0.detail@ == message@
                &&& opt_view(r.0.error) == Some(message@)
                &&& r.0.plan is None
                &&& r.0.percent is None
                &&& r.0.tier_note is None
                &&& r.0.last_api_update is None
                &&& r.0.data_age_seconds is None
                &&& r.0.chart@.len() == 0
                &&& r.0.chart_resets@.len() == 0
                &&& r.0.metrics == codex
                &&& labels_view(r.0.labels@) == menu_labels_spec(*i18n, *settings)
                &&& alerts_checked(*i18n, prev_alerted, codex@, enabled, thresholds@, r.0.alerted@, r.1@)
            },
        },
{
    let prev_alerted: Vec<(String, u8)> = match prev {
        Some(p) => {
            if p.percent.is_some() {
                let mut p = p;
                p.error = Some(message);
                merge_codex(&mut p.metrics, codex);
                let mut previous: Vec<(String, u8)> = Vec::new();
                std::mem::swap(&mut previous, &mut p.alerted);
                let (alerted, alerts) = check_alerts(
                    previous,
                    p.metrics.as_slice(),
                    enabled,
                    thresholds,
                    i18n,
                );
                p.alerted = alerted;
                p.labels = menu_labels(i18n, settings);
                return (p, alerts);
            }
            p.alerted
        },
        None => {
            proof {
                assert(keys_unique(Seq::<(String, u8)>::empty()));
            }
            Vec::new()
        },
    };
    let mut status = MacStatus::error(message);
    let (alerted, alerts) = check_alerts(prev_alerted, codex.as_slice(), enabled, thresholds, i18n);
    status.alerted = alerted;
    status.metrics = codex;
    status.title = to_string(i18n.t("api_error"));
    status.labels = menu_labels(i18n, settings);
    (status, alerts)
}


/// What the published status reads of a fetched usage response.
pub struct LiveReading {
    /// The plan detected from the subscription, e.g. "Max 5x".
    pub detected_plan: String,
    /// The highest utilization over all limits, if any.
    pub max_utilization: Option<Centis>,
    /// The weekly limit's utilization.
    pub weekly: Option<Centis>,
    /// The 5-hour session's utilization.
    pub session: Option<Centis>,
    /// Seconds until the session resets, when its reset time reads.
    pub session_resets_in: Option<i64>,
    /// The limits to show, already filtered and named.
    pub metrics: Vec<MetricEntry>,
}

/// The chart's slots as whole percents.
pub open spec fn rounded_chart(slots: Seq<Centis>) -> Seq<u32> {
    slots.map_values(|c: Centis| rounded_percent(c as int) as u32)
}

/// The status published after a successful fetch, with the notifications to
/// show: "live", titled with the highest utilization in whole percent and
/// detailed as "plan: percent%" (the configured plan, else the detected
/// one); the Codex entries follow the subscription's; a downgrade note only
/// for a configured plan; the chart in whole percents with the session's
/// past resets; and the alerts checked over all entries from the last
/// published marks.
pub fn live_status(
    reading: LiveReading,
    codex: Vec<MetricEntry>,
    plan_override: Option<&str>,
    last_api_update: String,
    chart_slots: &[Centis],
    settings: &MenuSettings,
    previous_alerted: Vec<(String, u8)>,
    enabled: bool,
    thresholds: &[u8],
    i18n: &I18n,
) -> (r: (MacStatus, Vec<Alert>))
    requires
        keys_unique(previous_alerted@),
    ensures
        ({
            let percent = rounded_percent(
                match reading.max_utilization {
                    Some(c) => c as int,
                    None => 0,
                },
            );
            let plan = match plan_override {
                Some(p) => p@,
                None => reading.detected_plan@,
            };
            let ms = reading.metrics@ + codex@;
            &&& r.0.state@ == "live"@
            &&& r.0.title@ == dec(percent as nat) + "%"@
            &&& r.0.detail@ == plan + ": "@ + dec(percent as nat) + "%"@
            &&& opt_view(r.0.plan) == Some(plan)
            &&& r.0.percent == Some(percent as u32)
            &&& r.0.metrics@ == ms
            &&& opt_view(r.0.tier_note) == match plan_override {
                Some(p) => tier_note_spec(p@, reading.weekly, reading.session),
                None => None,
            }
            &&& opt_view(r.0.last_api_update) == Some(last_api_update@)
            &&& r.0.data_age_seconds == Some(0u64)
            &&& r.0.error is None
            &&& r.0.chart@ == rounded_chart(chart_slots@)
            &&& ints(r.0.chart_resets@) == match reading.session_resets_in {
                Some(s) => resets_from(18000 - s),
                None => Seq::empty(),
            }
            &&& labels_view(r.0.labels@) == menu_labels_spec(*i18n, *settings)
            &&& alerts_checked(*i18n, previous_alerted@, ms, enabled, thresholds@, r.0.alerted@, r.1@)
        }),
{
    let LiveReading { detected_plan, max_utilization, weekly, session, session_resets_in, metrics } =
        reading;
    let percent = round_percent(
        match max_utilization {
            Some(c) => c,
            None => 0,
        },
    );
    let plan = match plan_override {
        Some(p) => to_string(p),
        None => detected_plan,
    };
    let mut title = String::new();
    push_dec(&mut title, percent as u64);
    push_str(&mut title, "%");
    let mut detail = plan.clone();
    push_str(&mut detail, ": ");
    push_dec(&mut detail, percent as u64);
    push_str(&mut detail, "%");
    let mut all = metrics;
    let mut codex = codex;
    all.append(&mut codex);
    let tier_note = match plan_override {
        Some(p) => build_tier_note(p, weekly, session),
        None => None,
    };
    let mut chart: Vec<u32> = Vec::new();
    let mut i: usize = 0;
    while i < chart_slots.len()
        invariant
            i <= chart_slots@.len(),
            chart@ == rounded_chart(chart_slots@.take(i as int)),
        decreases chart_slots@.len() - i,
    {
        chart.push(round_percent(chart_slots[i]));
        assert(rounded_chart(chart_slots@.take(i + 1)) =~= rounded_chart(
            chart_slots@.take(i as int),
        ).push(rounded_percent(chart_slots@[i as int] as int) as u32));
        i = i + 1;
    }
    assert(chart_slots@.take(i as int) =~= chart_slots@);
    let chart_resets = match session_resets_in {
        Some(s) => chart_reset_offsets(s),
        None => Vec::new(),
    };
    proof {
        if session_resets_in is None {
            assert(ints(chart_resets@) =~= Seq::<int>::empty());
        }
    }
    let (alerted, alerts) = check_alerts(previous_alerted, all.as_slice(), enabled, thresholds, i18n);
    let labels = menu_labels(i18n, settings);
    let status = MacStatus {
        state: to_string("live"),
        title,
        detail,
        plan: Some(plan),
        percent: Some(percent),
        metrics: all,
        tier_note,
        last_api_update: Some(last_api_update),
        data_age_seconds: Some(0),
        error: None,
        chart,
        chart_resets,
        labels,
        alerted,
    };
    (status, alerts)
}


/// `crossed_level` is the highest threshold reached: 0, or a listed
/// threshold that `percent` reaches and that no reached one exceeds.
proof fn lemma_crossed_level_is_highest(percent: int, ts: Seq<u8>)
    ensures
        crossed_level(percent, ts) == 0 || (ts.contains(crossed_level(percent, ts))
            && crossed_level(percent, ts) as int <= percent),
        forall|t: u8| ts.contains(t) && t as int <= percent ==> t <= crossed_level(percent, ts),
    decreases ts.len(),
{
    if ts.len() > 0 {
        let prev = ts.drop_last();
        lemma_crossed_level_is_highest(percent, prev);
        assert forall|t: u8| ts.contains(t) && t as int <= percent implies t <= crossed_level(
            percent,
            ts,
        ) by {
            let k = choose|k: int| 0 <= k < ts.len() && ts[k] == t;
            if k < ts.len() - 1 {
                assert(prev[k] == t);
                assert(prev.contains(t));
            }
        }
        let c = crossed_level(percent, ts);
        if c != 0 && c != crossed_level(percent, prev) {
            assert(ts[ts.len() - 1] == c);
        } else if c != 0 {
            let k = choose|k: int| 0 <= k < prev.len() && prev[k] == c;
            assert(ts[k] == c);
        }
    }
}

/// After a check, the metric checked last is recorded with exactly the
/// highest threshold its percentage (capped at 255) now reaches, whether
/// that is above or below what was recorded before; a metric that reaches
/// no positive threshold has no record. A threshold left behind is re-armed.
pub proof fn law_alert_mark_is_highest_reached(
    prev: Map<Seq<char>, u8>,
    ms: Seq<MetricEntry>,
    ts: Seq<u8>,
)
    requires
        ms.len() > 0,
    ensures
        ({
            let m = ms.last();
            let p: int = if m.percent > 255 {
                255
            } else {
                m.percent as int
            };
            let after = alerted_after(prev, ms, ts);
            &&& (exists|t: u8| ts.contains(t) && 0 < t && t as int <= p) ==> {
                &&& after.dom().contains(m.key@)
                &&& ts.contains(after[m.key@])
                &&& after[m.key@] as int <= p
                &&& forall|t: u8| ts.contains(t) && t as int <= p ==> t <= after[m.key@]
            }
            &&& !(exists|t: u8| ts.contains(t) && 0 < t && t as int <= p) ==> !after.dom().contains(
                m.key@,
            )
        }),
{
    let m = ms.last();
    lemma_crossed_level_is_highest(capped(m.percent), ts);
}

/// A check raises an alert for a metric exactly when its percentage reaches
/// a threshold above the one recorded for it (none recorded counting as 0),
/// and the alert reads "name: percent%".
pub proof fn law_alert_when_above_mark(i: I18n, prev: Map<Seq<char>, u8>, m: MetricEntry, ts: Seq<u8>)
    ensures
        ({
            let p: int = if m.percent > 255 {
                255
            } else {
                m.percent as int
            };
            let mark: int = if prev.dom().contains(m.key@) {
                prev[m.key@] as int
            } else {
                0
            };
            let raised = alerts_raised(i, prev, seq![m], ts);
            &&& raised.len() <= 1
            &&& raised.len() == 1 <==> exists|t: u8| ts.contains(t) && mark < t && t as int <= p
            &&& raised.len() == 1 ==> raised[0].1 == m.name@ + ": "@ + dec(m.percent as nat) + "%"@
        }),
{
    lemma_crossed_level_is_highest(capped(m.percent), ts);
    assert(seq![m].drop_last() =~= Seq::<MetricEntry>::empty());
    let c = crossed_level(capped(m.percent), ts);
    let p = capped(m.percent);
    let mark = level_in(prev, m.key@);
    assert(seq![m].last() == m);
    assert(alerted_after(prev, seq![m].drop_last(), ts) == prev);
    assert(alerts_raised(i, prev, seq![m].drop_last(), ts) =~= Seq::<(Seq<char>, Seq<char>)>::empty());
    let raised = alerts_raised(i, prev, seq![m], ts);
    if c > mark {
        assert(raised =~= seq![(alert_title(i, c), alert_message(m))]);
    } else {
        assert(raised =~= Seq::<(Seq<char>, Seq<char>)>::empty());
    }
    if exists|t: u8| ts.contains(t) && mark < t && t as int <= p {
        let t = choose|t: u8| ts.contains(t) && mark < t && t as int <= p;
        assert(t <= c);
    }
    if c > mark {
        assert(ts.contains(c) && mark < c && c as int <= p);
    }
}

/// A threshold left behind alerts again: after a check records a metric's
/// mark, a later check of the same metric whose percentage reaches a
/// threshold above the earlier percentage raises an alert.
pub proof fn law_rearmed_threshold_alerts_again(
    i: I18n,
    prev: Map<Seq<char>, u8>,
    first: MetricEntry,
    second: MetricEntry,
    ts: Seq<u8>,
    t: u8,
)
    requires
        first.key@ == second.key@,
        ts.contains(t),
        first.percent < t as u32,
        t as u32 <= second.percent,
    ensures
        alerts_raised(i, alerted_after(prev, seq![first], ts), seq![second], ts).len() == 1,
{
    law_alert_mark_is_highest_reached(prev, seq![first], ts);
    let after = alerted_after(prev, seq![first], ts);
    law_alert_when_above_mark(i, after, second, ts);
    let mark: int = if after.dom().contains(second.key@) {
        after[second.key@] as int
    } else {
        0
    };
    assert(mark < t);
}

} // verus!
