//! The tray icon's colour and tooltip.

use vstd::prelude::*;
use crate::i18n::{duration_text, format_duration};
use crate::text::{dec, push_dec, push_str, take_chars, truncate_chars, utf16, wide};
use crate::usage::{Centis, display_percent, display_percent_of, reaches};

verus! {

#[derive(Debug, Clone, Copy, PartialEq, Eq, Structural)]
pub enum TrayIconColor {
    Green,
    Yellow,
    Red,
    Gray,
}

/// The icon colour for the highest utilization: grey without data, red from
/// 80%, yellow from 50%, else green.
pub open spec fn icon_color(max_util: Option<Centis>) -> TrayIconColor {
    match max_util {
        None => TrayIconColor::Gray,
        Some(u) => if reaches(u as int, 80) {
            TrayIconColor::Red
        } else if reaches(u as int, 50) {
            TrayIconColor::Yellow
        } else {
            TrayIconColor::Green
        },
    }
}

impl TrayIconColor {
    pub fn from_utilization(max_util: Option<Centis>) -> (r: Self)
        ensures
            r == icon_color(max_util),
    {
        match max_util {
            None => TrayIconColor::Gray,
            Some(u) => if u >= 8000 {
                TrayIconColor::Red
            } else if u >= 5000 {
                TrayIconColor::Yellow
            } else {
                TrayIconColor::Green
            },
        }
    }
}

/// One metric as the tooltip shows it.
pub struct TooltipMetric {
    /// Display name, e.g. "5-hour session".
    pub name: String,
    pub utilization: Centis,
    /// Seconds until the metric resets, when its reset time is known.
    pub seconds_to_reset: Option<i64>,
}

/// The usage the tooltip summarises.
pub struct TooltipUsage {
    /// The detected plan, e.g. "Pro".
    pub plan: String,
    pub metrics: Vec<TooltipMetric>,
}

/// Longest tooltip, in characters (Win32 allows 128 with the terminator).
pub const TOOLTIP_MAX_CHARS: usize = 127;

/// A metric's tooltip line: "name: 45% | 2h 5m" (the reset part only when
/// known).
pub open spec fn metric_line(m: TooltipMetric) -> Seq<char> {
    m.name@ + ": "@ + dec(display_percent(m.utilization as int) as nat) + "%"@ + match m.seconds_to_reset {
        Some(s) => " | "@ + duration_text(s as int),
        None => Seq::<char>::empty(),
    }
}

/// The metric lines, each after an empty line.
pub open spec fn metrics_text(ms: Seq<TooltipMetric>) -> Seq<char>
    decreases ms.len(),
{
    if ms.len() == 0 {
        Seq::<char>::empty()
    } else {
        metrics_text(ms.drop_last()) + "\n\n"@ + metric_line(ms.last())
    }
}

/// The whole tooltip before truncation.
pub open spec fn tooltip_full(usage: Option<TooltipUsage>, show_chatgpt: bool) -> Seq<char> {
    "ClaudeMeter"@ + match usage {
        None => "\nNo data"@,
        Some(u) => "\nClaude ("@ + u.plan@ + ")"@ + metrics_text(u.metrics@),
    } + if show_chatgpt {
        "\nChatGPT: click to open usage"@
    } else {
        Seq::<char>::empty()
    }
}

fn push_metric_line(s: &mut String, m: &TooltipMetric)
    ensures
        final(s)@ == old(s)@ + metric_line(*m),
{
    push_str(s, m.name.as_str());
    push_str(s, ": ");
    push_dec(s, display_percent_of(m.utilization) as u64);
    push_str(s, "%");
    match m.seconds_to_reset {
        Some(secs) => {
            push_str(s, " | ");
            let d = format_duration(secs);
            push_str(s, d.as_str());
        },
        None => {},
    }
    assert(final(s)@ =~= old(s)@ + metric_line(*m));
}

/// Build the tooltip string from usage data (max 127 chars).
pub fn build_tooltip(usage: &Option<TooltipUsage>, show_chatgpt: bool) -> (r: String)
    ensures
        r@ == take_chars(tooltip_full(*usage, show_chatgpt), TOOLTIP_MAX_CHARS as int),
{
    let mut full = crate::text::to_string("ClaudeMeter");
    let ghost head = full@;
    match usage {
        None => {
            push_str(&mut full, "\nNo data");
        },
        Some(u) => {
            push_str(&mut full, "\nClaude (");
            push_str(&mut full, u.plan.as_str());
            push_str(&mut full, ")");
            let ghost start = full@;
            let mut i: usize = 0;
            assert(u.metrics@.take(0) =~= Seq::<TooltipMetric>::empty());
            while i < u.metrics.len()
                invariant
                    i <= u.metrics@.len(),
                    full@ == start + metrics_text(u.metrics@.take(i as int)),
                decreases u.metrics@.len() - i,
            {
                push_str(&mut full, "\n\n");
                push_metric_line(&mut full, &u.metrics[i]);
                assert(u.metrics@.take(i + 1).drop_last() =~= u.metrics@.take(i as int));
                assert(full@ =~= start + metrics_text(u.metrics@.take(i + 1)));
                i = i + 1;
            }
            assert(u.metrics@.take(u.metrics@.len() as int) =~= u.metrics@);
        },
    }
    if show_chatgpt {
        push_str(&mut full, "\nChatGPT: click to open usage");
    }
    assert(full@ =~= tooltip_full(*usage, show_chatgpt));
    truncate_chars(full.as_str(), TOOLTIP_MAX_CHARS)
}

/// The code units written into the notify-icon tip buffer for `tooltip`:
/// its first 127 characters in UTF-16 with a terminator, at most 127 units.
pub open spec fn tip_units(tooltip: Seq<char>) -> Seq<u16> {
    let w = utf16(take_chars(tooltip, 127)).push(0u16);
    if w.len() <= 127 {
        w
    } else {
        w.take(127)
    }
}

/// What the tray icon's tip buffer receives for a tooltip.
pub fn tray_tip_units(tooltip: &str) -> (r: Vec<u16>)
    ensures
        r@ == tip_units(tooltip@),
{
    let truncated = truncate_chars(tooltip, 127);
    let w = wide(truncated.as_str());
    let copy_len = if w.len() < 127 {
        w.len()
    } else {
        127
    };
    let mut r: Vec<u16> = Vec::new();
    let mut i: usize = 0;
    while i < copy_len
        invariant
            copy_len <= w@.len(),
            i <= copy_len,
            r@ == w@.take(i as int),
        decreases copy_len - i,
    {
        r.push(w[i]);
        assert(w@.take(i + 1) =~= w@.take(i as int).push(w@[i as int]));
        i = i + 1;
    }
    assert(w@.take(w@.len() as int) =~= w@);
    r
}

/// The tooltip never exceeds the Win32 limit.
pub proof fn law_tooltip_fits(usage: Option<TooltipUsage>, show_chatgpt: bool)
    ensures
        take_chars(tooltip_full(usage, show_chatgpt), TOOLTIP_MAX_CHARS as int).len() <= 127,
{
}

} // verus!
