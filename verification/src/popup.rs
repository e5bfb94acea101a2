//! Layout decisions and texts of the usage popup: its height, the settings
//! rows and their shading, the hover targets, the accessibility pattern of
//! bars, the lines under bars, the chart's tooltip and the icon legend.
//! Drawing itself is done by the caller with Direct2D.

use vstd::prelude::*;
use crate::clock::{
    LocalTime, clock_text, local_time_before, is_local_time, local_at, local_time_ago, padded_clock_text,
    push_padded_clock, reset_target_spec, seconds_until_spec, valid_offset,
};
use crate::colors::{ColorRef, ThemeColors};
use crate::config::Config;
use crate::i18n::{I18n, Locale, duration_text, format_duration, locale_code, locale_display_name, translate};
use crate::text::{
    capitalize, capitalized, contains_seq, dec, push_char, push_dec, push_str, str_contains, str_eq, str_upper, to_string,
    to_uppercase,
};
use crate::time::{Instant, parse_utc, representable, utc_instant, whole_seconds_between};
use crate::usage::{Centis, display_percent, display_percent_of, reaches};

verus! {

pub const POPUP_WIDTH: i32 = 380;
pub const HEADER_HEIGHT: i32 = 40;
pub const PADDING: i32 = 16;
pub const METRIC_LABEL_H: i32 = 22;
pub const PROGRESS_H: i32 = 14;
pub const RESET_LABEL_H: i32 = 18;
pub const SECTION_GAP: i32 = 14;
pub const ITEM_GAP: i32 = 8;
pub const SEPARATOR_H: i32 = 1;
pub const FOOTER_H: i32 = 38;

/// The element of the popup under the mouse.
#[derive(Debug, Clone, PartialEq, Eq, Structural)]
pub enum HoveredElement {
    Nothing,
    SettingsButton,
    CloseButton,
    RefreshButton,
    InstallButton,
    ChatGptLink,
    StatusLink,
    BackButton,
    SettingRow(usize),
    ChartBar(usize),
}

/// How many of the metrics draw a reset line under their bar.
pub open spec fn reset_line_count(lines: Seq<bool>) -> int
    decreases lines.len(),
{
    if lines.len() == 0 {
        0
    } else {
        reset_line_count(lines.drop_last()) + if lines.last() {
            1int
        } else {
            0int
        }
    }
}

/// Height of the popup in device-independent pixels before DPI scaling.
/// `metrics` holds, for each metric in display order, whether a reset line
/// is drawn under its bar (`None` when there is no usage data). It mirrors
/// the drawing layout exactly so that nothing is clipped.
pub open spec fn popup_height_spec(metrics: Option<Seq<bool>>, show_chatgpt: bool, compact: bool) -> int {
    if compact {
        let n = match metrics {
            Some(ls) => if ls.len() > 1 {
                ls.len() as int
            } else {
                1
            },
            None => 1,
        };
        HEADER_HEIGHT + SEPARATOR_H + PADDING + n * (16 + 8 + ITEM_GAP) + PADDING + SEPARATOR_H
            + FOOTER_H
    } else {
        HEADER_HEIGHT + SEPARATOR_H + PADDING + match metrics {
            None => (28 + 70 + 28 + 8) as int,
            Some(ls) => 24 + ls.len() * (METRIC_LABEL_H + 4 + PROGRESS_H + 4 + SECTION_GAP)
                + reset_line_count(ls) * RESET_LABEL_H,
        } + if show_chatgpt {
            (SEPARATOR_H + 8 + 24 + 55 + 28) as int
        } else {
            0int
        } + SEPARATOR_H + PADDING + 22 + 70 + 4 + 14 + PADDING + SEPARATOR_H + FOOTER_H
    }
}

/// Whether a metric with the reset time `resets_at` draws a reset line: only
/// when it has one that reads as a date-time.
pub fn draws_reset_line(resets_at: Option<&str>) -> (r: bool)
    ensures
        r == match resets_at {
            Some(t) => utc_instant(t@) is Some,
            None => false,
        },
{
    match resets_at {
        Some(t) => parse_utc(t).is_some(),
        None => false,
    }
}

/// The popup's height before DPI scaling (see `popup_height_spec`).
pub fn popup_height(metrics: Option<&[bool]>, show_chatgpt: bool, compact: bool) -> (r: i32)
    requires
        metrics matches Some(ls) ==> ls@.len() <= 20_000_000,
    ensures
        r == popup_height_spec(
            match metrics {
                Some(ls) => Some(ls@),
                None => None,
            },
            show_chatgpt,
            compact,
        ),
{
    if compact {
        let n: i32 = match metrics {
            Some(ls) => if ls.len() > 1 {
                ls.len() as i32
            } else {
                1
            },
            None => 1,
        };
        return HEADER_HEIGHT + SEPARATOR_H + PADDING + n * (16 + 8 + ITEM_GAP) + PADDING
            + SEPARATOR_H + FOOTER_H;
    }
    let mut h: i32 = 0;
    h = h + HEADER_HEIGHT;
    h = h + SEPARATOR_H;
    h = h + PADDING;
    match metrics {
        None => {
            h = h + 28 + 70 + 28 + 8;
        },
        Some(ls) => {
            h = h + 24;
            let per: i32 = METRIC_LABEL_H + 4 + PROGRESS_H + 4 + SECTION_GAP;
            let mut body: i32 = 0;
            let mut i: usize = 0;
            while i < ls.len()
                invariant
                    ls@.len() <= 20_000_000,
                    i <= ls@.len(),
                    per == 58,
                    body == i * 58 + reset_line_count(ls@.take(i as int)) * 18,
                    0 <= reset_line_count(ls@.take(i as int)) <= i,
                decreases ls@.len() - i,
            {
                assert(ls@.take(i + 1).drop_last() =~= ls@.take(i as int));
                body = body + per;
                if ls[i] {
                    body = body + RESET_LABEL_H;
                }
                i = i + 1;
            }
            assert(ls@.take(i as int) =~= ls@);
            h = h + body;
        },
    }
    if show_chatgpt {
        h = h + SEPARATOR_H + 8 + 24 + 55 + 28;
    }
    h = h + SEPARATOR_H + PADDING;
    h = h + 22 + 70 + 4 + 14;
    h = h + PADDING;
    h = h + SEPARATOR_H + FOOTER_H;
    h
}

/// The check-box glyph for a setting.
pub open spec fn check_mark(on: bool) -> Seq<char> {
    if on {
        "\u{2611}"@
    } else {
        "\u{2610}"@
    }
}

/// How the settings panel names the configured language: "Auto (<system
/// language>)" for auto, a locale's own name, or the code in upper case.
pub open spec fn language_label(i: I18n, language: Seq<char>, system_locale: Locale) -> Seq<char> {
    if language == "auto"@ {
        translate(i.spec_strings(), i.spec_fallback(), "Auto"@) + " ("@ + locale_display_name(
            system_locale,
        ) + ")"@
    } else if exists|l: Locale| locale_code(l) == language {
        locale_display_name(choose|l: Locale| locale_code(l) == language)
    } else {
        str_upper(language)
    }
}

/// The rows of the settings panel: translated label and current value.
pub open spec fn settings_rows_spec(c: Config, i: I18n, system_locale: Locale) -> Seq<
    (Seq<char>, Seq<char>),
> {
    let tr = |k: Seq<char>| translate(i.spec_strings(), i.spec_fallback(), k);
    seq![
        (tr("Theme"@), tr(capitalized(c.theme@))),
        (tr("Language"@), language_label(i, c.language@, system_locale)),
        (tr("Compact mode"@), check_mark(c.compact_mode)),
        (tr("Show ChatGPT section"@), check_mark(c.show_chatgpt_section)),
        (tr("Start with Windows"@), check_mark(c.autostart)),
        (tr("Show widget"@), check_mark(c.show_widget)),
        (tr("Check for updates"@), check_mark(c.check_updates)),
        (tr("Accessibility patterns"@), check_mark(c.accessibility_patterns)),
        (tr("Icon style"@), tr(capitalized(c.tray_icon_style@))),
    ]
}

pub open spec fn rows_view(r: Seq<(String, String)>) -> Seq<(Seq<char>, Seq<char>)> {
    r.map_values(|e: (String, String)| (e.0@, e.1@))
}

fn check_mark_of(on: bool) -> (r: String)
    ensures
        r@ == check_mark(on),
{
    if on {
        to_string("\u{2611}")
    } else {
        to_string("\u{2610}")
    }
}

fn translated(i18n: &I18n, key: &str) -> (r: String)
    ensures
        r@ == translate(i18n.spec_strings(), i18n.spec_fallback(), key@),
{
    to_string(i18n.t(key))
}

fn language_label_of(i18n: &I18n, language: &str, system_locale: Locale) -> (r: String)
    ensures
        r@ == language_label(*i18n, language@, system_locale),
{
    if str_eq(language, "auto") {
        let mut r = translated(i18n, "Auto");
        push_str(&mut r, " (");
        push_str(&mut r, system_locale.display_name());
        push_str(&mut r, ")");
        r
    } else {
        match Locale::from_str(language) {
            Some(l) => {
                proof {
                    lemma_code_determines_locale(l, language@);
                }
                to_string(l.display_name())
            },
            None => to_uppercase(language),
        }
    }
}

proof fn lemma_code_determines_locale(l: Locale, code: Seq<char>)
    requires
        locale_code(l) == code,
    ensures
        (choose|m: Locale| locale_code(m) == code) == l,
{
    crate::i18n::lemma_locale_codes_distinct();
}

/// A clickable area of the popup, in whole pixels.
#[derive(Debug, Clone, Copy, PartialEq, Eq, Structural)]
pub struct HitRect {
    pub left: i32,
    pub top: i32,
    pub right: i32,
    pub bottom: i32,
}

/// Number of rows in the settings panel.
pub const SETTING_ROWS: usize = 9;

/// The area of settings row `i` in a panel `w` pixels wide: full width,
/// 38 pixels high, below the 40-pixel header and an 8-pixel gap.
pub open spec fn setting_row_rect(w: int, i: int) -> HitRect {
    HitRect { left: 0, top: (48 + 38 * i) as i32, right: w as i32, bottom: (86 + 38 * i) as i32 }
}

/// The clickable areas of the settings panel `w` pixels wide: the back
/// button (left half of the header), the close button (the header's last 36
/// pixels but 4) and each settings row, in display order.
pub fn settings_hit_rects(w: i32) -> (r: (HitRect, HitRect, Vec<HitRect>))
    requires
        0 <= w <= 16_777_216,
    ensures
        r.0 == (HitRect { left: 16, top: 0, right: (w / 2) as i32, bottom: 40 }),
        r.1 == (HitRect { left: (w - 36) as i32, top: 0, right: (w - 4) as i32, bottom: 40 }),
        r.2@.len() == SETTING_ROWS,
        forall|i: int| 0 <= i < SETTING_ROWS ==> r.2@[i] == setting_row_rect(w as int, i),
{
    let back = HitRect { left: 16, top: 0, right: w / 2, bottom: 40 };
    let close = HitRect { left: w - 36, top: 0, right: w - 4, bottom: 40 };
    let mut rows: Vec<HitRect> = Vec::new();
    let mut i: usize = 0;
    while i < SETTING_ROWS
        invariant
            i <= SETTING_ROWS,
            rows@.len() == i,
            forall|j: int| 0 <= j < i ==> rows@[j] == setting_row_rect(w as int, j),
        decreases SETTING_ROWS - i,
    {
        let k = i as i32;
        rows.push(HitRect { left: 0, top: 48 + 38 * k, right: w, bottom: 86 + 38 * k });
        i = i + 1;
    }
    (back, close, rows)
}

/// The rows of the settings panel, in display order.
pub fn settings_rows(config: &Config, i18n: &I18n, system_locale: Locale) -> (r: Vec<
    (String, String),
>)
    ensures
        rows_view(r@) == settings_rows_spec(*config, *i18n, system_locale),
{
    let theme = capitalize(config.theme.as_str());
    let style = capitalize(config.tray_icon_style.as_str());
    let r = vec![
        (translated(i18n, "Theme"), translated(i18n, theme.as_str())),
        (
            translated(i18n, "Language"),
            language_label_of(i18n, config.language.as_str(), system_locale),
        ),
        (translated(i18n, "Compact mode"), check_mark_of(config.compact_mode)),
        (translated(i18n, "Show ChatGPT section"), check_mark_of(config.show_chatgpt_section)),
        (translated(i18n, "Start with Windows"), check_mark_of(config.autostart)),
        (translated(i18n, "Show widget"), check_mark_of(config.show_widget)),
        (translated(i18n, "Check for updates"), check_mark_of(config.check_updates)),
        (translated(i18n, "Accessibility patterns"), check_mark_of(config.accessibility_patterns)),
        (translated(i18n, "Icon style"), translated(i18n, style.as_str())),
    ];
    assert(rows_view(r@) =~= settings_rows_spec(*config, *i18n, system_locale));
    r
}

/// Shading of settings row `i`: the hover colour under the mouse, else
/// alternating surface (odd rows) and background (even rows).
pub fn setting_row_color(colors: &ThemeColors, i: usize, hovered: &HoveredElement) -> (r: ColorRef)
    ensures
        r == (if *hovered == HoveredElement::SettingRow(i) {
            colors.hover
        } else if i % 2 == 1 {
            colors.surface
        } else {
            colors.background
        }),
{
    let is_hovered = match hovered {
        HoveredElement::SettingRow(idx) => *idx == i,
        _ => false,
    };
    if is_hovered {
        colors.hover
    } else if i % 2 == 1 {
        colors.surface
    } else {
        colors.background
    }
}

/// The overlay drawn on a progress bar for colour-blind users.
#[derive(Debug, Clone, Copy, PartialEq, Eq, Structural)]
pub enum AccessibilityPattern {
    /// Fine dots (below 50%).
    Dots,
    /// Diagonal stripes (50–79%).
    Stripes,
    /// Cross-hatch (80% and above).
    CrossHatch,
}

pub open spec fn pattern_spec(c: int) -> AccessibilityPattern {
    if reaches(c, 80) {
        AccessibilityPattern::CrossHatch
    } else if reaches(c, 50) {
        AccessibilityPattern::Stripes
    } else {
        AccessibilityPattern::Dots
    }
}

/// The accessibility overlay for a bar at `utilization`.
pub fn accessibility_pattern(utilization: Centis) -> (r: AccessibilityPattern)
    ensures
        r == pattern_spec(utilization as int),
{
    if utilization >= 8000 {
        AccessibilityPattern::CrossHatch
    } else if utilization >= 5000 {
        AccessibilityPattern::Stripes
    } else {
        AccessibilityPattern::Dots
    }
}

/// A utilization as the popup prints it: "46%".
pub open spec fn percent_label_spec(c: int) -> Seq<char> {
    dec(display_percent(c) as nat) + seq!['%']
}

/// The percentage label of a bar.
pub fn percent_label(c: Centis) -> (r: String)
    ensures
        r@ == percent_label_spec(c as int),
{
    let mut r = String::new();
    push_dec(&mut r, display_percent_of(c) as u64);
    push_char(&mut r, '%');
    r
}

/// The line under a bar, from the seconds left until the reset and the local
/// target: "resets in 2h 5m (14:00)" while the reset is ahead, "resetting
/// soon" once it is due, and nothing when the reset time is unreadable.
pub open spec fn reset_line_spec(i: I18n, seconds: Option<int>, target: Option<Seq<char>>) -> Seq<
    char,
> {
    match seconds {
        None => Seq::empty(),
        Some(s) => if s > 0 {
            translate(i.spec_strings(), i.spec_fallback(), "resets in"@) + seq![' ']
                + duration_text(s) + seq![' '] + match target {
                Some(t) => t,
                None => Seq::empty(),
            }
        } else {
            "resetting soon"@
        },
    }
}

/// The line under a bar (see `reset_line_spec`).
pub fn reset_line(i18n: &I18n, seconds: Option<i64>, target: Option<String>) -> (r: String)
    ensures
        r@ == reset_line_spec(
            *i18n,
            match seconds {
                Some(s) => Some(s as int),
                None => None,
            },
            match target {
                Some(t) => Some(t@),
                None => None,
            },
        ),
{
    match seconds {
        None => String::new(),
        Some(s) => if s > 0 {
            let mut r = to_string(i18n.t("resets in"));
            push_char(&mut r, ' ');
            let d = format_duration(s);
            push_str(&mut r, d.as_str());
            push_char(&mut r, ' ');
            match target {
                Some(t) => push_str(&mut r, t.as_str()),
                None => {},
            }
            r
        } else {
            to_string("resetting soon")
        },
    }
}

/// The line under a bar whose limit resets at the instant `reset`, seen at
/// `now` in a zone `offset` seconds ahead of UTC on the local date `today`.
pub open spec fn metric_line_at(
    i: I18n,
    reset: Instant,
    now: Instant,
    offset: int,
    today: LocalTime,
    use_24h: bool,
) -> Seq<char> {
    reset_line_spec(
        i,
        Some(whole_seconds_between(now, reset)),
        Some(reset_target_spec(local_at(reset, offset), today, use_24h)),
    )
}

/// The line under a bar whose limit resets at `resets_at`, counted from now
/// and shown on a 24-hour or 12-hour clock: empty exactly when the reset
/// time cannot be read; otherwise the countdown from the current instant,
/// with the reset's local time while it is ahead. The current instant, the
/// local date and the zone's offset depend on the machine.
pub fn metric_reset_line(i18n: &I18n, resets_at: &str, use_24h: bool) -> (r: String)
    ensures
        match utc_instant(resets_at@) {
            None => r@ == Seq::<char>::empty(),
            Some(reset) => r@.len() > 0 && exists|
                now: Instant,
                offset: int,
                today: LocalTime,
            |
                representable(now) && valid_offset(offset) && is_local_time(today) && r@
                    == #[trigger] metric_line_at(*i18n, reset, now, offset, today, use_24h),
        },
{
    match crate::clock::seconds_until(resets_at) {
        Some(secs) => {
            let ghost reset = utc_instant(resets_at@)->0;
            let ghost now = choose|now: Instant|
                representable(now) && #[trigger] seconds_until_spec(resets_at@, now) == Some(
                    secs as int,
                );
            let target = if secs > 0 {
                crate::clock::format_reset_target(resets_at, use_24h)
            } else {
                None
            };
            let ghost tv = match &target {
                Some(t) => Some(t@),
                None => None,
            };
            let r = reset_line(i18n, Some(secs), target);
            assert(r@ == reset_line_spec(*i18n, Some(secs as int), tv));
            proof {
                if secs > 0 {
                    reveal_strlit("resets in");
                    let (offset, today) = choose|offset: int, today: LocalTime|
                        valid_offset(offset) && is_local_time(today) && tv->0
                            == #[trigger] reset_target_spec(local_at(reset, offset), today, use_24h);
                    assert(r@ == metric_line_at(*i18n, reset, now, offset, today, use_24h));
                } else {
                    reveal_strlit("resetting soon");
                    let today = local_at(now, 0);
                    assert(is_local_time(today));
                    assert(r@ == metric_line_at(*i18n, reset, now, 0, today, use_24h));
                }
            }
            r
        },
        None => String::new(),
    }
}

/// Seconds before now of the middle of bar `idx` of a chart of `n` bars
/// spanning the last 24 hours, whole seconds (the fraction dropped).
pub open spec fn bar_seconds_ago_spec(idx: int, n: int) -> int {
    43200 * (2 * (n - idx) - 1) / n
}

/// How long ago the middle of chart bar `idx` lies.
pub fn bar_seconds_ago(idx: usize, n: usize) -> (r: i64)
    requires
        idx < n,
    ensures
        r == bar_seconds_ago_spec(idx as int, n as int),
        0 <= r <= 86400,
{
    let k: u128 = 2 * ((n - idx) as u128) - 1;
    let nn: u128 = n as u128;
    let num: u128 = 43200 * k;
    let q: u128 = num / nn;
    proof {
        let (ki, ni) = (k as int, nn as int);
        assert((43200 * ki) / ni <= 86400) by (nonlinear_arith)
            requires
                1 <= ki <= 2 * ni,
                ni > 0,
        ;
        assert((43200 * ki) / ni >= 0) by (nonlinear_arith)
            requires
                1 <= ki,
                ni > 0,
        ;
    }
    q as i64
}

/// The chart's tooltip for a bar: its value and the local time it stands
/// for, "46% | 14:05".
pub open spec fn chart_tip_spec(value: int, at: LocalTime, use_24h: bool) -> Seq<char> {
    percent_label_spec(value) + " | "@ + padded_clock_text(at.hour, at.minute, use_24h)
}

/// The tooltip text for a bar showing `value` at local time `at`.
pub fn chart_tip_text(value: Centis, at: LocalTime, use_24h: bool) -> (r: String)
    ensures
        r@ == chart_tip_spec(value as int, at, use_24h),
{
    let mut r = percent_label(value);
    push_str(&mut r, " | ");
    push_padded_clock(&mut r, at.hour, at.minute, use_24h);
    r
}

/// The tooltip of bar `idx` of `n`, with the local time of its middle: that
/// many seconds before the current instant, in the machine's zone.
pub fn chart_tip(value: Centis, idx: usize, n: usize, use_24h: bool) -> (r: String)
    requires
        idx < n,
    ensures
        exists|at: LocalTime|
            local_time_before(at, bar_seconds_ago_spec(idx as int, n as int)) && r@
                == #[trigger] chart_tip_spec(value as int, at, use_24h),
{
    let ago = bar_seconds_ago(idx, n);
    let at = local_time_ago(ago);
    chart_tip_text(value, at, use_24h)
}

/// The tray icon legend of the settings panel: each colour and what it means.
pub open spec fn icon_legend_spec(c: ThemeColors, i: I18n) -> Seq<(u32, Seq<char>)> {
    let tr = |k: Seq<char>| translate(i.spec_strings(), i.spec_fallback(), k);
    seq![
        (c.green, tr("< 50% usage"@)),
        (c.yellow, tr("50-79% usage"@)),
        (c.red, tr(">= 80% usage"@)),
        (c.separator, tr("No data"@)),
    ]
}

pub open spec fn legend_view(r: Seq<(ColorRef, String)>) -> Seq<(u32, Seq<char>)> {
    r.map_values(|e: (ColorRef, String)| (e.0, e.1@))
}

/// The entries of the tray icon legend, in display order.
pub fn icon_legend(colors: &ThemeColors, i18n: &I18n) -> (r: Vec<(ColorRef, String)>)
    ensures
        legend_view(r@) == icon_legend_spec(*colors, *i18n),
{
    let r = vec![
        (colors.green, translated(i18n, "< 50% usage")),
        (colors.yellow, translated(i18n, "50-79% usage")),
        (colors.red, translated(i18n, ">= 80% usage")),
        (colors.separator, translated(i18n, "No data")),
    ];
    assert(legend_view(r@) =~= icon_legend_spec(*colors, *i18n));
    r
}

/// Whether the last error says that no credentials were found (as the
/// credential reader's "not found" message does).
pub open spec fn is_credential_error(last_error: Option<Seq<char>>) -> bool {
    match last_error {
        Some(e) => contains_seq(e, "credentials not found"@),
        None => false,
    }
}

/// The screen shown without usage data: a sign-in prompt after a credential
/// error, else an install prompt.
#[derive(Debug, Clone, Copy, PartialEq, Eq, Structural)]
pub enum NotDetectedScreen {
    SignIn,
    Install,
}

pub open spec fn not_detected_screen_for(last_error: Option<Seq<char>>) -> NotDetectedScreen {
    if is_credential_error(last_error) {
        NotDetectedScreen::SignIn
    } else {
        NotDetectedScreen::Install
    }
}

/// The key of the description each screen shows.
pub open spec fn description_key(screen: NotDetectedScreen) -> Seq<char> {
    match screen {
        NotDetectedScreen::SignIn => "run_claude_login_desc"@,
        NotDetectedScreen::Install => "install_claude_desc"@,
    }
}

/// Which screen to show when there is no usage data, and its description,
/// translated.
pub fn not_detected_texts(i18n: &I18n, last_error: Option<&str>) -> (r: (NotDetectedScreen, String))
    ensures
        r.0 == not_detected_screen_for(
            match last_error {
                Some(e) => Some(e@),
                None => None,
            },
        ),
        r.1@ == translate(i18n.spec_strings(), i18n.spec_fallback(), description_key(r.0)),
{
    let credential_error = match last_error {
        Some(e) => str_contains(e, "credentials not found"),
        None => false,
    };
    if credential_error {
        (NotDetectedScreen::SignIn, translated(i18n, "run_claude_login_desc"))
    } else {
        (NotDetectedScreen::Install, translated(i18n, "install_claude_desc"))
    }
}

/// The rows of the compact view: each metric's display name and
/// utilization, or a single empty "No data" row without usage data.
pub fn compact_rows(metrics: Option<Vec<(String, Centis)>>) -> (r: Vec<(String, Centis)>)
    ensures
        match metrics {
            Some(v) => r@ == v@,
            None => r@.len() == 1 && r@[0].0@ == "No data"@ && r@[0].1 == 0,
        },
{
    match metrics {
        Some(v) => v,
        None => vec![(to_string("No data"), 0)],
    }
}

/// The footer's status line: "Last updated: 14:05:10".
pub fn updated_line(i18n: &I18n, last_updated: &str) -> (r: String)
    ensures
        r@ == translate(i18n.spec_strings(), i18n.spec_fallback(), "Last updated:"@) + seq![' ']
            + last_updated@,
{
    let mut r = translated(i18n, "Last updated:");
    push_char(&mut r, ' ');
    push_str(&mut r, last_updated);
    r
}

/// The settings panel's footer line: "ClaudeMeter v1.4.0 by klivak".
pub fn about_line(version: &str) -> (r: String)
    ensures
        r@ == "ClaudeMeter v"@ + version@ + " by klivak"@,
{
    let mut r = to_string("ClaudeMeter v");
    push_str(&mut r, version);
    push_str(&mut r, " by klivak");
    r
}

} // verus!
