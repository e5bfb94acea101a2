//! The user configuration (`config.json`) and its normalisation.
//!
//! Reading and writing the file is done by the caller; this module decides
//! what the configuration becomes and when the file has to be written.

use vstd::prelude::*;
use crate::text::{str_eq, to_string};

verus! {

#[derive(Debug, Clone)]
pub struct NotificationConfig {
    pub enabled: bool,
    pub thresholds: Vec<u8>,
    pub sound: bool,
}

impl Default for NotificationConfig {
    fn default() -> (r: Self)
        ensures
            r.enabled,
            r.thresholds@ == default_thresholds(),
            r.sound,
    {
        NotificationConfig { enabled: true, thresholds: vec![50, 75, 90], sound: true }
    }
}

#[derive(Debug, Clone)]
pub struct QuietHoursConfig {
    pub enabled: bool,
    pub start: String,
    pub end: String,
}

impl Default for QuietHoursConfig {
    fn default() -> (r: Self)
        ensures
            !r.enabled,
            r.start@ == "22:00"@,
            r.end@ == "08:00"@,
    {
        QuietHoursConfig { enabled: false, start: to_string("22:00"), end: to_string("08:00") }
    }
}

#[derive(Debug, Clone)]
pub struct CustomColors {
    pub background: Option<String>,
    pub surface: Option<String>,
    pub text_primary: Option<String>,
    pub text_secondary: Option<String>,
    pub progress_bg: Option<String>,
    pub green: Option<String>,
    pub yellow: Option<String>,
    pub red: Option<String>,
    pub accent: Option<String>,
    pub separator: Option<String>,
    pub hover: Option<String>,
    pub border: Option<String>,
}

impl Default for CustomColors {
    fn default() -> (r: Self)
        ensures
            r.background is None && r.surface is None && r.text_primary is None
                && r.text_secondary is None && r.progress_bg is None && r.green is None
                && r.yellow is None && r.red is None && r.accent is None && r.separator is None
                && r.hover is None && r.border is None,
    {
        CustomColors {
            background: None,
            surface: None,
            text_primary: None,
            text_secondary: None,
            progress_bg: None,
            green: None,
            yellow: None,
            red: None,
            accent: None,
            separator: None,
            hover: None,
            border: None,
        }
    }
}

#[derive(Debug, Clone)]
pub struct Config {
    pub version: String,
    pub polling_interval_seconds: u64,
    pub notifications: NotificationConfig,
    pub autostart: bool,
    pub compact_mode: bool,
    pub theme: String,
    pub language: String,
    pub show_chatgpt_section: bool,
    pub chatgpt_usage_url: String,
    pub claude_install_url: String,
    pub show_widget: bool,
    pub check_updates: bool,
    pub accessibility_patterns: bool,
    pub tray_icon_style: String,
    pub custom_colors: CustomColors,
    pub quiet_hours: QuietHoursConfig,
}

pub open spec fn default_thresholds() -> Seq<u8> {
    seq![50u8, 75u8, 90u8]
}

/// The values a configuration has when nothing was read.
pub open spec fn is_default_config(c: Config) -> bool {
    &&& c.version@ == "1.0.0"@
    &&& c.polling_interval_seconds == 120
    &&& c.notifications.enabled
    &&& c.notifications.thresholds@ == default_thresholds()
    &&& c.notifications.sound
    &&& !c.autostart
    &&& !c.compact_mode
    &&& c.theme@ == "auto"@
    &&& c.language@ == "auto"@
    &&& !c.show_chatgpt_section
    &&& c.chatgpt_usage_url@ == "https://chatgpt.com/codex/settings/usage"@
    &&& c.claude_install_url@ == Seq::<char>::empty()
    &&& !c.show_widget
    &&& c.check_updates
    &&& !c.accessibility_patterns
    &&& c.tray_icon_style@ == "number"@
    &&& c.custom_colors.background is None && c.custom_colors.surface is None
    &&& c.custom_colors.text_primary is None && c.custom_colors.text_secondary is None
    &&& c.custom_colors.progress_bg is None && c.custom_colors.green is None
    &&& c.custom_colors.yellow is None && c.custom_colors.red is None
    &&& c.custom_colors.accent is None && c.custom_colors.separator is None
    &&& c.custom_colors.hover is None && c.custom_colors.border is None
    &&& !c.quiet_hours.enabled
    &&& c.quiet_hours.start@ == "22:00"@
    &&& c.quiet_hours.end@ == "08:00"@
}

/// The icon style used when the configuration names none.
pub fn default_icon_style() -> (r: String)
    ensures
        r@ == "number"@,
{
    to_string("number")
}

/// The value of boolean settings that default to on.
pub fn default_true() -> (r: bool)
    ensures
        r,
{
    true
}

impl Default for Config {
    fn default() -> (r: Self)
        ensures
            is_default_config(r),
    {
        Config {
            version: to_string("1.0.0"),
            polling_interval_seconds: 120,
            notifications: NotificationConfig::default(),
            autostart: false,
            compact_mode: false,
            theme: to_string("auto"),
            language: to_string("auto"),
            show_chatgpt_section: false,
            chatgpt_usage_url: to_string("https://chatgpt.com/codex/settings/usage"),
            claude_install_url: String::new(),
            show_widget: false,
            check_updates: true,
            accessibility_patterns: false,
            tray_icon_style: to_string("number"),
            custom_colors: CustomColors::default(),
            quiet_hours: QuietHoursConfig::default(),
        }
    }
}

/// `x` clamped into `lo..=hi`.
pub open spec fn clamp_spec(x: int, lo: int, hi: int) -> int {
    if x < lo {
        lo
    } else if x > hi {
        hi
    } else {
        x
    }
}

/// The values `1..=k` that occur in `ts`, ascending.
pub open spec fn present_upto(ts: Seq<u8>, k: int) -> Seq<u8>
    decreases k,
{
    if k <= 0 {
        Seq::<u8>::empty()
    } else if ts.contains(k as u8) {
        present_upto(ts, k - 1).push(k as u8)
    } else {
        present_upto(ts, k - 1)
    }
}

/// Thresholds after normalisation: those in `1..=100`, sorted, without
/// duplicates; the defaults when none is left.
pub open spec fn normalized_thresholds(ts: Seq<u8>) -> Seq<u8> {
    if present_upto(ts, 100).len() == 0 {
        default_thresholds()
    } else {
        present_upto(ts, 100)
    }
}

pub open spec fn valid_themes() -> Seq<Seq<char>> {
    seq!["auto"@, "dark"@, "light"@]
}

pub open spec fn valid_icon_styles() -> Seq<Seq<char>> {
    seq!["number"@, "ring"@, "bar"@]
}

pub open spec fn valid_languages() -> Seq<Seq<char>> {
    seq![
        "auto"@,
        "en"@,
        "uk"@,
        "es"@,
        "de"@,
        "fr"@,
        "pt"@,
        "ja"@,
        "ko"@,
        "zh"@,
        "it"@,
        "hi"@,
        "tr"@,
        "nl"@,
        "pl"@,
        "vi"@,
        "ru"@,
        "th"@,
        "id"@,
        "sv"@,
        "cs"@,
        "ar"@,
        "ro"@,
        "da"@,
        "fi"@,
        "hu"@,
    ]
}

/// `v` if it is one of `options`, else `fallback`.
pub open spec fn keep_if_listed(v: Seq<char>, options: Seq<Seq<char>>, fallback: Seq<char>) -> Seq<
    char,
> {
    if options.contains(v) {
        v
    } else {
        fallback
    }
}

/// What `validate` makes of `old`: every field of `new` is the normalised
/// field of `old`, and the fields that need no normalising are unchanged.
pub open spec fn validated_from(old: Config, new: Config) -> bool {
    &&& new.polling_interval_seconds == clamp_spec(old.polling_interval_seconds as int, 30, 600)
    &&& new.notifications.thresholds@ == normalized_thresholds(old.notifications.thresholds@)
    &&& new.notifications.enabled == old.notifications.enabled
    &&& new.notifications.sound == old.notifications.sound
    &&& new.theme@ == keep_if_listed(old.theme@, valid_themes(), "auto"@)
    &&& new.tray_icon_style@ == keep_if_listed(
        old.tray_icon_style@,
        valid_icon_styles(),
        "number"@,
    )
    &&& new.language@ == keep_if_listed(old.language@, valid_languages(), "auto"@)
    &&& new.version == old.version
    &&& new.autostart == old.autostart
    &&& new.compact_mode == old.compact_mode
    &&& new.show_chatgpt_section == old.show_chatgpt_section
    &&& new.chatgpt_usage_url == old.chatgpt_usage_url
    &&& new.claude_install_url == old.claude_install_url
    &&& new.show_widget == old.show_widget
    &&& new.check_updates == old.check_updates
    &&& new.accessibility_patterns == old.accessibility_patterns
    &&& new.custom_colors == old.custom_colors
    &&& new.quiet_hours == old.quiet_hours
}

/// A configuration whose values all lie in their safe ranges.
pub open spec fn is_valid_config(c: Config) -> bool {
    &&& 30 <= c.polling_interval_seconds <= 600
    &&& c.notifications.thresholds@.len() > 0
    &&& forall|i: int|
        0 <= i < c.notifications.thresholds@.len() ==> 1 <= #[trigger] c.notifications.thresholds@[i]
            <= 100
    &&& forall|i: int, j: int|
        0 <= i < j < c.notifications.thresholds@.len() ==> #[trigger] c.notifications.thresholds@[i]
            < #[trigger] c.notifications.thresholds@[j]
    &&& valid_themes().contains(c.theme@)
    &&& valid_icon_styles().contains(c.tray_icon_style@)
    &&& valid_languages().contains(c.language@)
}

pub open spec fn str_views(options: Seq<&str>) -> Seq<Seq<char>> {
    options.map_values(|o: &str| o@)
}

/// Whether `s` equals one of `options`.
pub fn is_one_of(s: &str, options: &[&str]) -> (r: bool)
    ensures
        r == str_views(options@).contains(s@),
{
    let mut i: usize = 0;
    while i < options.len()
        invariant
            i <= options@.len(),
            forall|j: int| 0 <= j < i ==> options@[j]@ != s@,
        decreases options@.len() - i,
    {
        if str_eq(options[i], s) {
            assert(str_views(options@)[i as int] == s@);
            return true;
        }
        i = i + 1;
    }
    assert forall|j: int| 0 <= j < str_views(options@).len() implies str_views(options@)[j]
        != s@ by {
        assert(str_views(options@)[j] == options@[j]@);
    }
    false
}

proof fn lemma_present_upto_contains(ts: Seq<u8>, k: int, v: u8)
    requires
        0 <= k <= 255,
    ensures
        present_upto(ts, k).contains(v) <==> (1 <= v <= k && ts.contains(v)),
    decreases k,
{
    if k > 0 {
        lemma_present_upto_contains(ts, k - 1, v);
        let p = present_upto(ts, k - 1);
        let q = p.push(k as u8);
        if ts.contains(k as u8) {
            assert(present_upto(ts, k) == q);
            if q.contains(v) {
                let i = choose|i: int| 0 <= i < q.len() && #[trigger] q[i] == v;
                if i < p.len() {
                    assert(p[i] == v);
                }
            }
            if p.contains(v) {
                let i = choose|i: int| 0 <= i < p.len() && #[trigger] p[i] == v;
                assert(q[i] == v);
            }
            if v == k {
                assert(q[p.len() as int] == v);
            }
        }
    }
}

proof fn lemma_present_upto_sorted(ts: Seq<u8>, k: int)
    requires
        0 <= k <= 255,
    ensures
        forall|i: int, j: int|
            0 <= i < j < present_upto(ts, k).len() ==> #[trigger] present_upto(ts, k)[i]
                < #[trigger] present_upto(ts, k)[j],
        forall|i: int|
            0 <= i < present_upto(ts, k).len() ==> 1 <= #[trigger] present_upto(ts, k)[i] <= k,
    decreases k,
{
    if k > 0 {
        lemma_present_upto_sorted(ts, k - 1);
        let p = present_upto(ts, k - 1);
        if ts.contains(k as u8) {
            let q = p.push(k as u8);
            assert(present_upto(ts, k) == q);
            assert forall|i: int| 0 <= i < q.len() implies 1 <= #[trigger] q[i] <= k by {
                if i < p.len() {
                    assert(q[i] == p[i]);
                }
            }
            assert forall|i: int, j: int| 0 <= i < j < q.len() implies #[trigger] q[i]
                < #[trigger] q[j] by {
                assert(q[i] == p[i]);
                if j < p.len() {
                    assert(q[j] == p[j]);
                }
            }
        }
    }
}

/// Normalised thresholds are non-empty, lie in `1..=100` and strictly increase.
pub proof fn lemma_normalized_thresholds_valid(ts: Seq<u8>)
    ensures
        normalized_thresholds(ts).len() > 0,
        forall|i: int|
            0 <= i < normalized_thresholds(ts).len() ==> 1 <= #[trigger] normalized_thresholds(
                ts,
            )[i] <= 100,
        forall|i: int, j: int|
            0 <= i < j < normalized_thresholds(ts).len() ==> #[trigger] normalized_thresholds(
                ts,
            )[i] < #[trigger] normalized_thresholds(ts)[j],
{
    lemma_present_upto_sorted(ts, 100);
}

/// Normalising a normalised list of thresholds changes nothing.
pub proof fn lemma_normalized_thresholds_idempotent(ts: Seq<u8>)
    ensures
        normalized_thresholds(normalized_thresholds(ts)) == normalized_thresholds(ts),
{
    let n = normalized_thresholds(ts);
    lemma_present_upto_same(n, ts, 100);
    if present_upto(ts, 100).len() == 0 {
        let d = default_thresholds();
        assert(d[0] == 50u8 && d[1] == 75u8 && d[2] == 90u8);
        assert forall|v: u8| 0 < v <= 49 implies !d.contains(v) by {
            if d.contains(v) {
                let i = choose|i: int| 0 <= i < d.len() && #[trigger] d[i] == v;
            }
        }
        lemma_present_upto_gap(d, 0, 49);
        assert(d.contains(50u8));
        assert(present_upto(d, 50) =~= seq![50u8]);
        assert forall|v: u8| 50 < v <= 74 implies !d.contains(v) by {
            if d.contains(v) {
                let i = choose|i: int| 0 <= i < d.len() && #[trigger] d[i] == v;
            }
        }
        lemma_present_upto_gap(d, 50, 74);
        assert(d.contains(75u8));
        assert(present_upto(d, 75) =~= seq![50u8, 75u8]);
        assert forall|v: u8| 75 < v <= 89 implies !d.contains(v) by {
            if d.contains(v) {
                let i = choose|i: int| 0 <= i < d.len() && #[trigger] d[i] == v;
            }
        }
        lemma_present_upto_gap(d, 75, 89);
        assert(d.contains(90u8));
        assert(present_upto(d, 90) =~= d);
        assert forall|v: u8| 90 < v <= 100 implies !d.contains(v) by {
            if d.contains(v) {
                let i = choose|i: int| 0 <= i < d.len() && #[trigger] d[i] == v;
            }
        }
        lemma_present_upto_gap(d, 90, 100);
    }
}

/// Values that do not occur add nothing: with none of `a+1..=k` in `ts`,
/// `present_upto(ts, k)` is `present_upto(ts, a)`.
proof fn lemma_present_upto_gap(ts: Seq<u8>, a: int, k: int)
    requires
        0 <= a <= k <= 255,
        forall|v: u8| a < v <= k ==> !ts.contains(v),
    ensures
        present_upto(ts, k) == present_upto(ts, a),
    decreases k - a,
{
    if k > a {
        assert(!ts.contains(k as u8));
        lemma_present_upto_gap(ts, a, k - 1);
    }
}

/// `present_upto` only depends on which values occur.
proof fn lemma_present_upto_same(n: Seq<u8>, ts: Seq<u8>, k: int)
    requires
        n == normalized_thresholds(ts),
        0 <= k <= 100,
    ensures
        present_upto(ts, 100).len() > 0 ==> present_upto(n, k) == present_upto(ts, k),
    decreases k,
{
    if k > 0 {
        lemma_present_upto_same(n, ts, k - 1);
        if present_upto(ts, 100).len() > 0 {
            lemma_present_upto_contains(ts, 100, k as u8);
        }
    }
}

impl Config {
    /// The polling interval clamped to `30..=600` seconds.
    pub fn polling_interval_clamped(&self) -> (r: u64)
        ensures
            r == clamp_spec(self.polling_interval_seconds as int, 30, 600),
    {
        clamp_u64(self.polling_interval_seconds, 30, 600)
    }

    /// Validate and fix config values to safe ranges.
    pub fn validate(&mut self)
        ensures
            validated_from(*old(self), *final(self)),
            is_valid_config(*final(self)),
    {
        self.polling_interval_seconds = clamp_u64(self.polling_interval_seconds, 30, 600);

        // Thresholds: keep only 1..=100, remove duplicates, sort
        let thresholds = normalize_thresholds(&self.notifications.thresholds);
        self.notifications.thresholds = thresholds;

        let themes = ["auto", "dark", "light"];
        assert(str_views(themes@) =~= valid_themes());
        if !is_one_of(self.theme.as_str(), &themes) {
            self.theme = to_string("auto");
        }
        let styles = ["number", "ring", "bar"];
        assert(str_views(styles@) =~= valid_icon_styles());
        if !is_one_of(self.tray_icon_style.as_str(), &styles) {
            self.tray_icon_style = to_string("number");
        }
        let languages = [
            "auto",
            "en",
            "uk",
            "es",
            "de",
            "fr",
            "pt",
            "ja",
            "ko",
            "zh",
            "it",
            "hi",
            "tr",
            "nl",
            "pl",
            "vi",
            "ru",
            "th",
            "id",
            "sv",
            "cs",
            "ar",
            "ro",
            "da",
            "fi",
            "hu",
        ];
        assert(str_views(languages@) =~= valid_languages());
        if !is_one_of(self.language.as_str(), &languages) {
            self.language = to_string("auto");
        }
        proof {
            lemma_normalized_thresholds_valid(old(self).notifications.thresholds@);
            assert(valid_themes().contains("auto"@)) by {
                assert(valid_themes()[0] == "auto"@);
            }
            assert(valid_icon_styles().contains("number"@)) by {
                assert(valid_icon_styles()[0] == "number"@);
            }
            assert(valid_languages().contains("auto"@)) by {
                assert(valid_languages()[0] == "auto"@);
            }
        }
    }
}

/// `x` clamped into `lo..=hi`.
pub fn clamp_u64(x: u64, lo: u64, hi: u64) -> (r: u64)
    requires
        lo <= hi,
    ensures
        r == clamp_spec(x as int, lo as int, hi as int),
{
    if x < lo {
        lo
    } else if x > hi {
        hi
    } else {
        x
    }
}

/// Whether `v` occurs in `ts`.
pub fn contains_u8(ts: &Vec<u8>, v: u8) -> (r: bool)
    ensures
        r == ts@.contains(v),
{
    let mut i: usize = 0;
    while i < ts.len()
        invariant
            i <= ts@.len(),
            forall|j: int| 0 <= j < i ==> ts@[j] != v,
        decreases ts@.len() - i,
    {
        if ts[i] == v {
            return true;
        }
        i = i + 1;
    }
    false
}

/// Keeps the thresholds in `1..=100`, sorted and without duplicates, or the
/// defaults when none is left.
pub fn normalize_thresholds(ts: &Vec<u8>) -> (r: Vec<u8>)
    ensures
        r@ == normalized_thresholds(ts@),
{
    let mut out: Vec<u8> = Vec::new();
    let mut k: u8 = 1;
    while k <= 100
        invariant
            1 <= k <= 101,
            out@ == present_upto(ts@, k - 1),
        decreases 101 - k,
    {
        if contains_u8(ts, k) {
            out.push(k);
        }
        k = k + 1;
    }
    if out.len() == 0 {
        vec![50, 75, 90]
    } else {
        out
    }
}

/// A file-system modification time, in nanoseconds relative to the Unix
/// epoch (negative before it).
pub type Stamp = i128;

/// What reading `config.json` gave.
pub enum ConfigFile {
    /// There is no file.
    Missing,
    /// The file exists but could not be read.
    Unreadable,
    /// The file was read but is not a valid configuration.
    Unparsable,
    /// The file parsed; with its modification time, when known.
    Parsed(Config, Option<Stamp>),
}

pub struct ConfigManager {
    pub path: String,
    pub last_modified: Option<Stamp>,
    pub config: Config,
}

impl ConfigManager {
    /// A manager for the configuration at `path`, loaded from what reading the
    /// file gave. The second value says whether the (default) configuration
    /// has to be written because there was no file yet.
    pub fn new(path: String, file: ConfigFile) -> (r: (Self, bool))
        ensures
            r.0.path@ == path@,
            r.1 == (file is Missing),
            match file {
                ConfigFile::Parsed(c, stamp) => validated_from(c, r.0.config)
                    && r.0.last_modified == stamp,
                _ => is_default_config(r.0.config) && r.0.last_modified is None,
            },
    {
        let mut mgr = ConfigManager { path, last_modified: None, config: Config::default() };
        let save = mgr.load(file);
        (mgr, save)
    }

    /// Takes in what reading the file gave: a parsed file replaces the
    /// configuration (validated); a missing file keeps it and asks for it to be
    /// written (the result is `true`); an unreadable or invalid one keeps it.
    pub fn load(&mut self, file: ConfigFile) -> (save: bool)
        ensures
            save == (file is Missing),
            final(self).path@ == old(self).path@,
            match file {
                ConfigFile::Parsed(c, stamp) => validated_from(c, final(self).config)
                    && final(self).last_modified == stamp,
                _ => final(self).config == old(self).config
                    && final(self).last_modified == old(self).last_modified,
            },
    {
        match file {
            ConfigFile::Parsed(cfg, stamp) => {
                let mut cfg = cfg;
                cfg.validate();
                self.config = cfg;
                self.last_modified = stamp;
                false
            },
            ConfigFile::Missing => true,
            _ => false,
        }
    }

    /// Whether the file changed since it was loaded (its modification time
    /// differs), so that it has to be loaded again.
    pub fn needs_reload(&self, current: Option<Stamp>) -> (r: bool)
        ensures
            r == (current != self.last_modified),
    {
        match (current, self.last_modified) {
            (Some(a), Some(b)) => a != b,
            (None, None) => false,
            _ => true,
        }
    }
}

/// Validating twice gives what validating once gives.
pub proof fn law_validate_idempotent(a: Config, b: Config, c: Config)
    requires
        validated_from(a, b),
        validated_from(b, c),
    ensures
        c.notifications.thresholds@ == b.notifications.thresholds@,
        c.polling_interval_seconds == b.polling_interval_seconds,
        c.theme@ == b.theme@,
        c.tray_icon_style@ == b.tray_icon_style@,
        c.language@ == b.language@,
{
    lemma_normalized_thresholds_idempotent(a.notifications.thresholds@);
    assert(valid_themes().contains("auto"@)) by {
        assert(valid_themes()[0] == "auto"@);
    }
    assert(valid_icon_styles().contains("number"@)) by {
        assert(valid_icon_styles()[0] == "number"@);
    }
    assert(valid_languages().contains("auto"@)) by {
        assert(valid_languages()[0] == "auto"@);
    }
}

/// The default configuration is already valid.
pub proof fn law_default_is_valid(c: Config)
    requires
        is_default_config(c),
    ensures
        is_valid_config(c),
{
    assert(valid_themes()[0] == "auto"@);
    assert(valid_icon_styles()[0] == "number"@);
    assert(valid_languages()[0] == "auto"@);
}

} // verus!
