use claudemeter::agent::{
    build_tier_note, chart_reset_offsets, error_status, live_status, menu_labels, refresh_start, LiveReading, MacStatus, MenuSettings, check_alerts, flag_value, lower_tier, merge_codex,
    notification_script, plan_multiplier, tier_multiplier, MetricEntry,
};
use claudemeter::autostart::{set_autostart, AutostartEdit};
use claudemeter::clock::{reset_target_text, seconds_until_at, uses_24h_clock, LocalTime};
use claudemeter::colors::{rgb, ThemeColors};
use claudemeter::config::{normalize_thresholds, Config, ConfigFile, ConfigManager, CustomColors};
use claudemeter::credentials::{
    credential_read_error, decode_credential_blob, extract_access_token, text_from_blob_readings,
    token_from_lookups, token_from_sources, CredentialError,
};
use claudemeter::history::{csv_header, csv_row, day_chart, week_chart};
use claudemeter::i18n::{format_duration, I18n, Locale};
use claudemeter::notifications::NotificationTracker;
use claudemeter::pace::pace_from_seconds_left;
use claudemeter::popup::{
    about_line, accessibility_pattern, bar_seconds_ago, chart_tip, chart_tip_text, icon_legend,
    compact_rows, draws_reset_line, metric_reset_line, not_detected_texts, settings_hit_rects, HitRect, percent_label, NotDetectedScreen,
    popup_height, reset_line, setting_row_color, settings_rows,
    updated_line, AccessibilityPattern, HoveredElement,
};
use claudemeter::text::{capitalize, parse_u32, wide};
use claudemeter::theme::{resolve_theme, system_light_theme, ResolvedTheme, ThemeMode};
use claudemeter::time::Instant;
use claudemeter::tray::{build_tooltip, tray_tip_units, TooltipMetric, TooltipUsage, TrayIconColor};
use claudemeter::updater::{offer_from_lookups, release_update, version_numbers_of};
use claudemeter::usage::{display_percent_of, round_percent};
use claudemeter::widget::widget_face;

#[test]
fn config_defaults() {
    let c = Config::default();
    assert_eq!(c.version, "1.0.0");
    assert_eq!(c.polling_interval_seconds, 120);
    assert_eq!(c.notifications.thresholds, vec![50, 75, 90]);
    assert_eq!(c.theme, "auto");
    assert_eq!(c.tray_icon_style, "number");
    assert!(c.check_updates);
    assert_eq!(c.quiet_hours.start, "22:00");
}

#[test]
fn validate_fixes_ranges() {
    let mut c = Config::default();
    c.polling_interval_seconds = 5;
    c.notifications.thresholds = vec![0, 90, 50, 50, 101, 75];
    c.theme = "neon".to_string();
    c.tray_icon_style = "ring".to_string();
    c.language = "xx".to_string();
    c.validate();
    assert_eq!(c.polling_interval_seconds, 30);
    assert_eq!(c.notifications.thresholds, vec![50, 75, 90]);
    assert_eq!(c.theme, "auto");
    assert_eq!(c.tray_icon_style, "ring");
    assert_eq!(c.language, "auto");

    let mut d = Config::default();
    d.polling_interval_seconds = 1000;
    d.notifications.thresholds = vec![200, 0];
    d.language = "cs".to_string();
    d.tray_icon_style = "pie".to_string();
    d.validate();
    assert_eq!(d.polling_interval_seconds, 600);
    assert_eq!(d.notifications.thresholds, vec![50, 75, 90]);
    assert_eq!(d.language, "cs");
    assert_eq!(d.tray_icon_style, "number");
    assert_eq!(d.polling_interval_clamped(), 600);
}

#[test]
fn validate_twice_changes_nothing_more() {
    let mut c = Config::default();
    c.notifications.thresholds = vec![100, 1, 7, 7];
    c.validate();
    let once = c.notifications.thresholds.clone();
    c.validate();
    assert_eq!(once, vec![1, 7, 100]);
    assert_eq!(c.notifications.thresholds, once);
    assert_eq!(normalize_thresholds(&vec![]), vec![50, 75, 90]);
}

#[test]
fn config_manager_loads() {
    let (m, save) = ConfigManager::new("cfg.json".to_string(), ConfigFile::Missing);
    assert!(save);
    assert_eq!(m.config.polling_interval_seconds, 120);
    assert_eq!(m.path, "cfg.json");

    let mut c = Config::default();
    c.polling_interval_seconds = 10;
    let (mut m, save) = ConfigManager::new("cfg.json".to_string(), ConfigFile::Parsed(c, Some(42)));
    assert!(!save);
    assert_eq!(m.config.polling_interval_seconds, 30);
    assert!(!m.needs_reload(Some(42)));
    assert!(m.needs_reload(Some(43)));
    assert!(m.needs_reload(None));
    assert!(!m.load(ConfigFile::Unparsable));
    assert_eq!(m.config.polling_interval_seconds, 30);
    assert_eq!(m.last_modified, Some(42));
}

#[test]
fn locales() {
    assert_eq!(Locale::from_str("uk"), Some(Locale::Uk));
    assert_eq!(Locale::from_str("xx"), None);
    assert_eq!(Locale::Ja.as_str(), "ja");
    assert_eq!(Locale::Es.display_name(), "Español");
    assert_eq!(Locale::all().len(), 15);
    assert_eq!(Locale::En.next(), Some(Locale::Uk));
    assert_eq!(Locale::Vi.next(), Some(Locale::Ja));
    assert_eq!(Locale::Zh.next(), None);
    assert_eq!(Locale::from_langid(0x0422), Locale::Uk);
    assert_eq!(Locale::from_langid(0x0409), Locale::En);
    assert_eq!(Locale::from_langid(0x0816), Locale::Pt);
}

#[test]
fn translations() {
    let es = I18n::from_config("es", Locale::En);
    assert_eq!(es.locale(), Locale::Es);
    assert_eq!(es.t("Settings"), "Configuración");
    assert_eq!(es.t("not a key"), "not a key");
    let auto = I18n::from_config("auto", Locale::Uk);
    assert_eq!(auto.locale(), Locale::Uk);
    let unknown = I18n::from_config("klingon", Locale::Uk);
    assert_eq!(unknown.locale(), Locale::En);
    let cs = claudemeter::i18n::cs::strings();
    assert_eq!(cs.len(), 113);
    assert_eq!(cs[6], ("Plan", "Plán"));
    let tl = claudemeter::i18n::tl::strings();
    assert_eq!(tl[6], ("Plan", "Plano"));
}

#[test]
fn durations() {
    assert_eq!(format_duration(-5), "now");
    assert_eq!(format_duration(120), "2m");
    assert_eq!(format_duration(86400), "1d 0h");
    assert_eq!(format_duration(3600), "1h 0m");
}

#[test]
fn themes() {
    assert_eq!(ThemeMode::from_str("dark"), ThemeMode::Dark);
    assert_eq!(ThemeMode::from_str("LIGHT"), ThemeMode::Auto);
    assert_eq!(ThemeMode::Light.as_str(), "light");
    assert_eq!(resolve_theme(ThemeMode::Auto, true), ResolvedTheme::Light);
    assert_eq!(resolve_theme(ThemeMode::Auto, false), ResolvedTheme::Dark);
    assert_eq!(resolve_theme(ThemeMode::Dark, true), ResolvedTheme::Dark);
    assert!(system_light_theme(Some(1)));
    assert!(!system_light_theme(Some(0)));
    assert!(!system_light_theme(None));
}

#[test]
fn notification_laws_on_values() {
    let mut t = NotificationTracker::new();
    let ts = [50u8, 75, 50];
    // duplicates in the list fire once
    assert_eq!(t.check("weekly", 8000, &ts), vec![75]);
    assert!(t.check("weekly", 8000, &ts).is_empty());
    // another metric is tracked on its own
    assert_eq!(t.check("five_hour", 5000, &ts), vec![50]);
    assert!(t.is_fired("weekly", 75));
    // just below a threshold does not reach it
    assert!(t.check("opus", 4999, &ts).is_empty());
    assert!(!t.is_fired("opus", 50));
}

#[test]
fn pace_values() {
    let p = pace_from_seconds_left(3000, 302400).unwrap();
    assert_eq!(p.projected_percent, 60);
    assert_eq!(p.elapsed_seconds, 302400);
    assert!(pace_from_seconds_left(3000, 0).is_none());
    // exactly 5% of the week elapsed is enough to project
    let edge = pace_from_seconds_left(3000, 604800 - 30240).unwrap();
    assert_eq!(edge.projected_percent, 600);
    assert_eq!(edge.elapsed_seconds, 30240);
    assert!(pace_from_seconds_left(3000, 604800 - 30239).is_none());
    let hot = pace_from_seconds_left(8000, 400000).unwrap();
    assert!(hot.is_hot() && hot.is_over_budget());
}

#[test]
fn colours() {
    assert_eq!(rgb(0x1e, 0x1e, 0x2e), 0x002e1e1e);
    let dark = ThemeColors::for_theme(ResolvedTheme::Dark);
    assert_eq!(dark.background, 0x002e1e1e);
    let light = ThemeColors::for_theme(ResolvedTheme::Light);
    assert_eq!(light.accent, rgb(0x1e, 0x66, 0xf5));
    let mut custom = CustomColors::default();
    custom.red = Some("##ff0000".to_string());
    custom.green = Some("zzzzzz".to_string());
    custom.yellow = Some("12345".to_string());
    custom.accent = Some("+f0000".to_string());
    let t = dark.with_overrides(&custom);
    assert_eq!(t.red, rgb(255, 0, 0));
    assert_eq!(t.green, dark.green);
    assert_eq!(t.yellow, dark.yellow);
    assert_eq!(t.accent, rgb(15, 0, 0));
    assert_eq!(dark.progress_color(8000), dark.red);
    assert_eq!(dark.progress_color(7999), dark.yellow);
    assert_eq!(dark.progress_color(4999), dark.green);
}

#[test]
fn tray_colours_and_tooltip() {
    assert_eq!(TrayIconColor::from_utilization(None), TrayIconColor::Gray);
    assert_eq!(TrayIconColor::from_utilization(Some(8000)), TrayIconColor::Red);
    assert_eq!(TrayIconColor::from_utilization(Some(5000)), TrayIconColor::Yellow);
    assert_eq!(TrayIconColor::from_utilization(Some(4999)), TrayIconColor::Green);

    assert_eq!(build_tooltip(&None, false), "ClaudeMeter\nNo data");
    let usage = TooltipUsage {
        plan: "Max".to_string(),
        metrics: vec![
            TooltipMetric {
                name: "5-hour session".to_string(),
                utilization: 4550,
                seconds_to_reset: Some(3661),
            },
            TooltipMetric { name: "Weekly (7-day)".to_string(), utilization: 1200, seconds_to_reset: None },
        ],
    };
    assert_eq!(
        build_tooltip(&Some(usage), true),
        "ClaudeMeter\nClaude (Max)\n\n5-hour session: 46% | 1h 1m\n\nWeekly (7-day): 12%\nChatGPT: click to open usage"
    );
    let long = TooltipUsage { plan: "x".repeat(200), metrics: vec![] };
    assert_eq!(build_tooltip(&Some(long), false).chars().count(), 127);
    assert_eq!(tray_tip_units("ab"), vec![97, 98, 0]);
    assert_eq!(tray_tip_units(&"y".repeat(300)).len(), 127);
}

#[test]
fn percent_rounding() {
    assert_eq!(round_percent(4550), 46);
    assert_eq!(round_percent(4549), 45);
    assert_eq!(display_percent_of(4550), 46);
    assert_eq!(display_percent_of(4450), 44);
    assert_eq!(display_percent_of(4451), 45);
}

#[test]
fn text_helpers() {
    assert_eq!(wide("A"), vec![65, 0]);
    assert_eq!(wide("€"), vec![0x20AC, 0]);
    assert_eq!(wide("😀"), vec![0xD83D, 0xDE00, 0]);
    assert_eq!(parse_u32("+5"), Some(5));
    assert_eq!(parse_u32("4294967295"), Some(4294967295));
    assert_eq!(parse_u32("4294967296"), None);
    assert_eq!(parse_u32(""), None);
    assert_eq!(parse_u32("1a"), None);
    assert_eq!(capitalize("dark"), "Dark");
    assert_eq!(capitalize(""), "");
    assert_eq!(version_numbers_of("1..x.3"), vec![1, 3]);
}

#[test]
fn popup_layout() {
    assert_eq!(popup_height(None, false, true), 144);
    assert_eq!(popup_height(Some(&[true, true, false][..]), false, true), 208);
    assert_eq!(popup_height(None, false, false), 373);
    assert_eq!(popup_height(None, true, false), 489);
    assert_eq!(popup_height(Some(&[true, true][..]), true, false), 373 - 134 + 24 + 152 + 116);
    // one metric without a reset time draws no reset line
    assert_eq!(popup_height(Some(&[false][..]), false, false), 321);
    assert_eq!(popup_height(Some(&[true][..]), false, false), 339);
    assert!(draws_reset_line(Some("2026-07-30T00:00:00Z")));
    assert!(!draws_reset_line(Some("soon")));
    assert!(!draws_reset_line(None));
    assert_eq!(compact_rows(None), vec![("No data".to_string(), 0)]);
    assert_eq!(
        compact_rows(Some(vec![("Opus".to_string(), 4550)])),
        vec![("Opus".to_string(), 4550)]
    );
    let colors = ThemeColors::for_theme(ResolvedTheme::Dark);
    assert_eq!(setting_row_color(&colors, 3, &HoveredElement::SettingRow(3)), colors.hover);
    assert_eq!(setting_row_color(&colors, 3, &HoveredElement::Nothing), colors.surface);
    assert_eq!(setting_row_color(&colors, 2, &HoveredElement::SettingRow(3)), colors.background);
    assert_eq!(accessibility_pattern(9000), AccessibilityPattern::CrossHatch);
    assert_eq!(accessibility_pattern(5000), AccessibilityPattern::Stripes);
    assert_eq!(accessibility_pattern(100), AccessibilityPattern::Dots);
}

#[test]
fn settings_panel_rows() {
    let mut c = Config::default();
    c.compact_mode = true;
    let i18n = I18n::new(Locale::Es);
    let rows = settings_rows(&c, &i18n, Locale::De);
    assert_eq!(rows.len(), 9);
    assert_eq!(rows[0], ("Tema".to_string(), "Auto".to_string()));
    assert_eq!(rows[1], ("Idioma".to_string(), "Auto (Deutsch)".to_string()));
    assert_eq!(rows[2], ("Modo compacto".to_string(), "\u{2611}".to_string()));
    assert_eq!(rows[8].1, "Number");
    c.language = "uk".to_string();
    assert_eq!(settings_rows(&c, &i18n, Locale::De)[1].1, "Українська");
    c.language = "ru".to_string();
    assert_eq!(settings_rows(&c, &i18n, Locale::De)[1].1, "RU");
}

#[test]
fn widget_faces() {
    assert_eq!(widget_face(Some(8049)), ("80%".to_string(), rgb(210, 15, 57)));
    assert_eq!(widget_face(Some(4950)), ("50%".to_string(), rgb(64, 160, 43)));
    assert_eq!(widget_face(None), ("\u{2014}".to_string(), rgb(128, 128, 128)));
}

#[test]
fn history_charts() {
    let rows = [(0i64, 5000u32), (47, 100), (100, 200), (-3, 7), (10, 3000)];
    let day = day_chart(&rows);
    assert_eq!(day.len(), 48);
    assert_eq!(day[47], 7);
    assert_eq!(day[0], 200);
    assert_eq!(day[37], 3000);
    assert_eq!(day[1], 0);
    assert_eq!(week_chart(&rows).len(), 42);
    assert_eq!(week_chart(&rows)[41], 7);
    assert_eq!(csv_header(), "timestamp,provider,metric,utilization,resets_at");
    assert_eq!(
        csv_row("2026-01-01 10:00:00", "anthropic", "five_hour", 4505, &Some("R".to_string())),
        "2026-01-01 10:00:00,anthropic,five_hour,45.05,R"
    );
    assert_eq!(csv_row("t", "p", "m", 7, &None), "t,p,m,0.07,");
}

#[test]
fn agent_helpers() {
    assert_eq!(
        notification_script("T\"", "m\\", true),
        "display notification \"m\\\\\" with title \"T\\\"\" sound name \"Ping\""
    );
    assert_eq!(notification_script("a", "b", false), "display notification \"b\" with title \"a\"");
    let args: Vec<String> =
        ["app", "--set", "language=uk", "--export-csv=/tmp/x.csv"].iter().map(|s| s.to_string()).collect();
    assert_eq!(flag_value(&args, "--set"), Some("language=uk".to_string()));
    assert_eq!(flag_value(&args, "--export-csv"), Some("/tmp/x.csv".to_string()));
    assert_eq!(flag_value(&args, "--export-json"), None);
    let last: Vec<String> = ["app", "--set"].iter().map(|s| s.to_string()).collect();
    assert_eq!(flag_value(&last, "--set"), None);
}

fn entry(key: &str, name: &str, percent: u32) -> MetricEntry {
    MetricEntry { key: key.to_string(), name: name.to_string(), percent, resets_at: None }
}

#[test]
fn codex_merge() {
    let mut metrics = vec![entry("five_hour", "A", 1), entry("codex_five_hour", "B", 2), entry("seven_day", "C", 3)];
    merge_codex(&mut metrics, vec![entry("codex_seven_day", "D", 4)]);
    let keys: Vec<&str> = metrics.iter().map(|m| m.key.as_str()).collect();
    assert_eq!(keys, vec!["five_hour", "seven_day", "codex_seven_day"]);
}

#[test]
fn alerts() {
    let i18n = I18n::new(Locale::Es);
    let metrics = vec![entry("five_hour", "Session", 92), entry("seven_day", "Week", 60)];
    let (map, alerts) = check_alerts(vec![("seven_day".to_string(), 50)], &metrics, true, &[50, 75, 90], &i18n);
    assert_eq!(alerts.len(), 1);
    assert_eq!(alerts[0].title, "Uso crítico");
    assert_eq!(alerts[0].message, "Session: 92%");
    let mut map = map;
    map.sort();
    assert_eq!(map, vec![("five_hour".to_string(), 90), ("seven_day".to_string(), 50)]);
    // falling below every threshold clears the record
    let (map2, alerts2) = check_alerts(map, &[entry("five_hour", "Session", 10)], true, &[50, 75, 90], &i18n);
    assert!(alerts2.is_empty());
    assert_eq!(map2, vec![("seven_day".to_string(), 50)]);
    let (map3, alerts3) = check_alerts(map2.clone(), &metrics, false, &[50], &i18n);
    assert_eq!(map3, map2);
    assert!(alerts3.is_empty());
}

#[test]
fn tier_notes() {
    assert_eq!(plan_multiplier("Max 20x"), Some(20));
    assert_eq!(plan_multiplier("MAX"), Some(5));
    assert_eq!(plan_multiplier("Pro"), Some(1));
    assert_eq!(plan_multiplier("Free"), None);
    assert_eq!(lower_tier(20), Some(("Max 5x", 5)));
    assert_eq!(lower_tier(1), None);
    assert_eq!(
        build_tier_note("Max 20x", Some(2400), Some(3100)),
        Some("On Max 5x: weekly ~96%, session ~124% \u{2014} would throttle".to_string())
    );
    assert_eq!(
        build_tier_note("Max 5x", Some(1000), None),
        Some("On Pro: weekly ~50% \u{2014} would fit".to_string())
    );
    assert_eq!(build_tier_note("Pro", Some(1000), None), None);
    assert_eq!(build_tier_note("Max", None, None), None);
}

#[test]
fn reset_markers() {
    // next reset in 2 hours: the last one was 3 hours ago, then 8, 13, 18, 23
    assert_eq!(chart_reset_offsets(7200), vec![10800, 28800, 46800, 64800, 82800]);
    assert_eq!(chart_reset_offsets(100000), vec![8000, 26000, 44000, 62000, 80000]);
    assert!(chart_reset_offsets(-100000).is_empty());
}

#[test]
fn release_check() {
    let body = r#"{"tag_name": "v2.0.0", "html_url": "https://example.invalid/r"}"#;
    assert_eq!(
        release_update(body, "1.9.9"),
        Some(("v2.0.0".to_string(), "https://example.invalid/r".to_string()))
    );
    assert_eq!(release_update(body, "2.0.0"), None);
    assert_eq!(release_update(r#"{"tag_name": "v3"}"#, "1.0.0"), None);
    assert_eq!(release_update("not json", "1.0.0"), None);
}

#[test]
fn credential_blobs() {
    let json = r#"{"accessToken": "tok"}"#;
    assert_eq!(decode_credential_blob(json.as_bytes()).unwrap(), "tok");
    let mut utf16: Vec<u8> = Vec::new();
    for u in json.encode_utf16().chain(std::iter::once(0)) {
        utf16.extend_from_slice(&u.to_le_bytes());
    }
    assert_eq!(decode_credential_blob(&utf16).unwrap(), "tok");
    let mut padded = json.as_bytes().to_vec();
    padded.push(0);
    assert_eq!(decode_credential_blob(&padded).unwrap(), "tok");
    match decode_credential_blob(&[]) {
        Err(CredentialError::ParseError(m)) => assert_eq!(m, "Empty credential blob"),
        _ => panic!("expected a parse error"),
    }
    match extract_access_token("{oops") {
        Err(CredentialError::ParseError(m)) => assert!(m.starts_with("Invalid JSON: ")),
        _ => panic!("expected a parse error"),
    }
    match extract_access_token(r#"{"claudeAiOauth": {"accessToken": 5}, "accessToken": "flat"}"#) {
        Ok(t) => assert_eq!(t, "flat"),
        _ => panic!("expected the flat token"),
    }
    assert!(matches!(credential_read_error(0x80070490u32 as i32, "x".to_string()), CredentialError::NotFound));
    assert_eq!(
        credential_read_error(5, "denied".to_string()).message(),
        "Windows API error: denied"
    );
    assert_eq!(
        CredentialError::ParseError("bad".to_string()).message(),
        "Failed to parse credential JSON: bad"
    );
}

#[test]
fn clocks() {
    let now = instant_of("2026-07-26T12:00:00Z");
    assert_eq!(seconds_until_at("2026-07-26T13:00:01Z", now), Some(3601));
    assert_eq!(seconds_until_at("2026-07-26 11:00:00Z", now), Some(-3600));
    assert_eq!(seconds_until_at("soon", now), None);
    let half = Instant { secs: now.secs, nanos: 500_000_000 };
    assert_eq!(seconds_until_at("2026-07-26T12:00:01Z", half), Some(0));
    let reset = LocalTime { year: 2026, month: 7, day: 30, weekday: 3, hour: 14, minute: 5 };
    let today = LocalTime { year: 2026, month: 7, day: 26, weekday: 6, hour: 9, minute: 0 };
    assert_eq!(reset_target_text(reset, today, true), "(Thu 14:05)");
    assert_eq!(reset_target_text(reset, today, false), "(Thu 2:05 PM)");
    assert_eq!(reset_target_text(reset, reset, false), "(2:05 PM)");
    let midnight = LocalTime { hour: 0, minute: 7, ..reset };
    assert_eq!(reset_target_text(midnight, midnight, false), "(12:07 AM)");
    assert_eq!(reset_target_text(midnight, midnight, true), "(00:07)");
    assert!(uses_24h_clock(None));
    assert!(uses_24h_clock(Some((0x31, 4))));
    assert!(!uses_24h_clock(Some((0x30, 4))));
    assert!(uses_24h_clock(Some((0x30, 1))));
}

#[test]
fn autostart_edits() {
    assert_eq!(
        set_autostart(true, "C:\\app\\claudemeter.exe"),
        AutostartEdit::Write("\"C:\\app\\claudemeter.exe\"".to_string())
    );
    assert_eq!(set_autostart(false, "x"), AutostartEdit::Delete);
}

#[test]
fn popup_texts() {
    assert_eq!(percent_label(4550), "46%");
    assert_eq!(percent_label(4450), "44%");
    assert_eq!(percent_label(0), "0%");
    let en = I18n::new(Locale::En);
    let es = I18n::new(Locale::Es);
    assert_eq!(
        reset_line(&en, Some(7500), Some("(14:00)".to_string())),
        "resets in 2h 5m (14:00)"
    );
    assert_eq!(reset_line(&es, Some(59), None), "se restablece en 59s ");
    assert_eq!(reset_line(&en, Some(0), Some("(14:00)".to_string())), "resetting soon");
    assert_eq!(reset_line(&en, None, None), "");
    assert_eq!(metric_reset_line(&en, "not a date", true), "");
    assert_eq!(metric_reset_line(&en, "2020-01-01T00:00:00Z", true), "resetting soon");
    assert!(metric_reset_line(&en, "2999-01-01T00:00:00Z", false).starts_with("resets in "));
    assert_eq!(updated_line(&es, "14:05:10"), "Última actualización: 14:05:10");
    assert_eq!(about_line("1.4.0"), "ClaudeMeter v1.4.0 by klivak");
}

#[test]
fn chart_tooltips() {
    assert_eq!(bar_seconds_ago(0, 48), 85500);
    assert_eq!(bar_seconds_ago(47, 48), 900);
    assert_eq!(bar_seconds_ago(0, 1), 43200);
    let at = LocalTime { year: 2026, month: 7, day: 30, weekday: 3, hour: 14, minute: 5 };
    assert_eq!(chart_tip_text(4550, at, true), "46% | 14:05");
    assert_eq!(chart_tip_text(8000, at, false), "80% | 02:05 PM");
    assert!(chart_tip(1200, 10, 48, true).starts_with("12% | "));
}

#[test]
fn icon_legend_entries() {
    let colors = ThemeColors::for_theme(ResolvedTheme::Dark);
    let es = I18n::new(Locale::Es);
    let legend = icon_legend(&colors, &es);
    assert_eq!(legend.len(), 4);
    assert_eq!(legend[0], (colors.green, "< 50% uso".to_string()));
    assert_eq!(legend[2], (colors.red, "\u{2265} 80% uso".to_string()));
    assert_eq!(legend[3], (colors.separator, "Sin datos".to_string()));
}

#[test]
fn lookups_to_results() {
    match token_from_lookups(Err("bad".to_string()), Ok(None)) {
        Err(CredentialError::ParseError(m)) => assert_eq!(m, "Invalid JSON: bad"),
        _ => panic!("expected a parse error"),
    }
    assert_eq!(token_from_lookups(Ok(Some("n".to_string())), Ok(Some("f".to_string()))).unwrap(), "n");
    assert_eq!(token_from_lookups(Ok(None), Ok(Some("f".to_string()))).unwrap(), "f");
    match token_from_lookups(Ok(None), Ok(None)) {
        Err(CredentialError::ParseError(m)) => {
            assert_eq!(m, "accessToken field not found in credential JSON")
        }
        _ => panic!("expected a parse error"),
    }
    assert_eq!(
        offer_from_lookups(Ok(Some("v2.0.0".to_string())), Ok(Some("u".to_string())), "1.9.9"),
        Some(("v2.0.0".to_string(), "u".to_string()))
    );
    assert_eq!(
        offer_from_lookups(Ok(Some("vv1.0.0".to_string())), Ok(Some("u".to_string())), "1.0.0"),
        None
    );
    assert_eq!(offer_from_lookups(Ok(Some("v2.0.0".to_string())), Ok(None), "1.0.0"), None);
    assert_eq!(offer_from_lookups(Err("e".to_string()), Ok(Some("u".to_string())), "1.0.0"), None);
    assert_eq!(text_from_blob_readings(Some("{x}".to_string()), "y\0".to_string()), "{x}");
    assert_eq!(text_from_blob_readings(Some("abc".to_string()), "y\0\0".to_string()), "y");
    assert_eq!(text_from_blob_readings(None, "z".to_string()), "z");
}

#[test]
fn tiers_from_lowercase_names() {
    assert_eq!(tier_multiplier("max 20x"), Some(20));
    assert_eq!(tier_multiplier("max"), Some(5));
    assert_eq!(tier_multiplier("pro"), Some(1));
    assert_eq!(tier_multiplier("MAX"), None);
    assert_eq!(tier_multiplier("free"), None);
}

fn instant_of(s: &str) -> Instant {
    let t = chrono::DateTime::parse_from_rfc3339(s).unwrap();
    Instant { secs: t.timestamp(), nanos: t.timestamp_subsec_nanos() }
}

#[test]
fn not_detected_screens() {
    let es = I18n::new(Locale::Es);
    let (screen, _) = not_detected_texts(&es, Some(&CredentialError::NotFound.message()));
    assert_eq!(screen, NotDetectedScreen::SignIn);
    let (screen, _) = not_detected_texts(&es, Some("connection refused"));
    assert_eq!(screen, NotDetectedScreen::Install);
    let en = I18n::new(Locale::En);
    let (screen, desc) = not_detected_texts(&en, None);
    assert_eq!(screen, NotDetectedScreen::Install);
    assert_eq!(desc, "install_claude_desc");
    // a capitalised message does not count as a credential error
    let (screen, desc) = not_detected_texts(&en, Some("Credentials not found"));
    assert_eq!(screen, NotDetectedScreen::Install);
    assert_eq!(desc, "install_claude_desc");
    let (screen, desc) = not_detected_texts(&en, Some("token: credentials not found"));
    assert_eq!(screen, NotDetectedScreen::SignIn);
    assert_eq!(desc, "run_claude_login_desc");
}

#[test]
fn translation_tables() {
    let es = I18n::new(Locale::Es);
    assert_eq!(es.t("Auto (English)"), "Auto (Espa\u{f1}ol)");
    assert_eq!(es.t("credentials_not_found"), "Credenciales no encontradas");
    assert_eq!(claudemeter::i18n::tl::strings()[6], ("Plan", "Plano"));
}

#[test]
fn token_lookup_order() {
    let file = r#"{"claudeAiOauth": {"accessToken": "from-file"}}"#;
    let blob = br#"{"accessToken": "from-blob"}"#;
    assert_eq!(token_from_sources(Some(file), Some(&blob[..])).unwrap(), "from-file");
    assert_eq!(token_from_sources(Some("{}"), Some(&blob[..])).unwrap(), "from-blob");
    assert_eq!(token_from_sources(None, Some(&blob[..])).unwrap(), "from-blob");
    assert!(matches!(token_from_sources(Some("nope"), None), Err(CredentialError::NotFound)));
    assert!(matches!(
        token_from_sources(None, Some(&[][..])),
        Err(CredentialError::ParseError(_))
    ));
    assert!(CredentialError::NotFound.message().contains("credentials not found"));
}

#[test]
fn agent_status_transitions() {
    let en = I18n::new(Locale::En);
    // first run: the refreshing placeholder
    let s = refresh_start(None, &en);
    assert_eq!(s.state, "refreshing");
    // the title is the translation of "Refreshing" (the key itself in English)
    assert_eq!(s.title, "Refreshing");
    assert!(s.error.is_none());
    // a prior reading stays, with its error cleared
    let mut live = MacStatus::refreshing();
    live.state = "live".to_string();
    live.percent = Some(42);
    live.error = Some("old".to_string());
    live.metrics = vec![entry("five_hour", "Session", 42), entry("codex_five_hour", "Codex", 10)];
    live.alerted = vec![("five_hour".to_string(), 50)];
    let kept = refresh_start(Some(live), &en);
    assert_eq!(kept.state, "live");
    assert_eq!(kept.percent, Some(42));
    assert!(kept.error.is_none());
    assert_eq!(kept.metrics.len(), 2);

    // a failed fetch keeps the reading, replaces Codex entries, re-checks alerts
    let (s, alerts) = error_status(
        Some(kept),
        "Usage poll failed".to_string(),
        vec![entry("codex_five_hour", "Codex", 95)],
        &settings(),
        true,
        &[50, 75, 90],
        &en,
    );
    assert_eq!(s.state, "live");
    assert_eq!(s.error.as_deref(), Some("Usage poll failed"));
    assert_eq!(s.metrics.len(), 2);
    assert_eq!(s.metrics[1].percent, 95);
    assert_eq!(s.labels, menu_labels(&en, &settings()));
    assert_eq!(alerts.len(), 1);
    assert_eq!(alerts[0].title, "Usage Critical");
    assert_eq!(alerts[0].message, "Codex: 95%");
    // the session metric fell below 50%: its mark is dropped
    assert_eq!(s.alerted, vec![("codex_five_hour".to_string(), 90)]);

    // no prior reading: the error status with the Codex entries alone
    let (s, alerts) = error_status(
        None,
        "boom".to_string(),
        vec![entry("codex_seven_day", "Codex weekly", 60)],
        &settings(),
        false,
        &[50, 75, 90],
        &en,
    );
    assert_eq!(s.state, "error");
    assert_eq!(s.title, "api_error");
    assert_eq!(s.detail, "boom");
    assert_eq!(s.error.as_deref(), Some("boom"));
    assert!(s.percent.is_none());
    assert_eq!(s.metrics.len(), 1);
    assert!(alerts.is_empty());
    assert!(s.alerted.is_empty());
    let e = MacStatus::error("x".to_string());
    assert_eq!((e.state.as_str(), e.title.as_str(), e.detail.as_str()), ("error", "API error", "x"));
}

#[test]
fn agent_live_status() {
    let en = I18n::new(Locale::En);
    let reading = LiveReading {
        detected_plan: "Pro".to_string(),
        max_utilization: Some(4550),
        weekly: Some(2400),
        session: Some(4550),
        session_resets_in: Some(7200),
        metrics: vec![entry("five_hour", "Session", 46)],
    };
    let (s, alerts) = live_status(
        reading,
        vec![entry("codex_five_hour", "Codex", 80)],
        None,
        "2026-07-26T12:00:00+00:00".to_string(),
        &[0, 1249, 1250, 10000],
        &settings(),
        vec![("five_hour".to_string(), 50)],
        true,
        &[50, 75, 90],
        &en,
    );
    assert_eq!(s.state, "live");
    assert_eq!(s.title, "46%");
    assert_eq!(s.detail, "Pro: 46%");
    assert_eq!(s.plan.as_deref(), Some("Pro"));
    assert_eq!(s.percent, Some(46));
    assert_eq!(s.metrics.len(), 2);
    assert!(s.tier_note.is_none());
    assert_eq!(s.data_age_seconds, Some(0));
    assert!(s.error.is_none());
    assert_eq!(s.chart, vec![0, 12, 13, 100]);
    assert_eq!(s.chart_resets, vec![10800, 28800, 46800, 64800, 82800]);
    assert_eq!(alerts.len(), 1);
    assert_eq!(alerts[0].message, "Codex: 80%");
    assert_eq!(s.alerted, vec![("codex_five_hour".to_string(), 75)]);

    // a configured plan replaces the detected one and brings the downgrade note
    let reading = LiveReading {
        detected_plan: "Pro".to_string(),
        max_utilization: None,
        weekly: Some(2400),
        session: Some(3100),
        session_resets_in: None,
        metrics: Vec::new(),
    };
    let (s, _) = live_status(reading, Vec::new(), Some("Max 20x"), String::new(), &[], &settings(), Vec::new(), false, &[50], &en);
    assert_eq!(s.title, "0%");
    assert_eq!(s.detail, "Max 20x: 0%");
    assert_eq!(s.tier_note, build_tier_note("Max 20x", Some(2400), Some(3100)));
    assert!(s.tier_note.is_some());
    assert!(s.chart_resets.is_empty());
}

fn settings() -> MenuSettings {
    MenuSettings {
        thresholds_text: "50, 75, 90".to_string(),
        language: "auto".to_string(),
        show_codex_section: true,
        show_model_limits: false,
        show_extra_usage: true,
        show_startup_notification: false,
        login_expiry_warning: true,
        notification_sound: false,
        notifications_enabled: true,
    }
}

#[test]
fn agent_menu_labels() {
    let en = I18n::new(Locale::En);
    let labels = menu_labels(&en, &settings());
    assert_eq!(labels.len(), 44);
    assert_eq!(labels[0], ("refresh_now".to_string(), "Refresh Now".to_string()));
    let get = |k: &str| labels.iter().find(|(key, _)| key == k).map(|(_, v)| v.clone());
    assert_eq!(get("quit").as_deref(), Some("Quit"));
    assert_eq!(get("value_thresholds").as_deref(), Some("50, 75, 90"));
    assert_eq!(get("value_language").as_deref(), Some("auto"));
    assert_eq!(get("value_show_codex_section").as_deref(), Some("true"));
    assert_eq!(get("value_show_model_limits").as_deref(), Some("false"));
    assert_eq!(get("value_show_login_expiry_warning").as_deref(), Some("true"));
    assert_eq!(get("value_notification_sound").as_deref(), Some("false"));
    assert_eq!(get("value_notifications_enabled").as_deref(), Some("true"));
    let es = I18n::new(Locale::Es);
    let labels = menu_labels(&es, &settings());
    assert_eq!(labels[11], ("settings".to_string(), "Configuraci\u{f3}n".to_string()));
    assert_eq!(labels[12], ("language".to_string(), "Idioma".to_string()));
}

#[test]
fn settings_panel_hit_areas() {
    let (back, close, rows) = settings_hit_rects(380);
    assert_eq!(back, HitRect { left: 16, top: 0, right: 190, bottom: 40 });
    assert_eq!(close, HitRect { left: 344, top: 0, right: 376, bottom: 40 });
    assert_eq!(rows.len(), 9);
    assert_eq!(rows[0], HitRect { left: 0, top: 48, right: 380, bottom: 86 });
    assert_eq!(rows[8], HitRect { left: 0, top: 352, right: 380, bottom: 390 });
    let (back, _, _) = settings_hit_rects(381);
    assert_eq!(back.right, 190);
}
