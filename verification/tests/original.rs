use claudemeter::agent::{escape_applescript, MacStatus};
use claudemeter::credentials::{extract_access_token, CredentialError};
use claudemeter::i18n::{format_duration, I18n, Locale};
use claudemeter::notifications::NotificationTracker;
use claudemeter::pace::weekly_pace;
use claudemeter::time::Instant;
use claudemeter::updater::is_newer;

#[test]
fn test_extract_nested() {
    let json = r#"{"claudeAiOauth": {"accessToken": "sk-ant-oat01-test"}}"#;
    assert_eq!(extract_access_token(json).unwrap(), "sk-ant-oat01-test");
}

#[test]
fn test_extract_flat() {
    let json = r#"{"accessToken": "sk-ant-oat01-flat"}"#;
    assert_eq!(extract_access_token(json).unwrap(), "sk-ant-oat01-flat");
}

#[test]
fn test_extract_missing() {
    let json = r#"{"other": "data"}"#;
    assert!(matches!(
        extract_access_token(json),
        Err(CredentialError::ParseError(_))
    ));
}

#[test]
fn test_format_duration() {
    assert_eq!(format_duration(0), "now");
    assert_eq!(format_duration(45), "45s");
    assert_eq!(format_duration(3661), "1h 1m");
    assert_eq!(format_duration(90000), "1d 1h");
}

#[test]
fn test_fallback() {
    let i18n = I18n::new(Locale::En);
    assert_eq!(i18n.t("Plan"), "Plan");
    assert_eq!(i18n.t("nonexistent_key_xyz"), "nonexistent_key_xyz");
}

#[test]
fn test_ukrainian() {
    let i18n = I18n::new(Locale::Uk);
    assert_eq!(i18n.t("Plan"), "План");
    assert_eq!(i18n.t("Pro"), "Pro"); // same in all languages
}

#[test]
fn test_escape_applescript() {
    assert_eq!(escape_applescript(r#"a\b"c"#), r#"a\\b\"c"#);
}

// Utilizations are in hundredths of a percent: 6000 is 60.0%.
#[test]
fn test_notification_dedup() {
    let mut tracker = NotificationTracker::new();
    let thresholds = [50u8, 75, 90];

    // First time at 60% → fires only threshold 50
    let fired = tracker.check("five_hour", 6000, &thresholds);
    assert_eq!(fired, vec![50]);

    // Second time at 60% → no new fires
    let fired = tracker.check("five_hour", 6000, &thresholds);
    assert!(fired.is_empty());

    // Drops below 50% → clears the 50% threshold
    let fired = tracker.check("five_hour", 4000, &thresholds);
    assert!(fired.is_empty());

    // Back to 60% → fires 50% again
    let fired = tracker.check("five_hour", 6000, &thresholds);
    assert_eq!(fired, vec![50]);
}

#[test]
fn test_only_highest_threshold_fires() {
    let mut tracker = NotificationTracker::new();
    let thresholds = [50u8, 75, 90];

    // Jump straight to 96% → only fires 90 (the highest), not all three
    let fired = tracker.check("five_hour", 9600, &thresholds);
    assert_eq!(fired, vec![90]);

    // All thresholds are now marked as fired, so no new fires
    let fired = tracker.check("five_hour", 9600, &thresholds);
    assert!(fired.is_empty());

    // Drop to 80% → clears 90, but 50 and 75 still fired
    let fired = tracker.check("five_hour", 8000, &thresholds);
    assert!(fired.is_empty());

    // Back to 96% → only 90 fires again (50 and 75 still marked)
    let fired = tracker.check("five_hour", 9600, &thresholds);
    assert_eq!(fired, vec![90]);
}

#[test]
fn test_gradual_increase_fires_each_threshold_once() {
    let mut tracker = NotificationTracker::new();
    let thresholds = [50u8, 75, 90];

    let fired = tracker.check("five_hour", 5500, &thresholds);
    assert_eq!(fired, vec![50]);

    let fired = tracker.check("five_hour", 7800, &thresholds);
    assert_eq!(fired, vec![75]);

    let fired = tracker.check("five_hour", 9500, &thresholds);
    assert_eq!(fired, vec![90]);
}

fn now() -> Instant {
    instant_of("2026-07-26T12:00:00Z")
}

/// Half the week gone with 30% spent projects to 60% at reset.
#[test]
fn test_linear_projection() {
    let reset = "2026-07-30T00:00:00Z"; // 3.5 days out → half elapsed
    let pace = weekly_pace(3000, reset, now()).unwrap();
    assert_eq!(pace.projected_percent, 60);
    assert!((pace.elapsed_seconds as f64 / 604800.0 - 0.5).abs() < 0.01);
    assert!(!pace.is_hot());
    assert!(!pace.is_over_budget());
}

#[test]
fn test_hot_when_projected_over_budget_late_enough() {
    let reset = "2026-07-30T00:00:00Z"; // 3.5 days out → half elapsed
    let pace = weekly_pace(6000, reset, now()).unwrap();
    assert_eq!(pace.projected_percent, 120);
    assert!(pace.is_hot());
    assert!(pace.is_over_budget());
}

/// A spike in the first hours must not be called hot, however steep.
#[test]
fn test_early_spike_is_not_hot() {
    let reset = "2026-08-01T12:00:00Z"; // ~6.0 days left → ~14% elapsed
    let pace = weekly_pace(4000, reset, now()).unwrap();
    assert!(pace.projected_percent > 200);
    assert!(!pace.is_hot());
}

#[test]
fn test_none_before_projection_window() {
    // Reset almost a full week out: too little elapsed to project.
    assert!(weekly_pace(500, "2026-08-02T06:00:00Z", now()).is_none());
}

#[test]
fn test_none_when_reset_passed_or_unparseable() {
    assert!(weekly_pace(5000, "2026-07-25T12:00:00Z", now()).is_none());
    assert!(weekly_pace(5000, "not-a-date", now()).is_none());
}

#[test]
fn weekly_pace_at_exactly_five_percent() {
    // 574,560 s left: exactly 5% of the week has elapsed.
    let pace = weekly_pace(1000, "2026-08-02T03:36:00Z", now()).unwrap();
    assert_eq!(pace.projected_percent, 200);
    assert_eq!(pace.elapsed_seconds, 30240);
}

#[test]
fn test_refreshing_status_shape() {
    let status = MacStatus::refreshing();
    assert_eq!(status.state, "refreshing");
    assert_eq!(status.title, "Refreshing...");
    assert!(status.percent.is_none());
}

#[test]
fn test_is_newer() {
    assert!(is_newer("1.4.0", "1.3.6"));
    assert!(is_newer("2.0.0", "1.9.9"));
    assert!(!is_newer("1.3.6", "1.3.6"));
    assert!(!is_newer("1.3.5", "1.3.6"));
    assert!(is_newer("1.3.7", "1.3.6"));
}

fn instant_of(s: &str) -> Instant {
    let t = chrono::DateTime::parse_from_rfc3339(s).unwrap();
    Instant { secs: t.timestamp(), nanos: t.timestamp_subsec_nanos() }
}
