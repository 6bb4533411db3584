use somars::utils::format_duration;
use std::time::Duration;

#[test]
fn utils_test_format_duration() {
    // Test zero duration
    let duration = Duration::from_secs(0);
    assert_eq!(format_duration(duration.as_secs()), "00:00:00");

    // Test seconds only
    let duration = Duration::from_secs(30);
    assert_eq!(format_duration(duration.as_secs()), "00:00:30");

    // Test minutes and seconds
    let duration = Duration::from_secs(90); // 1 minute 30 seconds
    assert_eq!(format_duration(duration.as_secs()), "00:01:30");

    // Test hours, minutes and seconds
    let duration = Duration::from_secs(3661); // 1 hour 1 minute 1 second
    assert_eq!(format_duration(duration.as_secs()), "01:01:01");
}

#[test]
fn utils_tests_test_format_duration() {
    // Test zero duration
    let duration = Duration::from_secs(0);
    assert_eq!(format_duration(duration.as_secs()), "00:00:00");

    // Test seconds only
    let duration = Duration::from_secs(30);
    assert_eq!(format_duration(duration.as_secs()), "00:00:30");

    // Test minutes and seconds
    let duration = Duration::from_secs(90); // 1 minute 30 seconds
    assert_eq!(format_duration(duration.as_secs()), "00:01:30");

    // Test hours, minutes and seconds
    let duration = Duration::from_secs(3661); // 1 hour 1 minute 1 second
    assert_eq!(format_duration(duration.as_secs()), "01:01:01");
}

#[test]
fn format_duration_wide_hours() {
    // the hour field grows past two digits instead of wrapping
    assert_eq!(format_duration(360000), "100:00:00");
    assert_eq!(format_duration(86399), "23:59:59");
}

#[test]
fn i18n_returns_key_as_fallback() {
    assert_eq!(somars::i18n::get_message("stream-from"), "stream-from");
    assert_eq!(somars::i18n::t("playback-started"), "playback-started");
}
