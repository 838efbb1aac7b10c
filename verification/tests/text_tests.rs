use music_client::text::{signed_text, unsigned_text};
use music_client::ui::player_bar::common::format_time;

#[test]
fn format_time_zero() {
    assert_eq!(format_time(0), "0:00");
}

#[test]
fn format_time_pads_seconds() {
    assert_eq!(format_time(7), "0:07");
    assert_eq!(format_time(187), "3:07");
}

#[test]
fn format_time_minute_boundaries() {
    assert_eq!(format_time(59), "0:59");
    assert_eq!(format_time(60), "1:00");
    assert_eq!(format_time(61), "1:01");
}

#[test]
fn format_time_long_durations_keep_minutes() {
    assert_eq!(format_time(3700), "61:40");
    assert_eq!(format_time(u32::MAX), "71582788:15");
}

#[test]
fn format_time_distinct_inputs_distinct_texts() {
    let mut seen = std::collections::HashSet::new();
    for s in 0..5000u32 {
        assert!(seen.insert(format_time(s)));
    }
}

#[test]
fn unsigned_text_values() {
    assert_eq!(unsigned_text(0), "0");
    assert_eq!(unsigned_text(9), "9");
    assert_eq!(unsigned_text(10), "10");
    assert_eq!(unsigned_text(1234567890), "1234567890");
    assert_eq!(unsigned_text(u64::MAX), "18446744073709551615");
}

#[test]
fn signed_text_values() {
    assert_eq!(signed_text(0), "0");
    assert_eq!(signed_text(42), "42");
    assert_eq!(signed_text(-42), "-42");
    assert_eq!(signed_text(i64::MIN), "-9223372036854775808");
    assert_eq!(signed_text(i64::MAX), "9223372036854775807");
}
