use teleport_reader::display::{status_colored, status_style, StatusStyle};
use teleport_reader::text::truncate_str;
use teleport_reader::timefmt::{format_timestamp, parse_date_filter, parse_timestamp, Instant};

#[test]
fn truncate_str_ascii_no_truncation() {
    assert_eq!(truncate_str("hello", 10), "hello");
}

#[test]
fn truncate_str_ascii_exact_boundary() {
    assert_eq!(truncate_str("hello", 5), "hello");
}

#[test]
fn truncate_str_ascii_truncates() {
    assert_eq!(truncate_str("hello world", 5), "hello...");
}

#[test]
fn truncate_str_unicode_box_drawing_no_panic() {
    let s = format!("{}{}", "a".repeat(119), "─────");
    let result = truncate_str(&s, 120);
    assert!(result.ends_with("..."));
    assert_eq!(result.chars().count(), 123);
}

#[test]
fn truncate_str_multibyte_emoji() {
    let s = format!("{}{}", "x".repeat(118), "🦀🦀🦀");
    let result = truncate_str(&s, 120);
    assert!(result.ends_with("..."));
    assert_eq!(result.chars().count(), 123);
}

#[test]
fn truncate_str_empty() {
    assert_eq!(truncate_str("", 10), "");
}

#[test]
fn truncate_str_zero_keeps_only_dots() {
    assert_eq!(truncate_str("abc", 0), "...");
}

#[test]
fn status_colored_running() {
    let result = status_colored("running");
    assert!(result.contains("running"));
}

#[test]
fn status_colored_idle() {
    let result = status_colored("idle");
    assert!(result.contains("idle"));
}

#[test]
fn status_colored_completed() {
    let result = status_colored("completed");
    assert!(result.contains("completed"));
}

#[test]
fn status_colored_error() {
    let result = status_colored("error");
    assert!(result.contains("error"));
}

#[test]
fn status_colored_failed() {
    let result = status_colored("failed");
    assert!(result.contains("failed"));
}

#[test]
fn status_colored_unknown() {
    let result = status_colored("something_else");
    assert!(result.contains("something_else"));
}

#[test]
fn status_styles_follow_the_status() {
    assert_eq!(status_style("running"), StatusStyle::GreenBold);
    assert_eq!(status_style("idle"), StatusStyle::Yellow);
    assert_eq!(status_style("completed"), StatusStyle::Blue);
    assert_eq!(status_style("error"), StatusStyle::RedBold);
    assert_eq!(status_style("failed"), StatusStyle::RedBold);
    assert_eq!(status_style("Running"), StatusStyle::Dimmed);
}

#[test]
fn format_timestamp_valid_utc() {
    let result = format_timestamp("2025-01-15T14:30:00Z");
    assert_eq!(result, "2025-01-15 14:30:00 UTC");
}

#[test]
fn format_timestamp_with_millis() {
    let result = format_timestamp("2025-06-01T08:00:00.123Z");
    assert_eq!(result, "2025-06-01 08:00:00 UTC");
}

#[test]
fn format_timestamp_invalid_returns_original() {
    let result = format_timestamp("not-a-timestamp");
    assert_eq!(result, "not-a-timestamp");
}

#[test]
fn format_timestamp_empty() {
    let result = format_timestamp("");
    assert_eq!(result, "");
}

#[test]
fn format_timestamp_converts_offsets_to_utc() {
    assert_eq!(format_timestamp("2025-01-15T16:30:00+02:00"), "2025-01-15 14:30:00 UTC");
}

fn ymd(i: Instant) -> String {
    chrono::DateTime::<chrono::Utc>::from_timestamp(i.secs, i.nanos)
        .unwrap()
        .format("%Y-%m-%d")
        .to_string()
}

fn ymd_hms(i: Instant) -> String {
    chrono::DateTime::<chrono::Utc>::from_timestamp(i.secs, i.nanos)
        .unwrap()
        .format("%Y-%m-%d %H:%M:%S")
        .to_string()
}

#[test]
fn parse_date_filter_iso8601() {
    let dt = parse_date_filter("2025-06-15T14:30:00Z").unwrap();
    assert_eq!(ymd(dt), "2025-06-15");
}

#[test]
fn parse_date_filter_date_only() {
    let dt = parse_date_filter("2025-06-15").unwrap();
    assert_eq!(ymd_hms(dt), "2025-06-15 00:00:00");
}

#[test]
fn parse_date_filter_invalid() {
    let err = parse_date_filter("not-a-date").unwrap_err();
    assert!(err.message().contains("Invalid date format"));
}

#[test]
fn parse_timestamp_gives_epoch_seconds() {
    let i = parse_timestamp("1970-01-01T00:01:40.5Z").unwrap();
    assert_eq!(i, Instant { secs: 100, nanos: 500_000_000 });
    assert!(parse_timestamp("yesterday").is_none());
}
