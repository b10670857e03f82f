use job_monitor::duration::{compute_durations, format_duration_ms};
use job_monitor::filter::FilterMode;
use job_monitor::jobs::{Job, Property};
use job_monitor::render::{
    centered_rect, detail_field_lines, format_id, mode_title, property_lines, table_rows, Rect,
};

fn job(
    id: &str,
    name: &str,
    state: &str,
    waiting_at: u64,
    running_at: u64,
    terminated_at: u64,
) -> Job {
    Job {
        id: String::from(id),
        name: String::from(name),
        state: String::from(state),
        waiting_at,
        running_at,
        terminated_at,
        properties: Vec::new(),
    }
}

#[test]
fn test_format_id() {
    assert_eq!(format_id("123456789"), "123..789");
    assert_eq!(format_id("123"), "123");
    assert_eq!(format_id("123456"), "123456");
}

#[test]
fn test_format_id_boundary() {
    assert_eq!(format_id(""), "");
    assert_eq!(format_id("1234567"), "123..567");
    assert_eq!(format_id("abcdefgh"), "abc..fgh");
}

#[test]
fn test_compute_durations_examples() {
    // Example 1
    let now = 1_770_846_698u64; // current time (ms epoch)
    let waiting_at = Some(1_770_836_575u64);
    let running_at = None;
    let terminated_at = None;
    let (w, r, c) = compute_durations(waiting_at, running_at, terminated_at, now);
    assert_eq!(w, "10.123");
    assert_eq!(r, "-");
    assert_eq!(c, "-");

    // Example 2
    let now = 1_770_840_000u64;
    let waiting_at = Some(1_770_810_000u64);
    let running_at = Some(1_770_820_000u64);
    let terminated_at = None;
    let (w, r, c) = compute_durations(waiting_at, running_at, terminated_at, now);
    assert_eq!(w, "10.000");
    assert_eq!(r, "20.000");
    assert_eq!(c, "-");

    // Example 3
    let now = 1_770_850_000u64;
    let waiting_at = Some(1_770_810_000u64);
    let running_at = Some(1_770_820_000u64);
    let terminated_at = Some(1_770_830_000u64);
    let (w, r, c) = compute_durations(waiting_at, running_at, terminated_at, now);
    assert_eq!(w, "10.000");
    assert_eq!(r, "10.000");
    assert_eq!(c, "20.000");
}

#[test]
fn test_format_duration_three_decimals() {
    assert_eq!(format_duration_ms(0), "0.000");
    assert_eq!(format_duration_ms(7), "0.007");
    assert_eq!(format_duration_ms(42), "0.042");
    assert_eq!(format_duration_ms(999), "0.999");
    assert_eq!(format_duration_ms(1000), "1.000");
    assert_eq!(format_duration_ms(10123), "10.123");
    assert_eq!(format_duration_ms(3_600_000), "3600.000");
}

#[test]
fn test_zero_timestamp_is_unset() {
    // zero encodes "unset", same as absence
    let (w, r, c) = compute_durations(Some(0), Some(0), Some(0), 5_000);
    assert_eq!(w, "-");
    assert_eq!(r, "-");
    assert_eq!(c, "-");
    let (w, r, c) = compute_durations(None, Some(1_000), None, 5_000);
    assert_eq!(w, "-");
    assert_eq!(r, "4.000");
    assert_eq!(c, "-");
    let (w, r, c) = compute_durations(None, None, Some(1_000), 5_000);
    assert_eq!(w, "-");
    assert_eq!(r, "-");
    assert_eq!(c, "4.000");
}

#[test]
fn test_duration_format_monotonic_in_elapsed() {
    // the denoted value never decreases as elapsed time grows
    let samples = [0u64, 1, 9, 10, 999, 1000, 1001, 59_999, 60_000, 3_600_000];
    let mut last: f64 = -1.0;
    for ms in samples {
        let s = format_duration_ms(ms);
        // exactly one dot, exactly three digits after it
        let (whole, frac) = s.split_once('.').expect("a dot");
        assert_eq!(frac.len(), 3);
        assert!(!whole.contains('.') && !frac.contains('.'));
        let value: f64 = s.parse().expect("a decimal number");
        assert!(value >= last);
        last = value;
    }
}

#[test]
fn test_only_the_governing_dash() {
    // an unset waiting_at dashes the waiting column and only that column
    let (w, r, c) = compute_durations(None, Some(2_000), Some(3_000), 5_000);
    assert_eq!(w, "-");
    assert_eq!(r, "1.000");
    assert_eq!(c, "2.000");
    // an unset running_at dashes only the running column; the waiting
    // column then runs until now
    let (w, r, c) = compute_durations(Some(1_000), None, Some(3_000), 5_000);
    assert_eq!(w, "4.000");
    assert_eq!(r, "-");
    assert_eq!(c, "2.000");
    // an unset terminated_at dashes only the terminal column
    let (w, r, c) = compute_durations(Some(1_000), Some(2_000), None, 5_000);
    assert_eq!(w, "1.000");
    assert_eq!(r, "3.000");
    assert_eq!(c, "-");
}

#[test]
fn test_inconsistent_timestamps_clamp_to_zero() {
    // a later stage reported before an earlier one: clamp, never underflow
    let (w, r, c) = compute_durations(Some(9_000), Some(2_000), Some(1_000), 500);
    assert_eq!(w, "0.000");
    assert_eq!(r, "0.000");
    assert_eq!(c, "0.000");
}

#[test]
fn test_mode_title() {
    assert_eq!(mode_title(FilterMode::Default), "Default (W/R)");
    assert_eq!(mode_title(FilterMode::Waiting), "Waiting");
    assert_eq!(mode_title(FilterMode::Running), "Running");
    assert_eq!(mode_title(FilterMode::Completed), "Completed");
    assert_eq!(mode_title(FilterMode::Aborted), "Aborted");
    assert_eq!(mode_title(FilterMode::All), "All");
}

#[test]
fn test_table_rows_projection() {
    let jobs = vec![
        job("123456789", "build", "Running", 1_000, 2_000, 0),
        job("x", "test", "Waiting", 0, 0, 0),
    ];
    let rows = table_rows(&jobs, 5_000);
    assert_eq!(rows.len(), 2);
    assert_eq!(rows[0].id, "123..789");
    assert_eq!(rows[0].name, "build");
    assert_eq!(rows[0].state, "Running");
    assert_eq!(rows[0].waiting, "1.000");
    assert_eq!(rows[0].running, "3.000");
    assert_eq!(rows[0].terminal, "-");
    assert_eq!(rows[1].id, "x");
    assert_eq!(rows[1].waiting, "-");
    assert_eq!(rows[1].running, "-");
    assert_eq!(rows[1].terminal, "-");
}

#[test]
fn test_property_lines_in_order() {
    let mut j = job("a", "n", "Running", 0, 0, 0);
    j.properties = vec![
        Property { name: String::from("host"), value: String::from("worker-1") },
        Property { name: String::from("retries"), value: String::from("3") },
    ];
    let lines = property_lines(&j);
    assert_eq!(lines, vec!["host: worker-1", "retries: 3"]);
}

#[test]
fn test_detail_field_lines() {
    let j = job("job-42", "deploy", "Completed", 1_000, 2_000, 3_000);
    let lines = detail_field_lines(&j, 10_000);
    assert_eq!(
        lines,
        vec![
            "ID: job-42",
            "Name: deploy",
            "State: Completed",
            "Waiting: 1.000 s",
            "Running: 1.000 s",
            "Completed/Aborted: 7.000 s",
        ]
    );
}

#[test]
fn test_centered_rect() {
    let outer = Rect { x: 0, y: 0, width: 100, height: 50 };
    let inner = centered_rect(60, 60, outer);
    assert_eq!(inner.width, 60);
    assert_eq!(inner.height, 30);
    assert_eq!(inner.x, 20);
    assert_eq!(inner.y, 10);

    let offset = Rect { x: 10, y: 5, width: 81, height: 21 };
    let inner = centered_rect(50, 100, offset);
    assert_eq!(inner.width, 40);
    assert_eq!(inner.height, 21);
    assert_eq!(inner.x, 10 + 20);
    assert_eq!(inner.y, 5);
}
