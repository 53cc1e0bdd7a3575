use memory_practice::time_format::{describe_time_difference, format_time_difference};

// The current instant, in seconds since the Unix epoch
fn get_now() -> i64 {
    chrono::Utc::now().timestamp()
}

fn seconds(count: i64) -> i64 {
    count
}

fn minutes(count: i64) -> i64 {
    count * 60
}

fn hours(count: i64) -> i64 {
    count * 3600
}

fn days(count: i64) -> i64 {
    count * 86400
}

// Helper to check if string contains a number within a range
fn contains_number_in_range(s: &str, min: i64, max: i64) -> bool {
    for i in min..=max {
        if s.contains(&i.to_string()) {
            return true;
        }
    }
    false
}

// Boundary tests for seconds
#[test]
fn test_format_past_date() {
    let now = get_now();
    let past = now - seconds(10);
    assert_eq!(format_time_difference(now, past), "now");
}

#[test]
fn test_format_now() {
    let now = get_now();
    assert_eq!(format_time_difference(now, now), "now");
}

#[test]
fn test_format_30_seconds() {
    let now = get_now();
    let future = now + seconds(30);
    let result = format_time_difference(now, future);
    assert!(
        result.starts_with("in ") && result.contains("seconds"),
        "Expected seconds format, got: {}",
        result
    );
}

// Boundary tests for minutes
#[test]
fn test_format_1_minute() {
    let now = get_now();
    let future = now + minutes(1) + seconds(1);
    let result = format_time_difference(now, future);
    assert!(
        result.contains("minute"),
        "Expected minute format, got: {}",
        result
    );
}

#[test]
fn test_format_2_minutes() {
    let now = get_now();
    let future = now + minutes(2) + seconds(1);
    let result = format_time_difference(now, future);
    assert!(
        result.contains("minutes"),
        "Expected minutes format, got: {}",
        result
    );
}

#[test]
fn test_format_30_minutes() {
    let now = get_now();
    let future = now + minutes(30);
    let result = format_time_difference(now, future);
    assert!(
        result.contains("minute"),
        "Expected minute format, got: {}",
        result
    );
    assert!(
        contains_number_in_range(&result, 29, 31),
        "Expected ~30 minutes, got: {}",
        result
    );
}

#[test]
fn test_format_59_minutes() {
    let now = get_now();
    let future = now + minutes(59);
    let result = format_time_difference(now, future);
    assert!(
        result.contains("minute"),
        "Expected minute format, got: {}",
        result
    );
}

// Boundary tests for hours
#[test]
fn test_format_1_hour() {
    let now = get_now();
    let future = now + hours(1) + seconds(1);
    let result = format_time_difference(now, future);
    assert!(
        result.contains("hour"),
        "Expected hour format, got: {}",
        result
    );
}

#[test]
fn test_format_2_hours() {
    let now = get_now();
    let future = now + hours(2) + seconds(1);
    let result = format_time_difference(now, future);
    assert!(
        result.contains("hour"),
        "Expected hour format, got: {}",
        result
    );
}

#[test]
fn test_format_12_hours() {
    let now = get_now();
    let future = now + hours(12);
    let result = format_time_difference(now, future);
    assert!(
        result.contains("hour"),
        "Expected hour format, got: {}",
        result
    );
}

#[test]
fn test_format_23_hours() {
    let now = get_now();
    let future = now + hours(23);
    let result = format_time_difference(now, future);
    assert!(
        result.contains("hour"),
        "Expected hour format, got: {}",
        result
    );
}

// Boundary tests for days - special case for "tomorrow"
#[test]
fn test_format_1_day_exactly() {
    let now = get_now();
    let future = now + days(1) + seconds(1);
    let result = format_time_difference(now, future);
    assert!(
        result == "tomorrow" || result.contains("day"),
        "Expected 'tomorrow' or day format, got: {}",
        result
    );
}

// Boundary tests for multiple days
#[test]
fn test_format_2_days() {
    let now = get_now();
    let future = now + days(2) + seconds(1);
    let result = format_time_difference(now, future);
    assert!(
        result.contains("day"),
        "Expected day format, got: {}",
        result
    );
}

#[test]
fn test_format_7_days() {
    let now = get_now();
    let future = now + days(7);
    let result = format_time_difference(now, future);
    assert!(
        result.contains("day"),
        "Expected day format, got: {}",
        result
    );
}

#[test]
fn test_format_29_days() {
    let now = get_now();
    let future = now + days(29);
    let result = format_time_difference(now, future);
    assert!(
        result.contains("day"),
        "Expected day format, got: {}",
        result
    );
}

// Boundary tests for date format (30+ days)
#[test]
fn test_format_30_days() {
    let now = get_now();
    let future = now + days(30) + seconds(1);
    let result = format_time_difference(now, future);
    assert!(
        result.starts_with("on "),
        "Expected 'on YYYY-MM-DD', got: {}",
        result
    );
    assert!(result.contains("-"), "Expected date format with dashes");
}

#[test]
fn test_format_365_days() {
    let now = get_now();
    let future = now + days(365);
    let result = format_time_difference(now, future);
    assert!(
        result.starts_with("on "),
        "Expected 'on YYYY-MM-DD', got: {}",
        result
    );
}

// Edge case tests
#[test]
fn test_format_singular_vs_plural_minutes() {
    let now = get_now();
    let one_min = now + minutes(1) + seconds(1);
    let result_one = format_time_difference(now, one_min);
    assert!(
        result_one.contains("minute"),
        "Expected 'minute' singular, got: {}",
        result_one
    );

    let two_mins = now + minutes(2) + seconds(1);
    let result_two = format_time_difference(now, two_mins);
    assert!(
        result_two.contains("minutes"),
        "Expected 'minutes' plural, got: {}",
        result_two
    );
}

#[test]
fn test_format_singular_vs_plural_hours() {
    let now = get_now();
    let one_hour = now + hours(1) + seconds(1);
    let result_one = format_time_difference(now, one_hour);
    assert!(
        result_one.contains("hour"),
        "Expected 'hour' singular, got: {}",
        result_one
    );

    let two_hours = now + hours(2) + seconds(1);
    let result_two = format_time_difference(now, two_hours);
    assert!(
        result_two.contains("hours"),
        "Expected 'hours' plural, got: {}",
        result_two
    );
}

#[test]
fn test_format_singular_vs_plural_days() {
    let now = get_now();
    let one_day = now + days(1) + seconds(1);
    let result = format_time_difference(now, one_day);
    // 1 day should be "tomorrow"
    assert!(
        result == "tomorrow" || result.contains("day"),
        "Expected 'tomorrow' or day format, got: {}",
        result
    );

    let two_days = now + days(2) + seconds(1);
    let result_two = format_time_difference(now, two_days);
    assert!(
        result_two.contains("days"),
        "Expected 'days' plural, got: {}",
        result_two
    );
}

#[test]
fn test_format_boundary_59s_to_1m() {
    let now = get_now();
    let fifty_nine_sec = now + seconds(59);
    let result_59s = format_time_difference(now, fifty_nine_sec);
    assert!(
        result_59s.contains("seconds"),
        "Expected seconds, got: {}",
        result_59s
    );

    let sixty_sec = now + seconds(60);
    let result_60s = format_time_difference(now, sixty_sec);
    assert!(
        result_60s.contains("minute"),
        "Expected minutes, got: {}",
        result_60s
    );
}

#[test]
fn test_format_boundary_59m_to_1h() {
    let now = get_now();
    let fifty_nine_min = now + minutes(59);
    let result_59m = format_time_difference(now, fifty_nine_min);
    assert!(
        result_59m.contains("minute"),
        "Expected minutes, got: {}",
        result_59m
    );

    let sixty_min = now + minutes(60) + seconds(1);
    let result_60m = format_time_difference(now, sixty_min);
    assert!(
        result_60m.contains("hour"),
        "Expected hours, got: {}",
        result_60m
    );
}

#[test]
fn test_format_boundary_23h_to_1d() {
    let now = get_now();
    let twenty_three_hours = now + hours(23);
    let result_23h = format_time_difference(now, twenty_three_hours);
    assert!(
        result_23h.contains("hour"),
        "Expected hours, got: {}",
        result_23h
    );

    let twenty_four_hours = now + hours(24) + seconds(1);
    let result_24h = format_time_difference(now, twenty_four_hours);
    assert!(
        result_24h == "tomorrow" || result_24h.contains("day"),
        "Expected 'tomorrow' or day format, got: {}",
        result_24h
    );
}

#[test]
fn test_format_boundary_29d_to_30d() {
    let now = get_now();
    let twenty_nine_days = now + days(29);
    let result_29d = format_time_difference(now, twenty_nine_days);
    assert!(
        result_29d.contains("day"),
        "Expected day format for 29 days, got: {}",
        result_29d
    );

    let thirty_days = now + days(30) + seconds(1);
    let result_30d = format_time_difference(now, thirty_days);
    assert!(
        result_30d.starts_with("on "),
        "Expected 'on YYYY-MM-DD' for 30+ days, got: {}",
        result_30d
    );
}

// Realistic spaced repetition scenarios
#[test]
fn test_format_first_review_1_day() {
    let now = get_now();
    let future = now + days(1) + seconds(1);
    let result = format_time_difference(now, future);
    assert!(
        result == "tomorrow" || result.contains("day"),
        "First review in 1 day should be 'tomorrow' or contain 'day', got: {}",
        result
    );
}

#[test]
fn test_format_second_review_3_days() {
    let now = get_now();
    let future = now + days(3) + seconds(1);
    let result = format_time_difference(now, future);
    assert!(
        result.contains("day"),
        "Expected day format, got: {}",
        result
    );
    assert!(
        result.contains("3"),
        "Expected to contain '3', got: {}",
        result
    );
}

#[test]
fn test_format_third_review_7_days() {
    let now = get_now();
    let future = now + days(7) + seconds(1);
    let result = format_time_difference(now, future);
    assert!(
        result.contains("day"),
        "Expected day format, got: {}",
        result
    );
    assert!(
        result.contains("7"),
        "Expected to contain '7', got: {}",
        result
    );
}

#[test]
fn test_format_later_review_30_days() {
    let now = get_now();
    let future = now + days(30) + seconds(1);
    let result = format_time_difference(now, future);
    assert!(
        result.starts_with("on "),
        "Later review should use date format, got: {}",
        result
    );
}

#[test]
fn test_format_incorrect_retry_10_minutes() {
    let now = get_now();
    let future = now + minutes(10);
    let result = format_time_difference(now, future);
    assert!(
        result.contains("minute"),
        "Expected minute format, got: {}",
        result
    );
    assert!(
        contains_number_in_range(&result, 9, 11),
        "Expected ~10 minutes, got: {}",
        result
    );
}

// ===== Exact wording =====

fn noon() -> i64 {
    chrono::NaiveDate::from_ymd_opt(2025, 11, 10)
        .unwrap()
        .and_hms_opt(12, 0, 0)
        .unwrap()
        .and_utc()
        .timestamp()
}

#[test]
fn test_format_exact_texts() {
    let now = noon();
    assert_eq!(format_time_difference(now, now - 1), "now");
    assert_eq!(format_time_difference(now, now), "now");
    assert_eq!(format_time_difference(now, now + 1), "in 1 seconds");
    assert_eq!(format_time_difference(now, now + 30), "in 30 seconds");
    assert_eq!(format_time_difference(now, now + 59), "in 59 seconds");
    assert_eq!(format_time_difference(now, now + 60), "in 1 minute");
    assert_eq!(format_time_difference(now, now + 119), "in 1 minute");
    assert_eq!(format_time_difference(now, now + 120), "in 2 minutes");
    assert_eq!(format_time_difference(now, now + 3599), "in 59 minutes");
    assert_eq!(format_time_difference(now, now + 3600), "in 1 hour");
    assert_eq!(format_time_difference(now, now + 7200), "in 2 hours");
    assert_eq!(format_time_difference(now, now + 86399), "in 23 hours");
    assert_eq!(format_time_difference(now, now + 86400), "tomorrow");
    assert_eq!(format_time_difference(now, now + 2 * 86400 - 1), "tomorrow");
    assert_eq!(format_time_difference(now, now + 2 * 86400), "in 2 days");
    assert_eq!(format_time_difference(now, now + 30 * 86400 - 1), "in 29 days");
}

#[test]
fn test_format_date_from_thirty_days_on() {
    let now = noon();
    assert_eq!(format_time_difference(now, now + 30 * 86400), "on 2025-12-10");
    assert_eq!(format_time_difference(now, now + 52 * 86400), "on 2026-01-01");
    assert_eq!(format_time_difference(0, 30 * 86400), "on 1970-01-31");
}

#[test]
fn test_format_date_is_the_date_of_the_later_instant() {
    // the date itself would read 1970-01-01 if the earlier instant were written
    assert_eq!(format_time_difference(0, noon()), "on 2025-11-10");
    assert_eq!(format_time_difference(-86400 * 365, 0), "on 1970-01-01");
}

#[test]
fn test_format_beyond_the_calendar_counts_days() {
    assert_eq!(
        format_time_difference(0, i64::MAX),
        format!("in {} days", i64::MAX / 86400)
    );
    assert_eq!(format_time_difference(i64::MAX, i64::MIN), "now");
}

#[test]
fn test_describe_with_and_without_a_date() {
    assert_eq!(
        describe_time_difference(40 * 86400, Some("2031-02-03".to_string())),
        "on 2031-02-03"
    );
    assert_eq!(describe_time_difference(40 * 86400, None), "in 40 days");
    assert_eq!(describe_time_difference(5 * 86400, Some("2031-02-03".to_string())), "in 5 days");
    assert_eq!(describe_time_difference(-5, Some("2031-02-03".to_string())), "now");
    assert_eq!(describe_time_difference(90, None), "in 1 minute");
}
