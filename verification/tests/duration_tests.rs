use hostfetch::duration::format_duration;

#[test]
fn zero_duration_is_empty() {
    assert_eq!(format_duration(0), "");
}

#[test]
fn one_of_each_unit() {
    // 1 day, 1 hour, 1 minute, 1 second
    assert_eq!(format_duration(90061), "1 days 1 hours 1 minutes 1 seconds");
}

#[test]
fn seconds_only() {
    assert_eq!(format_duration(59), "59 seconds");
}

#[test]
fn minutes_keep_trailing_space_when_last() {
    assert_eq!(format_duration(60), "1 minutes ");
}

#[test]
fn whole_day_keeps_trailing_space_when_last() {
    assert_eq!(format_duration(86400), "1 days ");
}

#[test]
fn all_units_near_rollover() {
    // 2 days, 23 hours, 59 minutes, 59 seconds
    assert_eq!(
        format_duration(2 * 86400 + 23 * 3600 + 59 * 60 + 59),
        "2 days 23 hours 59 minutes 59 seconds"
    );
}

#[test]
fn hours_minutes_seconds() {
    assert_eq!(format_duration(3661), "1 hours 1 minutes 1 seconds");
}
