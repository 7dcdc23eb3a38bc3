use glowmarkt_logger::timestamp::{timestamp_format, Timestamp};

#[test]
fn a_timestamp_in_the_meter_format_is_read() {
    assert_eq!(
        Timestamp::parse("2024-01-01T00:00:00Z"),
        Ok(Timestamp { year: 2024, month: 1, day: 1, hour: 0, minute: 0, second: 0, nanosecond: 0 })
    );
    assert_eq!(
        Timestamp::parse("2023-12-31T23:59:58Z"),
        Ok(Timestamp { year: 2023, month: 12, day: 31, hour: 23, minute: 59, second: 58, nanosecond: 0 })
    );
    assert_eq!(
        Timestamp::parse("2024-02-29T12:34:56Z"),
        Ok(Timestamp { year: 2024, month: 2, day: 29, hour: 12, minute: 34, second: 56, nanosecond: 0 })
    );
}

#[test]
fn a_timestamp_in_another_format_is_refused() {
    assert_eq!(Timestamp::parse(""), Err("premature end of input".to_string()));
    assert_eq!(Timestamp::parse("2024-01-01T00:00:00"), Err("premature end of input".to_string()));
    assert_eq!(Timestamp::parse("2024-01-01 00:00:00Z"), Err("input contains invalid characters".to_string()));
    assert_eq!(Timestamp::parse("2024-01-01T00:00:00+00:00"), Err("input contains invalid characters".to_string()));
    assert_eq!(Timestamp::parse("2024-01-01T00:00:00Zjunk"), Err("trailing input".to_string()));
    assert_eq!(Timestamp::parse("yesterday"), Err("input contains invalid characters".to_string()));
}

#[test]
fn a_timestamp_that_names_no_moment_is_refused() {
    assert_eq!(Timestamp::parse("2024-13-01T00:00:00Z"), Err("input is out of range".to_string()));
    assert_eq!(Timestamp::parse("2023-02-29T00:00:00Z"), Err("input is out of range".to_string()));
    assert_eq!(Timestamp::parse("2024-01-01T24:00:00Z"), Err("input is out of range".to_string()));
    assert_eq!(Timestamp::parse("2024-01-01T00:61:00Z"), Err("input is out of range".to_string()));
}

#[test]
fn the_format_is_the_fixed_pattern() {
    assert_eq!(timestamp_format(), "%Y-%m-%dT%H:%M:%SZ");
}
