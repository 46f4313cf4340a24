use discord_task_bot::due::{created_at_text, due_to_timestamp, event_span, first_reading_of, parse_due_date};

#[test]
fn due_dates_read_in_three_forms() {
    assert_eq!(parse_due_date("2025-12-31 15:00"), Some(1767193200));
    assert_eq!(parse_due_date("2025-12-31 15:00:30"), Some(1767193230));
    assert_eq!(parse_due_date("2025-12-31"), Some(1767139200));
    assert_eq!(parse_due_date("1970-01-01 00:00"), Some(0));
    assert_eq!(parse_due_date("tomorrow"), None);
    assert_eq!(parse_due_date("2025-02-30"), None);
    assert_eq!(parse_due_date("2025-12-31 25:00"), None);
    assert_eq!(due_to_timestamp("2025-12-31"), Some(1767139200));
}

#[test]
fn the_first_reading_wins() {
    assert_eq!(first_reading_of(Some(1), Some(2), Some(3)), Some(1));
    assert_eq!(first_reading_of(None, Some(2), Some(3)), Some(2));
    assert_eq!(first_reading_of(None, None, Some(3)), Some(3));
    assert_eq!(first_reading_of(None, None, None), None);
}

#[test]
fn events_last_an_hour() {
    assert_eq!(event_span("2025-12-31 15:00"), Some((1767193200, 1767196800)));
    assert_eq!(event_span("not a date"), None);
}

#[test]
fn creation_times_are_utc_stamps() {
    assert_eq!(created_at_text(0).as_deref(), Some("1970-01-01 00:00:00 UTC"));
    assert_eq!(created_at_text(1767193230).as_deref(), Some("2025-12-31 15:00:30 UTC"));
    assert_eq!(created_at_text(i64::MAX), None);
}

