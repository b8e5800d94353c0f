use frontend::clock::{format_date, format_reminder_time, local_datetime_text, reminder_datetime_attr};

#[test]
fn credential_dates_are_utc_days() {
    assert_eq!(format_date(0), "1970-01-01");
    assert_eq!(format_date(1_700_000_000), "2023-11-14");
}

#[test]
fn reminder_times_use_the_zone_when_known() {
    assert_eq!(format_reminder_time(0, None), "Thu, Jan 1 · 00:00 UTC");
    assert_eq!(format_reminder_time(0, Some("Europe/Helsinki")), "Thu, Jan 1 · 02:00");
    assert_eq!(format_reminder_time(0, Some("Mars/Olympus")), "Thu, Jan 1 · 00:00 UTC");
}

#[test]
fn reminder_datetime_is_rfc3339() {
    assert_eq!(reminder_datetime_attr(0), "1970-01-01T00:00:00+00:00");
}

#[test]
fn datetime_local_values_are_padded() {
    assert_eq!(local_datetime_text(2024, 0, 5, 7, 3), "2024-01-05T07:03");
    assert_eq!(local_datetime_text(999, 11, 31, 23, 59), "0999-12-31T23:59");
}
