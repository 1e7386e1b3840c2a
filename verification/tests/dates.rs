use dnd_sessions::dates::{
    get_long_date_short_time_timestamp, get_long_date_timestamp,
    get_long_date_week_day_timestamp, get_long_time_timestamp, get_relative_timestamp,
    get_short_date_timestamp, get_short_time_timestamp, get_unix_timestamp, is_date_format_valid,
    is_date_in_future, is_date_in_future_at,
};
use dnd_sessions::model::{OpError, Session};

#[test]
fn parses_known_timestamps() {
    assert_eq!(get_unix_timestamp("2030-01-01 18:00"), Ok(1893520800));
    assert_eq!(get_unix_timestamp("1970-01-01 00:00"), Ok(0));
    assert_eq!(get_unix_timestamp("1970-01-02 00:00"), Ok(86400));
    assert_eq!(get_unix_timestamp("1969-12-31 23:59"), Ok(-60));
    assert_eq!(get_unix_timestamp("2024-02-29 12:00"), Ok(1709208000));
    assert_eq!(get_unix_timestamp("2000-03-01 00:00"), Ok(951868800));
    assert_eq!(get_unix_timestamp("1900-01-01 00:00"), Ok(-2208988800));
    assert_eq!(get_unix_timestamp("9999-12-31 23:59"), Ok(253402300740));
    assert_eq!(get_unix_timestamp("2025-06-15 09:30"), Ok(1749979800));
}

#[test]
fn agrees_with_chrono() {
    let samples = [
        "2030-01-01 18:00",
        "1970-01-01 00:00",
        "1969-12-31 23:59",
        "2024-02-29 12:00",
        "2000-03-01 00:00",
        "1900-01-01 00:00",
        "2038-01-19 03:14",
        "2025-06-15 09:30",
    ];
    for s in samples {
        let expected = chrono::NaiveDateTime::parse_from_str(s, "%Y-%m-%d %H:%M")
            .unwrap()
            .and_utc()
            .timestamp();
        assert_eq!(get_unix_timestamp(s), Ok(expected), "mismatch for {}", s);
    }
}

#[test]
fn rejects_malformed_dates() {
    assert_eq!(get_unix_timestamp(""), Err(OpError::InvalidDate));
    assert_eq!(get_unix_timestamp("2030-01-01"), Err(OpError::InvalidDate));
    assert_eq!(get_unix_timestamp("2030/01/01 18:00"), Err(OpError::InvalidDate));
    assert_eq!(get_unix_timestamp("2030-01-01T18:00"), Err(OpError::InvalidDate));
    assert_eq!(get_unix_timestamp("2030-01-01 18:00:00"), Err(OpError::InvalidDate));
    assert_eq!(get_unix_timestamp("abcd-ef-gh ij:kl"), Err(OpError::InvalidDate));
    assert_eq!(get_unix_timestamp("2030-1-01 18:00"), Err(OpError::InvalidDate));
}

#[test]
fn rejects_impossible_dates() {
    assert_eq!(get_unix_timestamp("2030-00-10 10:00"), Err(OpError::InvalidDate));
    assert_eq!(get_unix_timestamp("2030-13-01 10:00"), Err(OpError::InvalidDate));
    assert_eq!(get_unix_timestamp("2030-04-31 10:00"), Err(OpError::InvalidDate));
    assert_eq!(get_unix_timestamp("2023-02-29 10:00"), Err(OpError::InvalidDate));
    assert_eq!(get_unix_timestamp("2100-02-29 10:00"), Err(OpError::InvalidDate));
    assert_eq!(get_unix_timestamp("2000-02-29 10:00"), Ok(951818400));
    assert_eq!(get_unix_timestamp("2030-01-00 10:00"), Err(OpError::InvalidDate));
    assert_eq!(get_unix_timestamp("2030-01-01 24:00"), Err(OpError::InvalidDate));
    assert_eq!(get_unix_timestamp("2030-01-01 10:60"), Err(OpError::InvalidDate));
}

#[test]
fn format_validity_follows_parse() {
    assert!(is_date_format_valid("2030-01-01 18:00"));
    assert!(is_date_format_valid("2024-02-29 23:59"));
    assert!(!is_date_format_valid("2023-02-29 23:59"));
    assert!(!is_date_format_valid("not a date"));
}

#[test]
fn future_check_is_strict() {
    let now = 1893520800; // 2030-01-01 18:00
    assert!(!is_date_in_future_at("2030-01-01 18:00", now));
    assert!(is_date_in_future_at("2030-01-01 18:01", now));
    assert!(!is_date_in_future_at("2030-01-01 17:59", now));
    assert!(!is_date_in_future_at("garbage", now));
}

#[test]
fn future_check_against_the_clock() {
    // The far future is ahead of any sane clock; the past is behind it.
    assert!(is_date_in_future("9999-12-31 23:59"));
    assert!(!is_date_in_future("2000-01-01 00:00"));
    assert!(!is_date_in_future("garbage"));
}

#[test]
fn renders_discord_markup() {
    assert_eq!(
        get_relative_timestamp("2030-01-01 18:00").unwrap(),
        "<t:1893520800:R>"
    );
    assert_eq!(
        get_short_time_timestamp("2030-01-01 18:00").unwrap(),
        "<t:1893520800:t>"
    );
    assert_eq!(
        get_long_time_timestamp("2030-01-01 18:00").unwrap(),
        "<t:1893520800:T>"
    );
    assert_eq!(
        get_short_date_timestamp("2030-01-01 18:00").unwrap(),
        "<t:1893520800:d>"
    );
    assert_eq!(
        get_long_date_timestamp("2030-01-01 18:00").unwrap(),
        "<t:1893520800:D>"
    );
    assert_eq!(
        get_long_date_short_time_timestamp("2030-01-01 18:00").unwrap(),
        "<t:1893520800:f>"
    );
    assert_eq!(
        get_long_date_week_day_timestamp("2030-01-01 18:00").unwrap(),
        "<t:1893520800:F>"
    );
    assert_eq!(
        get_relative_timestamp("1969-12-31 23:59").unwrap(),
        "<t:-60:R>"
    );
    assert_eq!(get_relative_timestamp("1970-01-01 00:00").unwrap(), "<t:0:R>");
    assert_eq!(
        get_relative_timestamp("bad date"),
        Err(OpError::InvalidDate)
    );
}

#[test]
fn translates_status_codes() {
    assert_eq!(Session::translate_status(0), "Pending");
    assert_eq!(Session::translate_status(1), "Confirmed");
    assert_eq!(Session::translate_status(2), "Cancelled");
    assert_eq!(Session::translate_status(3), "Unknown");
    assert_eq!(Session::translate_status(-1), "Unknown");
}
