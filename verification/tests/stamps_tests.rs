use cliban_tui::stamps::{day_text, moment_text, seen_from_text, seen_text, short_moment_text};

// 2026-07-28T09:05:03.250001Z
const TS: i64 = 1_785_229_503_250_001;

#[test]
fn round_trips_through_the_state_text() {
    let text = seen_text(TS).expect("an in-range instant has a text");
    assert_eq!(text, "2026-07-28T09:05:03.250001+00:00");
    // RFC 3339 keeps sub-second precision, so this is exact.
    assert_eq!(seen_from_text(&text), Some(TS));
}

#[test]
fn missing_or_garbled_text_reads_as_never_seen() {
    assert_eq!(seen_from_text(""), None);
    assert_eq!(seen_from_text("not a time"), None);
    assert_eq!(seen_from_text("2026-07-28"), None);
}

#[test]
fn surrounding_whitespace_and_offsets_are_read() {
    assert_eq!(seen_from_text("  2026-07-28T09:05:03.250001Z\n"), Some(TS));
    assert_eq!(seen_from_text("2026-07-28T11:05:03.250001+02:00"), Some(TS));
}

#[test]
fn pages_write_days_and_minutes_in_utc() {
    assert_eq!(day_text(TS), "2026-07-28");
    assert_eq!(moment_text(TS), "2026-07-28 09:05");
    assert_eq!(short_moment_text(TS), "07-28 09:05");
    assert_eq!(day_text(0), "1970-01-01");
    // Beyond what chrono can represent there is no text.
    assert_eq!(day_text(i64::MAX), "");
    assert_eq!(seen_text(i64::MAX), None);
}
