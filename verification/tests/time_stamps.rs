use spanlog::num::dec_string;
use spanlog::event::Event;
use spanlog::severity::Severity;
use spanlog::span::SpanStack;
use spanlog::time::{display_stamp, file_stamp, Timestamp};

fn ts() -> Timestamp {
    Timestamp {
        year: 2024,
        month: 3,
        day: 7,
        hour: 8,
        minute: 5,
        second: 9,
        milli: 12,
        offset_seconds: 3600,
    }
}

#[test]
fn decimal_rendering() {
    assert_eq!(dec_string(0), "0");
    assert_eq!(dec_string(7), "7");
    assert_eq!(dec_string(10), "10");
    assert_eq!(dec_string(12345), "12345");
    assert_eq!(dec_string(u64::MAX), "18446744073709551615");
}

#[test]
fn display_stamp_layout() {
    assert_eq!(display_stamp(&ts()), "2024-03-07 08:05:09.012+01:00");
}

#[test]
fn file_stamp_layout() {
    assert_eq!(file_stamp(&ts()), "20240307-080509012");
}

#[test]
fn western_offset_has_minus_sign() {
    let mut t = ts();
    t.offset_seconds = -19800;
    assert_eq!(display_stamp(&t), "2024-03-07 08:05:09.012-05:30");
}

#[test]
fn leap_second_millis_render_in_full() {
    let mut t = ts();
    t.milli = 1500;
    assert_eq!(display_stamp(&t), "2024-03-07 08:05:09.1500+01:00");
    assert_eq!(file_stamp(&t), "20240307-0805091500");
}

#[test]
fn early_years_are_zero_padded() {
    let mut t = ts();
    t.year = 987;
    assert_eq!(file_stamp(&t), "09870307-080509012");
    t.year = -44;
    assert_eq!(display_stamp(&t), "-0044-03-07 08:05:09.012+01:00");
}

#[test]
fn clock_fields_stay_in_range() {
    let event = Event::capture(
        Severity::Info,
        "clock".to_string(),
        1,
        "tick".to_string(),
        Vec::new(),
        &SpanStack::new(),
    );
    let now = event.timestamp();
    assert!(1 <= now.month && now.month <= 12);
    assert!(1 <= now.day && now.day <= 31);
    assert!(now.hour <= 23);
    assert!(now.minute <= 59);
    assert!(now.second <= 59);
    assert!(now.milli <= 1999);
    assert!(-86400 < now.offset_seconds && now.offset_seconds < 86400);
}
