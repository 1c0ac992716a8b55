use archiver_config::duration::{
    read_duration, readable, write_duration, MAX_DURATION_DIGITS, MAX_NUMBER_DIGITS,
};
use archiver_config::{default_delay_start, default_false, default_ignore_older_than};
use std::time::Duration;

#[test]
fn default_delay_start_is_one_second() {
    assert_eq!(default_delay_start(), Duration::from_secs(1));
    assert_eq!(default_delay_start().as_nanos(), 1_000_000_000);
}

#[test]
fn default_ignore_older_than_is_twenty_four_hours() {
    assert_eq!(default_ignore_older_than(), Duration::from_secs(60 * 60 * 24));
    assert_eq!(default_ignore_older_than().as_nanos(), 86_400_000_000_000);
}

#[test]
fn default_flag_is_false() {
    assert!(!default_false());
}

#[test]
fn human_texts_are_read() {
    assert_eq!(read_duration("1h"), Some(Duration::from_secs(3600)));
    assert_eq!(read_duration("30s"), Some(Duration::from_secs(30)));
    assert_eq!(read_duration("2h 37min"), Some(Duration::new(9420, 0)));
    assert_eq!(read_duration("32ms"), Some(Duration::new(0, 32_000_000)));
    assert_eq!(read_duration("4.2s"), Some(Duration::new(4, 200_000_000)));
    assert_eq!(read_duration("1day"), Some(Duration::from_secs(86_400)));
    assert_eq!(read_duration("0"), Some(Duration::from_secs(0)));
}

#[test]
fn other_texts_are_no_duration() {
    assert_eq!(read_duration(""), None);
    assert_eq!(read_duration("soon"), None);
    assert_eq!(read_duration("12"), None);
    assert_eq!(read_duration("1 fortnight"), None);
    assert_eq!(read_duration("-1s"), None);
}

#[test]
fn limits_of_a_readable_text() {
    assert_eq!(MAX_NUMBER_DIGITS, 9);
    assert_eq!(MAX_DURATION_DIGITS, 40);
}

#[test]
fn number_of_nine_digits_is_read() {
    assert!(readable("999999999s"));
    assert_eq!(read_duration("999999999s"), Some(Duration::from_secs(999_999_999)));
    assert_eq!(read_duration("999999999years").map(|d| d.as_secs()), Some(999_999_999 * 31_557_600));
}

#[test]
fn number_of_ten_digits_is_not_read() {
    assert!(!readable("1000000000ns"));
    assert_eq!(read_duration("1000000000ns"), None);
    assert_eq!(read_duration("0000000001s"), None);
}

#[test]
fn forty_digits_in_all_are_read_and_no_more() {
    let spans = "11111111s ".repeat(5);
    assert_eq!(spans.chars().filter(|c| c.is_ascii_digit()).count(), 40);
    assert!(readable(&spans));
    assert_eq!(read_duration(&spans), Some(Duration::from_secs(5 * 11_111_111)));
    let longer = spans.clone() + "1s";
    assert!(!readable(&longer));
    assert_eq!(read_duration(&longer), None);
}

#[test]
fn spans_that_fill_a_duration_to_the_brim_are_not_read() {
    assert_eq!(read_duration("18446744073709551615s 1000ms"), None);
    assert_eq!(read_duration("584542046090years 14329215s 1000ms"), None);
}

#[test]
fn spans_to_the_brim_written_with_blanks_are_not_read() {
    assert!(!readable("184467440 737095516 15s 1000ms"));
    assert_eq!(read_duration("184467440 737095516 15s 1000ms"), None);
    assert_eq!(read_duration("18446744073709551\t615s 1000ms"), None);
    assert_eq!(read_duration("1 2 3 4 5 6 7 8 9 0s"), None);
}

#[test]
fn number_runs_on_through_blanks() {
    assert_eq!(read_duration("1 000s"), Some(Duration::from_secs(1000)));
    assert_eq!(read_duration("12 34 56 78 9s"), Some(Duration::from_secs(123_456_789)));
    assert!(!readable("123456789 1s"));
}

#[test]
fn letters_and_periods_end_a_number() {
    assert!(readable("123456789s123456789s"));
    assert!(readable("123456789.123456789"));
    assert!(readable("123456789\u{b5}123456789"));
    assert!(!readable("x1234567890"));
    assert!(!readable("12345-67890"));
    assert!(readable(""));
    assert!(readable("no digits"));
    assert_eq!(read_duration("1.5s"), Some(Duration::new(1, 500_000_000)));
    assert_eq!(read_duration("17\u{b5}s"), Some(Duration::new(0, 17_000)));
}

#[test]
fn written_texts_are_those_of_the_formatter() {
    assert_eq!(write_duration(&Duration::from_secs(3600)), "1h");
    assert_eq!(write_duration(&Duration::new(9420, 0)), "2h 37m");
    assert_eq!(write_duration(&Duration::new(0, 32_000_000)), "32ms");
    assert_eq!(write_duration(&Duration::from_secs(0)), "0s");
    assert_eq!(write_duration(&Duration::from_secs(86_400)), "1day");
}

#[test]
fn written_texts_are_read_back() {
    let samples = [
        Duration::from_secs(0),
        Duration::from_secs(1),
        Duration::from_secs(59),
        Duration::from_secs(86_400),
        Duration::new(3_723, 4_005_006),
        Duration::new(31_557_600 * 100 + 2_630_016 * 11 + 86_400 * 29 + 86_399, 999_999_999),
        Duration::new(31_557_600 * 999_999_999 + 31_557_599, 999_999_999),
    ];
    for d in samples {
        let text = write_duration(&d);
        assert!(readable(&text), "{}", text);
        assert_eq!(read_duration(&text), Some(d), "{}", text);
    }
}

#[test]
fn text_of_a_thousand_million_years_is_not_read_back() {
    let d = Duration::from_secs(31_557_600 * 1_000_000_000);
    let text = write_duration(&d);
    assert_eq!(text, "1000000000years");
    assert_eq!(read_duration(&text), None);
}
