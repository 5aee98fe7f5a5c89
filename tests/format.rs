use tiered_data::format::{format_duration, format_uptime, truncate_text};
use tiered_data::text::{decimal_string, parse_i64, str_eq_ignore_ascii_case};

#[test]
fn truncate_long_text() {
    assert_eq!(truncate_text("hello world", 8), "hello...");
    assert_eq!(truncate_text("hello", 8), "hello");
    assert_eq!(truncate_text("12345678", 8), "12345678");
}

#[test]
fn uptime_is_spelled_out() {
    assert_eq!(format_uptime(0), "0 days, 0 hours, 0 minutes, 0 seconds");
    assert_eq!(format_uptime(90_061), "1 days, 1 hours, 1 minutes, 1 seconds");
    assert_eq!(format_duration(std::time::Duration::from_millis(3_661_500)), "0 days, 1 hours, 1 minutes, 1 seconds");
}

#[test]
fn decimal_rendering() {
    assert_eq!(decimal_string(0), "0");
    assert_eq!(decimal_string(18_446_744_073_709_551_615), "18446744073709551615");
}

#[test]
fn parse_like_std() {
    for s in ["0", "42", "-42", "+7", "9223372036854775807", "-9223372036854775808", "", "-", "+", "12a", " 1", "9223372036854775808", "-9223372036854775809"] {
        assert_eq!(parse_i64(s), s.parse::<i64>().ok(), "{}", s);
    }
}

#[test]
fn ascii_case_folding() {
    assert!(str_eq_ignore_ascii_case("Daft Punk", "dAFT pUNK"));
    assert!(!str_eq_ignore_ascii_case("Daft Punk", "Daft Punks"));
    assert!(!str_eq_ignore_ascii_case("É", "é"));
}
