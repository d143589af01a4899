use audio_recorder_manager::domain::{
    cancel_signal_name, i64_to_decimal, status_file_name, stop_signal_name,
};
use audio_recorder_manager::text::{
    concat2, parse_i64, parse_u64, str_contains, str_ends_with, str_lt, str_starts_with,
    trim_end_matches, u64_to_decimal,
};

#[test]
fn decimal_rendering_and_parsing() {
    assert_eq!(u64_to_decimal(0), "0");
    assert_eq!(u64_to_decimal(u64::MAX), "18446744073709551615");
    assert_eq!(i64_to_decimal(i64::MIN), "-9223372036854775808");
    for n in [0u64, 7, 10, 12345, u64::MAX] {
        assert_eq!(parse_u64(&u64_to_decimal(n)), Some(n));
    }
    assert_eq!(parse_u64("18446744073709551616"), None);
    assert_eq!(parse_u64("+5"), Some(5));
    assert_eq!(parse_u64(""), None);
    assert_eq!(parse_i64("-42"), Some(-42));
    assert_eq!(parse_i64("9223372036854775808"), None);
    assert_eq!(parse_i64("-9223372036854775808"), Some(i64::MIN));
}

#[test]
fn string_tests() {
    assert!(str_starts_with("out_time_ms=5", "out_time_ms="));
    assert!(str_ends_with("a_mic.wav", "_mic.wav"));
    assert!(str_contains("[workspace]", "works"));
    assert!(!str_contains("abc", "abd"));
    assert!(str_lt("rec-1", "rec-2"));
    assert!(str_lt("rec", "rec-1"));
    assert!(!str_lt("b", "a"));
    assert_eq!(concat2("ab", "cd"), "abcd");
    assert_eq!(trim_end_matches("x.wav.wav", ".wav"), "x");
}

#[test]
fn signal_and_status_names() {
    assert_eq!(stop_signal_name("rec-1"), "rec-1.stop");
    assert_eq!(cancel_signal_name("rec-1"), "rec-1.cancel");
    assert_eq!(status_file_name("rec-1"), "rec-1.json");
}
