use server::text::{
    i64_to_decimal, is_blank_str, is_digit_id_str, lowercase_equals, parse_i64_str,
    parse_u32_str, str_equals, trim_string, u64_to_decimal,
};

#[test]
fn trims_unicode_white_space_at_both_ends() {
    assert_eq!(trim_string("  a b \n"), "a b");
    assert_eq!(trim_string("\u{3000}x\u{2029}"), "x");
    assert_eq!(trim_string("\u{200b}x"), "\u{200b}x");
    assert_eq!(trim_string(" \t "), "");
    assert!(is_blank_str("\u{a0}\u{85}"));
    assert!(!is_blank_str(" . "));
}

#[test]
fn parses_integers_as_std_does() {
    for s in ["0", "42", "+42", "4294967295", "", "+", "-1", "4294967296", " 1", "1_0"] {
        assert_eq!(parse_u32_str(s), s.parse::<u32>().ok(), "{s}");
    }
    for s in [
        "0", "-0", "+7", "-9223372036854775808", "9223372036854775807", "9223372036854775808",
        "-9223372036854775809", "-", "12a", "",
    ] {
        assert_eq!(parse_i64_str(s), s.parse::<i64>().ok(), "{s}");
    }
}

#[test]
fn renders_integers_as_std_does() {
    for v in [0u64, 7, 10, 99, 100, 1234567890, u64::MAX] {
        assert_eq!(u64_to_decimal(v), v.to_string());
    }
    for v in [0i64, -1, -10, 5, i64::MIN, i64::MAX] {
        assert_eq!(i64_to_decimal(v), v.to_string());
    }
}

#[test]
fn compares_words_and_digit_ids() {
    assert!(lowercase_equals("TrUe", "true"));
    assert!(!lowercase_equals("tru", "true"));
    assert!(lowercase_equals("YES", "yes"));
    assert!(str_equals("abc", "abc"));
    assert!(!str_equals("abc", "abd"));
    assert!(is_digit_id_str("0123"));
    assert!(!is_digit_id_str(""));
    assert!(!is_digit_id_str("12 "));
}
