use gangrennes::numbers::{format_int, parse_i32, parse_i64, parse_u16, parse_u32, parse_u64, parse_u8, to_hex_lower};
use gangrennes::text::{
    contains, eq_ignore_ascii_case, starts_with, str_eq, str_le, str_lt, to_ascii_lowercase, trim,
    truncate_chars,
};

#[test]
fn trim_removes_unicode_whitespace_at_both_ends() {
    assert_eq!(trim("  hello world \t\n"), "hello world");
    assert_eq!(trim("\u{3000}\u{a0}x\u{2009}"), "x");
    assert_eq!(trim("   "), "");
    assert_eq!(trim(""), "");
    assert_eq!(trim("a b"), "a b");
}

#[test]
fn trim_is_idempotent_on_examples() {
    for s in ["  a  ", "\tb", "c\n", "  ", "d e  "] {
        let once = trim(s);
        assert_eq!(trim(&once), once);
    }
}

#[test]
fn truncate_chars_counts_characters_not_bytes() {
    assert_eq!(truncate_chars("hello", 10), "hello");
    assert_eq!(truncate_chars("hello", 3), "hel");
    assert_eq!(truncate_chars("éèêë", 2), "éè");
    assert_eq!(truncate_chars("abc", 0), "");
    let cut = truncate_chars("abcdefghijklmnopqrstuvwxyz", 20);
    assert_eq!(cut.chars().count(), 20);
    assert_eq!(truncate_chars(&cut, 20), cut);
}

#[test]
fn parse_follows_str_parse() {
    assert_eq!(parse_i32("2024"), Some(2024));
    assert_eq!(parse_i32("+7"), Some(7));
    assert_eq!(parse_i32("-12"), Some(-12));
    assert_eq!(parse_i32("-2147483648"), Some(i32::MIN));
    assert_eq!(parse_i32("2147483648"), None);
    assert_eq!(parse_i32(""), None);
    assert_eq!(parse_i32("+"), None);
    assert_eq!(parse_i32("1 2"), None);
    assert_eq!(parse_u8("255"), Some(255));
    assert_eq!(parse_u8("256"), None);
    assert_eq!(parse_u8("-1"), None);
    assert_eq!(parse_u8("007"), Some(7));
    assert_eq!(parse_u16("65535"), Some(65535));
    assert_eq!(parse_u16("65536"), None);
    assert_eq!(parse_u32("4294967295"), Some(u32::MAX));
    assert_eq!(parse_u64("18446744073709551615"), Some(u64::MAX));
    assert_eq!(parse_u64("18446744073709551616"), None);
    assert_eq!(parse_i64("-9223372036854775808"), Some(i64::MIN));
    assert_eq!(parse_i64("9223372036854775808"), None);
    for s in ["0", "42", "-42", "+0", "x", "--1", "99999999999999999999"] {
        assert_eq!(parse_i64(s), s.parse::<i64>().ok());
        assert_eq!(parse_u16(s), s.parse::<u16>().ok());
    }
}

#[test]
fn format_int_pads_like_format() {
    assert_eq!(format_int(7, 2), "07");
    assert_eq!(format_int(2024, 4), "2024");
    assert_eq!(format_int(5, 4), "0005");
    assert_eq!(format_int(-5, 4), "-005");
    assert_eq!(format_int(123456, 2), "123456");
    assert_eq!(format_int(0, 0), "0");
    assert_eq!(format_int(i64::MIN, 0), i64::MIN.to_string());
    for v in [-1234i64, -1, 0, 9, 10, 99, 100, 65535] {
        assert_eq!(format_int(v, 4), format!("{:04}", v));
    }
}

#[test]
fn format_then_parse_gives_the_number_back() {
    for v in [0i64, 3, 12, 2026, 65535] {
        assert_eq!(parse_i64(&format_int(v, 4)), Some(v));
    }
}

#[test]
fn hex_is_two_lowercase_digits_per_byte() {
    assert_eq!(to_hex_lower(&[0x00, 0x0f, 0xa5, 0xff]), "000fa5ff");
    assert_eq!(to_hex_lower(&[]), "");
}

#[test]
fn prefixes_substrings_and_case() {
    assert!(starts_with("javascript:alert(1)", "javascript:"));
    assert!(!starts_with("java", "javascript:"));
    assert!(contains("UNIQUE constraint failed: users.username", "UNIQUE constraint failed"));
    assert!(!contains("CHECK constraint failed", "UNIQUE"));
    assert!(contains("abc", ""));
    assert_eq!(to_ascii_lowercase("XmlHttpRequest É"), "xmlhttprequest É");
    assert!(eq_ignore_ascii_case("XMLHttpRequest", "xmlhttprequest"));
    assert!(!eq_ignore_ascii_case("XMLHttpRequests", "xmlhttprequest"));
    assert!(str_eq("same", "same"));
    assert!(!str_eq("same", "Same"));
}

#[test]
fn string_order_is_the_order_of_str() {
    let cases = [("2024-01-01", "2024-01-02"), ("", "a"), ("a", ""), ("ab", "a"), ("é", "z"), ("same", "same")];
    for (a, b) in cases {
        assert_eq!(str_lt(a, b), a < b);
        assert_eq!(str_le(a, b), a <= b);
    }
}
