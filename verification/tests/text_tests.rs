use recordscreen::text::{
    chars_of, decimal_string, hex_string, is_whitespace, starts_with, str_eq, strip_prefix, trim,
};

#[test]
fn chars_of_splits_into_characters() {
    assert_eq!(chars_of("a錄b"), vec!['a', '錄', 'b']);
    assert_eq!(chars_of(""), Vec::<char>::new());
}

#[test]
fn str_eq_compares_characters() {
    assert!(str_eq("zh-TW", "zh-TW"));
    assert!(!str_eq("zh-TW", "zh-tw"));
    assert!(!str_eq("zh", "zh-TW"));
    assert!(str_eq("", ""));
}

#[test]
fn strip_prefix_returns_rest() {
    assert_eq!(strip_prefix("Bearer abc", "Bearer "), Some("abc"));
    assert_eq!(strip_prefix("Bearer ", "Bearer "), Some(""));
    assert_eq!(strip_prefix("bearer abc", "Bearer "), None);
    assert_eq!(strip_prefix("Bear", "Bearer "), None);
    assert!(starts_with("notifications/initialized", "notifications/"));
    assert!(!starts_with("tools/call", "notifications/"));
}

#[test]
fn whitespace_follows_unicode() {
    for c in [' ', '\t', '\n', '\r', '\u{0b}', '\u{0c}', '\u{85}', '\u{a0}', '\u{2003}', '\u{3000}'] {
        assert!(is_whitespace(c), "{:?}", c);
        assert!(c.is_whitespace());
    }
    for c in ['a', '0', '\u{200b}', '錄', '_'] {
        assert!(!is_whitespace(c), "{:?}", c);
        assert!(!c.is_whitespace());
    }
}

#[test]
fn trim_matches_std() {
    for s in ["  zh-TW\n", "\u{3000}x y\u{a0}", "   ", "", "abc", "\t a \t"] {
        assert_eq!(trim(s), s.trim());
    }
    assert_eq!(trim(" zh-TW\r\n"), "zh-TW");
}

#[test]
fn numbers_are_formatted() {
    assert_eq!(decimal_string(0), "0");
    assert_eq!(decimal_string(7), "7");
    assert_eq!(decimal_string(10), "10");
    assert_eq!(decimal_string(1725029869123), "1725029869123");
    assert_eq!(decimal_string(u128::MAX), u128::MAX.to_string());
    assert_eq!(hex_string(0), "0");
    assert_eq!(hex_string(255), "ff");
    assert_eq!(hex_string(0x1234abcd), "1234abcd");
    assert_eq!(hex_string(u64::MAX as u128), format!("{:x}", u64::MAX));
}
