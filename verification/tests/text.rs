use cmux::text::{decimal_string, parse_u32, prefixed_decimal, str_eq, trim};

#[test]
fn decimal_rendering() {
    assert_eq!(decimal_string(0), "0");
    assert_eq!(decimal_string(7), "7");
    assert_eq!(decimal_string(10), "10");
    assert_eq!(decimal_string(1234567890), "1234567890");
    assert_eq!(decimal_string(u64::MAX), u64::MAX.to_string());
    assert_eq!(prefixed_decimal("Tab ", 3), "Tab 3");
}

#[test]
fn parse_like_std() {
    for s in ["0", "1", "+1", "42", "4294967295", "4294967296", "", "+", "-", "-1", "1a", " 1", "00012", "++1", "٣"] {
        assert_eq!(parse_u32(s), s.parse::<u32>().ok(), "input {s:?}");
    }
}

#[test]
fn trim_like_std() {
    for s in ["", " ", "  a b  ", "\t\nx\u{3000}", "\u{a0}name\u{2029}", "x", "\u{200b}y"] {
        assert_eq!(trim(s), s.trim(), "input {s:?}");
    }
}

#[test]
fn string_equality() {
    assert!(str_eq("abc", "abc"));
    assert!(!str_eq("abc", "abd"));
    assert!(!str_eq("abc", "ab"));
}
