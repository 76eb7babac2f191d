use audio_purifai::text::{decimal_text, optional_code_text, parse_u32, same_text, trim};

#[test]
fn trim_removes_surrounding_whitespace() {
    assert_eq!(trim("  hello world \n"), "hello world");
    assert_eq!(trim("\t\r\n"), "");
    assert_eq!(trim(""), "");
    assert_eq!(trim("\u{3000}x\u{a0}"), "x");
    assert_eq!(trim("a b"), "a b");
}

#[test]
fn trim_agrees_with_std() {
    let cases = ["", " ", "abc", "  abc", "abc  ", "\u{2028}a\u{2009}b\u{85}", "\u{200b}x", "é ü "];
    for c in cases {
        assert_eq!(trim(c), c.trim());
    }
}

#[test]
fn parse_u32_accepts_plain_numbers() {
    assert_eq!(parse_u32("44100"), Some(44100));
    assert_eq!(parse_u32("+7"), Some(7));
    assert_eq!(parse_u32("0"), Some(0));
    assert_eq!(parse_u32("007"), Some(7));
    assert_eq!(parse_u32("4294967295"), Some(u32::MAX));
}

#[test]
fn parse_u32_rejects_others() {
    assert_eq!(parse_u32(""), None);
    assert_eq!(parse_u32("+"), None);
    assert_eq!(parse_u32("-1"), None);
    assert_eq!(parse_u32("4294967296"), None);
    assert_eq!(parse_u32("99999999999x"), None);
    assert_eq!(parse_u32("12a"), None);
    assert_eq!(parse_u32(" 1"), None);
    assert_eq!(parse_u32("1.5"), None);
}

#[test]
fn parse_u32_agrees_with_std() {
    let cases = ["", "1", "+1", "-0", "++1", "48000", "4294967295", "4294967296", "12345678901", "0x10", "٣"];
    for c in cases {
        assert_eq!(parse_u32(c), c.parse::<u32>().ok(), "case {:?}", c);
    }
}

#[test]
fn decimal_text_writes_integers() {
    assert_eq!(decimal_text(0), "0");
    assert_eq!(decimal_text(7), "7");
    assert_eq!(decimal_text(-5), "-5");
    assert_eq!(decimal_text(1234567), "1234567");
    assert_eq!(decimal_text(i32::MIN), i32::MIN.to_string());
    assert_eq!(decimal_text(i32::MAX), i32::MAX.to_string());
}

#[test]
fn optional_code_text_matches_debug() {
    for code in [Some(1), Some(-3), Some(0), None] {
        assert_eq!(optional_code_text(code), format!("{:?}", code));
    }
}

#[test]
fn same_text_compares_characters() {
    assert!(same_text("error", "error"));
    assert!(!same_text("error", "errors"));
    assert!(!same_text("done", "Done"));
    assert!(same_text("", ""));
}
