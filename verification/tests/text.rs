use icloud_auth::text::{
    before_whitespace, concat2, concat3, i64_to_string, parse_u64, split, str_eq,
    strip_whitespace, trim, u64_to_string,
};

#[test]
fn split_keeps_empty_pieces() {
    assert_eq!(split("a:b:c", ':'), vec!["a", "b", "c"]);
    assert_eq!(split("", ':'), vec![""]);
    assert_eq!(split(":", ':'), vec!["", ""]);
    assert_eq!(split("a::b", ':'), vec!["a", "", "b"]);
    assert_eq!(split("abc", ':'), vec!["abc"]);
    assert_eq!(split("a:", ':'), vec!["a", ""]);
    assert_eq!(split("é:ü", ':'), vec!["é", "ü"]);
}

#[test]
fn parse_u64_accepts_what_the_standard_parser_accepts() {
    for text in ["0", "7", "300", "+5", "007", "18446744073709551615", "1261440000000"] {
        assert_eq!(parse_u64(text), text.parse::<u64>().ok());
        assert!(parse_u64(text).is_some());
    }
    assert_eq!(parse_u64("300"), Some(300));
    assert_eq!(parse_u64("+5"), Some(5));
    assert_eq!(parse_u64("18446744073709551615"), Some(u64::MAX));
}

#[test]
fn parse_u64_rejects_what_the_standard_parser_rejects() {
    for text in [
        "", "+", "-1", "abc", "12a", " 1", "1 ", "++1", "18446744073709551616",
        "99999999999999999999999", "1.5", "٣",
    ] {
        assert_eq!(parse_u64(text), None);
        assert_eq!(text.parse::<u64>().ok(), None);
    }
}

#[test]
fn decimal_text_of_numbers() {
    assert_eq!(u64_to_string(0), "0");
    assert_eq!(u64_to_string(10), "10");
    assert_eq!(u64_to_string(u64::MAX), "18446744073709551615");
    assert_eq!(i64_to_string(0), "0");
    assert_eq!(i64_to_string(-1), "-1");
    assert_eq!(i64_to_string(-22406), "-22406");
    assert_eq!(i64_to_string(i64::MAX), "9223372036854775807");
    assert_eq!(i64_to_string(i64::MIN), "-9223372036854775808");
}

#[test]
fn trim_removes_outer_white_space_only() {
    assert_eq!(trim("  user@example.com \n"), "user@example.com");
    assert_eq!(trim("a b"), "a b");
    assert_eq!(trim(""), "");
    assert_eq!(trim(" \t\r\n"), "");
    assert_eq!(trim("\u{a0}x\u{2003}"), "x");
    assert_eq!(trim(" a  b "), " a  b ".trim());
}

#[test]
fn strip_whitespace_removes_all_white_space() {
    assert_eq!(strip_whitespace("ab\ncd ef\t"), "abcdef");
    assert_eq!(strip_whitespace(""), "");
    assert_eq!(strip_whitespace(" \n"), "");
    assert_eq!(strip_whitespace("abc"), "abc");
}

#[test]
fn before_whitespace_is_the_first_word() {
    assert_eq!(
        before_whitespace("com.apple.iCloudHelper/282 CFNetwork/1408.0.4 Darwin/22.5.0"),
        Some("com.apple.iCloudHelper/282".to_string())
    );
    assert_eq!(before_whitespace("single"), None);
    assert_eq!(before_whitespace(""), None);
    assert_eq!(before_whitespace(" x"), Some(String::new()));
}

#[test]
fn text_helpers() {
    assert_eq!(concat2("a", "b"), "ab");
    assert_eq!(concat3("a", ":", "b"), "a:b");
    assert!(str_eq("abc", "abc"));
    assert!(!str_eq("abc", "abd"));
    assert!(!str_eq("abc", "ab"));
}

#[test]
fn white_space_is_the_unicode_property() {
    let spaces = [
        0x09u32, 0x0a, 0x0b, 0x0c, 0x0d, 0x20, 0x85, 0xa0, 0x1680, 0x2000, 0x2001, 0x2002,
        0x2003, 0x2004, 0x2005, 0x2006, 0x2007, 0x2008, 0x2009, 0x200a, 0x2028, 0x2029, 0x202f,
        0x205f, 0x3000,
    ];
    let mut seen = 0;
    for code in 0..=0x10ffffu32 {
        if let Some(c) = char::from_u32(code) {
            let text = format!("{}x{}", c, c);
            let kept = trim(&text);
            if spaces.contains(&code) {
                assert_eq!(kept, "x");
                seen += 1;
            } else {
                assert_eq!(kept, text);
            }
        }
    }
    assert_eq!(seen, spaces.len());
}
