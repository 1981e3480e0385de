use nactl::text::{
    joined, contains_char, contains_str, decimal_string, eq_ignore_case, is_blank, parse_u16,
    parse_u64, parse_usize, push_padded, signed_decimal_string, split_once_char, str_eq, trim,
    trim_char, trim_end_char, IntErrorKind,
};

#[test]
fn trim_removes_unicode_whitespace() {
    assert_eq!(trim("  \t hello world \r\n"), "hello world");
    assert_eq!(trim("\u{3000}\u{A0}value\u{2028}"), "value");
    assert_eq!(trim(""), "");
    assert_eq!(trim(" \n\t "), "");
    assert_eq!(trim("a b"), "a b");
}

#[test]
fn trim_matches_std() {
    for s in ["  x ", "\u{85}y\u{205F}", "\u{200B}z", "  ", "q"] {
        assert_eq!(trim(s), s.trim());
        assert_eq!(is_blank(s), s.trim().is_empty());
    }
}

#[test]
fn trim_char_variants() {
    assert_eq!(trim_char("//nacos//", '/'), "nacos");
    assert_eq!(trim_char("///", '/'), "");
    assert_eq!(trim_end_char("line\n\n\n", '\n'), "line");
    assert_eq!(trim_end_char("\nline", '\n'), "\nline");
}

#[test]
fn decimal_formatting() {
    assert_eq!(decimal_string(0), "0");
    assert_eq!(decimal_string(8848), "8848");
    assert_eq!(decimal_string(u64::MAX), u64::MAX.to_string());
    assert_eq!(signed_decimal_string(-42), "-42");
    assert_eq!(signed_decimal_string(i64::MIN), i64::MIN.to_string());
    assert_eq!(signed_decimal_string(7), "7");
}

#[test]
fn parsing_follows_std() {
    assert_eq!(parse_u16("8848"), Ok(8848));
    assert_eq!(parse_u16("+80"), Ok(80));
    assert_eq!(parse_u16(""), Err(IntErrorKind::Empty));
    assert_eq!(parse_u16("+"), Err(IntErrorKind::InvalidDigit));
    assert_eq!(parse_u16("-"), Err(IntErrorKind::InvalidDigit));
    assert_eq!(parse_u16("-5"), Err(IntErrorKind::InvalidDigit));
    assert_eq!(parse_u16("65535"), Ok(65535));
    assert_eq!(parse_u16("65536"), Err(IntErrorKind::PosOverflow));
    assert_eq!(parse_u16(" 1"), Err(IntErrorKind::InvalidDigit));
    assert_eq!(parse_u64("18446744073709551615"), Ok(u64::MAX));
    assert_eq!(parse_u64("18446744073709551616"), Err(IntErrorKind::PosOverflow));
    // the first offending character decides, as in std
    assert_eq!(parse_u64("99999999999999999999x"), Err(IntErrorKind::PosOverflow));
    assert_eq!(parse_u64("12x99999999999999999999"), Err(IntErrorKind::InvalidDigit));
    assert_eq!(parse_usize("0042"), Ok(42));
    for s in ["", "+", "1a", "99999999999999999999x", "+12", "٣"] {
        assert_eq!(parse_u64(s).ok(), s.parse::<u64>().ok());
    }
}

#[test]
fn int_error_text_matches_std() {
    assert_eq!(IntErrorKind::Empty.text(), "".parse::<u8>().unwrap_err().to_string());
    assert_eq!(IntErrorKind::InvalidDigit.text(), "x".parse::<u8>().unwrap_err().to_string());
    assert_eq!(IntErrorKind::PosOverflow.text(), "300".parse::<u8>().unwrap_err().to_string());
}

#[test]
fn searching() {
    assert!(contains_str("http://host", "://"));
    assert!(!contains_str("host:8848", "://"));
    assert!(contains_str("abc", ""));
    assert!(contains_char("app*", '*'));
    assert!(!contains_char("app", '*'));
    assert!(str_eq("/", "/"));
    assert!(!str_eq("/", "//"));
    assert!(eq_ignore_case("Content-LENGTH", "content-length"));
    assert!(!eq_ignore_case("Content-Lengt", "content-length"));
}

#[test]
fn split_at_first_separator() {
    assert_eq!(
        split_once_char("Content-Length: 12", ':'),
        Some(("Content-Length".to_string(), " 12".to_string()))
    );
    assert_eq!(split_once_char("a:b:c", ':'), Some(("a".to_string(), "b:c".to_string())));
    assert_eq!(split_once_char("abc", ':'), None);
}

#[test]
fn padding_and_concat() {
    let mut s = String::from(">");
    push_padded(&mut s, "ab", 4);
    assert_eq!(s, ">ab  ");
    let mut t = String::new();
    push_padded(&mut t, "abcdef", 3);
    assert_eq!(t, "abcdef");
    assert_eq!(format!("{:<5}|", "é"), { let mut u = String::new(); push_padded(&mut u, "é", 5); u + "|" });
    assert_eq!(joined("http://", "host"), "http://host");
}
