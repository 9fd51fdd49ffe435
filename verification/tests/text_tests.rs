use artist_sync::text::{chars_of, decimal_text, nth_segment, parse_u64, same_text, string_of, trim};

#[test]
fn chars_round_trip() {
    let v = chars_of("a:b");
    assert_eq!(v, vec!['a', ':', 'b']);
    assert_eq!(string_of(&v, 0, 3), "a:b");
    assert_eq!(string_of(&v, 1, 2), ":");
    assert_eq!(string_of(&v, 2, 2), "");
}

#[test]
fn same_text_compares_characters() {
    assert!(same_text("name", "name"));
    assert!(!same_text("name", "names"));
    assert!(!same_text("name", "nome"));
    assert!(same_text("", ""));
}

#[test]
fn parse_u64_reads_plain_digits() {
    assert_eq!(parse_u64("0"), Some(0));
    assert_eq!(parse_u64("10"), Some(10));
    assert_eq!(parse_u64("007"), Some(7));
    assert_eq!(parse_u64("18446744073709551615"), Some(u64::MAX));
}

#[test]
fn parse_u64_takes_one_leading_plus() {
    assert_eq!(parse_u64("+5"), Some(5));
    assert_eq!(parse_u64("++5"), None);
    assert_eq!(parse_u64("+"), None);
}

#[test]
fn parse_u64_refuses_what_is_no_number() {
    assert_eq!(parse_u64(""), None);
    assert_eq!(parse_u64("abc"), None);
    assert_eq!(parse_u64("12a"), None);
    assert_eq!(parse_u64("-1"), None);
    assert_eq!(parse_u64(" 1"), None);
    assert_eq!(parse_u64("1 "), None);
    assert_eq!(parse_u64("1.5"), None);
    assert_eq!(parse_u64("\u{0663}"), None);
}

#[test]
fn parse_u64_refuses_overflow() {
    assert_eq!(parse_u64("18446744073709551616"), None);
    assert_eq!(parse_u64("99999999999999999999999"), None);
}

#[test]
fn parse_u64_agrees_with_std() {
    for s in ["", "+", "+0", "0", "42", "-3", "4 2", "18446744073709551615", "18446744073709551616", "0x10", "١٢"] {
        assert_eq!(parse_u64(s), s.parse::<u64>().ok(), "{:?}", s);
    }
}

#[test]
fn decimal_text_writes_digits() {
    assert_eq!(decimal_text(0), "0");
    assert_eq!(decimal_text(7), "7");
    assert_eq!(decimal_text(10), "10");
    assert_eq!(decimal_text(2000), "2000");
    assert_eq!(decimal_text(u64::MAX), "18446744073709551615");
}

#[test]
fn decimal_text_is_read_back() {
    for n in [0u64, 1, 9, 10, 99, 100, 12345, u64::MAX] {
        assert_eq!(parse_u64(&decimal_text(n)), Some(n));
    }
}

#[test]
fn trim_takes_white_space_off_both_ends() {
    assert_eq!(trim("  abc \n"), "abc");
    assert_eq!(trim("abc"), "abc");
    assert_eq!(trim("a b"), "a b");
    assert_eq!(trim(" \t\r\n"), "");
    assert_eq!(trim(""), "");
    assert_eq!(trim("\u{00A0}x\u{3000}"), "x");
}

#[test]
fn trim_agrees_with_std() {
    for s in ["", " ", "a", " a", "a ", "\u{2003}a b\u{2028}", "\u{200B}a", "\u{0085}a\u{205F}"] {
        assert_eq!(trim(s), s.trim(), "{:?}", s);
    }
}

#[test]
fn nth_segment_cuts_between_separators() {
    assert_eq!(nth_segment("spotify:artist:4Z8W4fKeB5YxbusRsdQVPb", ':', 2), Some("4Z8W4fKeB5YxbusRsdQVPb".to_string()));
    assert_eq!(nth_segment("a:b:c:d", ':', 0), Some("a".to_string()));
    assert_eq!(nth_segment("a:b:c:d", ':', 3), Some("d".to_string()));
    assert_eq!(nth_segment("a:b:c:d", ':', 4), None);
    assert_eq!(nth_segment("a:b", ':', 2), None);
    assert_eq!(nth_segment("a:b:", ':', 2), Some(String::new()));
    assert_eq!(nth_segment("", ':', 0), Some(String::new()));
    assert_eq!(nth_segment("", ':', 1), None);
    assert_eq!(nth_segment("::", ':', 2), Some(String::new()));
}

#[test]
fn nth_segment_agrees_with_split() {
    for s in ["", ":", "a", "a:", ":a", "a:b:c", "a::c", "spotify:artist:xyz:more"] {
        for n in 0..5usize {
            assert_eq!(nth_segment(s, ':', n), s.split(':').nth(n).map(|p| p.to_string()), "{:?} {}", s, n);
        }
    }
}

#[test]
fn trim_knows_every_white_space_character() {
    for code in 0..=0x10FFFFu32 {
        if let Some(c) = char::from_u32(code) {
            let text = format!("{}x{}", c, c);
            let expected = if c.is_whitespace() { "x".to_string() } else { text.clone() };
            assert_eq!(trim(&text), expected, "U+{:04X}", code);
        }
    }
}
