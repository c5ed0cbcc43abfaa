use sqlite_web_starter::text::{decimal_text, hex_text, parse_i32, parse_u16, parse_u64, push_decimal, same_text, trim};

#[test]
fn unsigned_numbers_parse_as_str_parse_does() {
    assert_eq!(parse_u64("25"), Some(25));
    assert_eq!(parse_u64("+25"), Some(25));
    assert_eq!(parse_u64("007"), Some(7));
    assert_eq!(parse_u64("18446744073709551615"), Some(u64::MAX));
    assert_eq!(parse_u64("18446744073709551616"), None);
    for bad in ["", "+", "-1", "++1", " 1", "1 ", "1a", "٣"] {
        assert_eq!(parse_u64(bad), None, "{bad:?}");
        assert_eq!(parse_u64(bad), bad.parse::<u64>().ok(), "{bad:?}");
    }
    assert_eq!(parse_u16("65535"), Some(65535));
    assert_eq!(parse_u16("65536"), None);
    assert_eq!(parse_u16("3000"), "3000".parse::<u16>().ok());
}

#[test]
fn signed_numbers_parse_as_str_parse_does() {
    for text in ["5", "-5", "+5", "0", "-0", "2147483647", "-2147483648", "2147483648", "-2147483649", "-", "+", "-+5", "", "x", "517"] {
        assert_eq!(parse_i32(text), text.parse::<i32>().ok(), "{text:?}");
    }
}

#[test]
fn decimal_text_matches_display() {
    for n in [0u64, 7, 10, 1234, 9_007_199_254_740_993, u64::MAX] {
        assert_eq!(decimal_text(n), n.to_string());
        assert_eq!(parse_u64(&decimal_text(n)), Some(n));
    }
    let mut text = String::from("txid ");
    push_decimal(&mut text, 42);
    assert_eq!(text, "txid 42");
}

#[test]
fn trimming_drops_surrounding_whitespace_only() {
    for text in ["", "   ", " boom \n", "\t a b \r\n", "x", "\u{3000}wide\u{2028}", "\u{85}next"] {
        assert_eq!(trim(text), text.trim(), "{text:?}");
    }
}

#[test]
fn same_text_compares_characters() {
    assert!(same_text("always", "always"));
    assert!(!same_text("always", "Always"));
    assert!(!same_text("never", "neve"));
}

#[test]
fn hex_text_is_lowercase_two_digits_per_byte() {
    assert_eq!(hex_text(&[]), "");
    assert_eq!(hex_text(&[0, 9, 10, 255, 0x5a]), "00090aff5a");
}
