use crush::text::{parse_unsigned, str_eq, u64_to_decimal};

#[test]
fn decimal_rendering() {
    assert_eq!(u64_to_decimal(0), "0");
    assert_eq!(u64_to_decimal(7), "7");
    assert_eq!(u64_to_decimal(42), "42");
    assert_eq!(u64_to_decimal(100), "100");
    assert_eq!(u64_to_decimal(u64::MAX), "18446744073709551615");
}

#[test]
fn decimal_rendering_matches_display() {
    for n in [0u64, 1, 9, 10, 99, 255, 256, 1000, 65535, 4294967296, u64::MAX - 1] {
        assert_eq!(u64_to_decimal(n), n.to_string());
    }
}

#[test]
fn parsing_unsigned() {
    assert_eq!(parse_unsigned("42", u64::MAX), Some(42));
    assert_eq!(parse_unsigned("+7", u64::MAX), Some(7));
    assert_eq!(parse_unsigned("007", u64::MAX), Some(7));
    assert_eq!(parse_unsigned("", u64::MAX), None);
    assert_eq!(parse_unsigned("+", u64::MAX), None);
    assert_eq!(parse_unsigned("-1", u64::MAX), None);
    assert_eq!(parse_unsigned("-0", u64::MAX), None);
    assert_eq!(parse_unsigned("12a", u64::MAX), None);
    assert_eq!(parse_unsigned(" 1", u64::MAX), None);
    assert_eq!(parse_unsigned("255", 255), Some(255));
    assert_eq!(parse_unsigned("256", 255), None);
    assert_eq!(parse_unsigned("18446744073709551615", u64::MAX), Some(u64::MAX));
    assert_eq!(parse_unsigned("18446744073709551616", u64::MAX), None);
    assert_eq!(parse_unsigned("99999999999999999999x", u64::MAX), None);
}

#[test]
fn parsing_agrees_with_std() {
    let inputs = [
        "", "0", "1", "+1", "++1", "-1", "255", "256", "300", "1000", "0000", "12 ", "x",
        "18446744073709551615", "18446744073709551616", "+18446744073709551615", "١٢",
    ];
    for s in inputs {
        assert_eq!(parse_unsigned(s, u64::MAX), s.parse::<u64>().ok(), "u64 {:?}", s);
        assert_eq!(parse_unsigned(s, 255).map(|v| v as u8), s.parse::<u8>().ok(), "u8 {:?}", s);
    }
}

#[test]
fn string_equality() {
    assert!(str_eq("nord", "nord"));
    assert!(!str_eq("nord", "nor"));
    assert!(!str_eq("nord", "Nord"));
    assert!(str_eq("", ""));
    assert!(str_eq("héllo", "héllo"));
    assert!(!str_eq("héllo", "hello"));
}
