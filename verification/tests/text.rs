use mpl_core_staking::text::{parse_i64, parse_u32, str_eq, u32_to_string};

#[test]
fn parses_unsigned_counts() {
    assert_eq!(parse_u32("0"), Some(0));
    assert_eq!(parse_u32("42"), Some(42));
    assert_eq!(parse_u32("+7"), Some(7));
    assert_eq!(parse_u32("007"), Some(7));
    assert_eq!(parse_u32("4294967295"), Some(u32::MAX));
}

#[test]
fn refuses_malformed_unsigned_counts() {
    assert_eq!(parse_u32(""), None);
    assert_eq!(parse_u32("+"), None);
    assert_eq!(parse_u32("-1"), None);
    assert_eq!(parse_u32("-0"), None);
    assert_eq!(parse_u32("12a"), None);
    assert_eq!(parse_u32(" 1"), None);
    assert_eq!(parse_u32("4294967296"), None);
    assert_eq!(parse_u32("99999999999999999999999"), None);
}

#[test]
fn parses_signed_timestamps() {
    assert_eq!(parse_i64("1704067200"), Some(1_704_067_200));
    assert_eq!(parse_i64("-15"), Some(-15));
    assert_eq!(parse_i64("+15"), Some(15));
    assert_eq!(parse_i64("9223372036854775807"), Some(i64::MAX));
    assert_eq!(parse_i64("-9223372036854775808"), Some(i64::MIN));
}

#[test]
fn refuses_malformed_signed_timestamps() {
    assert_eq!(parse_i64(""), None);
    assert_eq!(parse_i64("-"), None);
    assert_eq!(parse_i64("--1"), None);
    assert_eq!(parse_i64("+-1"), None);
    assert_eq!(parse_i64("9223372036854775808"), None);
    assert_eq!(parse_i64("-9223372036854775809"), None);
    assert_eq!(parse_i64("1.5"), None);
}

#[test]
fn parsing_agrees_with_std() {
    for s in ["0", "1", "+3", "-3", "", "x", "4294967295", "4294967296", "-9223372036854775808", "1x"] {
        assert_eq!(parse_u32(s), s.parse::<u32>().ok(), "{:?}", s);
        assert_eq!(parse_i64(s), s.parse::<i64>().ok(), "{:?}", s);
    }
}

#[test]
fn writes_decimal_counts() {
    assert_eq!(u32_to_string(0), "0");
    assert_eq!(u32_to_string(9), "9");
    assert_eq!(u32_to_string(10), "10");
    assert_eq!(u32_to_string(1203), "1203");
    assert_eq!(u32_to_string(u32::MAX), "4294967295");
}

#[test]
fn written_counts_read_back() {
    for n in [0u32, 1, 9, 10, 99, 100, 65_535, u32::MAX] {
        assert_eq!(parse_u32(&u32_to_string(n)), Some(n));
        assert_eq!(u32_to_string(n), n.to_string());
    }
}

#[test]
fn compares_strings_by_characters() {
    assert!(str_eq("staked", "staked"));
    assert!(!str_eq("staked", "staked_at"));
    assert!(!str_eq("Staked", "staked"));
    assert!(str_eq("", ""));
}
