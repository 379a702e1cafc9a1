use r_auth_api::text::{id_to_string, parse_i64, parse_u32, str_contains_ci, u64_to_string};

#[test]
fn parse_i64_accepts_plain_decimals() {
    assert_eq!(parse_i64("0"), Some(0));
    assert_eq!(parse_i64("123"), Some(123));
    assert_eq!(parse_i64("+42"), Some(42));
    assert_eq!(parse_i64("-17"), Some(-17));
    assert_eq!(parse_i64("007"), Some(7));
    assert_eq!(parse_i64("9223372036854775807"), Some(i64::MAX));
    assert_eq!(parse_i64("-9223372036854775808"), Some(i64::MIN));
}

#[test]
fn parse_i64_rejects_everything_else() {
    assert_eq!(parse_i64(""), None);
    assert_eq!(parse_i64("+"), None);
    assert_eq!(parse_i64("-"), None);
    assert_eq!(parse_i64("12a"), None);
    assert_eq!(parse_i64("a12"), None);
    assert_eq!(parse_i64(" 12"), None);
    assert_eq!(parse_i64("1 2"), None);
    assert_eq!(parse_i64("invalid_id"), None);
    assert_eq!(parse_i64("9223372036854775808"), None);
    assert_eq!(parse_i64("-9223372036854775809"), None);
    assert_eq!(parse_i64("99999999999999999999999999"), None);
}

#[test]
fn parse_u32_matches_the_numeric_settings_format() {
    assert_eq!(parse_u32("0"), Some(0));
    assert_eq!(parse_u32("4096"), Some(4096));
    assert_eq!(parse_u32("+1"), Some(1));
    assert_eq!(parse_u32("4294967295"), Some(u32::MAX));
    assert_eq!(parse_u32("4294967296"), None);
    assert_eq!(parse_u32("-1"), None);
    assert_eq!(parse_u32(""), None);
    assert_eq!(parse_u32("12.5"), None);
}

#[test]
fn decimal_rendering_is_exact() {
    assert_eq!(u64_to_string(0), "0");
    assert_eq!(u64_to_string(7), "7");
    assert_eq!(u64_to_string(10), "10");
    assert_eq!(u64_to_string(1234567890), "1234567890");
    assert_eq!(u64_to_string(u64::MAX), "18446744073709551615");
    assert_eq!(id_to_string(0), "0");
    assert_eq!(id_to_string(i64::MAX), "9223372036854775807");
}

#[test]
fn rendering_then_parsing_gives_the_number_back() {
    for n in [0i64, 1, 9, 10, 99, 100, 4321, 1_000_000_007, i64::MAX] {
        assert_eq!(parse_i64(&id_to_string(n)), Some(n));
    }
}

#[test]
fn substring_matching_is_case_insensitive() {
    assert!(str_contains_ci("Alice@Example.COM", "example"));
    assert!(str_contains_ci("alice", "ALICE"));
    assert!(str_contains_ci("alice", ""));
    assert!(str_contains_ci("", ""));
    assert!(!str_contains_ci("", "a"));
    assert!(!str_contains_ci("alice", "bob"));
    assert!(str_contains_ci("user_pagination_12", "pagination"));
    assert!(!str_contains_ci("short", "longer-than-hay"));
}
