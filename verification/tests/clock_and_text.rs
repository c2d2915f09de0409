use strategy_runtime::host::{opposite, OrderSide};
use strategy_runtime::sat::{sat_add_i64, sat_mul_i32, sat_mul_u64, sat_sub_i64, u64_to_i64};
use strategy_runtime::text::{
    concat_str, contains_str, join_strings, normalize, starts_with_str, string_from_chars, trimmed,
};

#[test]
fn text_helpers_match_std() {
    assert_eq!(concat_str("ab", "cd"), "abcd");
    assert!(contains_str("xx|o=MR|r=TP", "|o=MR"));
    assert!(!contains_str("ab", "abc"));
    assert!(contains_str("abc", ""));
    assert!(starts_with_str("HYB|x", "HYB|"));
    assert_eq!(string_from_chars(&trimmed("  a b \t")), "a b");
    assert_eq!(string_from_chars(&normalize(" Shadow_Only\n")), "shadow_only");
    assert_eq!(join_strings(&vec!["a".to_string(), "b".to_string()], ","), "a,b");
}

#[test]
fn saturating_arithmetic_matches_std() {
    assert_eq!(sat_add_i64(i64::MAX, 1), i64::MAX);
    assert_eq!(sat_sub_i64(i64::MIN, 1), i64::MIN);
    assert_eq!(sat_sub_i64(5, 7), -2);
    assert_eq!(sat_mul_i32(i32::MAX, 3600), i32::MAX);
    assert_eq!(sat_mul_i32(-3, 3600), -10_800);
    assert_eq!(sat_mul_u64(u64::MAX, 2), u64::MAX);
    assert_eq!(sat_mul_u64(5, 4), 20);
    assert_eq!(u64_to_i64(u64::MAX), -1);
    assert_eq!(u64_to_i64(5), 5);
}

#[test]
fn opposite_side_is_an_involution() {
    assert_eq!(opposite(OrderSide::Buy), OrderSide::Sell);
    assert_eq!(opposite(opposite(OrderSide::Sell)), OrderSide::Sell);
}
