//! Text rendering: decimal formatting and string joining.

use tg_music_bot::render::{anchor, i64_to_dec, join_strings, u64_to_dec};

#[test]
fn unsigned_decimals() {
    assert_eq!(u64_to_dec(0), "0");
    assert_eq!(u64_to_dec(7), "7");
    assert_eq!(u64_to_dec(10), "10");
    assert_eq!(u64_to_dec(1234567890), "1234567890");
    assert_eq!(u64_to_dec(u64::MAX), "18446744073709551615");
}

#[test]
fn signed_decimals() {
    assert_eq!(i64_to_dec(0), "0");
    assert_eq!(i64_to_dec(42), "42");
    assert_eq!(i64_to_dec(-1), "-1");
    assert_eq!(i64_to_dec(-1001234), "-1001234");
    assert_eq!(i64_to_dec(i64::MIN), "-9223372036854775808");
    assert_eq!(i64_to_dec(i64::MAX), "9223372036854775807");
}

#[test]
fn joining_strings() {
    let v: Vec<String> = Vec::new();
    assert_eq!(join_strings(&v, ", "), "");
    let v = vec!["a".to_string()];
    assert_eq!(join_strings(&v, ", "), "a");
    let v = vec!["a".to_string(), "b".to_string(), "c".to_string()];
    assert_eq!(join_strings(&v, ", "), "a, b, c");
}

#[test]
fn anchors() {
    assert_eq!(anchor("https://x.example", "Listen"), "<a href=\"https://x.example\">Listen</a>");
}
