use lightning_sentinel::pickle_jar::row_key;
use lightning_sentinel::text::{bool_to_text, i64_to_decimal, str_eq, u64_to_decimal};

#[test]
fn decimal_of_zero() {
    assert_eq!(i64_to_decimal(0), "0");
    assert_eq!(u64_to_decimal(0), "0");
}

#[test]
fn decimal_of_negative_number() {
    assert_eq!(i64_to_decimal(-42), "-42");
    assert_eq!(i64_to_decimal(-7), "-7");
}

#[test]
fn decimal_of_extremes_matches_display() {
    assert_eq!(i64_to_decimal(i64::MIN), i64::MIN.to_string());
    assert_eq!(i64_to_decimal(i64::MAX), i64::MAX.to_string());
    assert_eq!(u64_to_decimal(u64::MAX), "18446744073709551615");
    assert_eq!(i64_to_decimal(i64::MIN), "-9223372036854775808");
}

#[test]
fn decimal_matches_display_on_samples() {
    for n in [1i64, 9, 10, 11, 99, 100, 101, 1234567890, -1, -10, -100, 5_000_000_000] {
        assert_eq!(i64_to_decimal(n), n.to_string());
    }
}

#[test]
fn booleans_print_as_rust_does() {
    assert_eq!(bool_to_text(true), "true");
    assert_eq!(bool_to_text(false), "false");
}

#[test]
fn string_equality() {
    assert!(str_eq("/start", "/start"));
    assert!(!str_eq("/start", "/stop"));
    assert!(!str_eq("", "a"));
}

#[test]
fn distinct_chats_have_distinct_keys() {
    assert_ne!(row_key(12), row_key(-12));
    assert_ne!(row_key(1), row_key(10));
    assert_eq!(row_key(123456789), "123456789");
}
