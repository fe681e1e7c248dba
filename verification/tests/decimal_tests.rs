use scenarios::decimal::{i32_to_string, u64_to_string};
use scenarios::text::str_eq;

#[test]
fn unsigned_rendering() {
    assert_eq!(u64_to_string(0), "0");
    assert_eq!(u64_to_string(6), "6");
    assert_eq!(u64_to_string(42), "42");
    assert_eq!(u64_to_string(1234567890), "1234567890");
    assert_eq!(u64_to_string(u64::MAX), "18446744073709551615");
}

#[test]
fn signed_rendering() {
    assert_eq!(i32_to_string(0), "0");
    assert_eq!(i32_to_string(7), "7");
    assert_eq!(i32_to_string(-1), "-1");
    assert_eq!(i32_to_string(-123), "-123");
    assert_eq!(i32_to_string(i32::MIN), "-2147483648");
    assert_eq!(i32_to_string(i32::MAX), "2147483647");
}

#[test]
fn string_comparison() {
    assert!(str_eq("", ""));
    assert!(str_eq("Bob", "Bob"));
    assert!(!str_eq("Bob", "bob"));
    assert!(!str_eq("Bob", "Bo"));
    assert!(str_eq("na\u{ef}ve", "na\u{ef}ve"));
    assert!(!str_eq("na\u{ef}ve", "naive"));
}
