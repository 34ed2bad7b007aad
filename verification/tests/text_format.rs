use webp_to_gif::text::{equal_ignoring_ascii_case, push_decimal, push_hex};
use webp_to_gif::timestamp_text;

#[test]
fn decimal_digits() {
    let mut s = String::from("n=");
    push_decimal(&mut s, 0);
    assert_eq!(s, "n=0");
    let mut s = String::new();
    push_decimal(&mut s, 1234567890);
    assert_eq!(s, "1234567890");
    let mut s = String::new();
    push_decimal(&mut s, u64::MAX);
    assert_eq!(s, u64::MAX.to_string());
}

#[test]
fn hex_digits_are_lower_case() {
    let mut s = String::new();
    push_hex(&mut s, 0xdead_beef);
    assert_eq!(s, "deadbeef");
    let mut s = String::new();
    push_hex(&mut s, 0);
    assert_eq!(s, "0");
    let mut s = String::new();
    push_hex(&mut s, 4096);
    assert_eq!(s, format!("{:x}", 4096));
}

#[test]
fn timestamp_is_decimal_seconds() {
    assert_eq!(timestamp_text(1781697600), "1781697600");
    assert_eq!(timestamp_text(0), "0");
}

#[test]
fn ascii_case_is_ignored_only_for_ascii_letters() {
    assert!(equal_ignoring_ascii_case("WebP", "webp"));
    assert!(!equal_ignoring_ascii_case("webp", "web"));
    assert!(!equal_ignoring_ascii_case("ÉCOLE", "école"));
    assert!(equal_ignoring_ascii_case("", ""));
    assert!(!equal_ignoring_ascii_case("a[", "A{"));
}
