use whynotblog::text::{clone_text, decimal_text};

#[test]
fn decimal_text_writes_digits() {
    assert_eq!(decimal_text(0), "0");
    assert_eq!(decimal_text(7), "7");
    assert_eq!(decimal_text(10), "10");
    assert_eq!(decimal_text(1234567890), "1234567890");
    assert_eq!(decimal_text(u64::MAX), "18446744073709551615");
}

#[test]
fn decimal_text_agrees_with_the_standard_formatting() {
    for n in [1u64, 9, 11, 99, 100, 101, 4294967295, 4294967296] {
        assert_eq!(decimal_text(n), format!("{}", n));
    }
}

#[test]
fn clone_text_copies() {
    assert_eq!(clone_text(&Some("a".to_string())), Some("a".to_string()));
    assert_eq!(clone_text(&None), None);
}
