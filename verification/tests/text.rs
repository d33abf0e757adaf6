use favsync::text::{characters, decimal, same_text};

#[test]
fn same_text_compares_characters() {
    assert!(same_text("photo", "photo"));
    assert!(!same_text("photo", "photos"));
    assert!(!same_text("photo", "Photo"));
    assert!(same_text("", ""));
}

#[test]
fn characters_are_in_order() {
    assert_eq!(characters("añ/"), vec!['a', 'ñ', '/']);
    assert_eq!(characters(""), Vec::<char>::new());
}

#[test]
fn decimal_writes_digits_without_padding() {
    assert_eq!(decimal(0), "0");
    assert_eq!(decimal(7), "7");
    assert_eq!(decimal(10), "10");
    assert_eq!(decimal(449), "449");
    assert_eq!(decimal(1234567890), "1234567890");
    assert_eq!(decimal(u64::MAX), "18446744073709551615");
}
