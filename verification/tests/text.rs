use nfe_repository::text::{decimal, ends_with_char, join};

#[test]
fn decimal_renders_without_sign_or_leading_zeros() {
    assert_eq!(decimal(0), "0");
    assert_eq!(decimal(7), "7");
    assert_eq!(decimal(10), "10");
    assert_eq!(decimal(300), "300");
    assert_eq!(decimal(1_234_567_890), "1234567890");
    assert_eq!(decimal(u64::MAX), "18446744073709551615");
}

#[test]
fn join_puts_the_separator_between_neighbours() {
    assert_eq!(join(&vec![], " AND "), "");
    assert_eq!(join(&vec!["a".to_string()], " AND "), "a");
    assert_eq!(join(&vec!["a".to_string(), "b".to_string(), "c".to_string()], " AND "), "a AND b AND c");
    assert_eq!(join(&vec!["".to_string(), "".to_string()], ","), ",");
}

#[test]
fn ends_with_char_looks_at_the_last_character() {
    assert!(ends_with_char("nfe:list:*", '*'));
    assert!(ends_with_char("*", '*'));
    assert!(!ends_with_char("", '*'));
    assert!(!ends_with_char("nfe:*x", '*'));
    assert!(ends_with_char("ação", 'o'));
    assert!(ends_with_char("açã", 'ã'));
}
