use atem_core::text::{chars_of, decimal, join_strings, joined, same_text};

#[test]
fn decimal_writes_digits() {
    assert_eq!(decimal(0), "0");
    assert_eq!(decimal(7), "7");
    assert_eq!(decimal(10), "10");
    assert_eq!(decimal(305), "305");
    assert_eq!(decimal(u64::MAX), u64::MAX.to_string());
}

#[test]
fn same_text_compares_characters() {
    assert!(same_text("mix", "mix"));
    assert!(!same_text("mix", "Mix"));
    assert!(!same_text("mix", "mixx"));
    assert!(same_text("", ""));
}

#[test]
fn joins_with_separator() {
    let parts = vec!["a".to_string(), "bc".to_string(), "d".to_string()];
    assert_eq!(join_strings(&parts, ", "), "a, bc, d");
    assert_eq!(join_strings(&vec![], ", "), "");
    assert_eq!(join_strings(&vec!["one".to_string()], ", "), "one");
    assert_eq!(joined("ab", "cd"), "abcd");
}

#[test]
fn chars_of_keeps_order() {
    assert_eq!(chars_of("Aé1"), vec!['A', 'é', '1']);
}
