use dotfiles_sync::text::{copy_texts, decimal, extend_texts, is_hidden, push_text};

#[test]
fn decimal_writes_single_digits() {
    assert_eq!(decimal(0), "0");
    assert_eq!(decimal(7), "7");
    assert_eq!(decimal(9), "9");
}

#[test]
fn decimal_writes_longer_numbers() {
    assert_eq!(decimal(10), "10");
    assert_eq!(decimal(42), "42");
    assert_eq!(decimal(100), "100");
    assert_eq!(decimal(12345), "12345");
    assert_eq!(decimal(usize::MAX), usize::MAX.to_string());
}

#[test]
fn hidden_names_begin_with_a_dot() {
    assert!(is_hidden(".git"));
    assert!(is_hidden("."));
    assert!(!is_hidden("nvim"));
    assert!(!is_hidden("a.b"));
    assert!(!is_hidden(""));
}

#[test]
fn lists_grow_at_the_end() {
    let mut list: Vec<String> = Vec::new();
    push_text(&mut list, "a");
    push_text(&mut list, "b");
    assert_eq!(list, vec!["a".to_string(), "b".to_string()]);
    let more = vec!["c".to_string(), "d".to_string()];
    extend_texts(&mut list, &more);
    assert_eq!(list, vec!["a", "b", "c", "d"]);
    assert_eq!(copy_texts(&list), list);
}
