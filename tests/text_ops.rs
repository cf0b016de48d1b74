use kernel_conformance::text::{contains_text, decimal_text, same_text, text_less, truncate};

#[test]
fn decimal_forms() {
    assert_eq!(decimal_text(0), "0");
    assert_eq!(decimal_text(7), "7");
    assert_eq!(decimal_text(1203), "1203");
    assert_eq!(decimal_text(u64::MAX), "18446744073709551615");
}

#[test]
fn substring_search() {
    assert!(contains_text("hello\n", "hello"));
    assert!(contains_text("say hello", "hello"));
    assert!(!contains_text("hell", "hello"));
    assert!(contains_text("abc", ""));
    assert!(contains_text("caf\u{e9} au lait", "\u{e9} a"));
}

#[test]
fn text_order_and_equality() {
    assert!(text_less("a", "b"));
    assert!(text_less("ab", "abc"));
    assert!(!text_less("abc", "ab"));
    assert!(!text_less("x", "x"));
    assert!(text_less("Z", "a"));
    assert!(same_text("x", "x"));
    assert!(!same_text("x", "xy"));
}

#[test]
fn truncation() {
    assert_eq!(truncate("short", 30), "short");
    assert_eq!(truncate("abcdefghij", 10), "abcdefghij");
    assert_eq!(truncate("abcdefghijk", 10), "abcdefg...");
    assert_eq!(truncate("Timeout waiting for iopub idle (stdin test)", 30), "Timeout waiting for iopub i...");
}

#[test]
fn truncation_counts_bytes() {
    assert_eq!(truncate("\u{e9}\u{e9}\u{e9}", 5), "\u{e9}...");
    assert_eq!(truncate("\u{e9}\u{e9}\u{e9}", 6), "\u{e9}\u{e9}\u{e9}");
    assert_eq!(truncate("\u{e9}\u{e9}\u{e9}", 4), "...");
    assert_eq!(truncate("ab", 2), "ab");
    assert_eq!(truncate("", 0), "");
}
