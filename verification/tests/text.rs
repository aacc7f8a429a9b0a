use pr_checker::github::pr::show_labels;
use pr_checker::text::{
    byte_length, contains_text, cut_before, decimal_string, join, same_text, trim,
};

fn owned(items: &[&str]) -> Vec<String> {
    items.iter().map(|s| s.to_string()).collect()
}

#[test]
fn decimal_string_writes_plain_digits() {
    assert_eq!(decimal_string(0), "0");
    assert_eq!(decimal_string(7), "7");
    assert_eq!(decimal_string(10), "10");
    assert_eq!(decimal_string(1234567890), "1234567890");
    assert_eq!(decimal_string(u64::MAX), "18446744073709551615");
    for n in [9u64, 99, 100, 101, 999, 1000, 4096, 65535] {
        assert_eq!(decimal_string(n), n.to_string());
    }
}

#[test]
fn join_puts_separator_between_neighbours() {
    assert_eq!(join(&owned(&[]), ", "), "");
    assert_eq!(join(&owned(&["a"]), ", "), "a");
    assert_eq!(join(&owned(&["a", "b"]), ", "), "a, b");
    assert_eq!(join(&owned(&["", "", ""]), "-"), "--");
    assert_eq!(join(&owned(&["x", "y", "z"]), ""), "xyz");
}

#[test]
fn same_text_is_exact() {
    assert!(same_text("", ""));
    assert!(same_text("kind/bug", "kind/bug"));
    assert!(!same_text("kind/bug", "kind/bug "));
    assert!(!same_text("kind/bug", "kind/bux"));
    assert!(!same_text("a", "A"));
    assert!(same_text("\u{e9}", "\u{e9}"));
    assert!(!same_text("\u{e9}", "e\u{301}"));
}

#[test]
fn byte_length_counts_bytes() {
    assert_eq!(byte_length(""), 0);
    assert_eq!(byte_length("short"), 5);
    assert_eq!(byte_length("\u{e9}"), 2);
    assert_eq!(byte_length("\u{20ac}"), 3);
    assert_eq!(byte_length("\u{1f600}"), 4);
}

#[test]
fn cut_before_stops_at_first_separator() {
    assert_eq!(cut_before("feat: x", ':'), "feat");
    assert_eq!(cut_before("a:b:c", ':'), "a");
    assert_eq!(cut_before(":x", ':'), "");
    assert_eq!(cut_before("none", ':'), "none");
    assert_eq!(cut_before("", ':'), "");
    assert_eq!(cut_before("\u{e9}t\u{e9}(x)", '('), "\u{e9}t\u{e9}");
}

#[test]
fn trim_removes_surrounding_white_space() {
    assert_eq!(trim("  a b  "), "a b");
    assert_eq!(trim("a"), "a");
    assert_eq!(trim(""), "");
    assert_eq!(trim(" \t\r\n"), "");
    assert_eq!(trim("\u{a0}x\u{2003}"), "x");
    assert_eq!(trim("\u{3000}\u{e9} \u{e9}\n"), "\u{e9} \u{e9}");
    for s in ["", " ", "x ", " x", " x y ", "\n\n", "\u{85}a\u{1680}"] {
        assert_eq!(trim(s), s.trim());
    }
}

#[test]
fn contains_text_finds_exact_entries() {
    let items = owned(&["a", "bb", ""]);
    assert!(contains_text(&items, "a"));
    assert!(contains_text(&items, "bb"));
    assert!(contains_text(&items, ""));
    assert!(!contains_text(&items, "b"));
    assert!(!contains_text(&owned(&[]), ""));
}

#[test]
fn show_labels_says_none_for_empty() {
    assert_eq!(show_labels(&owned(&[])), "none");
    assert_eq!(show_labels(&owned(&["x", "y"])), "x, y");
}
