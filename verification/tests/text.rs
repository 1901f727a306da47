use most_gpt::text::{chars_of, contains, same_text};

#[test]
fn contains_finds_a_pattern_in_the_middle() {
    assert!(contains("please clear ctx now", "clear ctx"));
    assert!(!contains("please clear context", "clear ctx"));
}

#[test]
fn contains_accepts_the_empty_pattern() {
    assert!(contains("", ""));
    assert!(contains("abc", ""));
    assert!(!contains("", "a"));
}

#[test]
fn same_text_compares_characters() {
    assert!(same_text("posted", "posted"));
    assert!(!same_text("posted", "post"));
}

#[test]
fn chars_of_counts_characters_not_bytes() {
    assert_eq!(chars_of("a\u{e9}\u{4e2d}"), vec!['a', '\u{e9}', '\u{4e2d}']);
    assert_eq!(chars_of(""), Vec::new());
}

#[test]
fn contains_works_on_characters_beyond_ascii() {
    assert!(contains("\u{4f60}\u{597d} @bot", "@bot"));
    assert!(contains("x\u{4e2d}\u{6587}y", "\u{4e2d}\u{6587}"));
    assert!(!contains("x\u{4e2d}y", "\u{6587}"));
    assert!(contains("abc", "abc"));
    assert!(contains("abc", "bc"));
    assert!(!contains("abc", "abcd"));
}
