use harness_desktop::text::{
    blank, characters, decimal, find, joined, same, slice_text, starts_with, white_space, word_after,
};

#[test]
fn white_space_is_that_of_the_standard_library() {
    for code in 0u32..=0x10ffff {
        if let Some(c) = char::from_u32(code) {
            assert_eq!(white_space(c), c.is_whitespace(), "{code:x}");
        }
    }
}

#[test]
fn decimals_are_those_of_the_standard_library() {
    for number in [0u64, 1, 9, 10, 11, 99, 100, 4242, 65535, 1_048_576, u64::MAX - 1, u64::MAX] {
        assert_eq!(decimal(number), number.to_string());
    }
}

#[test]
fn finds_the_first_occurrence() {
    let text = characters("a\u{4e2d}bab");
    assert_eq!(find(&text, "b"), Some(2));
    assert_eq!(find(&text, "ab"), Some(3));
    assert_eq!(find(&text, "c"), None);
    assert_eq!(find(&text, ""), Some(0));
    assert_eq!(find(&text, "a\u{4e2d}bab"), Some(0));
    assert_eq!(find(&text, "a\u{4e2d}baba"), None);
    assert_eq!(find(&characters(""), ""), Some(0));
}

#[test]
fn prefixes_and_words() {
    let text = characters("one  two\u{3000}three");
    assert!(starts_with(&text, "one"));
    assert!(!starts_with(&text, "two"));
    assert!(!starts_with(&text, "one  two three and more"));
    assert_eq!(word_after(&text, 0).as_deref(), Some("one"));
    assert_eq!(word_after(&text, 3).as_deref(), Some("two"));
    assert_eq!(word_after(&text, 8).as_deref(), Some("three"));
    assert_eq!(word_after(&text, 14), None);
    assert_eq!(word_after(&characters(" \t\n"), 0), None);
    assert_eq!(slice_text(&text, 5, 8), "two");
}

#[test]
fn blanks_and_sameness() {
    assert!(blank(""));
    assert!(blank(" \t\u{2003}\n"));
    assert!(!blank(" x "));
    assert!(same("a", "a"));
    assert!(!same("a", "b"));
    assert_eq!(joined("ab", "cd"), "abcd");
}
