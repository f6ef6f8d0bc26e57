use mdbook_api::normalize::{normalize_id, word_char};

#[test]
fn normalize_lowercases_and_joins_words_with_hyphens() {
    assert_eq!(normalize_id("Hello, World!"), "hello-world");
}

#[test]
fn normalize_trims_leading_and_trailing_separators() {
    assert_eq!(normalize_id("  Leading and trailing  "), "leading-and-trailing");
    assert_eq!(normalize_id("--x--"), "x");
}

#[test]
fn normalize_collapses_runs_of_separators() {
    assert_eq!(normalize_id("a__b -- c"), "a-b-c");
    assert_eq!(normalize_id("one   two"), "one-two");
}

#[test]
fn normalize_of_nothing_is_nothing() {
    assert_eq!(normalize_id(""), "");
    assert_eq!(normalize_id("?!"), "");
}

#[test]
fn normalize_keeps_digits_and_letters_beyond_ascii() {
    assert_eq!(normalize_id("Chapter 12: Émile"), "chapter-12-Émile");
    assert_eq!(normalize_id("日本 語"), "日本-語");
}

#[test]
fn normalize_is_idempotent_on_samples() {
    for text in ["Hello, World!", "a--b", "  x  ", "", "Ünï çode 9", "already-normal"] {
        let once = normalize_id(text);
        assert_eq!(normalize_id(&once), once);
    }
}

#[test]
fn word_chars_are_letters_and_digits() {
    assert!(word_char('a'));
    assert!(word_char('Z'));
    assert!(word_char('7'));
    assert!(word_char('é'));
    assert!(!word_char('-'));
    assert!(!word_char('_'));
    assert!(!word_char(' '));
    assert!(!word_char('.'));
}
