use ruv_swarm::text::{contains, count_words, decimal_string, reversed, trimmed_end};

#[test]
fn reversed_reverses_characters() {
    assert_eq!(reversed("abc"), "cba");
    assert_eq!(reversed(""), "");
    assert_eq!(reversed("héllo"), "olléh");
}

#[test]
fn count_words_splits_on_white_space() {
    assert_eq!(count_words(""), 0);
    assert_eq!(count_words("   "), 0);
    assert_eq!(count_words("one"), 1);
    assert_eq!(count_words("  two  words\t"), 2);
    assert_eq!(count_words("Analyze market trends for Q4"), 5);
}

#[test]
fn contains_finds_substrings() {
    assert!(contains("please analyze this", "analyze"));
    assert!(!contains("please analyse this", "analyze"));
    assert!(contains("abc", ""));
    assert!(!contains("ab", "abc"));
}

#[test]
fn decimal_string_renders_numbers() {
    assert_eq!(decimal_string(0), "0");
    assert_eq!(decimal_string(7), "7");
    assert_eq!(decimal_string(1234567890), "1234567890");
    assert_eq!(decimal_string(u64::MAX), "18446744073709551615");
}

#[test]
fn trimmed_end_strips_trailing_run() {
    assert_eq!(trimmed_end("SELECT 1;;", ';'), "SELECT 1");
    assert_eq!(trimmed_end("SELECT 1", ';'), "SELECT 1");
    assert_eq!(trimmed_end(";;", ';'), "");
    assert_eq!(trimmed_end("a;b;", ';'), "a;b");
}
