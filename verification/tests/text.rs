use neural_translator::text::{str_contains, str_eq, str_eq_ignore_ascii_case, u64_to_decimal};

#[test]
fn decimal_rendering_is_exact() {
    assert_eq!(u64_to_decimal(0), "0");
    assert_eq!(u64_to_decimal(7), "7");
    assert_eq!(u64_to_decimal(10), "10");
    assert_eq!(u64_to_decimal(1736000000), "1736000000");
    assert_eq!(u64_to_decimal(u64::MAX), "18446744073709551615");
}

#[test]
fn substring_search_by_characters() {
    assert!(str_contains("abcdef", "cde"));
    assert!(str_contains("abcdef", ""));
    assert!(str_contains("abcdef", "abcdef"));
    assert!(!str_contains("abcdef", "cdx"));
    assert!(!str_contains("ab", "abc"));
    assert!(str_contains("モデル一覧: aya:8b あり", "aya:8b"));
}

#[test]
fn string_equality_by_characters() {
    assert!(str_eq("same", "same"));
    assert!(!str_eq("same", "Same"));
    assert!(!str_eq("same", "sames"));
    assert!(str_eq("", ""));
}

#[test]
fn case_insensitive_comparison_covers_ascii_only() {
    assert!(str_eq_ignore_ascii_case("TXT", "txt"));
    assert!(str_eq_ignore_ascii_case("DocX", "dOCx"));
    assert!(!str_eq_ignore_ascii_case("pdf", "pdx"));
    // Non-ASCII letters are compared exactly.
    assert!(!str_eq_ignore_ascii_case("É", "é"));
}
