use fsbridge::text::str_contains;
use fsbridge::text::str_eq;

#[test]
fn string_equality_is_exact() {
    assert!(str_eq("abc", "abc"));
    assert!(!str_eq("abc", "abd"));
    assert!(!str_eq("abc", "ab"));
    assert!(str_eq("", ""));
}

#[test]
fn substring_search_finds_inner_matches() {
    assert!(str_contains("filesystem", "esys"));
    assert!(str_contains("filesystem", "file"));
    assert!(str_contains("filesystem", "stem"));
    assert!(!str_contains("filesystem", "xyz"));
    assert!(!str_contains("abc", "abcd"));
}

#[test]
fn empty_needle_always_matches() {
    assert!(str_contains("anything", ""));
    assert!(str_contains("", ""));
}
