use dead_reckoning::text::contains_str;

#[test]
fn substring_search() {
    assert!(contains_str("c:\\users\\temp\\x", "\\temp\\"));
    assert!(contains_str("abc", ""));
    assert!(contains_str("", ""));
    assert!(!contains_str("", "a"));
    assert!(contains_str("ababc", "abc"));
    assert!(!contains_str("ab", "abc"));
    assert!(contains_str("héllo wörld", "ö"));
}
