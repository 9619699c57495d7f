use propchain_security_tests::text::str_contains;

#[test]
fn substring_search() {
    assert!(str_contains("hello world", "lo w"));
    assert!(str_contains("hello", ""));
    assert!(str_contains("", ""));
    assert!(!str_contains("", "a"));
    assert!(!str_contains("abc", "abcd"));
    assert!(str_contains("abc", "abc"));
    assert!(str_contains("xxabab", "abab"));
    assert!(!str_contains("ababa", "abb"));
}

#[test]
fn substring_search_unicode() {
    assert!(str_contains("🔥💣🚨", "💣"));
    assert!(!str_contains("🔥💣", "🚨"));
    assert!(str_contains("naïve", "ïv"));
}
