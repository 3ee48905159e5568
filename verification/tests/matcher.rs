use tengu::matcher::wildcard_match;

#[test]
fn star_suffix_matches_extension() {
    assert!(wildcard_match("*.rs", "main.rs"));
    assert!(!wildcard_match("*.rs", "main.md"));
}

#[test]
fn question_mark_takes_exactly_one_character() {
    assert!(wildcard_match("a?c", "abc"));
    assert!(!wildcard_match("a?c", "ac"));
    assert!(!wildcard_match("a?c", "abbc"));
}

#[test]
fn lone_star_matches_everything() {
    assert!(wildcard_match("*", ""));
    assert!(wildcard_match("*", "anything"));
    assert!(wildcard_match("*", "*a"));
    assert!(wildcard_match("*", "a*b?c"));
}

#[test]
fn match_is_anchored_at_both_ends() {
    assert!(!wildcard_match("foo", "foobar"));
    assert!(!wildcard_match("bar", "foobar"));
    assert!(wildcard_match("foobar", "foobar"));
}

#[test]
fn star_backtracks() {
    assert!(wildcard_match("a*b*c", "aXbYbZc"));
    assert!(wildcard_match("*ab", "aab"));
    assert!(wildcard_match("a*a*a", "aaa"));
    assert!(!wildcard_match("a*a*a", "aa"));
    assert!(wildcard_match("secrets/*", "secrets/key.pem"));
    assert!(!wildcard_match("secrets/*", "public/key.pem"));
}

#[test]
fn star_in_text_is_an_ordinary_character() {
    assert!(wildcard_match("a*", "a*b"));
    assert!(wildcard_match("?", "*"));
    assert!(!wildcard_match("a", "*"));
}

#[test]
fn empty_pattern_matches_only_empty_text() {
    assert!(wildcard_match("", ""));
    assert!(!wildcard_match("", "a"));
    assert!(wildcard_match("**", ""));
}

#[test]
fn non_ascii_characters_count_once() {
    assert!(wildcard_match("?", "読"));
    assert!(wildcard_match("*読*", "ファイルを読む"));
}
