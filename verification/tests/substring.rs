use freshener::substring::{characters, contains, contains_chars, matches_at};

#[test]
fn needle_at_the_start_is_found() {
    assert!(contains("envoyproxy/envoy:v1.2", "envoy"));
}

#[test]
fn needle_in_the_middle_is_found() {
    assert!(contains("docker.io/fluentd/fluentd:v1", "fluentd"));
}

#[test]
fn needle_at_the_end_is_found() {
    assert!(contains("acme/api:1.0", ":1.0"));
}

#[test]
fn whole_text_is_found_in_itself() {
    assert!(contains("nginx", "nginx"));
}

#[test]
fn absent_needle_is_not_found() {
    assert!(!contains("acme/api:1.0", "envoy"));
}

#[test]
fn interrupted_needle_is_not_found() {
    assert!(!contains("en-voy", "envoy"));
}

#[test]
fn needle_longer_than_text_is_not_found() {
    assert!(!contains("envoy", "envoyproxy"));
}

#[test]
fn empty_needle_is_found_everywhere() {
    assert!(contains("acme", ""));
    assert!(contains("", ""));
}

#[test]
fn nothing_but_the_empty_needle_is_found_in_the_empty_text() {
    assert!(!contains("", "a"));
}

#[test]
fn search_is_case_sensitive() {
    assert!(!contains("Envoy", "envoy"));
    assert!(contains("Envoy", "nvoy"));
}

#[test]
fn repeated_prefix_does_not_hide_a_match() {
    assert!(contains("aaab", "aab"));
    assert!(!contains("aaaa", "aab"));
}

#[test]
fn search_is_by_character_beyond_ascii() {
    assert!(contains("caf\u{e9}-proxy", "\u{e9}-p"));
    assert!(!contains("cafe-proxy", "\u{e9}"));
}

#[test]
fn search_agrees_with_the_standard_library() {
    let texts = ["", "a", "ab", "aab", "abab", "envoyproxy/envoy:v1.2", "\u{e9}\u{e8}a"];
    for text in texts {
        for needle in texts {
            assert_eq!(contains(text, needle), text.contains(needle), "{:?} in {:?}", needle, text);
        }
    }
}

#[test]
fn characters_keeps_every_character_in_order() {
    assert_eq!(characters("a\u{e9}b"), vec!['a', '\u{e9}', 'b']);
    assert_eq!(characters(""), Vec::<char>::new());
}

#[test]
fn matches_at_tests_one_position() {
    let text = characters("abcabc");
    let needle = characters("bc");
    assert!(!matches_at(&text, &needle, 0));
    assert!(matches_at(&text, &needle, 1));
    assert!(matches_at(&text, &needle, 4));
}

#[test]
fn contains_chars_searches_character_vectors() {
    assert!(contains_chars(&characters("sidecar-proxy"), &characters("car-p")));
    assert!(!contains_chars(&characters("sidecar-proxy"), &characters("cap")));
}
