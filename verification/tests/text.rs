use testaustime::text::{chars_of, is_whitespace, starts_with, strip_prefix, trim, trim_start_matches};

#[test]
fn whitespace_set_matches_std() {
    for c in ['\u{0}', 'a', ' ', '\t', '\n', '\u{85}', '\u{a0}', '\u{2003}', '\u{3000}', '\u{200b}', '\u{feff}'] {
        assert_eq!(is_whitespace(c), c.is_whitespace(), "{:?}", c);
    }
}

#[test]
fn trimming() {
    assert_eq!(trim("  hello \t\n"), "hello");
    assert_eq!(trim("\u{3000}x y\u{a0}"), "x y");
    assert_eq!(trim("   "), "");
    assert_eq!(trim(""), "");
    for s in ["  a b  ", "\u{2028}z", "q\u{85}", "none"] {
        assert_eq!(trim(s), s.trim());
    }
}

#[test]
fn prefixes() {
    assert!(starts_with("tmp.abc", "tmp."));
    assert!(!starts_with("tm", "tmp."));
    assert!(starts_with("anything", ""));
    assert_eq!(strip_prefix("Bearer abc", "Bearer "), Some("abc".to_string()));
    assert_eq!(strip_prefix("Bear", "Bearer "), None);
    assert_eq!(trim_start_matches("ababc", "ab"), "c");
    assert_eq!(trim_start_matches("ababc", "ab"), "ababc".trim_start_matches("ab"));
    assert_eq!(trim_start_matches("xyz", "ab"), "xyz");
}

#[test]
fn characters_of_text() {
    assert_eq!(chars_of("aä€"), vec!['a', 'ä', '€']);
    assert_eq!(chars_of(""), Vec::<char>::new());
}
