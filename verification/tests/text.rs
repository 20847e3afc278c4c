use clickup::text::{
    is_whitespace, join_strings, replace_str, strip_prefix_str, trim_start_char_str, trim_str,
    u64_to_string,
};

#[test]
fn whitespace_matches_std_for_every_char() {
    for code in 0..=0x10FFFFu32 {
        if let Some(c) = char::from_u32(code) {
            assert_eq!(is_whitespace(c), c.is_whitespace(), "{code:#x}");
        }
    }
}

#[test]
fn trim_matches_std() {
    for s in ["", " ", "  a b  ", "\u{2003}x\u{85}", "\u{200b}x", "abc", "\t\n\r x \u{3000}"] {
        assert_eq!(trim_str(s), s.trim());
    }
}

#[test]
fn decimal_matches_std() {
    for n in [0u64, 7, 10, 42, 99, 100, 9_012_345_678, u64::MAX] {
        assert_eq!(u64_to_string(n), n.to_string());
    }
}

#[test]
fn replace_matches_std() {
    for (s, pat, to) in [
        ("aaa", "aa", "b"),
        ("/x/{id}/y/{id}", "{id}", "7"),
        ("abc", "d", "e"),
        ("", "a", "b"),
        ("abab", "ab", "abab"),
        ("abc", "", "x"),
        ("", "", "x"),
        ("é1", "", "-"),
    ] {
        assert_eq!(replace_str(s, pat, to), s.replace(pat, to));
    }
}

#[test]
fn empty_patterns_match_between_characters() {
    assert_eq!(replace_str("abc", "", "x"), "xaxbxcx");
    assert_eq!(replace_str("", "", "x"), "x");
}

#[test]
fn prefixes_and_joins() {
    assert_eq!(strip_prefix_str("Bearer x", "Bearer ").as_deref(), Some("x"));
    assert_eq!(strip_prefix_str("Bear", "Bearer "), None);
    assert_eq!(trim_start_char_str("//a/b", '/'), "a/b");
    let parts = vec!["a".to_owned(), "b".to_owned(), "c".to_owned()];
    assert_eq!(join_strings(&parts, ", "), "a, b, c");
    assert_eq!(join_strings(&Vec::new(), ", "), "");
}

#[test]
fn trimming_twice_is_trimming_once() {
    for s in ["  a  ", "\u{2028}b\u{2029}", "", "   "] {
        let once = trim_str(s);
        assert_eq!(trim_str(&once), once);
    }
}
