use wayvr::text::{
    chars_of, decimal_string, first_word_chars, normalize_whitespace, split_chars, string_of,
    trim_chars, trim_end_char_chars,
};

fn s(v: &[char]) -> String {
    v.iter().collect()
}

#[test]
fn normalize_collapses_whitespace() {
    assert_eq!(normalize_whitespace("  hello \t  world \n"), "hello world");
    assert_eq!(normalize_whitespace(""), "");
    assert_eq!(normalize_whitespace(" \u{3000} "), "");
    assert_eq!(normalize_whitespace("one"), "one");
    assert_eq!(normalize_whitespace("a\u{a0}b"), "a b");
}

#[test]
fn trim_removes_outer_whitespace_only() {
    let v = chars_of("  a b  ");
    assert_eq!(s(&trim_chars(&v)), "a b");
    let v = chars_of("   ");
    assert_eq!(s(&trim_chars(&v)), "");
}

#[test]
fn trim_end_char_removes_every_trailing_copy() {
    let v = chars_of("opacity-0.5))");
    assert_eq!(s(&trim_end_char_chars(&v, ')')), "opacity-0.5");
}

#[test]
fn split_keeps_empty_pieces() {
    let v = chars_of("a,,b,");
    let pieces: Vec<String> = split_chars(&v, ',').iter().map(|p| s(p)).collect();
    assert_eq!(pieces, vec!["a", "", "b", ""]);
    let v = chars_of("");
    assert_eq!(split_chars(&v, ',').len(), 1);
}

#[test]
fn first_word_skips_leading_whitespace() {
    let v = chars_of("   ::WhisperPaste now");
    assert_eq!(s(&first_word_chars(&v).unwrap()), "::WhisperPaste");
    let v = chars_of(" \t ");
    assert!(first_word_chars(&v).is_none());
}

#[test]
fn decimal_matches_to_string() {
    assert_eq!(decimal_string(0), "0");
    assert_eq!(decimal_string(7), "7");
    assert_eq!(decimal_string(1234), "1234");
    assert_eq!(decimal_string(u64::MAX), u64::MAX.to_string());
}

#[test]
fn string_of_round_trips_characters() {
    let v = chars_of("héllo wörld");
    assert_eq!(string_of(&v), "héllo wörld");
}

#[test]
fn normalizing_twice_changes_nothing_more() {
    for s in ["  a  b\tc ", "", "x", " \n y\u{2003}z  "] {
        let once = normalize_whitespace(s);
        assert_eq!(normalize_whitespace(&once), once);
    }
}

#[test]
fn whitespace_test_agrees_with_std() {
    for u in 0u32..=0x3100 {
        if let Some(c) = char::from_u32(u) {
            assert_eq!(wayvr::text::char_is_whitespace(c), c.is_whitespace(), "U+{u:04X}");
        }
    }
    assert!(!wayvr::text::char_is_whitespace('\u{FEFF}'));
    assert!(!wayvr::text::char_is_whitespace('\u{10FFFF}'));
}
