use ghstd::text::{contains_char, decimal_string, is_whitespace, join, pad_right, trim};

#[test]
fn decimal_of_small_and_large_numbers() {
    assert_eq!(decimal_string(0), "0");
    assert_eq!(decimal_string(7), "7");
    assert_eq!(decimal_string(10), "10");
    assert_eq!(decimal_string(12345), "12345");
    assert_eq!(decimal_string(usize::MAX), usize::MAX.to_string());
}

#[test]
fn pad_right_fills_to_width() {
    assert_eq!(pad_right("ab", 5), "ab   ");
    assert_eq!(pad_right("abcdef", 3), "abcdef");
    assert_eq!(pad_right("é", 3), format!("{:<3}", "é"));
}

#[test]
fn contains_char_finds_slash() {
    assert!(contains_char("a/b", '/'));
    assert!(!contains_char("ab", '/'));
    assert!(!contains_char("", '/'));
}

#[test]
fn join_puts_separator_between() {
    let parts = vec!["a".to_string(), "b".to_string(), "c".to_string()];
    assert_eq!(join(&parts, ", "), "a, b, c");
    assert_eq!(join(&Vec::new(), ", "), "");
}

#[test]
fn trim_matches_std_trim() {
    for s in ["", "   ", "abc", "  a b  ", "\u{3000}x\u{a0}", "\t\n x\r\n", "\u{85}y\u{2029}", "\u{200b}z"] {
        assert_eq!(trim(s), s.trim());
    }
}

#[test]
fn whitespace_matches_std() {
    for c in ['\t', '\n', '\u{b}', '\u{c}', '\r', ' ', '\u{85}', '\u{a0}', '\u{1680}', '\u{2000}',
        '\u{200a}', '\u{2028}', '\u{2029}', '\u{202f}', '\u{205f}', '\u{3000}', 'a', '\u{200b}',
        '\u{180e}', '\u{feff}'] {
        assert_eq!(is_whitespace(c), c.is_whitespace());
    }
}
