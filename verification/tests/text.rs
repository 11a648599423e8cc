use filesharing::text::{
    decimal_i64, decimal_u64, is_white_space_char, parse_i64, same_text, second_word_of,
    text_after_last, text_before_first,
};

#[test]
fn second_word_is_the_token() {
    assert_eq!(second_word_of("Bearer abc.def"), Some("abc.def".to_string()));
    assert_eq!(second_word_of("  Bearer \t tok  extra"), Some("tok".to_string()));
    assert_eq!(second_word_of("Bearer"), None);
    assert_eq!(second_word_of("Bearer   "), None);
    assert_eq!(second_word_of(""), None);
    assert_eq!(second_word_of("a\u{3000}b"), Some("b".to_string()));
}

#[test]
fn whitespace_matches_std() {
    for c in ['\t', '\n', ' ', '\u{85}', '\u{a0}', '\u{2003}', '\u{3000}', 'a', '.', '\u{200b}', '\u{feff}'] {
        assert_eq!(is_white_space_char(c), c.is_whitespace(), "{:?}", c);
    }
    for n in 0u32..0x3100 {
        if let Some(c) = char::from_u32(n) {
            assert_eq!(is_white_space_char(c), c.is_whitespace(), "{:?}", c);
        }
    }
}

#[test]
fn segments_around_dots() {
    assert_eq!(text_before_first("abc.tar.gz", '.'), "abc");
    assert_eq!(text_before_first("noext", '.'), "noext");
    assert_eq!(text_before_first(".hidden", '.'), "");
    assert_eq!(text_after_last("abc.tar.gz", '.'), "gz");
    assert_eq!(text_after_last("noext", '.'), "noext");
    assert_eq!(text_after_last("trailing.", '.'), "");
}

#[test]
fn decimal_text_matches_display() {
    for n in [0i64, 7, 10, 42, -1, -42, 1000, i64::MAX, i64::MIN] {
        assert_eq!(decimal_i64(n), n.to_string());
    }
    for n in [0u64, 9, 123456789, u64::MAX] {
        assert_eq!(decimal_u64(n), n.to_string());
    }
}

#[test]
fn parse_matches_std_parse() {
    for s in ["0", "42", "-42", "+7", "", "+", "-", " 1", "1 ", "12a", "9223372036854775807",
              "9223372036854775808", "-9223372036854775808", "-9223372036854775809", "007", "٣"] {
        assert_eq!(parse_i64(s), s.parse::<i64>().ok(), "{:?}", s);
    }
}

#[test]
fn same_text_compares_characters() {
    assert!(same_text("abc", "abc"));
    assert!(!same_text("abc", "abd"));
    assert!(!same_text("abc", "ab"));
    assert!(same_text("", ""));
}

#[test]
fn decimal_text_reads_back() {
    for n in [0i64, 5, 10, 99, -3, -100, 2147483647, i64::MAX, i64::MIN] {
        assert_eq!(parse_i64(&decimal_i64(n)), Some(n));
    }
}
