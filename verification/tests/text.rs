use navigator::text::{
    contains, decimal, is_blank, is_white_space, pad_right, same_text, signed_decimal, split, split_once, trim,
};

#[test]
fn white_space_is_trimmed() {
    for text in ["", " ", " a ", "\u{2003}a b\u{3000}\n", "\u{85}\u{a0}x", "\u{200b}x", "\t\u{b}y\u{c}"] {
        assert_eq!(trim(text), text.trim());
        assert_eq!(trim(trim(text)), trim(text));
        assert_eq!(is_blank(text), text.trim().is_empty());
    }
}

#[test]
fn white_space_is_that_of_unicode() {
    for code in 0..0x11_0000u32 {
        if let Some(c) = char::from_u32(code) {
            assert_eq!(is_white_space(c), c.is_whitespace(), "{code:x}");
        }
    }
}

#[test]
fn needles_are_found() {
    for (hay, needle) in [("abcab", "cab"), ("abc", ""), ("", ""), ("", "a"), ("aab", "ab"), ("abc", "abcd"), ("n\u{e4}her", "\u{e4}h")] {
        assert_eq!(contains(hay, needle), hay.contains(needle), "{needle} in {hay}");
    }
}

#[test]
fn texts_are_compared() {
    assert!(same_text("", ""));
    assert!(same_text("a\u{e4}", "a\u{e4}"));
    assert!(!same_text("a", "ab"));
    assert!(!same_text("ab", "ac"));
}

#[test]
fn texts_are_split() {
    for text in ["", ",", "a", "a,b", ",a,,b,", "\u{e4},\u{f6}"] {
        assert_eq!(split(text, ','), text.split(',').collect::<Vec<_>>());
        assert_eq!(split_once(text, ','), text.split_once(','));
    }
}

#[test]
fn numbers_are_written_in_decimal() {
    for n in [0, 7, 10, 99, 12345, u64::MAX] {
        assert_eq!(decimal(n), n.to_string());
    }
    for n in [0, -1, 42, i64::MIN, i64::MAX] {
        assert_eq!(signed_decimal(n), n.to_string());
    }
}

#[test]
fn texts_are_padded() {
    assert_eq!(pad_right("ab", 4), "ab  ");
    assert_eq!(pad_right("abcd", 4), "abcd");
    assert_eq!(pad_right("abcde", 4), "abcde");
    assert_eq!(pad_right("\u{e4}", 2), "\u{e4} ");
}
