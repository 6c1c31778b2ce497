use signal_mcp::text::{
    chars_of, decimal_text, join2, join3, pad_right, same, signed_text, trim, white_space,
};

#[test]
fn texts_are_joined() {
    assert_eq!(join2("ab", "c"), "abc");
    assert_eq!(join3("", "ä", "ß"), "äß");
}

#[test]
fn equal_texts_are_the_same() {
    assert!(same("ä", "ä"));
    assert!(!same("a", "ab"));
    assert!(!same("a", "A"));
}

#[test]
fn numbers_are_written_in_decimal() {
    assert_eq!(decimal_text(0), "0");
    assert_eq!(decimal_text(10), "10");
    assert_eq!(decimal_text(u64::MAX), u64::MAX.to_string());
    assert_eq!(signed_text(-7), "-7");
    assert_eq!(signed_text(0), "0");
    assert_eq!(signed_text(i32::MIN), i32::MIN.to_string());
    assert_eq!(signed_text(i32::MAX), i32::MAX.to_string());
}

#[test]
fn white_space_is_that_of_the_standard_library() {
    for n in 0u32..=0x10ffff {
        if let Some(c) = char::from_u32(n) {
            assert_eq!(white_space(c), c.is_whitespace(), "{n:x}");
        }
    }
}

#[test]
fn blanks_around_a_text_are_trimmed() {
    for text in ["", " ", "\n\t ", "a", " a", "a ", " a b\r\n", "\u{3000}x\u{2028}", "ä\u{200b}"] {
        assert_eq!(trim(text), text.trim());
    }
}

#[test]
fn padding_counts_characters() {
    assert_eq!(pad_right("äb", 4), "äb  ");
    assert_eq!(pad_right("abcd", 4), "abcd");
    assert_eq!(pad_right("abcde", 4), "abcde");
    assert_eq!(pad_right("", 2), format!("{:<2}", ""));
}

#[test]
fn characters_come_in_order() {
    assert_eq!(chars_of("aä€"), vec!['a', 'ä', '€']);
    assert!(chars_of("").is_empty());
}
