use imap_mcp_lite::text::{
    clone_texts, decimal_text, from_chars, hex_upper_digit, is_ascii_alphanumeric, is_blank,
    is_whitespace, joined, to_chars, trim,
};

#[test]
fn character_classes_agree_with_std() {
    for c in '\u{0}'..=char::MAX {
        assert_eq!(is_whitespace(c), c.is_whitespace());
        assert_eq!(is_ascii_alphanumeric(c), c.is_ascii_alphanumeric());
    }
}

#[test]
fn trimming_agrees_with_std() {
    for s in ["", " ", "a", " a ", "\u{3000}a b\n", "\t\t", "x\u{85}", "\u{200b}x "] {
        assert_eq!(trim(s), s.trim());
        assert_eq!(is_blank(s), s.trim().is_empty());
    }
}

#[test]
fn decimal_and_hexadecimal_digits() {
    for n in [0, 1, 9, 10, 11, 99, 100, 26_214_400, usize::MAX] {
        assert_eq!(decimal_text(n), n.to_string());
    }
    for d in 0u8..16 {
        assert_eq!(hex_upper_digit(d).to_string(), format!("{d:X}"));
    }
}

#[test]
fn texts_and_characters() {
    let chars = to_chars("añ📊");
    assert_eq!(chars, vec!['a', 'ñ', '📊']);
    assert_eq!(from_chars(&chars, 1, 3), "ñ📊");
    assert_eq!(from_chars(&chars, 2, 2), "");
    assert_eq!(joined("a", "b"), "ab");
    let texts = vec!["x".to_string(), String::new()];
    assert_eq!(clone_texts(&texts), texts);
}
