use voice_agent_server::unicode::{char_is_whitespace, chars_of, is_blank};

#[test]
fn blank_text_is_made_of_white_space_only() {
    assert!(is_blank(""));
    assert!(is_blank(" \t\r\n\u{b}\u{c}\u{85}\u{a0}\u{1680}\u{2000}\u{200a}\u{2028}\u{2029}\u{202f}\u{205f}\u{3000}"));
    assert!(!is_blank("a"));
    assert!(!is_blank("\u{200b}"));
    assert!(!is_blank("\u{1c}"));
}

#[test]
fn characters_come_out_in_order() {
    assert_eq!(chars_of("añ€😀"), vec!['a', 'ñ', '€', '😀']);
    assert!(chars_of("").is_empty());
}

#[test]
fn white_space_agrees_with_the_standard_library() {
    for code in 0u32..=0x10FFFF {
        if let Some(c) = char::from_u32(code) {
            assert_eq!(char_is_whitespace(c), c.is_whitespace(), "U+{code:04X}");
        }
    }
}
