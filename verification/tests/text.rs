use subprocess::text::{blank, bytes_to_string};

#[test]
fn test_bytes_to_string_helper() {
    assert_eq!(bytes_to_string(b""), "");
    assert_eq!(bytes_to_string(b"hello"), "hello");
    assert_eq!(bytes_to_string(b"hello\n"), "hello\n");

    let utf8_bytes = "Hello, 世界!".as_bytes();
    assert_eq!(bytes_to_string(utf8_bytes), "Hello, 世界!");

    let invalid_utf8 = vec![0xFF, 0xFE, 0x48, 0x65, 0x6C, 0x6C, 0x6F];
    let result = bytes_to_string(&invalid_utf8);
    assert!(!result.is_empty());
}

#[test]
fn ill_formed_bytes_become_replacement_characters() {
    let invalid_utf8 = vec![0xFF, 0xFE, 0x48, 0x65, 0x6C, 0x6C, 0x6F];
    assert_eq!(bytes_to_string(&invalid_utf8), "\u{FFFD}\u{FFFD}Hello");
}

#[test]
fn truncated_sequence_is_decoded_lossily() {
    // The first two bytes of a three-byte sequence, then text.
    let bytes = vec![b'a', 0xE4, 0xB8, b'b'];
    assert_eq!(bytes_to_string(&bytes), "a\u{FFFD}b");
}

#[test]
fn well_formed_bytes_are_decoded_exactly() {
    let text = "naïve ☕ \u{10FFFF}";
    assert_eq!(bytes_to_string(text.as_bytes()), text);
    assert_eq!(bytes_to_string(text.as_bytes()).as_bytes(), text.as_bytes());
}

#[test]
fn overlong_and_surrogate_encodings_are_ill_formed() {
    // An overlong encoding of '/', and an encoded surrogate.
    assert_ne!(bytes_to_string(&[0xC0, 0xAF]), "/");
    assert!(bytes_to_string(&[0xED, 0xA0, 0x80]).contains('\u{FFFD}'));
}

#[test]
fn blank_texts() {
    assert!(blank(""));
    assert!(blank(" "));
    assert!(blank(" \t\r\n"));
    assert!(blank("\u{0B}\u{0C}\u{85}\u{A0}\u{1680}\u{2000}\u{200A}\u{2028}\u{2029}\u{202F}\u{205F}\u{3000}"));
}

#[test]
fn texts_that_are_not_blank() {
    assert!(!blank("a"));
    assert!(!blank("  echo  "));
    assert!(!blank(" \u{200B} "));
    assert!(!blank("\u{180E}"));
    assert!(!blank("\u{FEFF}"));
    assert!(!blank("\0"));
}

#[test]
fn blank_agrees_with_trimming() {
    let samples = ["", " ", "x", " x ", "\t\n", "\u{2003}", "\u{200B}", "a\u{3000}", "\u{1F}", "\u{1C}"];
    for s in samples {
        assert_eq!(blank(s), s.trim().is_empty(), "{:?}", s);
    }
}
