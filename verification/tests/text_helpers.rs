use voicepicker::text::{char_is_white_space, join_path, trims_to_empty, u16_to_decimal};

#[test]
fn decimal_rendering() {
    assert_eq!(u16_to_decimal(0), "0");
    assert_eq!(u16_to_decimal(7), "7");
    assert_eq!(u16_to_decimal(8765), "8765");
    assert_eq!(u16_to_decimal(10), "10");
    assert_eq!(u16_to_decimal(65535), "65535");
}

#[test]
fn path_joining() {
    assert_eq!(join_path("/proj", "python"), "/proj/python");
    assert_eq!(join_path("/proj/", "python"), "/proj/python");
    assert_eq!(join_path("", "python"), "python");
    assert_eq!(join_path("/proj", "/abs"), "/abs");
    assert_eq!(join_path(".", "bin"), "./bin");
}

#[test]
fn path_joining_agrees_with_std() {
    for (base, comp) in [("/proj", "python"), ("/proj/", "x"), ("", "a"), ("a", "/b"), ("a/b", "c.py")] {
        let expected = std::path::PathBuf::from(base).join(comp);
        assert_eq!(join_path(base, comp), expected.to_str().unwrap());
    }
}

#[test]
fn blank_text() {
    assert!(trims_to_empty(""));
    assert!(trims_to_empty("  \t\n\r"));
    assert!(trims_to_empty("\u{3000}\u{00A0}\u{2028}"));
    assert!(!trims_to_empty(" a "));
    assert!(!trims_to_empty("你好"));
}

#[test]
fn white_space_agrees_with_std() {
    for code in 0u32..0x3100 {
        if let Some(c) = char::from_u32(code) {
            assert_eq!(char_is_white_space(c), c.is_whitespace(), "code point {:x}", code);
        }
    }
    for s in ["", " ", "\u{85}x", "x\u{205F}", "\u{202F}\u{1680}"] {
        assert_eq!(trims_to_empty(s), s.trim().is_empty());
    }
}
