use watsonx_rs::text::{char_is_whitespace, chars_of, joined, decimal, is_blank_str};

#[test]
fn whitespace_is_the_unicode_property() {
    for code in 0..=0x10FFFFu32 {
        if let Some(c) = char::from_u32(code) {
            assert_eq!(char_is_whitespace(c), c.is_whitespace(), "U+{:04X}", code);
        }
    }
}

#[test]
fn blank_texts() {
    for blank in ["", " ", "\t\r\n", "\u{85}\u{a0}\u{1680}\u{2000}\u{200a}\u{2028}\u{2029}\u{202f}\u{205f}\u{3000}"] {
        assert!(is_blank_str(blank), "{:?}", blank);
    }
    for filled in ["a", " a ", "\u{200b}", "\u{feff}", "\0"] {
        assert!(!is_blank_str(filled), "{:?}", filled);
    }
}

#[test]
fn decimal_numerals() {
    for n in [0u64, 1, 9, 10, 11, 99, 100, 101, 12345, 1_000_000, u64::MAX - 1, u64::MAX] {
        assert_eq!(decimal(n), n.to_string());
    }
}

#[test]
fn characters_and_concatenation() {
    assert_eq!(chars_of("aé日\u{1F600}"), vec!['a', 'é', '日', '\u{1F600}']);
    assert!(chars_of("").is_empty());
    assert_eq!(joined("ab", "cd"), "abcd");
    assert_eq!(joined("", ""), "");
}
