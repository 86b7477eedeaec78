use pgpt::text::{char_is_whitespace, trim};

#[test]
fn trim_removes_whitespace_at_both_ends() {
    assert_eq!(trim("  sk-abc123\n"), "sk-abc123");
    assert_eq!(trim("\t\r\n key \u{b}\u{c}"), "key");
    assert_eq!(trim("a b"), "a b");
    assert_eq!(trim(" a  b "), "a  b");
}

#[test]
fn trim_of_nothing_but_whitespace_is_empty() {
    assert_eq!(trim(""), "");
    assert_eq!(trim(" "), "");
    assert_eq!(trim(" \t\n\r\u{a0}\u{3000}"), "");
}

#[test]
fn trim_knows_unicode_whitespace() {
    assert_eq!(trim("\u{85}\u{a0}\u{1680}\u{2000}\u{200a}k\u{2028}\u{2029}\u{202f}\u{205f}\u{3000}"), "k");
    // The zero-width space and the Mongolian vowel separator are no whitespace.
    assert_eq!(trim("\u{200b}k\u{180e}"), "\u{200b}k\u{180e}");
    assert_eq!(trim(" é "), "é");
}

#[test]
fn trim_agrees_with_the_standard_library() {
    for s in ["", " ", "x", " x", "x ", "  x y  ", "\n\tx\u{2003}", "\u{feff}x", "日本 語 ", "\u{1f600} "] {
        assert_eq!(trim(s), s.trim(), "{s:?}");
    }
}

#[test]
fn whitespace_is_the_unicode_property() {
    for code in 0..0x11_0000u32 {
        if let Some(c) = char::from_u32(code) {
            assert_eq!(char_is_whitespace(c), c.is_whitespace(), "U+{code:04X}");
        }
    }
}
