use gameup::text::{decimal_i32, decimal_usize, is_blank, is_white_space};

#[test]
fn decimal_renders_like_display() {
    assert_eq!(decimal_i32(0), "0");
    assert_eq!(decimal_i32(7), "7");
    assert_eq!(decimal_i32(42), "42");
    assert_eq!(decimal_i32(-15), "-15");
    assert_eq!(decimal_i32(i32::MAX), "2147483647");
    assert_eq!(decimal_i32(i32::MIN), "-2147483648");
    assert_eq!(decimal_usize(1), "1");
    assert_eq!(decimal_usize(1000), "1000");
}

#[test]
fn blank_means_only_white_space() {
    assert!(is_blank(""));
    assert!(is_blank("   "));
    assert!(is_blank(" \t\n\u{A0}"));
    assert!(!is_blank(" a "));
    assert!(!is_blank("Zelda"));
}

#[test]
fn white_space_is_the_unicode_list() {
    for c in ['\t', '\n', '\u{0B}', '\u{0C}', '\r', ' ', '\u{85}', '\u{A0}', '\u{1680}', '\u{2000}', '\u{200A}', '\u{2028}', '\u{2029}', '\u{202F}', '\u{205F}', '\u{3000}'] {
        assert!(is_white_space(c), "{:?}", c);
        assert_eq!(is_white_space(c), c.is_whitespace());
    }
    for c in ['a', '0', '_', '\u{200B}', '\u{FEFF}', '\u{8}', '越'] {
        assert!(!is_white_space(c), "{:?}", c);
        assert_eq!(is_white_space(c), c.is_whitespace());
    }
}
