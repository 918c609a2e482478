use keyboard_rs::text::{is_not_blank, str_equal, trim_text, trimmed_eq_ignore_ascii_case};

#[test]
fn trimming_follows_unicode_whitespace() {
    assert_eq!(trim_text("  PRESS:1 \r\n"), "PRESS:1");
    assert_eq!(trim_text("\u{3000}x\u{00A0}"), "x");
    assert_eq!(trim_text(" \t "), "");
    assert_eq!(trim_text("a b"), "a b");
    assert_eq!(trim_text("\u{200B}"), "\u{200B}");
}

#[test]
fn blank_names() {
    assert!(!is_not_blank(""));
    assert!(!is_not_blank(" \n\t\u{2028}"));
    assert!(is_not_blank(" a "));
}

#[test]
fn case_insensitive_anki() {
    assert!(trimmed_eq_ignore_ascii_case(" ANKI ", "anki"));
    assert!(trimmed_eq_ignore_ascii_case("Anki", "anki"));
    assert!(!trimmed_eq_ignore_ascii_case("ankis", "anki"));
    assert!(!trimmed_eq_ignore_ascii_case("a nki", "anki"));
    assert!(str_equal("x", "x"));
    assert!(!str_equal("x", "y"));
}
