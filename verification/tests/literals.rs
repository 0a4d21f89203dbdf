use build_stamp::literal::{
    bool_text, decimal_text, push_decimal, push_quoted_string, push_raw_string,
    push_text_literal, text_survives_raw_string,
};
use build_stamp::text::{char_is_whitespace, decode_text, text_is_blank};

#[test]
fn decimal_text_of_small_numbers() {
    assert_eq!(decimal_text(0), "0");
    assert_eq!(decimal_text(7), "7");
    assert_eq!(decimal_text(9), "9");
    assert_eq!(decimal_text(10), "10");
    assert_eq!(decimal_text(120), "120");
    assert_eq!(decimal_text(1_234_567_890), "1234567890");
}

#[test]
fn decimal_text_of_the_largest_number() {
    assert_eq!(decimal_text(u64::MAX), "18446744073709551615");
}

#[test]
fn decimal_text_is_what_the_standard_library_prints() {
    let mut n: u64 = 1;
    for _ in 0..64 {
        for value in [n - 1, n, n + 1] {
            assert_eq!(decimal_text(value), value.to_string());
            assert_eq!(decimal_text(value).parse::<u64>(), Ok(value));
        }
        n = n.wrapping_mul(2);
    }
    for value in 0..2000u64 {
        assert_eq!(decimal_text(value), value.to_string());
    }
}

#[test]
fn push_decimal_appends() {
    let mut out = String::from("n = ");
    push_decimal(&mut out, 42);
    assert_eq!(out, "n = 42");
    push_decimal(&mut out, 0);
    assert_eq!(out, "n = 420");
}

#[test]
fn bool_text_is_the_keyword() {
    assert_eq!(bool_text(true), "true");
    assert_eq!(bool_text(false), "false");
}

#[test]
fn raw_string_wraps_the_text_unchanged() {
    let mut out = String::new();
    push_raw_string(&mut out, "abc");
    assert_eq!(out, "r#\"abc\"#");
    let mut out = String::from("x: ");
    push_raw_string(&mut out, "a \\n \"b\"\n");
    assert_eq!(out, "x: r#\"a \\n \"b\"\n\"#");
    let mut out = String::new();
    push_raw_string(&mut out, "");
    assert_eq!(out, "r#\"\"#");
}

#[test]
fn whitespace_is_what_the_standard_library_calls_whitespace() {
    let mut count = 0;
    for code in 0..=0x10ffffu32 {
        if let Some(c) = char::from_u32(code) {
            assert_eq!(char_is_whitespace(c), c.is_whitespace(), "U+{:04X}", code);
            if char_is_whitespace(c) {
                count += 1;
            }
        }
    }
    assert_eq!(count, 25);
}

#[test]
fn whitespace_examples() {
    for c in [' ', '\t', '\n', '\r', '\u{b}', '\u{c}', '\u{85}', '\u{a0}', '\u{1680}', '\u{2000}', '\u{200a}', '\u{2028}', '\u{2029}', '\u{202f}', '\u{205f}', '\u{3000}'] {
        assert!(char_is_whitespace(c));
    }
    for c in ['a', '0', '\0', '\u{8}', '\u{e}', '\u{1f}', '!', '\u{84}', '\u{86}', '\u{180e}', '\u{1fff}', '\u{200b}', '\u{2027}', '\u{202a}', '\u{2060}', '\u{feff}'] {
        assert!(!char_is_whitespace(c));
    }
}

#[test]
fn blank_text_is_text_that_trims_to_nothing() {
    for text in ["", " ", "\n", " \t \r\n ", "\u{2028}\u{2029}", "\u{3000} \u{1680}"] {
        assert!(text_is_blank(text));
        assert!(text.trim().is_empty());
    }
    for text in ["a", " a", "a ", " a ", "\n.\n", "\u{200b}", " \u{feff} ", "                    x"] {
        assert!(!text_is_blank(text));
        assert!(!text.trim().is_empty());
    }
}

#[test]
fn decode_text_accepts_utf8_only() {
    assert_eq!(decode_text(b"plain"), Some("plain"));
    assert_eq!(decode_text(b""), Some(""));
    assert_eq!(decode_text(&[0xc3, 0xa9, 0xf0, 0x9f, 0x98, 0x80]), Some("\u{e9}\u{1f600}"));
    assert_eq!(decode_text(&[0xff]), None);
    assert_eq!(decode_text(&[b'a', 0x80]), None);
    assert_eq!(decode_text(&[0xc3]), None);
    assert_eq!(decode_text(&[0xc0, 0x80]), None);
    assert_eq!(decode_text(&[0xed, 0xa0, 0x80]), None);
    assert_eq!(decode_text(&[0xf4, 0x90, 0x80, 0x80]), None);
}

fn quoted(content: &str) -> String {
    let mut out = String::new();
    push_quoted_string(&mut out, content);
    out
}

fn literal(content: &str) -> String {
    let mut out = String::new();
    push_text_literal(&mut out, content);
    out
}

#[test]
fn quoted_string_escapes_backslash_quote_and_carriage_return() {
    assert_eq!(quoted(""), "\"\"");
    assert_eq!(quoted("abc"), "\"abc\"");
    assert_eq!(quoted("\\"), "\"\\\\\"");
    assert_eq!(quoted("\""), "\"\\\"\"");
    assert_eq!(quoted("\r"), "\"\\r\"");
    assert_eq!(quoted("a\"#b\r\nc\\n"), "\"a\\\"#b\\r\nc\\\\n\"");
    assert_eq!(quoted("tab\there \u{e9}\u{1f600}\0"), "\"tab\there \u{e9}\u{1f600}\0\"");
}

#[test]
fn quoted_string_appends() {
    let mut out = String::from("x: ");
    push_quoted_string(&mut out, "a\"b");
    assert_eq!(out, "x: \"a\\\"b\"");
    push_quoted_string(&mut out, "c");
    assert_eq!(out, "x: \"a\\\"b\"\"c\"");
}

#[test]
fn raw_string_holds_what_has_no_closing_mark_and_no_carriage_return() {
    for text in ["", "abc", "\"", "#", "#\"", "\" #", "a\"b#", "\n\t\\", "\"\"", "##"] {
        assert!(text_survives_raw_string(text), "{:?}", text);
    }
    for text in ["\"#", "a\"#", "\"#b", "a\"#b", "\"\"#", "\r", "a\r\n", "\r\"#", "x\"##"] {
        assert!(!text_survives_raw_string(text), "{:?}", text);
    }
}

#[test]
fn text_literal_is_raw_where_it_can_be_and_quoted_elsewhere() {
    assert_eq!(literal("abc"), "r#\"abc\"#");
    assert_eq!(literal(""), "r#\"\"#");
    assert_eq!(literal("a \"b\" \\ # c\n"), "r#\"a \"b\" \\ # c\n\"#");
    assert_eq!(literal("a\"#b"), "\"a\\\"#b\"");
    assert_eq!(literal("a\r\nb"), "\"a\\r\nb\"");
    assert_eq!(literal("\\\"#"), "\"\\\\\\\"#\"");
    let mut out = String::from("v = ");
    push_text_literal(&mut out, "\"#");
    assert_eq!(out, "v = \"\\\"#\"");
}

#[test]
fn text_literals_read_as_source_give_the_texts_back() {
    assert_eq!(literal("a\"#b"), "\"a\\\"#b\"");
    assert_eq!("a\"#b", "a\u{22}\u{23}b");
    assert_eq!(literal("a\r\nb\\"), "\"a\\r\nb\\\\\"");
    assert_eq!("a\r\nb\\", "a\u{d}\u{a}b\u{5c}");
    assert_eq!(literal("plain \"q\""), "r#\"plain \"q\"\"#");
    assert_eq!(r#"plain "q""#, "plain \u{22}q\u{22}");
}
