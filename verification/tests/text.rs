use lursystem::handlers::audit::short_correlation;
use lursystem::text::{
    chars_of, contains_char, copy_text, decimal_text, is_white_space, join, parse_i64, same_text,
    trim, truncate,
};

#[test]
fn white_space_is_that_of_char() {
    for n in 0..=0x10ffff_u32 {
        if let Some(c) = char::from_u32(n) {
            assert_eq!(is_white_space(c), c.is_whitespace(), "{:?}", c);
        }
    }
}

#[test]
fn trimming_is_that_of_str() {
    for text in [
        "",
        " ",
        "a",
        " a",
        "a ",
        "\t a b \r\n",
        "\u{a0}å\u{3000}",
        "\u{2003}\u{2003}",
        "\u{200b}x",
    ] {
        assert_eq!(trim(text), text.trim());
    }
}

#[test]
fn texts_are_compared_by_their_characters() {
    assert!(same_text("", ""));
    assert!(same_text("å", "å"));
    assert!(!same_text("a", "A"));
    assert!(!same_text("ab", "abc"));
    assert!(!same_text("abc", "ab"));
    assert_eq!(chars_of("aå"), vec!['a', 'å']);
    assert!(contains_char("a@b", '@'));
    assert!(!contains_char("ab", '@'));
    assert!(!contains_char("", '@'));
}

#[test]
fn numbers_are_written_as_display_does() {
    for n in [0, 1, 9, 10, 99, 100, 1234567890, -1, -10, i64::MAX, i64::MIN] {
        assert_eq!(decimal_text(n), n.to_string());
        assert_eq!(parse_i64(&decimal_text(n)), Some(n));
    }
}

#[test]
fn numbers_are_read_as_parse_does() {
    for text in [
        "",
        "+",
        "-",
        "0",
        "-0",
        "+0",
        "007",
        "+7",
        "-7",
        "--7",
        "+-7",
        " 7",
        "7 ",
        "7a",
        "1_000",
        "٣",
        "9223372036854775807",
        "9223372036854775808",
        "-9223372036854775808",
        "-9223372036854775809",
        "99999999999999999999999999",
        "00000000000000000000000000001",
    ] {
        assert_eq!(parse_i64(text), text.parse::<i64>().ok(), "{:?}", text);
    }
}

#[test]
fn texts_are_joined() {
    let parts = vec!["a".to_string(), "".to_string(), "b".to_string()];
    assert_eq!(join(&parts, ", "), "a, , b");
    assert_eq!(join(&vec![], ", "), "");
    assert_eq!(join(&vec!["x".to_string()], "&"), "x");
    assert_eq!(copy_text(&Some("x".to_string())), Some("x".to_string()));
    assert_eq!(copy_text(&None), None);
}

#[test]
fn texts_are_cut_by_characters() {
    assert_eq!(truncate("åäö", 3), "åäö");
    assert_eq!(truncate("åäö", 2), "åä…");
    assert_eq!(truncate("åäö", 0), "…");
    assert_eq!(truncate("", 0), "");
}

#[test]
fn correlation_ids_are_cut_by_bytes() {
    assert_eq!(
        short_correlation("9f3e1c2a-1111-2222-3333-444455556666"),
        "9f3e1c2a…"
    );
    assert_eq!(short_correlation("12345678"), "12345678");
    assert_eq!(short_correlation("123456789"), "12345678…");
    assert_eq!(short_correlation("ååååå"), "åååå…");
    assert_eq!(short_correlation("åååå"), "åååå");
    assert_eq!(short_correlation(""), "");
}
