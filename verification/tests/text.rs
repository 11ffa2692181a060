use chessbench::text::{
    char_is_whitespace, clone_strings, decimal_string, push_decimal, same_text, strip_prefix, trim,
};

#[test]
fn trim_agrees_with_std_on_samples() {
    let samples = [
        "",
        " ",
        "uciok",
        "  uciok\r\n",
        "\t id name  Stockfish 16 \n",
        "\u{a0}a\u{3000}",
        "\u{2003}x y\u{2028}",
        "\u{85}\u{1680}\u{205f}",
        "a\u{200b}",
        "\u{feff}a",
    ];
    for sample in samples {
        assert_eq!(trim(sample), sample.trim());
    }
}

#[test]
fn whitespace_agrees_with_std_on_every_char() {
    let mut code: u32 = 0;
    while code <= 0x10ffff {
        if let Some(c) = char::from_u32(code) {
            assert_eq!(char_is_whitespace(c), c.is_whitespace(), "U+{:04X}", code);
        }
        code += 1;
    }
}

#[test]
fn strip_prefix_splits_at_the_prefix() {
    assert_eq!(strip_prefix("bestmove e2e4", "bestmove "), Some("e2e4"));
    assert_eq!(strip_prefix("bestmove ", "bestmove "), Some(""));
    assert_eq!(strip_prefix("bestmove", "bestmove "), None);
    assert_eq!(strip_prefix("info depth 1", "bestmove "), None);
    assert_eq!(strip_prefix("", ""), Some(""));
    assert_eq!(strip_prefix("é\u{1f600}x", "é\u{1f600}"), Some("x"));
}

#[test]
fn same_text_compares_characters() {
    assert!(same_text("uciok", "uciok"));
    assert!(!same_text("uciok", "uciok "));
    assert!(!same_text("uciok", "ucioK"));
    assert!(same_text("", ""));
}

#[test]
fn decimal_of_small_and_large_numbers() {
    assert_eq!(decimal_string(0), "0");
    assert_eq!(decimal_string(7), "7");
    assert_eq!(decimal_string(10), "10");
    assert_eq!(decimal_string(298800), "298800");
    assert_eq!(decimal_string(u64::MAX), "18446744073709551615");
}

#[test]
fn push_decimal_appends() {
    let mut out = String::from("wtime ");
    push_decimal(&mut out, 1200);
    assert_eq!(out, "wtime 1200");
}

#[test]
fn clone_strings_copies_in_order() {
    let strings = vec!["-threads".to_string(), "4".to_string()];
    assert_eq!(clone_strings(&strings), strings);
    assert!(clone_strings(&Vec::new()).is_empty());
}
