use print_agent::text::{
    blank, decimal_text, double_quotes, first_chars, is_whitespace, same_but_case, same_text,
    split_lines, strip_trailing, three_digits, trimmed, word_after,
};

#[test]
fn white_space_is_the_unicode_property() {
    for code in 0u32..0x11_0000 {
        if let Some(c) = char::from_u32(code) {
            assert_eq!(is_whitespace(c), c.is_whitespace(), "U+{:04X}", code);
        }
    }
}

#[test]
fn trimming_agrees_with_std() {
    for s in ["", " ", "  a b \t", "\u{2003}x\u{3000}", "x", "\u{200b}x\u{200b}"] {
        assert_eq!(trimmed(s), s.trim());
        assert_eq!(blank(s), s.trim().is_empty());
    }
}

#[test]
fn lines_agree_with_std() {
    for s in ["", "\n", "a", "a\n", "a\r\nb", "a\rb\n", "a\r\r\nb\r", "\n\na", "\r\n\r\n", "a\nb\r"] {
        let expected: Vec<&str> = s.lines().collect();
        assert_eq!(split_lines(s), expected, "{:?}", s);
    }
}

#[test]
fn words_after_a_prefix() {
    assert_eq!(word_after("printer Zebra is idle", "printer "), Some("Zebra".to_string()));
    assert_eq!(word_after("printer \t Zebra", "printer "), Some("Zebra".to_string()));
    assert_eq!(word_after("printer ", "printer "), None);
    assert_eq!(word_after("printer", "printer "), None);
    assert_eq!(word_after("Printer Zebra", "printer "), None);
    assert_eq!(word_after("", "printer "), None);
}

#[test]
fn trailing_characters_are_stripped() {
    assert_eq!(strip_trailing("https://x///", '/'), "https://x");
    assert_eq!(strip_trailing("///", '/'), "");
    assert_eq!(strip_trailing("/a", '/'), "/a");
}

#[test]
fn ascii_case_is_ignored() {
    assert!(same_but_case("PdF", "pdf"));
    assert!(!same_but_case("pdf", "pdfx"));
    assert!(!same_but_case("pde", "pdf"));
    assert!(!same_but_case("É", "é"));
    assert_eq!(same_but_case("@[`{", "@[`{"), true);
    assert!(!same_but_case("@", "`"));
}

#[test]
fn quotes_are_doubled() {
    assert_eq!(double_quotes("O'Brien's"), "O''Brien''s");
    assert_eq!(double_quotes("''"), "''''");
    assert_eq!(double_quotes("plain"), "plain");
}

#[test]
fn numbers_in_decimal() {
    assert_eq!(decimal_text(0), "0");
    assert_eq!(decimal_text(10), "10");
    assert_eq!(decimal_text(1234567890), "1234567890");
    assert_eq!(decimal_text(u128::MAX), u128::MAX.to_string());
    for n in [0u32, 7, 42, 99, 100, 999, 1000, u32::MAX] {
        assert_eq!(three_digits(n), format!("{:03}", n));
    }
}

#[test]
fn beginnings_are_counted_in_characters() {
    assert_eq!(first_chars("żółwżółw-rest", 8), "żółwżółw");
    assert_eq!(first_chars("short", 8), "short");
    assert!(same_text("a", "a"));
    assert!(!same_text("a", "b"));
}
