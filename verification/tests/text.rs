use pfman::text::{
    at_boundary, chars_of, contains_text, copy_opt_text, copy_texts, decimal_text, is_empty_text,
    is_whitespace, join_from, lines_of, parse_u16, split_words, text_is, trim_text,
};

#[test]
fn characters_are_listed_in_order() {
    assert_eq!(chars_of("aé█"), vec!['a', 'é', '█']);
    assert!(chars_of("").is_empty());
}

#[test]
fn numerals_have_no_leading_zeros() {
    assert_eq!(decimal_text(0), "0");
    assert_eq!(decimal_text(7), "7");
    assert_eq!(decimal_text(10), "10");
    assert_eq!(decimal_text(65535), "65535");
    assert_eq!(decimal_text(u64::MAX), "18446744073709551615");
    for n in [1u64, 99, 100, 1234567890, 9007199254740993] {
        assert_eq!(decimal_text(n), n.to_string());
    }
}

#[test]
fn search_finds_contiguous_runs_only() {
    assert!(contains_text("hello world", "lo w"));
    assert!(contains_text("hello", "hello"));
    assert!(contains_text("hello", ""));
    assert!(contains_text("", ""));
    assert!(!contains_text("", "a"));
    assert!(!contains_text("hello", "hellos"));
    assert!(!contains_text("hello", "hlo"));
    assert!(contains_text("aab", "ab"));
    assert!(contains_text("naïve café", "ve c"));
    assert!(!contains_text("cafe", "é"));
    for (hay, needle) in [("abcabc", "cab"), ("abc", "abcd"), ("xyz", "z"), ("xyz", "zx")] {
        assert_eq!(contains_text(hay, needle), hay.contains(needle));
    }
}

#[test]
fn lines_end_at_line_feeds() {
    assert!(lines_of("").is_empty());
    assert_eq!(lines_of("a"), vec!["a"]);
    assert_eq!(lines_of("a\n"), vec!["a"]);
    assert_eq!(lines_of("\n"), vec![""]);
    assert_eq!(lines_of("a\n\nb"), vec!["a", "", "b"]);
    assert_eq!(lines_of("a\r\nb\r"), vec!["a", "b\r"]);
    assert_eq!(lines_of("a\rb\n"), vec!["a\rb"]);
    assert_eq!(lines_of("\r\n\r\n"), vec!["", ""]);
    assert_eq!(lines_of("a\r\r\n"), vec!["a\r"]);
    for text in ["x\ny\n\n", "\n\nx", "é\r\n█", "one", "\r", "\r\n", "a\n\r\nb\n\r"] {
        let expected: Vec<String> = text.lines().map(|l| l.to_string()).collect();
        assert_eq!(lines_of(text), expected);
    }
}

#[test]
fn words_are_runs_without_white_space() {
    assert!(split_words("").is_empty());
    assert!(split_words(" \t\n").is_empty());
    assert_eq!(split_words("one"), vec!["one"]);
    assert_eq!(split_words("  Host   web\tdb \n"), vec!["Host", "web", "db"]);
    assert_eq!(split_words("a\u{a0}b\u{3000}c"), vec!["a", "b", "c"]);
    for text in [" x", "x ", "a  b", "é █", "\u{2003}wide\u{2003}"] {
        let expected: Vec<String> = text.split_whitespace().map(|w| w.to_string()).collect();
        assert_eq!(split_words(text), expected);
    }
}

#[test]
fn trimming_takes_white_space_off_both_ends() {
    assert_eq!(trim_text(""), "");
    assert_eq!(trim_text("   "), "");
    assert_eq!(trim_text("x"), "x");
    assert_eq!(trim_text("  a b \n"), "a b");
    assert_eq!(trim_text("\u{a0}é \t"), "é");
    assert_eq!(trim_text("a"), "a");
    assert_eq!(trim_text(" a"), "a");
    assert_eq!(trim_text("a "), "a");
}

#[test]
fn numbers_are_parsed_strictly() {
    assert_eq!(parse_u16("0"), Some(0));
    assert_eq!(parse_u16("22"), Some(22));
    assert_eq!(parse_u16("+22"), Some(22));
    assert_eq!(parse_u16("00022"), Some(22));
    assert_eq!(parse_u16("65535"), Some(65535));
    assert_eq!(parse_u16("65536"), None);
    assert_eq!(parse_u16("99999999999999999999"), None);
    assert_eq!(parse_u16(""), None);
    assert_eq!(parse_u16("+"), None);
    assert_eq!(parse_u16("-1"), None);
    assert_eq!(parse_u16("-0"), None);
    assert_eq!(parse_u16("++1"), None);
    assert_eq!(parse_u16(" 1"), None);
    assert_eq!(parse_u16("1 "), None);
    assert_eq!(parse_u16("1a"), None);
    assert_eq!(parse_u16("١٢"), None);
    for text in ["7", "+0", "0x10", "65535", "65536", "655350", "+", "12.5", "1_000"] {
        assert_eq!(parse_u16(text), text.parse::<u16>().ok());
    }
}

#[test]
fn joining_puts_the_separator_between_neighbours() {
    let parts = vec!["a".to_string(), String::new(), "c".to_string()];
    assert_eq!(join_from(&parts, 0, ", "), "a, , c");
    assert_eq!(join_from(&parts, 1, " "), " c");
    assert_eq!(join_from(&parts, 2, " "), "c");
    assert_eq!(join_from(&parts, 3, " "), "");
    assert_eq!(join_from(&parts, 4, " "), "");
    assert_eq!(join_from(&Vec::new(), 0, " "), "");
}

#[test]
fn small_helpers_behave() {
    assert!(is_empty_text(""));
    assert!(!is_empty_text(" "));
    assert!(text_is(&"host".to_string(), "host"));
    assert!(!text_is(&"Host".to_string(), "host"));
    assert_eq!(copy_opt_text(&Some("x".to_string())), Some("x".to_string()));
    assert_eq!(copy_opt_text(&None), None);
    let list = vec!["a".to_string(), "b".to_string()];
    assert_eq!(copy_texts(&list), list);
}

#[test]
fn white_space_is_what_unicode_says() {
    for c in ['\t', '\n', '\u{b}', '\u{c}', '\r', ' ', '\u{85}', '\u{a0}', '\u{1680}', '\u{2000}',
        '\u{200a}', '\u{2028}', '\u{2029}', '\u{202f}', '\u{205f}', '\u{3000}']
    {
        assert!(is_whitespace(c));
    }
    for c in ['a', '0', '\u{8}', '\u{e}', '\u{1f}', '\u{200b}', '\u{180e}', '\u{feff}', '\u{2060}'] {
        assert!(!is_whitespace(c));
    }
    let mut code: u32 = 0;
    while code <= 0x10FFFF {
        if let Some(c) = char::from_u32(code) {
            assert_eq!(is_whitespace(c), c.is_whitespace());
        }
        code += 1;
    }
}

#[test]
fn boundaries_lie_between_characters() {
    assert!(at_boundary("", 0));
    assert!(!at_boundary("", 1));
    assert!(at_boundary("aé█", 0));
    assert!(at_boundary("aé█", 1));
    assert!(!at_boundary("aé█", 2));
    assert!(at_boundary("aé█", 3));
    assert!(!at_boundary("aé█", 4));
    assert!(!at_boundary("aé█", 5));
    assert!(at_boundary("aé█", 6));
    assert!(!at_boundary("aé█", 7));
}
