use rollbar_rust::text::{
    after_prefix, chars_of, ends_with, parse_u64, same_text, split_whitespace, starts_with,
    whitespace,
};

#[test]
fn chars_and_equality() {
    assert_eq!(chars_of("héllo"), vec!['h', 'é', 'l', 'l', 'o']);
    assert_eq!(chars_of(""), Vec::<char>::new());
    assert!(same_text("abc", "abc"));
    assert!(!same_text("abc", "abd"));
    assert!(!same_text("abc", "ab"));
    assert!(same_text("", ""));
}

#[test]
fn prefixes_and_suffixes() {
    assert!(starts_with("app:web", "app:"));
    assert!(starts_with("app:", "app:"));
    assert!(!starts_with("app", "app:"));
    assert!(!starts_with("xapp:web", "app:"));
    assert!(starts_with("anything", ""));
    assert!(ends_with("rollbar-agent.conf", ".conf"));
    assert!(!ends_with("rollbar-agent.conf.bak", ".conf"));
    assert!(ends_with(".toml", ".toml"));
    assert!(!ends_with("toml", ".toml"));
    assert!(ends_with("", ""));
}

#[test]
fn text_after_a_prefix() {
    assert_eq!(after_prefix("app:web", 4), "web");
    assert_eq!(after_prefix("app:", 4), "");
    assert_eq!(after_prefix("params.access_token", 7), "access_token");
    assert_eq!(after_prefix("é:x", 2), "x");
    assert_eq!(after_prefix("abc", 0), "abc");
}

#[test]
fn whitespace_is_what_std_says() {
    for n in 0..=0x3100u32 {
        if let Some(c) = char::from_u32(n) {
            assert_eq!(whitespace(c), c.is_whitespace(), "U+{:04X}", n);
        }
    }
    assert!(!whitespace('\u{FEFF}'));
    assert!(!whitespace('\u{10FFFF}'));
}

#[test]
fn words_are_split_like_std() {
    for text in [
        "",
        " ",
        "one",
        " one",
        "one ",
        "one two",
        "  one \t two\nthree  ",
        "a\u{3000}b\u{a0}c",
        "log rollbar",
        "\u{2003}x",
    ] {
        let expected: Vec<String> = text.split_whitespace().map(|w| w.to_string()).collect();
        assert_eq!(split_whitespace(text), expected, "{:?}", text);
    }
    assert_eq!(split_whitespace("  a  bb ccc "), vec!["a", "bb", "ccc"]);
}

#[test]
fn numbers_are_parsed_like_std() {
    for text in [
        "0",
        "7",
        "007",
        "+5",
        "10",
        "18446744073709551615",
        "18446744073709551616",
        "99999999999999999999999",
        "",
        "+",
        "-",
        "-1",
        "-0",
        "++1",
        "+-1",
        "1+",
        " 1",
        "1 ",
        "1a",
        "abc",
        "１２",
        "1_000",
        "0x10",
    ] {
        assert_eq!(parse_u64(text), text.parse::<u64>().ok(), "{:?}", text);
    }
    assert_eq!(parse_u64("42"), Some(42));
    assert_eq!(parse_u64("18446744073709551615"), Some(u64::MAX));
    assert_eq!(parse_u64("18446744073709551616"), None);
}
