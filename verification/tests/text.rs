use a_bean_sieve::text::{
    contains, contains_chars, parse_u16, str_equals, to_chars, trim, u64_to_string, white_space,
};

#[test]
fn substring_search() {
    assert!(contains("http://example.com/path", "example.com"));
    assert!(!contains("example.com", "http://example.com/path"));
    assert!(contains("abc", ""));
    assert!(contains("", ""));
    assert!(!contains("", "a"));
    assert!(contains("abc", "abc"));
    assert!(contains("aab", "ab"));
    assert!(!contains("abc", "abd"));
    assert!(contains("na\u{ef}ve", "\u{ef}v"));
}

#[test]
fn substring_search_agrees_with_std() {
    let samples = ["", "a", "ab", "ba", "aba", "abab", "example.com", "http://example.com/"];
    for hay in samples {
        for needle in samples {
            assert_eq!(contains(hay, needle), hay.contains(needle));
        }
    }
}

#[test]
fn characters_of_a_text() {
    assert_eq!(to_chars("a\u{e9}z"), vec!['a', '\u{e9}', 'z']);
    assert!(to_chars("").is_empty());
    assert!(contains_chars(&vec!['a', 'b', 'c'], &vec!['b', 'c']));
    assert!(!contains_chars(&vec!['a', 'b', 'c'], &vec!['c', 'b']));
}

#[test]
fn text_equality() {
    assert!(str_equals("CONNECT", "CONNECT"));
    assert!(!str_equals("CONNECT", "connect"));
    assert!(str_equals("", ""));
}

#[test]
fn decimal_numerals() {
    assert_eq!(u64_to_string(0), "0");
    assert_eq!(u64_to_string(7), "7");
    assert_eq!(u64_to_string(10), "10");
    assert_eq!(u64_to_string(65535), "65535");
    assert_eq!(u64_to_string(1234567890), "1234567890");
    assert_eq!(u64_to_string(u64::MAX), "18446744073709551615");
}

#[test]
fn decimal_numerals_agree_with_std() {
    let mut n: u64 = 1;
    for _ in 0..19 {
        assert_eq!(u64_to_string(n), n.to_string());
        assert_eq!(u64_to_string(n - 1), (n - 1).to_string());
        n *= 10;
    }
}

#[test]
fn reading_a_port_number() {
    assert_eq!(parse_u16("8080"), Some(8080));
    assert_eq!(parse_u16("0"), Some(0));
    assert_eq!(parse_u16("65535"), Some(65535));
    assert_eq!(parse_u16("65536"), None);
    assert_eq!(parse_u16("+80"), Some(80));
    assert_eq!(parse_u16("00080"), Some(80));
    assert_eq!(parse_u16(""), None);
    assert_eq!(parse_u16("+"), None);
    assert_eq!(parse_u16("-1"), None);
    assert_eq!(parse_u16("++1"), None);
    assert_eq!(parse_u16("80 "), None);
    assert_eq!(parse_u16(" 80"), None);
    assert_eq!(parse_u16("8o"), None);
    assert_eq!(parse_u16("999999999999999999999999"), None);
    assert_eq!(parse_u16("\u{663}"), None);
}

#[test]
fn reading_a_port_number_agrees_with_std() {
    let samples = [
        "", "+", "-", "0", "+0", "-0", "1", "01", "65535", "65536", "065535", "+65535", "1a",
        "a1", " 1", "1 ", "99999", "100000", "4294967296",
    ];
    for text in samples {
        assert_eq!(parse_u16(text), text.parse::<u16>().ok());
    }
}

#[test]
fn white_space_agrees_with_std_on_every_character() {
    let mut code: u32 = 0;
    while code <= 0x10FFFF {
        if let Some(c) = char::from_u32(code) {
            assert_eq!(white_space(c), c.is_whitespace(), "U+{:04X}", code);
        }
        code += 1;
    }
}

#[test]
fn trimming() {
    assert_eq!(trim("  8080 "), "8080");
    assert_eq!(trim("8080"), "8080");
    assert_eq!(trim(""), "");
    assert_eq!(trim(" \t\r\n"), "");
    assert_eq!(trim("\u{3000}a b\u{a0}"), "a b");
    assert_eq!(trim("a"), "a");
    assert_eq!(trim(" \u{e9}t\u{e9} "), "\u{e9}t\u{e9}");
}

#[test]
fn trimming_agrees_with_std() {
    let samples = [
        "", " ", "  ", "a", " a", "a ", " a ", "\ta\n", "a b", " a b ", "\u{2003}x\u{2003}",
        "\u{200b}x", "x\u{feff}", "\u{85}\u{1680}y\u{2028}\u{2029}", "\r\n",
    ];
    for text in samples {
        assert_eq!(trim(text), text.trim());
    }
}
