use polish_language::text::{
    chars_of, contains, decimal_text, equal, is_blank, is_whitespace, preview, trim,
    PREVIEW_KEPT, PREVIEW_LIMIT,
};

#[test]
fn whitespace_agrees_with_the_unicode_property_on_every_character() {
    let mut code: u32 = 0;
    while code <= 0x10FFFF {
        if let Some(c) = char::from_u32(code) {
            assert_eq!(is_whitespace(c), c.is_whitespace(), "U+{:04X}", code);
        }
        code += 1;
    }
}

#[test]
fn whitespace_named_characters() {
    assert!(is_whitespace(' '));
    assert!(is_whitespace('\t'));
    assert!(is_whitespace('\n'));
    assert!(is_whitespace('\r'));
    assert!(is_whitespace('\u{000B}'));
    assert!(is_whitespace('\u{000C}'));
    assert!(is_whitespace('\u{0085}'));
    assert!(is_whitespace('\u{00A0}'));
    assert!(is_whitespace('\u{1680}'));
    assert!(is_whitespace('\u{2000}'));
    assert!(is_whitespace('\u{200A}'));
    assert!(is_whitespace('\u{2028}'));
    assert!(is_whitespace('\u{2029}'));
    assert!(is_whitespace('\u{202F}'));
    assert!(is_whitespace('\u{205F}'));
    assert!(is_whitespace('\u{3000}'));
    assert!(!is_whitespace('a'));
    assert!(!is_whitespace('\u{0008}'));
    assert!(!is_whitespace('\u{000E}'));
    assert!(!is_whitespace('\u{200B}'));
    assert!(!is_whitespace('\u{180E}'));
    assert!(!is_whitespace('\u{FEFF}'));
}

#[test]
fn chars_of_lists_characters_in_order() {
    assert_eq!(chars_of(""), Vec::<char>::new());
    assert_eq!(chars_of("abc"), vec!['a', 'b', 'c']);
    assert_eq!(chars_of("héllo ✓"), vec!['h', 'é', 'l', 'l', 'o', ' ', '✓']);
}

#[test]
fn equal_compares_by_characters() {
    assert!(equal("", ""));
    assert!(equal("gemini", "gemini"));
    assert!(!equal("gemini", "Gemini"));
    assert!(!equal("gemini", "gemini "));
    assert!(!equal("abc", "abd"));
    assert!(!equal("", "a"));
}

#[test]
fn blank_texts() {
    assert!(is_blank(""));
    assert!(is_blank(" "));
    assert!(is_blank(" \t\r\n"));
    assert!(is_blank("\u{00A0}\u{3000}"));
    assert!(!is_blank("a"));
    assert!(!is_blank("  a  "));
    assert!(!is_blank("\u{200B}"));
}

#[test]
fn blank_agrees_with_trimming_to_nothing() {
    let samples = ["", " ", "\n\n", " x ", "x", "\t\u{2003}", "\u{200B}", " . "];
    for s in samples {
        assert_eq!(is_blank(s), s.trim().is_empty(), "{:?}", s);
        assert_eq!(is_blank(s), trim(s).is_empty(), "{:?}", s);
    }
}

#[test]
fn trim_removes_surrounding_whitespace() {
    assert_eq!(trim("  Hello.  "), "Hello.");
    assert_eq!(trim("Hello."), "Hello.");
    assert_eq!(trim("\n\tHello, world \r\n"), "Hello, world");
    assert_eq!(trim(""), "");
    assert_eq!(trim("   "), "");
    assert_eq!(trim(" a  b "), "a  b");
    assert_eq!(trim("\u{3000}日本語\u{00A0}"), "日本語");
    assert_eq!(trim("x "), "x");
    assert_eq!(trim(" x"), "x");
}

#[test]
fn trim_agrees_with_std() {
    let samples = [
        "",
        " ",
        "a",
        " a",
        "a ",
        "  a b  c  ",
        "\u{2028}x\u{2029}",
        "\u{200B} x \u{200B}",
        "\t\n\u{000B}\u{000C}\r x",
        "żółć ",
    ];
    for s in samples {
        assert_eq!(trim(s), s.trim(), "{:?}", s);
    }
}

#[test]
fn preview_of_150_characters_keeps_97_and_marks_the_cut() {
    let text: String = "abcdefghij".repeat(15);
    assert_eq!(text.chars().count(), 150);
    let shown = preview(&text);
    let expected = format!("{}...", &text[..97]);
    assert_eq!(shown, expected);
    assert_eq!(shown.chars().count(), 100);
}

#[test]
fn preview_of_50_characters_is_unchanged() {
    let text: String = "abcde".repeat(10);
    assert_eq!(text.chars().count(), 50);
    assert_eq!(preview(&text), text);
}

#[test]
fn preview_at_the_limit() {
    let exactly: String = "x".repeat(100);
    assert_eq!(preview(&exactly), exactly);
    let over: String = "x".repeat(101);
    assert_eq!(preview(&over), format!("{}...", "x".repeat(97)));
    assert_eq!(preview(""), "");
    assert_eq!(PREVIEW_LIMIT, 100);
    assert_eq!(PREVIEW_KEPT, 97);
}

#[test]
fn preview_counts_characters_not_bytes() {
    let text: String = "é".repeat(60);
    assert_eq!(text.len(), 120);
    assert_eq!(preview(&text), text);
    let long: String = "日".repeat(120);
    let expected = format!("{}...", "日".repeat(97));
    assert_eq!(preview(&long), expected);
}

#[test]
fn contains_finds_substrings() {
    assert!(contains("https://host/v1beta/models/m:generateContent", "generateContent"));
    assert!(contains("generateContent", "generateContent"));
    assert!(contains("xgenerateContenty", "generateContent"));
    assert!(!contains("https://host/generateConten", "generateContent"));
    assert!(!contains("https://host/generatecontent", "generateContent"));
    assert!(!contains("", "generateContent"));
    assert!(contains("", ""));
    assert!(contains("abc", ""));
    assert!(contains("aab", "ab"));
    assert!(contains("abab", "bab"));
    assert!(!contains("abab", "bb"));
}

#[test]
fn contains_agrees_with_std() {
    let hays = ["", "a", "ab", "aab", "abcabc", "generategenerateContent", "ééé✓"];
    let needles = ["", "a", "b", "ab", "bc", "ca", "generateContent", "é✓", "✓é"];
    for h in hays {
        for n in needles {
            assert_eq!(contains(h, n), h.contains(n), "{:?} in {:?}", n, h);
        }
    }
}

#[test]
fn decimal_text_writes_base_ten() {
    assert_eq!(decimal_text(0), "0");
    assert_eq!(decimal_text(7), "7");
    assert_eq!(decimal_text(10), "10");
    assert_eq!(decimal_text(404), "404");
    assert_eq!(decimal_text(1000), "1000");
    assert_eq!(decimal_text(65535), "65535");
    assert_eq!(decimal_text(u64::MAX), "18446744073709551615");
}

#[test]
fn decimal_text_agrees_with_std_for_every_status() {
    let mut n: u64 = 0;
    while n <= 65535 {
        assert_eq!(decimal_text(n), n.to_string());
        n += 1;
    }
}
