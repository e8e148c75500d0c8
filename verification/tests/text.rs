use openlogi::ordered_map::KeyOrder;
use openlogi::text::{
    compare_text, has_prefix, is_white_space, push_numeral, spells, to_chars, to_lower, to_lowered,
    to_tokens, to_upper, trimmed,
};

fn text(chars: &Vec<char>) -> String {
    chars.iter().collect()
}

#[test]
fn white_space_is_what_the_standard_library_says() {
    for code in 0..=0x10FFFF_u32 {
        if let Some(c) = char::from_u32(code) {
            assert_eq!(is_white_space(c), c.is_whitespace(), "{code:x}");
        }
    }
}

#[test]
fn case_is_that_of_ascii() {
    for code in 0..=0x10FFFF_u32 {
        if let Some(c) = char::from_u32(code) {
            assert_eq!(to_lower(c), c.to_ascii_lowercase());
            assert_eq!(to_upper(c), c.to_ascii_uppercase());
        }
    }
    assert_eq!(text(&to_lowered(&to_chars("CtRL É"))), "ctrl É");
}

#[test]
fn trimming_takes_white_space_off_both_ends() {
    for s in ["", " ", " a ", "\ta b\n", "\u{3000}x\u{2028}", "x"] {
        assert_eq!(text(&trimmed(&to_chars(s))), s.trim());
    }
}

#[test]
fn tokens_are_the_parts_that_are_not_empty() {
    for s in ["", "+", "a", "a+b", " a + b ", "a++b+", "+ +x", "ab+ cd +ef"] {
        let expected: Vec<String> = s
            .split('+')
            .map(|p| p.trim().to_string())
            .filter(|p| !p.is_empty())
            .collect();
        let found: Vec<String> = to_tokens(&to_chars(s), '+').iter().map(text).collect();
        assert_eq!(found, expected, "{s:?}");
    }
}

#[test]
fn numerals_are_padded_to_their_width() {
    for n in [0_u16, 7, 9, 10, 15, 16, 35, 255, 256, 4095, 65535] {
        let mut hex = String::new();
        push_numeral(&mut hex, n, 16, 2);
        assert_eq!(hex, format!("{n:02X}"));
        let mut decimal = String::new();
        push_numeral(&mut decimal, n, 10, 1);
        assert_eq!(decimal, format!("{n}"));
    }
    let mut appended = "key 0x".to_string();
    push_numeral(&mut appended, 0x4A, 16, 2);
    assert_eq!(appended, "key 0x4A");
}

#[test]
fn texts_compare_like_strings() {
    let texts = ["", "a", "b", "aa", "ab", "Z", "é", "receiver:1", "receiver:10", "\u{10FFFF}"];
    for a in texts {
        for b in texts {
            let expected = match a.cmp(b) {
                std::cmp::Ordering::Less => KeyOrder::Before,
                std::cmp::Ordering::Equal => KeyOrder::Same,
                std::cmp::Ordering::Greater => KeyOrder::After,
            };
            assert_eq!(compare_text(a, b), expected, "{a:?} {b:?}");
        }
    }
}

#[test]
fn prefixes_are_found() {
    for (s, prefix) in [("abc", "ab"), ("abc", ""), ("", ""), ("ab", "abc"), ("xbc", "ab"), ("é", "é")] {
        assert_eq!(has_prefix(s, prefix), s.starts_with(prefix));
    }
}

#[test]
fn spelling_is_exact() {
    assert!(spells(&to_chars("tab"), "tab"));
    assert!(!spells(&to_chars("tab"), "Tab"));
    assert!(!spells(&to_chars("tab"), "ta"));
    assert!(!spells(&to_chars("ta"), "tab"));
}
