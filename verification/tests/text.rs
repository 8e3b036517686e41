use agx::text;

fn chars(s: &str) -> Vec<char> {
    s.chars().collect()
}

#[test]
fn chars_and_strings_convert_both_ways() {
    assert_eq!(text::to_chars("héllo ⸢x⸣"), chars("héllo ⸢x⸣"));
    assert_eq!(text::from_chars(&chars("héllo ⸢x⸣")), "héllo ⸢x⸣");
    assert_eq!(text::to_chars(""), Vec::<char>::new());
}

#[test]
fn white_space_is_what_std_calls_white_space() {
    for n in 0u32..0x11000 {
        if let Some(c) = char::from_u32(n) {
            assert_eq!(text::char_is_whitespace(c), c.is_whitespace(), "U+{:04X}", n);
        }
    }
}

#[test]
fn contains_finds_a_pattern_anywhere() {
    assert!(text::str_contains("curl http://x", "curl"));
    assert!(text::str_contains("x curl", "curl"));
    assert!(text::str_contains("abc", ""));
    assert!(text::str_contains("", ""));
    assert!(!text::str_contains("cur", "curl"));
    assert!(!text::str_contains("", "a"));
    assert!(text::str_contains("aab", "ab"));
    assert!(text::matches_at(&chars("aab"), &chars("ab"), 1));
    assert!(!text::matches_at(&chars("aab"), &chars("ab"), 0));
    assert!(!text::matches_at(&chars("aab"), &chars("ab"), 2));
    assert!(!text::matches_at(&chars("aab"), &chars("ab"), 7));
}

#[test]
fn replace_agrees_with_std() {
    let cases = vec![
        ("hello world", "o", "0"),
        ("aaaa", "aa", "b"),
        ("aaa", "aa", "b"),
        ("abcabc", "abc", ""),
        ("abc", "x", "y"),
        ("", "a", "b"),
        ("abab", "ab", "abab"),
        ("x", "xx", "y"),
    ];
    for (s, from, to) in cases {
        let got = text::from_chars(&text::replaced(&chars(s), &chars(from), &chars(to)));
        assert_eq!(got, s.replace(from, to), "{:?} {:?} {:?}", s, from, to);
    }
}

#[test]
fn replace_with_an_empty_pattern_changes_nothing() {
    let got = text::replaced(&chars("abc"), &chars(""), &chars("-"));
    assert_eq!(got, chars("abc"));
}

#[test]
fn trim_agrees_with_std() {
    for s in ["", " ", "  a b \t\n", "a", "\u{a0}x\u{2003}", " \n "] {
        let got = text::from_chars(&text::trimmed(&chars(s)));
        assert_eq!(got, s.trim(), "{:?}", s);
        assert_eq!(text::blank(&chars(s)), s.trim().is_empty(), "{:?}", s);
    }
}

#[test]
fn split_and_join_are_exact() {
    let parts = text::split_at_char(&chars("a//b/"), '/');
    assert_eq!(parts, vec![chars("a"), chars(""), chars("b"), chars("")]);
    assert_eq!(text::split_at_char(&chars(""), '/'), vec![chars("")]);
    assert_eq!(text::joined(&parts, &chars(", ")), chars("a, , b, "));
    assert_eq!(text::joined(&Vec::new(), &chars(", ")), chars(""));
    assert_eq!(text::joined(&vec![chars("x")], &chars(", ")), chars("x"));
}

#[test]
fn numbers_are_written_in_decimal() {
    assert_eq!(text::decimal_string(0), "0");
    assert_eq!(text::decimal_string(7), "7");
    assert_eq!(text::decimal_string(10), "10");
    assert_eq!(text::decimal_string(10001), "10001");
    assert_eq!(
        text::decimal_string(u128::MAX),
        "340282366920938463463374607431768211455"
    );
    assert_eq!(text::signed_decimal_string(-1), "-1");
    assert_eq!(text::signed_decimal_string(0), "0");
    assert_eq!(text::signed_decimal_string(127), "127");
    assert_eq!(text::signed_decimal_string(i64::MIN), "-9223372036854775808");
}

#[test]
fn padding_fills_up_on_the_right() {
    assert_eq!(text::padded_right(&chars("10"), 4, ' '), chars("10  "));
    assert_eq!(text::padded_right(&chars("12345"), 4, ' '), chars("12345"));
    assert_eq!(text::padded_right(&chars(""), 3, '-'), chars("---"));
    assert_eq!(text::without_newlines(&chars("a\nb\n\n")), chars("a\nb"));
    assert_eq!(text::without_newlines(&chars("\n")), chars(""));
}

#[test]
fn strings_compare_and_concatenate() {
    assert!(text::str_eq("abc", "abc"));
    assert!(!text::str_eq("abc", "abd"));
    assert!(!text::str_eq("abc", "ab"));
    assert_eq!(text::concat("a", "b"), "ab");
    assert_eq!(text::concat3("a", "b", "c"), "abc");
    assert_eq!(text::owned("x"), "x");
}
