use deadlock_rpc::numbers::{decimal_chars, parse_i64_chars, parse_u32_chars, parse_u64_chars};
use deadlock_rpc::text::{
    chars_eq, chars_of, contains, is_whitespace, replace_chars, split_lines, starts_with,
    str_contains, str_eq, strip_prefix_all_chars, trim_chars, trim_str,
};

fn chars(s: &str) -> Vec<char> {
    s.chars().collect()
}

fn string(v: &[char]) -> String {
    v.iter().collect()
}

#[test]
fn characters_of_a_string() {
    assert_eq!(chars_of("a\u{2022}b"), vec!['a', '\u{2022}', 'b']);
    assert!(chars_of("").is_empty());
}

#[test]
fn whitespace_classes() {
    assert!(is_whitespace(' '));
    assert!(is_whitespace('\t'));
    assert!(is_whitespace('\u{3000}'));
    assert!(!is_whitespace('x'));
    assert!(!is_whitespace('\u{200b}'));
}

#[test]
fn search_and_compare() {
    assert!(starts_with(&chars("hero_haze"), &chars("hero_")));
    assert!(!starts_with(&chars("her"), &chars("hero_")));
    assert!(contains(&chars("k_eJoinedParty"), &chars("Joined")));
    assert!(contains(&chars("abc"), &chars("")));
    assert!(!contains(&chars("abc"), &chars("abcd")));
    assert!(chars_eq(&chars("same"), &chars("same")));
    assert!(!chars_eq(&chars("same"), &chars("Same")));
    assert!(str_contains("loopback:0", "loopback"));
    assert!(str_eq("dl_hideout", "dl_hideout"));
    assert!(!str_eq("dl_hideout", "dl_hideout2"));
}

#[test]
fn trimming() {
    assert_eq!(trim_str("  \t a b \n"), "a b");
    assert_eq!(trim_str("   "), "");
    assert_eq!(string(&trim_chars(&chars("\u{3000}x\u{a0}"))), "x");
}

#[test]
fn replacing() {
    assert_eq!(string(&replace_chars(&chars("{a}{a}"), &chars("{a}"), &chars("x"))), "xx");
    assert_eq!(string(&replace_chars(&chars("aaa"), &chars("aa"), &chars("b"))), "ba");
}

#[test]
fn stripping_repeated_prefixes() {
    assert_eq!(string(&strip_prefix_all_chars(&chars("vvv1.0"), &chars("v"))), "1.0");
    assert_eq!(string(&strip_prefix_all_chars(&chars("hero_hero_x"), &chars("hero_"))), "x");
    assert_eq!(string(&strip_prefix_all_chars(&chars("x"), &chars("hero_"))), "x");
}

#[test]
fn lines_as_str_lines_splits_them() {
    assert_eq!(split_lines("a\nb\r\nc"), vec!["a", "b", "c"]);
    assert_eq!(split_lines("a\n"), vec!["a"]);
    assert_eq!(split_lines("a\n\n"), vec!["a", ""]);
    assert_eq!(split_lines("\n"), vec![""]);
    assert!(split_lines("").is_empty());
    assert_eq!(split_lines("a\r"), vec!["a\r"]);
    let text = "one\r\ntwo\n\nthree\r";
    let expected: Vec<&str> = text.lines().collect();
    assert_eq!(split_lines(text), expected);
}

#[test]
fn parsing_unsigned_numbers() {
    assert_eq!(parse_u64_chars(&chars("12345")), Some(12345));
    assert_eq!(parse_u64_chars(&chars("+7")), Some(7));
    assert_eq!(parse_u64_chars(&chars("18446744073709551615")), Some(u64::MAX));
    assert_eq!(parse_u64_chars(&chars("18446744073709551616")), None);
    assert_eq!(parse_u64_chars(&chars("")), None);
    assert_eq!(parse_u64_chars(&chars("+")), None);
    assert_eq!(parse_u64_chars(&chars("-1")), None);
    assert_eq!(parse_u64_chars(&chars("1a")), None);
    assert_eq!(parse_u32_chars(&chars("4294967295")), Some(u32::MAX));
    assert_eq!(parse_u32_chars(&chars("4294967296")), None);
    assert_eq!(parse_u32_chars(&chars("007")), Some(7));
}

#[test]
fn parsing_signed_numbers() {
    assert_eq!(parse_i64_chars(&chars("-1")), Some(-1));
    assert_eq!(parse_i64_chars(&chars("0")), Some(0));
    assert_eq!(parse_i64_chars(&chars("+42")), Some(42));
    assert_eq!(parse_i64_chars(&chars("-9223372036854775808")), Some(i64::MIN));
    assert_eq!(parse_i64_chars(&chars("9223372036854775808")), None);
    assert_eq!(parse_i64_chars(&chars("-")), None);
    assert_eq!(parse_i64_chars(&chars("--1")), None);
}

#[test]
fn parsing_agrees_with_std() {
    for s in ["0", "+0", "-0", "12", "+12", "-12", "", "+", "-", " 1", "1 ", "99999999999999999999"] {
        assert_eq!(parse_u64_chars(&chars(s)), s.parse::<u64>().ok(), "u64 {:?}", s);
        assert_eq!(parse_u32_chars(&chars(s)), s.parse::<u32>().ok(), "u32 {:?}", s);
        assert_eq!(parse_i64_chars(&chars(s)), s.parse::<i64>().ok(), "i64 {:?}", s);
    }
}

#[test]
fn writing_numbers() {
    assert_eq!(string(&decimal_chars(0)), "0");
    assert_eq!(string(&decimal_chars(12345)), "12345");
    assert_eq!(string(&decimal_chars(u64::MAX)), u64::MAX.to_string());
}
