use trusttunnel_keenetic::decimal::{decimal_chars, parse_unsigned_chars, push_signed_decimal};
use trusttunnel_keenetic::text::{
    char_is_whitespace, chars_contain, chars_of, chars_to_lower, chars_to_upper, split_lines,
    split_on, split_words, str_eq, string_of, trim_chars, trim_start_chars,
};

fn cs(s: &str) -> Vec<char> {
    s.chars().collect()
}

fn strs(v: Vec<Vec<char>>) -> Vec<String> {
    v.iter().map(|w| w.iter().collect()).collect()
}

#[test]
fn chars_round_trip() {
    assert_eq!(chars_of("héllo"), cs("héllo"));
    assert_eq!(string_of(&cs("héllo")), "héllo");
    assert_eq!(string_of(&vec![]), "");
}

#[test]
fn str_eq_compares_text() {
    assert!(str_eq("abc", "abc"));
    assert!(!str_eq("abc", "abd"));
    assert!(!str_eq("abc", "ab"));
    assert!(str_eq("", ""));
}

#[test]
fn whitespace_is_as_std_has_it() {
    for u in 0u32..0x3100 {
        if let Some(c) = char::from_u32(u) {
            assert_eq!(char_is_whitespace(c), c.is_whitespace());
        }
    }
}

#[test]
fn trim_is_as_std_has_it() {
    for s in ["", " ", "  a b \t\n", "ab", "\u{3000}x\u{a0}", " \r\n"] {
        assert_eq!(string_of(&trim_chars(&cs(s))), s.trim());
        assert_eq!(string_of(&trim_start_chars(&cs(s))), s.trim_start());
    }
}

#[test]
fn words_are_as_std_has_them() {
    for s in ["", "  ", "a", " a  bb\tccc\n", "default via 1.2.3.4 dev eth0 "] {
        let expect: Vec<String> = s.split_whitespace().map(String::from).collect();
        assert_eq!(strs(split_words(&cs(s))), expect);
    }
}

#[test]
fn lines_are_as_std_has_them() {
    for s in ["", "\n", "a", "a\n", "a\nb", "a\r\nb\r\n", "a\r", "\r\n\r\n", "a\n\nb\n", "x\r\ry\n"] {
        let expect: Vec<String> = s.lines().map(String::from).collect();
        assert_eq!(strs(split_lines(&cs(s))), expect);
    }
}

#[test]
fn pieces_are_as_std_has_them() {
    for s in ["", "/", "a/b", "a//b/", "abc"] {
        let expect: Vec<String> = s.split('/').map(String::from).collect();
        assert_eq!(strs(split_on(&cs(s), '/')), expect);
    }
}

#[test]
fn contains_is_as_std_has_it() {
    for (s, p) in [("", ""), ("abc", ""), ("abc", "bc"), ("abc", "abcd"), ("aab", "ab"), ("abc", "ac")] {
        assert_eq!(chars_contain(&cs(s), &cs(p)), s.contains(p));
    }
}

#[test]
fn case_is_as_std_has_it() {
    let s = "AbC xyZ 09 Éé @[`{";
    assert_eq!(string_of(&chars_to_lower(&cs(s))), s.to_ascii_lowercase());
    assert_eq!(string_of(&chars_to_upper(&cs(s))), s.to_ascii_uppercase());
}

#[test]
fn decimal_is_as_std_has_it() {
    for n in [0u64, 7, 10, 99, 100, 65535, u64::MAX] {
        assert_eq!(string_of(&decimal_chars(n)), n.to_string());
    }
    for n in [0i32, -1, 1, -128, i32::MIN, i32::MAX] {
        let mut out = Vec::new();
        push_signed_decimal(&mut out, n);
        assert_eq!(string_of(&out), n.to_string());
    }
}

#[test]
fn parse_is_as_std_has_it() {
    for s in ["", "+", "-", "0", "007", "+5", "-5", "12a", " 1", "255", "256", "18446744073709551615", "18446744073709551616", "++1"] {
        assert_eq!(parse_unsigned_chars(&cs(s), u64::MAX), s.parse::<u64>().ok());
        assert_eq!(parse_unsigned_chars(&cs(s), 255), s.parse::<u8>().ok().map(u64::from));
    }
}
