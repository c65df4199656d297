use rustframe::text::{
    chars_of, i32_to_string, is_white_space_char, parse_i32, parse_u32, str_eq, to_ascii_lower, trim_chars,
    u32_to_string,
};

fn s(v: &[char]) -> String {
    v.iter().collect()
}

#[test]
fn decimal_round_trip() {
    for &n in &[0u32, 7, 10, 4096, u32::MAX] {
        let t = u32_to_string(n);
        assert_eq!(t, n.to_string());
        assert_eq!(parse_u32(&chars_of(&t)), Some(n));
    }
    for &i in &[0i32, -1, 42, i32::MIN, i32::MAX] {
        let t = i32_to_string(i);
        assert_eq!(t, i.to_string());
        assert_eq!(parse_i32(&chars_of(&t)), Some(i));
    }
}

#[test]
fn parsing_follows_from_str() {
    for t in ["", "+", "-1", "+12", "12a", "4294967295", "4294967296", " 1", "007"] {
        assert_eq!(parse_u32(&chars_of(t)), t.parse::<u32>().ok(), "{t}");
    }
    for t in ["-", "-0", "+5", "-2147483648", "2147483648", "--1", "1 "] {
        assert_eq!(parse_i32(&chars_of(t)), t.parse::<i32>().ok(), "{t}");
    }
}

#[test]
fn trimming_matches_str_trim() {
    for t in ["", "  ", " a b ", "\u{3000}x\u{85}", "\t\n1\r\n", "abc"] {
        assert_eq!(s(&trim_chars(&chars_of(t))), t.trim(), "{t:?}");
    }
    for c in ['\u{a0}', ' ', 'a', '\u{2029}', '\u{200b}'] {
        assert_eq!(is_white_space_char(c), c.is_whitespace(), "{c:?}");
    }
}

#[test]
fn comparing_and_lower_casing() {
    assert!(str_eq("yes", "yes"));
    assert!(!str_eq("yes", "Yes"));
    assert_eq!(s(&to_ascii_lower(&chars_of("TrUe-É"))), "TrUe-É".to_ascii_lowercase());
}
