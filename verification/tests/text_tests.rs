use rust_optimizer::text::{
    chars_of, contains_str, content_lines_of, eq_ignore_ascii_case, is_whitespace, parse_u32,
    push_decimal, string_of, trim_chars, trim_str,
};

#[test]
fn whitespace_matches_std() {
    for u in 0u32..0x3100 {
        if let Some(c) = char::from_u32(u) {
            assert_eq!(is_whitespace(c), c.is_whitespace(), "U+{:04X}", u);
        }
    }
    for c in ['\u{feff}', '\u{200b}', 'a', '\u{10ffff}'] {
        assert_eq!(is_whitespace(c), c.is_whitespace());
    }
}

#[test]
fn trim_matches_std_trim() {
    for s in ["", "   ", "  a  ", "\t\r\nx y\u{3000}", "\u{85}\u{a0}z\u{2009}", "none", "ñandú  "] {
        assert_eq!(trim_str(s), s.trim());
        assert_eq!(trim_chars(&chars_of(s)), s.trim());
    }
}

#[test]
fn chars_round_trip() {
    for s in ["", "abc", "──", "héllo wörld"] {
        let v = chars_of(s);
        assert_eq!(v, s.chars().collect::<Vec<char>>());
        assert_eq!(string_of(&v), s);
    }
}

#[test]
fn parse_matches_std_parse() {
    for s in [
        "0", "+7", "007", "4294967295", "4294967296", "99999999999", "-1", "-0", "+", "", " 1",
        "12a", "++1", "1+", "٣",
    ] {
        assert_eq!(parse_u32(&chars_of(s)), s.parse::<u32>().ok(), "{:?}", s);
    }
}

#[test]
fn decimal_matches_to_string() {
    for n in [0u64, 7, 10, 65535, 4294967295, u64::MAX] {
        let mut s = String::from("x=");
        push_decimal(&mut s, n);
        assert_eq!(s, format!("x={}", n));
    }
}

#[test]
fn decimal_parses_back() {
    for n in [0u32, 1, 9, 10, 1024, u32::MAX] {
        let mut s = String::new();
        push_decimal(&mut s, n as u64);
        assert_eq!(parse_u32(&chars_of(&s)), Some(n));
    }
}

#[test]
fn lines_are_trimmed_and_non_blank() {
    let lines = content_lines_of("  Ethernet \r\n\r\n Wi-Fi\n\n");
    assert_eq!(lines, vec!["Ethernet".to_string(), "Wi-Fi".to_string()]);
}

#[test]
fn lines_match_std_lines() {
    for s in ["", "\n", "a", "a\nb", " a \r\n\r\n\tb\t\n", "x\r\ny\rz\n", "\u{3000}\n q \n"] {
        let expected: Vec<String> = s
            .lines()
            .map(|l| l.trim().to_string())
            .filter(|l| !l.is_empty())
            .collect();
        assert_eq!(content_lines_of(s), expected, "{:?}", s);
    }
}

#[test]
fn contains_matches_std() {
    for (s, p) in [
        ("OK", "OK"),
        ("xxOKyy", "OK"),
        ("O K", "OK"),
        ("", "OK"),
        ("abc", ""),
        ("ERR\n", "ERR"),
        ("ok", "OK"),
    ] {
        assert_eq!(contains_str(s, p), s.contains(p), "{:?} {:?}", s, p);
    }
}

#[test]
fn ascii_case_matches_std() {
    for (a, b) in [
        ("OK", "ok"),
        ("Ok", "OK"),
        ("WARN", "warn"),
        ("WARNING", "WARN"),
        ("ÖK", "öK"),
        ("", ""),
        ("O", "OK"),
    ] {
        assert_eq!(eq_ignore_ascii_case(a, b), a.eq_ignore_ascii_case(b), "{:?} {:?}", a, b);
    }
}
