use ccometixline::text::{
    decimal_string, join_strings, pad2_string, parse_u32_chars, string_from, to_chars, trim_bounds,
};

fn parse(s: &str) -> Option<u32> {
    let cs = to_chars(s);
    parse_u32_chars(&cs, 0, cs.len())
}

#[test]
fn decimal_numbers() {
    assert_eq!(decimal_string(0), "0");
    assert_eq!(decimal_string(7), "7");
    assert_eq!(decimal_string(10), "10");
    assert_eq!(decimal_string(4294967295), "4294967295");
    assert_eq!(decimal_string(u64::MAX), u64::MAX.to_string());
}

#[test]
fn two_digit_numbers() {
    assert_eq!(pad2_string(0), "00");
    assert_eq!(pad2_string(5), "05");
    assert_eq!(pad2_string(12), "12");
    assert_eq!(pad2_string(123), "123");
}

#[test]
fn parsing_counts_like_std() {
    for s in ["", "+", "-", "-1", "+0", "007", "12a", "4294967295", "4294967296", "+42", "++1", " 1", "99999999999999999999"] {
        assert_eq!(parse(s), s.parse::<u32>().ok(), "{:?}", s);
    }
}

#[test]
fn printed_counts_parse_back() {
    for n in [0u32, 1, 9, 10, 99, 100, 65535, 4294967295] {
        assert_eq!(parse(&decimal_string(n as u64)), Some(n));
    }
}

#[test]
fn joining_with_separator() {
    let parts = vec![string_from("a"), string_from("bc"), string_from("")];
    assert_eq!(join_strings(&parts, " "), "a bc ");
    assert_eq!(join_strings(&Vec::new(), "-"), "");
    assert_eq!(join_strings(&vec![string_from("x")], ", "), "x");
}

#[test]
fn characters_of_unicode_text() {
    assert_eq!(to_chars("a\u{4e2d}b"), vec!['a', '\u{4e2d}', 'b']);
}

#[test]
fn trimming_like_std() {
    for s in ["", "  ", " a b ", "\u{3000}x\u{85}", "abc", "\t\n1.0\r\n"] {
        let cs = to_chars(s);
        let (lo, hi) = trim_bounds(&cs);
        let got: String = cs[lo..hi].iter().collect();
        assert_eq!(got, s.trim(), "{:?}", s);
    }
}
