use sidecar_supervisor::text::{
    char_is_whitespace, chars_of, contains_char, ends_with, eq_ignore_ascii_case, push_decimal,
    split_whitespace, starts_with_char, str_eq, to_ascii_lower, trim,
};

#[test]
fn equality_of_slices() {
    assert!(str_eq("", ""));
    assert!(str_eq("héllo", "héllo"));
    assert!(!str_eq("hello", "hellp"));
    assert!(!str_eq("hello", "hell"));
    assert!(!str_eq("a", "A"));
}

#[test]
fn searching_characters() {
    assert!(contains_char("a:b", ':'));
    assert!(contains_char(":", ':'));
    assert!(!contains_char("", ':'));
    assert!(!contains_char("abc", ':'));
    assert!(contains_char("añb", 'ñ'));
    assert!(starts_with_char("[x", '['));
    assert!(!starts_with_char("x[", '['));
    assert!(!starts_with_char("", '['));
}

#[test]
fn characters_of_a_slice() {
    assert_eq!(chars_of(""), Vec::<char>::new());
    assert_eq!(chars_of("aß→"), vec!['a', 'ß', '→']);
}

#[test]
fn decimal_numerals() {
    for n in [0u64, 1, 9, 10, 11, 99, 100, 4096, 65535, u64::MAX] {
        let mut out = String::from("x");
        push_decimal(&mut out, n);
        assert_eq!(out, format!("x{n}"));
    }
}

#[test]
fn ascii_case() {
    assert_eq!(to_ascii_lower('A'), 'a');
    assert_eq!(to_ascii_lower('Z'), 'z');
    assert_eq!(to_ascii_lower('m'), 'm');
    assert_eq!(to_ascii_lower('@'), '@');
    assert_eq!(to_ascii_lower('['), '[');
    assert_eq!(to_ascii_lower('É'), 'É');
    assert!(eq_ignore_ascii_case("LocalHost", "localhost"));
    assert!(eq_ignore_ascii_case("", ""));
    assert!(!eq_ignore_ascii_case("localhost", "localhos"));
    assert!(!eq_ignore_ascii_case("É", "é"));
    for (a, b) in [("Ab1", "aB1"), ("x", "y"), ("kelvin", "\u{212A}elvin")] {
        assert_eq!(eq_ignore_ascii_case(a, b), a.eq_ignore_ascii_case(b));
    }
}

#[test]
fn white_space_is_what_std_says() {
    for n in 0..=0x11_0000u32 {
        if let Some(c) = char::from_u32(n) {
            assert_eq!(char_is_whitespace(c), c.is_whitespace(), "U+{n:04X}");
        }
    }
}

#[test]
fn trimming() {
    for s in ["", " ", "a", " a", "a ", "  a b  ", "\n1.2.3\r\n", "\u{3000}x\u{85}", " \t\n "] {
        assert_eq!(trim(s), s.trim(), "{s:?}");
    }
}

#[test]
fn suffixes() {
    for (s, suffix) in
        [("/bin/nu", "/nu"), ("nu", "/nu"), ("/nu", "/nu"), ("/nux", "/nu"), ("", ""), ("a", "")]
    {
        assert_eq!(ends_with(s, suffix), s.ends_with(suffix), "{s:?} {suffix:?}");
    }
}

#[test]
fn splitting_into_words() {
    for s in [
        "",
        " ",
        "one",
        " one",
        "one ",
        "serve --hostname 127.0.0.1 --port 4096",
        "  a \t b\n\nc  ",
        "a\u{a0}b",
    ] {
        let expected: Vec<String> = s.split_whitespace().map(str::to_string).collect();
        assert_eq!(split_whitespace(s), expected, "{s:?}");
    }
}
