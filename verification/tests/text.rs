use watchctl::text::{chars_of, is_space, parse_i32, parse_u64, split, strip_suffix, trim};

#[test]
fn trim_removes_white_space_at_both_ends_only() {
    assert_eq!(trim("  30s  "), "30s");
    assert_eq!(trim("\t a b \r\n"), "a b");
    assert_eq!(trim(""), "");
    assert_eq!(trim(" \u{a0}\u{3000} "), "");
    assert_eq!(trim("\u{2003}x\u{85}"), "x");
    assert_eq!(trim("x"), "x");
}

#[test]
fn white_space_is_what_the_standard_library_calls_so() {
    let mut code: u32 = 0;
    while code <= 0x3100 {
        if let Some(c) = char::from_u32(code) {
            assert_eq!(is_space(c), c.is_whitespace(), "U+{:04X}", code);
        }
        code += 1;
    }
    assert!(!is_space('\u{180e}'));
    assert!(!is_space('\u{200b}'));
    assert!(!is_space('\u{feff}'));
}

#[test]
fn trim_agrees_with_the_standard_library() {
    for s in ["", " ", "a", " a", "a ", " a b ", "\n\n", "\u{1680}z\u{205f}", "é ", " 日本 "] {
        assert_eq!(trim(s), s.trim());
    }
}

#[test]
fn strip_suffix_takes_the_end_away() {
    assert_eq!(strip_suffix("500ms", "ms"), Some("500"));
    assert_eq!(strip_suffix("500ms", "s"), Some("500m"));
    assert_eq!(strip_suffix("ms", "ms"), Some(""));
    assert_eq!(strip_suffix("s", "ms"), None);
    assert_eq!(strip_suffix("500", "s"), None);
    assert_eq!(strip_suffix("x", ""), Some("x"));
    assert_eq!(strip_suffix("días", "s"), Some("día"));
}

#[test]
fn split_keeps_empty_pieces() {
    assert_eq!(split("1,2,3", ','), vec!["1", "2", "3"]);
    assert_eq!(split("", ','), vec![""]);
    assert_eq!(split(",", ','), vec!["", ""]);
    assert_eq!(split("1,,2,", ','), vec!["1", "", "2", ""]);
    assert_eq!(split("no comma", ','), vec!["no comma"]);
    for s in ["", ",", "a,b", ",a,,b,", "é,ü"] {
        let ours = split(s, ',');
        let theirs: Vec<String> = s.split(',').map(|p| p.to_string()).collect();
        assert_eq!(ours, theirs);
    }
}

#[test]
fn chars_of_lists_every_character() {
    assert_eq!(chars_of("aé日"), vec!['a', 'é', '日']);
    assert_eq!(chars_of(""), Vec::<char>::new());
}

#[test]
fn parse_u64_reads_digits_with_an_optional_plus() {
    assert_eq!(parse_u64("0"), Some(0));
    assert_eq!(parse_u64("+42"), Some(42));
    assert_eq!(parse_u64("00042"), Some(42));
    assert_eq!(parse_u64("18446744073709551615"), Some(u64::MAX));
    assert_eq!(parse_u64("18446744073709551616"), None);
    assert_eq!(parse_u64("99999999999999999999999"), None);
    assert_eq!(parse_u64(""), None);
    assert_eq!(parse_u64("+"), None);
    assert_eq!(parse_u64("-1"), None);
    assert_eq!(parse_u64("-0"), None);
    assert_eq!(parse_u64("++1"), None);
    assert_eq!(parse_u64("1 "), None);
    assert_eq!(parse_u64("12a"), None);
    assert_eq!(parse_u64("١٢"), None);
}

#[test]
fn parse_u64_agrees_with_the_standard_library() {
    for s in ["", "+", "-", "0", "+0", "-0", "7", "+7", "-7", "007", "1e3", " 1", "18446744073709551615", "18446744073709551616", "184467440737095516150"] {
        assert_eq!(parse_u64(s), s.parse::<u64>().ok(), "{:?}", s);
    }
}

#[test]
fn parse_i32_reads_signed_numbers() {
    assert_eq!(parse_i32("0"), Some(0));
    assert_eq!(parse_i32("-0"), Some(0));
    assert_eq!(parse_i32("+3"), Some(3));
    assert_eq!(parse_i32("-3"), Some(-3));
    assert_eq!(parse_i32("2147483647"), Some(i32::MAX));
    assert_eq!(parse_i32("2147483648"), None);
    assert_eq!(parse_i32("-2147483648"), Some(i32::MIN));
    assert_eq!(parse_i32("-2147483649"), None);
    assert_eq!(parse_i32("-"), None);
    assert_eq!(parse_i32("+-1"), None);
    assert_eq!(parse_i32("--1"), None);
    assert_eq!(parse_i32(""), None);
}

#[test]
fn parse_i32_agrees_with_the_standard_library() {
    for s in ["", "+", "-", "0", "+0", "-0", "7", "+7", "-7", "-007", "2147483647", "2147483648", "-2147483648", "-2147483649", "- 1", "1-"] {
        assert_eq!(parse_i32(s), s.parse::<i32>().ok(), "{:?}", s);
    }
}
