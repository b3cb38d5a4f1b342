use marvin::text::{
    find, leading_token, read_i64, read_u64, split_after_first_space, write_decimal,
};

#[test]
fn find_stops_at_first_space() {
    assert_eq!(find("/ban @alice 2h", true), 4);
    assert_eq!(find("/ban", true), 4);
    assert_eq!(find("", true), 0);
    assert_eq!(find("  x", false), 2);
    assert_eq!(find("   ", false), 3);
}

#[test]
fn find_counts_characters_not_bytes() {
    assert_eq!(find("é\u{a0}x", true), 1);
    assert_eq!(find("日本 語", true), 2);
}

#[test]
fn split_after_first_space_keeps_the_rest() {
    assert_eq!(split_after_first_space("/ban @alice 2h"), Some("@alice 2h"));
    assert_eq!(split_after_first_space("/ban"), None);
    assert_eq!(split_after_first_space("/ban "), Some(""));
    assert_eq!(split_after_first_space("/ban  x"), Some(" x"));
    assert_eq!(split_after_first_space("a\tb c"), Some("b c"));
    assert_eq!(split_after_first_space(""), None);
}

#[test]
fn leading_token_skips_leading_space() {
    assert_eq!(leading_token("@alice 2h"), "@alice");
    assert_eq!(leading_token("   12345\nrest"), "12345");
    assert_eq!(leading_token("   "), "");
    assert_eq!(leading_token(""), "");
    assert_eq!(leading_token("one"), "one");
}

#[test]
fn read_u64_reads_plain_numbers() {
    assert_eq!(read_u64("0"), Some(0));
    assert_eq!(read_u64("7"), Some(7));
    assert_eq!(read_u64("007"), Some(7));
    assert_eq!(read_u64("+15"), Some(15));
    assert_eq!(read_u64("18446744073709551615"), Some(u64::MAX));
}

#[test]
fn read_u64_refuses_everything_else() {
    assert_eq!(read_u64(""), None);
    assert_eq!(read_u64("+"), None);
    assert_eq!(read_u64("-1"), None);
    assert_eq!(read_u64("-0"), None);
    assert_eq!(read_u64("1 "), None);
    assert_eq!(read_u64(" 1"), None);
    assert_eq!(read_u64("1_000"), None);
    assert_eq!(read_u64("12a"), None);
    assert_eq!(read_u64("٣"), None);
    assert_eq!(read_u64("18446744073709551616"), None);
    assert_eq!(read_u64("99999999999999999999999"), None);
}

#[test]
fn read_u64_agrees_with_the_standard_parser() {
    for s in ["", "+", "-", "0", "+0", "-0", "42", "+42", "-42", "4 2", "18446744073709551615", "18446744073709551616", "0000000000000000000000001", "1e3", "++1"] {
        assert_eq!(read_u64(s), s.parse::<u64>().ok(), "{:?}", s);
    }
}

#[test]
fn read_i64_reads_signed_numbers() {
    assert_eq!(read_i64("12345"), Some(12345));
    assert_eq!(read_i64("-12345"), Some(-12345));
    assert_eq!(read_i64("+12345"), Some(12345));
    assert_eq!(read_i64("-0"), Some(0));
    assert_eq!(read_i64("9223372036854775807"), Some(i64::MAX));
    assert_eq!(read_i64("-9223372036854775808"), Some(i64::MIN));
}

#[test]
fn read_i64_refuses_everything_else() {
    assert_eq!(read_i64(""), None);
    assert_eq!(read_i64("-"), None);
    assert_eq!(read_i64("+"), None);
    assert_eq!(read_i64("@12345"), None);
    assert_eq!(read_i64("12 "), None);
    assert_eq!(read_i64("--1"), None);
    assert_eq!(read_i64("9223372036854775808"), None);
    assert_eq!(read_i64("-9223372036854775809"), None);
    assert_eq!(read_i64("18446744073709551616"), None);
}

#[test]
fn read_i64_agrees_with_the_standard_parser() {
    for s in ["", "+", "-", "0", "+0", "-0", "42", "+42", "-42", "4 2", "9223372036854775807", "9223372036854775808", "-9223372036854775808", "-9223372036854775809", "abc", "-+1"] {
        assert_eq!(read_i64(s), s.parse::<i64>().ok(), "{:?}", s);
    }
}

#[test]
fn write_decimal_writes_base_ten() {
    assert_eq!(write_decimal(0), "0");
    assert_eq!(write_decimal(9), "9");
    assert_eq!(write_decimal(10), "10");
    assert_eq!(write_decimal(7200), "7200");
    assert_eq!(write_decimal(1234567890), "1234567890");
    assert_eq!(write_decimal(u64::MAX), "18446744073709551615");
}

fn samples() -> Vec<&'static str> {
    vec![
        "",
        " ",
        "/ban",
        "/ban ",
        "/ban @alice 2h",
        "/ban  @alice   2h  ",
        "\t/ban\n12345\r\nrest of the line",
        "a\u{a0}b\u{2003}c",
        "日本語 テキスト です",
        "\u{3000}wide\u{3000}space",
        "no-space-at-all",
        "x y",
        " leading",
        "trailing ",
    ]
}

#[test]
fn splitting_agrees_with_the_standard_library() {
    for s in samples() {
        assert_eq!(split_after_first_space(s), s.splitn(2, char::is_whitespace).nth(1), "{:?}", s);
        assert_eq!(leading_token(s), s.split_whitespace().next().unwrap_or(""), "{:?}", s);
        let third = split_after_first_space(s).and_then(split_after_first_space);
        assert_eq!(third, s.splitn(3, char::is_whitespace).nth(2), "{:?}", s);
    }
}

#[test]
fn find_agrees_with_the_standard_library() {
    for s in samples() {
        let space = s.chars().position(char::is_whitespace).unwrap_or(s.chars().count());
        let other = s.chars().position(|c| !c.is_whitespace()).unwrap_or(s.chars().count());
        assert_eq!(find(s, true), space, "{:?}", s);
        assert_eq!(find(s, false), other, "{:?}", s);
    }
}

#[test]
fn write_decimal_agrees_with_the_standard_library() {
    for n in [0u64, 1, 9, 10, 11, 99, 100, 101, 4096, 86400, u64::MAX / 10, u64::MAX - 1, u64::MAX] {
        assert_eq!(write_decimal(n), n.to_string());
        assert_eq!(read_u64(&write_decimal(n)), Some(n));
    }
}

#[test]
fn white_space_is_the_listed_class() {
    for code in 0..=0x10FFFFu32 {
        if let Some(c) = char::from_u32(code) {
            let listed = (0x0009..=0x000D).contains(&code)
                || [0x0020, 0x0085, 0x00A0, 0x1680, 0x2028, 0x2029, 0x202F, 0x205F, 0x3000].contains(&code)
                || (0x2000..=0x200A).contains(&code);
            let mut buffer = [0u8; 4];
            let found = find(c.encode_utf8(&mut buffer), true) == 0;
            assert_eq!(found, listed, "{:x}", code);
        }
    }
}
