use autotclog::frame_rate::split_rate;
use autotclog::numeral::{append_decimal, read_numeral, Reading};
use autotclog::text::{chars_of, is_space_char, trim};

#[test]
fn trim_removes_white_space_at_both_ends() {
    assert_eq!(trim("  25/1 \n"), "25/1");
    assert_eq!(trim("\t12.5\r\n"), "12.5");
    assert_eq!(trim("a b"), "a b");
    assert_eq!(trim(""), "");
    assert_eq!(trim(" \n\t "), "");
}

#[test]
fn trim_agrees_with_the_standard_library() {
    let samples = [
        "\u{a0}x\u{a0}",
        "\u{2003}30000/1001\u{3000}",
        "\u{85}\u{1680}a\u{2028}b\u{2029}\u{202f}\u{205f}",
        "\u{200b}zero width space is no white space\u{200b}",
        "\u{feff}x",
        "é é",
    ];
    for sample in samples {
        assert_eq!(trim(sample), sample.trim(), "{sample:?}");
    }
}

#[test]
fn is_space_char_agrees_with_the_standard_library() {
    for code in 0u32..0x11_0000 {
        if let Some(c) = char::from_u32(code) {
            assert_eq!(is_space_char(c), c.is_whitespace(), "U+{code:04X}");
        }
    }
}

#[test]
fn chars_of_gives_the_characters_in_order() {
    assert_eq!(chars_of("a/é"), vec!['a', '/', 'é']);
    assert_eq!(chars_of(""), Vec::<char>::new());
}

#[test]
fn read_numeral_reads_ascii_digits_only() {
    assert_eq!(read_numeral("0"), Reading::Value(0));
    assert_eq!(read_numeral("007"), Reading::Value(7));
    assert_eq!(read_numeral("90000"), Reading::Value(90000));
    assert_eq!(read_numeral("9223372036854775807"), Reading::Value(i64::MAX));
    assert_eq!(read_numeral("9223372036854775808"), Reading::TooLarge);
    assert_eq!(read_numeral("99999999999999999999999"), Reading::TooLarge);
    assert_eq!(read_numeral(""), Reading::NotNumeral);
    assert_eq!(read_numeral("-1"), Reading::NotNumeral);
    assert_eq!(read_numeral("+1"), Reading::NotNumeral);
    assert_eq!(read_numeral("1.5"), Reading::NotNumeral);
    assert_eq!(read_numeral("99999999999999999999999x"), Reading::NotNumeral);
    assert_eq!(read_numeral("\u{661}"), Reading::NotNumeral);
}

#[test]
fn append_decimal_writes_the_shortest_numeral() {
    let mut out = String::from("n=");
    append_decimal(&mut out, 0);
    assert_eq!(out, "n=0");
    append_decimal(&mut out, 1203);
    assert_eq!(out, "n=01203");
    let mut big = String::new();
    append_decimal(&mut big, u64::MAX);
    assert_eq!(big, "18446744073709551615");
}

#[test]
fn split_rate_of_a_whole_rate() {
    let (numerator, denominator) = split_rate("25/1").unwrap();
    assert_eq!((numerator.as_str(), denominator.as_str()), ("25", "1"));
    let rate = numerator.parse::<f64>().unwrap() / denominator.parse::<f64>().unwrap();
    assert_eq!(rate, 25.0);
}

#[test]
fn split_rate_of_a_broken_rate() {
    let (numerator, denominator) = split_rate("30000/1001").unwrap();
    assert_eq!((numerator.as_str(), denominator.as_str()), ("30000", "1001"));
    let rate = numerator.parse::<f64>().unwrap() / denominator.parse::<f64>().unwrap();
    assert!((rate - 29.97).abs() < 0.001);
}

#[test]
fn split_rate_removes_the_white_space_around_each_part() {
    assert_eq!(split_rate(" 30 / 1 \n"), Some(("30".to_string(), "1".to_string())));
    assert_eq!(split_rate("24000/\t1001"), Some(("24000".to_string(), "1001".to_string())));
}

#[test]
fn split_rate_wants_exactly_one_slash() {
    assert_eq!(split_rate("abc"), None);
    assert_eq!(split_rate(""), None);
    assert_eq!(split_rate("25"), None);
    assert_eq!(split_rate("30/1/1"), None);
    assert_eq!(split_rate("//"), None);
}

#[test]
fn split_rate_does_not_ask_for_numbers() {
    assert_eq!(split_rate("30/0"), Some(("30".to_string(), "0".to_string())));
    assert_eq!(split_rate("a/b"), Some(("a".to_string(), "b".to_string())));
    assert_eq!(split_rate("/"), Some((String::new(), String::new())));
}
