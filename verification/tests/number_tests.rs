use gwent::number::{decimal_text, parse_u64};

#[test]
fn reads_plain_numbers() {
    assert_eq!(parse_u64("0"), Some(0));
    assert_eq!(parse_u64("7"), Some(7));
    assert_eq!(parse_u64("500"), Some(500));
    assert_eq!(parse_u64("10000"), Some(10_000));
    assert_eq!(parse_u64("0032"), Some(32));
}

#[test]
fn reads_a_leading_plus() {
    assert_eq!(parse_u64("+5"), Some(5));
    assert_eq!(parse_u64("+0"), Some(0));
}

#[test]
fn refuses_text_without_digits() {
    assert_eq!(parse_u64(""), None);
    assert_eq!(parse_u64("+"), None);
    assert_eq!(parse_u64("-"), None);
    assert_eq!(parse_u64("++1"), None);
}

#[test]
fn refuses_negative_numbers() {
    assert_eq!(parse_u64("-1"), None);
    assert_eq!(parse_u64("-0"), None);
}

#[test]
fn refuses_anything_around_the_digits() {
    assert_eq!(parse_u64(" 5"), None);
    assert_eq!(parse_u64("5 "), None);
    assert_eq!(parse_u64("12a"), None);
    assert_eq!(parse_u64("1_000"), None);
    assert_eq!(parse_u64("1.5"), None);
    assert_eq!(parse_u64("0x10"), None);
    assert_eq!(parse_u64("5+"), None);
}

#[test]
fn refuses_digits_outside_ascii() {
    assert_eq!(parse_u64("\u{0663}"), None);
    assert_eq!(parse_u64("1\u{0663}"), None);
    assert_eq!(parse_u64("\u{ff11}"), None);
    assert_eq!(parse_u64("\u{0130}"), None);
}

#[test]
fn reads_the_largest_number_and_refuses_the_next() {
    assert_eq!(parse_u64("18446744073709551615"), Some(u64::MAX));
    assert_eq!(parse_u64("18446744073709551616"), None);
    assert_eq!(parse_u64("18446744073709551620"), None);
    assert_eq!(parse_u64("99999999999999999999"), None);
    assert_eq!(parse_u64("184467440737095516150"), None);
    assert_eq!(parse_u64("000018446744073709551615"), Some(u64::MAX));
}

#[test]
fn reading_agrees_with_the_standard_parser() {
    let samples = [
        "", "+", "-", "0", "+0", "-0", "1", "42", "+42", "-42", "4 2", " 42", "42 ", "4x",
        "18446744073709551615", "18446744073709551616", "+18446744073709551615", "00", "\u{0661}",
        "1e3", "0b1", "\t1", "1\n",
    ];
    for s in samples {
        assert_eq!(parse_u64(s), s.parse::<u64>().ok(), "{s:?}");
    }
}

#[test]
fn writes_numbers_in_decimal() {
    assert_eq!(decimal_text(0), "0");
    assert_eq!(decimal_text(7), "7");
    assert_eq!(decimal_text(10), "10");
    assert_eq!(decimal_text(404), "404");
    assert_eq!(decimal_text(65535), "65535");
    assert_eq!(decimal_text(u64::MAX), "18446744073709551615");
}

#[test]
fn what_is_written_reads_back() {
    for n in [0u64, 1, 9, 10, 99, 100, 12345, u64::MAX - 1, u64::MAX] {
        assert_eq!(parse_u64(&decimal_text(n)), Some(n));
    }
}
