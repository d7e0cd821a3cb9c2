use web_auth::decimal::{i32_to_decimal, parse_i32};

#[test]
fn writes_small_numbers() {
    assert_eq!(i32_to_decimal(0), "0");
    assert_eq!(i32_to_decimal(7), "7");
    assert_eq!(i32_to_decimal(10), "10");
    assert_eq!(i32_to_decimal(-1), "-1");
    assert_eq!(i32_to_decimal(1905), "1905");
}

#[test]
fn writes_the_extremes() {
    assert_eq!(i32_to_decimal(i32::MAX), "2147483647");
    assert_eq!(i32_to_decimal(i32::MIN), "-2147483648");
}

#[test]
fn writes_as_the_standard_library_does() {
    let mut v: i32 = -5000;
    while v <= 5000 {
        assert_eq!(i32_to_decimal(v), v.to_string());
        v += 1;
    }
}

#[test]
fn reads_plain_and_signed_numbers() {
    assert_eq!(parse_i32("42"), Some(42));
    assert_eq!(parse_i32("+42"), Some(42));
    assert_eq!(parse_i32("-42"), Some(-42));
    assert_eq!(parse_i32("0"), Some(0));
    assert_eq!(parse_i32("-0"), Some(0));
    assert_eq!(parse_i32("007"), Some(7));
}

#[test]
fn reads_the_extremes() {
    assert_eq!(parse_i32("2147483647"), Some(i32::MAX));
    assert_eq!(parse_i32("-2147483648"), Some(i32::MIN));
    assert_eq!(parse_i32("2147483648"), None);
    assert_eq!(parse_i32("-2147483649"), None);
    assert_eq!(parse_i32("99999999999999999999999999"), None);
    assert_eq!(parse_i32("00000000000000000000000001"), Some(1));
}

#[test]
fn refuses_what_is_no_number() {
    assert_eq!(parse_i32(""), None);
    assert_eq!(parse_i32("-"), None);
    assert_eq!(parse_i32("+"), None);
    assert_eq!(parse_i32("4a"), None);
    assert_eq!(parse_i32("a4"), None);
    assert_eq!(parse_i32(" 4"), None);
    assert_eq!(parse_i32("4 "), None);
    assert_eq!(parse_i32("--4"), None);
    assert_eq!(parse_i32("+-4"), None);
    assert_eq!(parse_i32("1.0"), None);
    assert_eq!(parse_i32("\u{663}"), None);
    assert_eq!(parse_i32("1\u{e9}"), None);
}

#[test]
fn reads_as_the_standard_library_does() {
    let samples = [
        "12", "-12", "+0", "0012", "2147483647", "2147483648", "-2147483648", "-2147483649", "",
        "+", "-", "1_000", "0x10", "12 ", "\u{ff11}",
    ];
    for s in samples {
        assert_eq!(parse_i32(s), s.parse::<i32>().ok());
    }
}

#[test]
fn reading_what_was_written_gives_the_number_back() {
    let samples = [0, 1, -1, 9, 10, 99, 100, -100, 123456789, i32::MAX, i32::MIN, i32::MIN + 1];
    for v in samples {
        assert_eq!(parse_i32(&i32_to_decimal(v)), Some(v));
    }
}
