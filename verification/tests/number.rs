use golemate::number::{parse_i32, parse_u32, push_decimal};

fn chars(s: &str) -> Vec<char> {
    s.chars().collect()
}

fn decimal(n: u32) -> String {
    let mut out = String::new();
    push_decimal(&mut out, n);
    out
}

#[test]
fn decimal_writes_the_digits() {
    assert_eq!(decimal(0), "0");
    assert_eq!(decimal(7), "7");
    assert_eq!(decimal(10), "10");
    assert_eq!(decimal(1024), "1024");
    assert_eq!(decimal(u32::MAX), "4294967295");
}

#[test]
fn decimal_is_appended_to_what_is_there() {
    let mut out = String::from("go depth ");
    push_decimal(&mut out, 20);
    assert_eq!(out, "go depth 20");
}

#[test]
fn decimal_agrees_with_the_standard_library() {
    for n in [0u32, 1, 9, 10, 11, 99, 100, 101, 65535, 65536, 1_000_000_000, u32::MAX - 1, u32::MAX] {
        assert_eq!(decimal(n), n.to_string());
    }
}

#[test]
fn unsigned_numbers_are_read() {
    assert_eq!(parse_u32(&chars("20")), Some(20));
    assert_eq!(parse_u32(&chars("0")), Some(0));
    assert_eq!(parse_u32(&chars("+5")), Some(5));
    assert_eq!(parse_u32(&chars("007")), Some(7));
    assert_eq!(parse_u32(&chars("4294967295")), Some(u32::MAX));
    assert_eq!(parse_u32(&chars("00000000000000000000042")), Some(42));
}

#[test]
fn malformed_unsigned_numbers_are_refused() {
    for word in ["", "+", "-", "-5", "-0", "4294967296", "99999999999999999999", "1x", "x1", "1 ", "++1", "١"] {
        assert_eq!(parse_u32(&chars(word)), None, "{:?}", word);
    }
}

#[test]
fn signed_numbers_are_read() {
    assert_eq!(parse_i32(&chars("35")), Some(35));
    assert_eq!(parse_i32(&chars("-50")), Some(-50));
    assert_eq!(parse_i32(&chars("+50")), Some(50));
    assert_eq!(parse_i32(&chars("0")), Some(0));
    assert_eq!(parse_i32(&chars("-0")), Some(0));
    assert_eq!(parse_i32(&chars("2147483647")), Some(i32::MAX));
    assert_eq!(parse_i32(&chars("-2147483648")), Some(i32::MIN));
}

#[test]
fn malformed_signed_numbers_are_refused() {
    for word in ["", "+", "-", "2147483648", "-2147483649", "--1", "+-1", "1-", "cp", "3.5"] {
        assert_eq!(parse_i32(&chars(word)), None, "{:?}", word);
    }
}

#[test]
fn reading_agrees_with_the_standard_library() {
    let samples = [
        "", "0", "00", "+", "-", "+0", "-0", "12", "-12", "+12", "4294967295", "4294967296",
        "2147483647", "2147483648", "-2147483648", "-2147483649", "1e3", " 1", "1 ", "0x10", "9".repeat(40).as_str(),
    ]
    .map(str::to_owned);
    for word in samples.iter() {
        assert_eq!(parse_u32(&chars(word)), word.parse::<u32>().ok(), "{:?}", word);
        assert_eq!(parse_i32(&chars(word)), word.parse::<i32>().ok(), "{:?}", word);
    }
}

#[test]
fn a_number_written_out_reads_back() {
    for n in [0u32, 1, 20, 128, 1024, 99999, u32::MAX] {
        assert_eq!(parse_u32(&chars(&decimal(n))), Some(n));
    }
}
