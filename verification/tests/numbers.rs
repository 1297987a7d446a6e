use codecrafters_shell::number::{parse_decimal, parse_i32, parse_usize, push_decimal, push_spaces};

fn chars(s: &str) -> Vec<char> {
    s.chars().collect()
}

#[test]
fn parses_as_the_standard_library_does() {
    let samples = [
        "", "0", "7", "-7", "+7", "007", "-0", "+0", "+", "-", "--1", "+-1", "1 ", " 1", "1_0",
        "12a", "a12", "2147483647", "2147483648", "-2147483648", "-2147483649", "4294967296",
        "99999999999999999999999999", "-99999999999999999999999999", "0000000000000000000000012",
        "18446744073709551615", "18446744073709551616", "١٢", "1.5", "0x10",
    ];
    for s in samples {
        assert_eq!(parse_i32(&chars(s)), s.parse::<i32>().ok(), "{:?}", s);
        assert_eq!(parse_usize(&chars(s)), s.parse::<usize>().ok(), "{:?}", s);
    }
}

#[test]
fn parse_decimal_respects_its_limit() {
    assert_eq!(parse_decimal(&chars("x255"), 1, 255), Some(255));
    assert_eq!(parse_decimal(&chars("x256"), 1, 255), None);
    assert_eq!(parse_decimal(&chars("x"), 1, 255), None);
    assert_eq!(parse_decimal(&chars("0"), 0, 0), Some(0));
    assert_eq!(parse_decimal(&chars("1"), 0, 0), None);
    assert_eq!(parse_decimal(&chars("18446744073709551615"), 0, u64::MAX), Some(u64::MAX));
    assert_eq!(parse_decimal(&chars("18446744073709551616"), 0, u64::MAX), None);
    assert_eq!(parse_decimal(&chars("12-"), 0, 1000), None);
}

#[test]
fn writes_decimal_numbers() {
    for n in [0usize, 1, 9, 10, 11, 99, 100, 12345, 1000000, usize::MAX] {
        let mut out = String::from("n=");
        push_decimal(&mut out, n);
        assert_eq!(out, format!("n={}", n));
    }
}

#[test]
fn writes_spaces() {
    let mut out = String::from("a");
    push_spaces(&mut out, 3);
    assert_eq!(out, "a   ");
    push_spaces(&mut out, 0);
    assert_eq!(out, "a   ");
}
