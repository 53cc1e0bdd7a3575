use memory_practice::text::{digit_str, parse_i32, push_decimal, push_decimal_digits, same_text};

fn written(n: i64) -> String {
    let mut out = String::new();
    push_decimal(&mut out, n);
    out
}

#[test]
fn test_decimal_of_small_numbers() {
    assert_eq!(written(0), "0");
    assert_eq!(written(7), "7");
    assert_eq!(written(10), "10");
    assert_eq!(written(-1), "-1");
    assert_eq!(written(1203), "1203");
    assert_eq!(written(-9801), "-9801");
}

#[test]
fn test_decimal_agrees_with_std() {
    for n in [i64::MIN, i64::MIN + 1, -1000000007, -100, -10, -9, 9, 99, 100, 101, i64::MAX] {
        assert_eq!(written(n), n.to_string());
    }
    let mut n: i64 = 1;
    while n < i64::MAX / 7 {
        assert_eq!(written(n), n.to_string());
        assert_eq!(written(-n), (-n).to_string());
        n = n * 7 + 3;
    }
}

#[test]
fn test_decimal_is_appended() {
    let mut out = "x = ".to_string();
    push_decimal(&mut out, -42);
    out.push_str(", y = ");
    push_decimal_digits(&mut out, u64::MAX);
    assert_eq!(out, "x = -42, y = 18446744073709551615");
}

#[test]
fn test_digit_str() {
    let digits: Vec<&str> = (0u8..10).map(digit_str).collect();
    assert_eq!(digits.concat(), "0123456789");
}

#[test]
fn test_same_text() {
    assert!(same_text("", ""));
    assert!(same_text("ADD", "ADD"));
    assert!(!same_text("ADD", "add"));
    assert!(!same_text("ADD", "ADD "));
    assert!(same_text("×", "×"));
}

#[test]
fn test_parse_i32_numbers() {
    assert_eq!(parse_i32("0"), Some(0));
    assert_eq!(parse_i32("42"), Some(42));
    assert_eq!(parse_i32("-42"), Some(-42));
    assert_eq!(parse_i32("+42"), Some(42));
    assert_eq!(parse_i32("007"), Some(7));
    assert_eq!(parse_i32("-0"), Some(0));
    assert_eq!(parse_i32("2147483647"), Some(i32::MAX));
    assert_eq!(parse_i32("-2147483648"), Some(i32::MIN));
    assert_eq!(parse_i32("00000000000000000000002147483647"), Some(i32::MAX));
}

#[test]
fn test_parse_i32_refusals() {
    for text in [
        "", "-", "+", "abc", "12a", "a12", " 12", "12 ", "1 2", "--1", "+-1", "1.0", "1e3", "0x10",
        "2147483648", "-2147483649", "99999999999999999999999999", "１２", "1२", "٣", "12\n",
    ] {
        assert_eq!(parse_i32(text), None, "{:?}", text);
    }
}

#[test]
fn test_parse_i32_agrees_with_std() {
    let texts = [
        "", "0", "-0", "+0", "5", "-5", "+5", "05", "2147483647", "2147483648", "-2147483648",
        "-2147483649", "+2147483647", "+2147483648", "12345678901", "x", "-x", "1x", "é", "1é",
        "--", "++1", "1+", "1-", "3000000000", "4294967296", "4294967297", "21474836470",
    ];
    for text in texts {
        assert_eq!(parse_i32(text), text.parse::<i32>().ok(), "{:?}", text);
    }
}
