use catalog::decimal::{Decimal, Reading};

fn decimal(text: &str) -> Decimal {
    Decimal::parse(text).expect("a decimal")
}

#[test]
fn parse_then_write_keeps_the_digits() {
    for text in ["0", "1", "9.99", "25.00", "-3.5", "0.001", "123456789012345678901234567890.12"] {
        assert_eq!(decimal(text).to_text(), text);
    }
}

#[test]
fn parse_reads_signs_and_exponents() {
    assert_eq!(decimal("+7").to_text(), "7");
    assert_eq!(decimal("1.23e1").to_text(), "12.3");
    assert_eq!(decimal("5e-3").to_text(), "0.005");
    assert_eq!(decimal(".5").to_text(), "0.5");
}

#[test]
fn parse_refuses_what_is_no_decimal() {
    for text in ["", " ", "ten", "1,5", "1.2.3", "--1", "1e", "0x10", " 1", "1 "] {
        assert!(Decimal::parse(text).is_none(), "{text:?}");
    }
}

#[test]
fn parse_refuses_what_is_out_of_range() {
    assert!(Decimal::parse("1e-32767").is_some());
    assert!(Decimal::parse("1e-32768").is_none());
    assert!(Decimal::parse("1e131071").is_some());
    assert!(Decimal::parse("1e131072").is_none());
    let long = "7".repeat(131_064);
    assert!(Decimal::parse(&long).is_some());
    let longer = "7".repeat(131_065);
    assert!(Decimal::parse(&longer).is_none());
}

#[test]
fn parts_of_a_parsed_decimal() {
    let d = decimal("-12.50");
    let (negative, digits, scale) = d.parts();
    assert!(negative);
    assert_eq!(digits, &vec![1, 2, 5, 0]);
    assert_eq!(scale, 2);
    let zero = decimal("0.00");
    let (negative, digits, scale) = zero.parts();
    assert!(!negative);
    assert_eq!(digits, &vec![0]);
    assert_eq!(scale, 2);
}

#[test]
fn from_parts_checks_the_sizes() {
    assert!(Decimal::from_parts(false, vec![], 0).is_none());
    assert!(Decimal::from_parts(false, vec![1, 10], 0).is_none());
    assert!(Decimal::from_parts(false, vec![1], 32_768).is_none());
    assert!(Decimal::from_parts(false, vec![1], 32_767).is_some());
    assert!(Decimal::from_parts(false, vec![1], -131_071).is_some());
    assert!(Decimal::from_parts(false, vec![1], -131_072).is_none());
    assert!(Decimal::from_parts(false, vec![1], i64::MIN).is_none());
    assert!(Decimal::from_parts(false, vec![0; 131_064], 0).is_some());
    assert!(Decimal::from_parts(false, vec![0; 131_065], 0).is_none());
    let d = Decimal::from_parts(true, vec![0, 0, 4, 2], 1).expect("in range");
    assert_eq!(d.to_text(), "-4.2");
}

#[test]
fn order_is_numeric() {
    let cases = [
        ("1", "2", true),
        ("2", "1", false),
        ("1.0", "1.00", true),
        ("1.00", "1.0", true),
        ("9.99", "10", true),
        ("10", "9.99", false),
        ("-1", "1", true),
        ("1", "-1", false),
        ("-2", "-1", true),
        ("-1", "-2", false),
        ("0", "-0.0", true),
        ("-0.0", "0", true),
        ("0", "-0.1", false),
        ("0.001", "0.0009", false),
        ("1e3", "999.999", false),
        ("1e3", "1000.000", true),
        ("123456789012345678901234567890", "123456789012345678901234567891", true),
        ("123456789012345678901234567891", "123456789012345678901234567890", false),
        ("25.00", "25", true),
        ("24.999", "25", true),
        ("25.001", "25", false),
    ];
    for (a, b, expected) in cases {
        assert_eq!(decimal(a).le(&decimal(b)), expected, "{a} <= {b}");
    }
}

#[test]
fn order_agrees_with_the_digits_given() {
    let a = Decimal::from_parts(false, vec![0, 0, 5], 0).expect("in range");
    let b = Decimal::from_parts(false, vec![5, 0], 1).expect("in range");
    assert!(a.le(&b));
    assert!(b.le(&a));
    let minus_zero = Decimal::from_parts(true, vec![0], 3).expect("in range");
    let zero = Decimal::from_parts(false, vec![0, 0], 0).expect("in range");
    assert!(zero.le(&minus_zero));
    assert!(minus_zero.le(&zero));
}

#[test]
fn a_copy_is_the_same_number() {
    let d = decimal("19.90");
    let copy = d.clone();
    assert_eq!(copy.to_text(), "19.90");
    assert!(d.le(&copy) && copy.le(&d));
}

#[test]
fn reading_tells_three_things_apart() {
    assert!(matches!(Decimal::read("12.5"), Reading::Number(d) if d.to_text() == "12.5"));
    assert!(matches!(Decimal::read("1e200000"), Reading::OutOfRange));
    assert!(matches!(Decimal::read("1e-32768"), Reading::OutOfRange));
    assert!(matches!(Decimal::read("twelve"), Reading::NoDecimal));
    assert!(matches!(Decimal::read(""), Reading::NoDecimal));
}
