use tws_core::numeric::check_decimal;
use tws_core::numeric::format_integer;
use tws_core::numeric::parse_integer;
use tws_core::numeric::Decimal;
use tws_core::numeric::NumberError;

fn chars(text: &str) -> Vec<char> {
    text.chars().collect()
}

#[test]
fn format_integer_writes_canonical_text() {
    assert_eq!(format_integer(0), "0");
    assert_eq!(format_integer(7), "7");
    assert_eq!(format_integer(-7), "-7");
    assert_eq!(format_integer(1000000), "1000000");
    assert_eq!(format_integer(i64::MAX), "9223372036854775807");
    assert_eq!(format_integer(i64::MIN), "-9223372036854775808");
}

#[test]
fn parse_integer_reads_what_format_integer_wrote() {
    for v in [0i64, 1, -1, 42, -9000, i32::MAX as i64, i32::MIN as i64, i64::MAX, i64::MIN] {
        assert_eq!(parse_integer(&chars(&format_integer(v)), i64::MIN, i64::MAX), Ok(v));
    }
}

#[test]
fn parse_integer_holds_to_its_range() {
    assert_eq!(parse_integer(&chars("10"), 0, 10), Ok(10));
    assert_eq!(parse_integer(&chars("11"), 0, 10), Err(NumberError::OutOfRange));
    assert_eq!(parse_integer(&chars("-1"), 0, 10), Err(NumberError::OutOfRange));
    assert_eq!(
        parse_integer(&chars("99999999999999999999999999999999999999"), i64::MIN, i64::MAX),
        Err(NumberError::OutOfRange)
    );
    assert_eq!(parse_integer(&chars("0000000000000000000000000000000000000012"), 0, 20), Ok(12));
}

#[test]
fn parse_integer_refuses_what_is_no_integer() {
    for text in ["", "-", "+", "1 ", " 1", "1e3", "0x10", "--1", "1-", "١٢"] {
        assert_eq!(parse_integer(&chars(text), i64::MIN, i64::MAX), Err(NumberError::Invalid), "{}", text);
    }
}

#[test]
fn decimal_grammar_accepts_numbers() {
    for text in ["0", "1", "-1", "+1", "1.", ".5", "1.5", "-0.57", "150.50", "1e5", "1E5", "1.5e-3", "1e+3",
        "1.7976931348623157E308", "000.100"] {
        assert!(check_decimal(&chars(text)), "{}", text);
        assert_eq!(Decimal::parse(text).unwrap().as_str(), text);
    }
}

#[test]
fn decimal_grammar_refuses_the_rest() {
    for text in ["", "-", ".", "+.", "e5", "1e", "1e+", "1.5.2", "1 ", "abc", "inf", "NaN", "1,5", "0x1p3", "1e5.0"] {
        assert!(!check_decimal(&chars(text)), "{}", text);
        assert!(Decimal::parse(text).is_none());
    }
}

#[test]
fn a_decimal_is_positive_with_a_digit_above_zero_and_no_minus() {
    for text in ["1", "0.001", "+5", ".5", "10e-3", "0.0e0001"] {
        let positive = text != "0.0e0001";
        assert_eq!(Decimal::parse(text).unwrap().is_positive(), positive, "{}", text);
    }
    for text in ["0", "0.0", "-1", "-0.5", "000", "0e5", "-0"] {
        assert!(!Decimal::parse(text).unwrap().is_positive(), "{}", text);
    }
}

#[test]
fn zero_is_written_as_one_digit() {
    assert_eq!(Decimal::zero().as_str(), "0");
    assert!(Decimal::zero().same(&Decimal::parse("0").unwrap()));
    assert!(!Decimal::zero().same(&Decimal::parse("0.0").unwrap()));
    assert_eq!(Decimal::zero().clone(), Decimal::zero());
}
