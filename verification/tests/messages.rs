use tws_core::errors::Error;
use tws_core::messages::RequestMessage;
use tws_core::messages::ResponseMessage;
use tws_core::numeric::Decimal;

#[test]
fn split_keeps_the_empty_field_behind_the_last_nul() {
    let message = ResponseMessage::from("9\x001\x0043\x00");
    assert_eq!(message.len(), 4);
    assert_eq!(message.peek_string(0), Some("9".to_string()));
    assert_eq!(message.peek_string(2), Some("43".to_string()));
    assert_eq!(message.peek_string(3), Some("".to_string()));
    assert_eq!(message.peek_string(4), None);
}

#[test]
fn split_of_the_empty_text_is_one_empty_field() {
    let message = ResponseMessage::from("");
    assert_eq!(message.len(), 1);
    assert!(!message.is_empty());
}

#[test]
fn from_simple_splits_on_bars() {
    let mut message = ResponseMessage::from_simple("15|1|DU1234567|");
    assert_eq!(message.next_int(), Ok(15));
    assert_eq!(message.next_int(), Ok(1));
    assert_eq!(message.next_string(), Ok("DU1234567".to_string()));
    assert_eq!(message.encode_simple(), "15|1|DU1234567||");
}

#[test]
fn encode_then_split_gives_the_fields_and_one_empty_field() {
    let mut request = RequestMessage::new();
    request.push_int(62);
    request.push_str("All");
    request.push_bool(true);
    request.push_bool(false);
    request.push_long(-9000000000);
    assert_eq!(request.len(), 5);
    let encoded = request.encode();
    assert_eq!(encoded, "62\0All\01\00\0-9000000000\0");
    let mut response = ResponseMessage::from(&encoded);
    assert_eq!(response.len(), 6);
    assert_eq!(response.next_int(), Ok(62));
    assert_eq!(response.next_string(), Ok("All".to_string()));
    assert_eq!(response.next_bool(), Ok(true));
    assert_eq!(response.next_bool(), Ok(false));
    assert_eq!(response.next_long(), Ok(-9000000000));
    assert_eq!(response.next_string(), Ok("".to_string()));
    assert_eq!(response.encode(), encoded.clone() + "\0");
}

#[test]
fn next_int_reads_empty_as_zero() {
    let mut message = ResponseMessage::from_simple("|7|-12|+5|007");
    assert_eq!(message.next_int(), Ok(0));
    assert_eq!(message.next_int(), Ok(7));
    assert_eq!(message.next_int(), Ok(-12));
    assert_eq!(message.next_int(), Ok(5));
    assert_eq!(message.next_int(), Ok(7));
    assert_eq!(message.position(), 5);
}

#[test]
fn next_int_takes_the_whole_range() {
    let mut message = ResponseMessage::from_simple("2147483647|-2147483648|2147483648|-2147483649");
    assert_eq!(message.next_int(), Ok(2147483647));
    assert_eq!(message.next_int(), Ok(-2147483648));
    assert_eq!(
        message.next_int(),
        Err(Error::Parse(3, "2147483648".to_string(), "number does not fit in target type".to_string()))
    );
    assert_eq!(
        message.next_int(),
        Err(Error::Parse(4, "-2147483649".to_string(), "number does not fit in target type".to_string()))
    );
}

#[test]
fn next_int_refuses_what_is_no_number() {
    let mut message = ResponseMessage::from_simple("12a|-|+|1.5");
    for position in 1..=4 {
        match message.next_int() {
            Err(Error::Parse(at, _, reason)) => {
                assert_eq!(at, position);
                assert_eq!(reason, "invalid digit found in string");
            }
            other => panic!("{:?}", other),
        }
    }
}

#[test]
fn reading_past_the_end_fails_and_stays() {
    let mut message = ResponseMessage::from_simple("1");
    assert_eq!(message.next_int(), Ok(1));
    let expected = Err(Error::Parse(1, "".to_string(), "end of message".to_string()));
    assert_eq!(message.next_int(), expected);
    assert_eq!(message.position(), 1);
    assert_eq!(message.next_bool(), Err(Error::Parse(1, "".to_string(), "end of message".to_string())));
    assert_eq!(message.next_string(), Err(Error::Parse(1, "".to_string(), "end of message".to_string())));
    message.skip();
    assert_eq!(message.position(), 1);
}

#[test]
fn optional_int_knows_both_ways_to_be_unset() {
    let mut message = ResponseMessage::from_simple("|2147483647|3|x");
    assert_eq!(message.next_optional_int(), Ok(None));
    assert_eq!(message.next_optional_int(), Ok(None));
    assert_eq!(message.next_optional_int(), Ok(Some(3)));
    assert!(matches!(message.next_optional_int(), Err(Error::Parse(4, _, _))));
}

#[test]
fn optional_long_knows_both_ways_to_be_unset() {
    let mut message = ResponseMessage::from_simple("|9223372036854775807|9223372036854775806|9223372036854775808");
    assert_eq!(message.next_optional_long(), Ok(None));
    assert_eq!(message.next_optional_long(), Ok(None));
    assert_eq!(message.next_optional_long(), Ok(Some(9223372036854775806)));
    assert!(matches!(message.next_optional_long(), Err(Error::Parse(4, _, _))));
}

#[test]
fn doubles_read_unset_as_zero_or_none() {
    let mut message = ResponseMessage::from_simple("|1.7976931348623157E308|150.50|abc");
    assert_eq!(message.next_double().unwrap().as_str(), "0");
    assert_eq!(message.next_double().unwrap().as_str(), "0");
    assert_eq!(message.next_double().unwrap().as_str(), "150.50");
    assert_eq!(
        message.next_double(),
        Err(Error::Parse(4, "abc".to_string(), "invalid decimal number".to_string()))
    );
    let mut message = ResponseMessage::from_simple("|1.7976931348623157E308|-0.57");
    assert_eq!(message.next_optional_double(), Ok(None));
    assert_eq!(message.next_optional_double(), Ok(None));
    assert_eq!(message.next_optional_double(), Ok(Decimal::parse("-0.57")));
}

#[test]
fn bool_is_true_for_one_only() {
    let mut message = ResponseMessage::from_simple("1|0||true|11");
    assert_eq!(message.next_bool(), Ok(true));
    assert_eq!(message.next_bool(), Ok(false));
    assert_eq!(message.next_bool(), Ok(false));
    assert_eq!(message.next_bool(), Ok(false));
    assert_eq!(message.next_bool(), Ok(false));
}

#[test]
fn peek_does_not_move_the_reader() {
    let message = ResponseMessage::from_simple("4|2|-1|2104|ok");
    assert_eq!(message.peek_int(0), Ok(4));
    assert_eq!(message.peek_int(2), Ok(-1));
    assert!(matches!(message.peek_int(4), Err(Error::Parse(5, _, _))));
    assert!(matches!(message.peek_int(9), Err(Error::Parse(5, _, _))));
    assert_eq!(message.position(), 0);
}

#[test]
fn optionals_are_written_as_empty_fields() {
    let mut request = RequestMessage::default();
    request.push_optional_int(None);
    request.push_optional_int(Some(5));
    request.push_optional_long(None);
    request.push_optional_long(Some(-7));
    request.push_optional_decimal(&None);
    request.push_optional_decimal(&Decimal::parse("1.25"));
    request.push_decimal(&Decimal::zero());
    assert_eq!(request.encode_simple(), "|5||-7||1.25|0|");
    assert!(!request.is_empty());
}

#[test]
fn duplicate_keeps_fields_and_position() {
    let mut message = ResponseMessage::from_simple("1|2|3");
    message.skip();
    let mut copy = message.duplicate();
    assert_eq!(copy, message);
    assert_eq!(copy.next_int(), Ok(2));
    assert_eq!(message.position(), 1);
}
