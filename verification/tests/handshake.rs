use tws_core::errors::Error;
use tws_core::handshake::decode_server_reply;
use tws_core::handshake::opening;
use tws_core::handshake::start_api;
use tws_core::handshake::version_range;
use tws_core::handshake::StartUp;
use tws_core::handshake::MAX_SERVER_VERSION;
use tws_core::handshake::MIN_SERVER_VERSION;
use tws_core::messages::ResponseMessage;

#[test]
fn the_offer_names_the_oldest_and_the_newest_version() {
    assert_eq!(version_range(100, 200), "v100..200");
    assert_eq!(version_range(MIN_SERVER_VERSION, MAX_SERVER_VERSION), "v100..200");
}

#[test]
fn the_opening_is_the_magic_and_the_framed_offer() {
    let bytes = opening(100, 200);
    assert_eq!(bytes, b"API\0\0\0\0\x09v100..200".to_vec());
}

#[test]
fn start_api_carries_the_client_and_the_capabilities() {
    assert_eq!(start_api(7, "").encode(), "71\02\07\0\0");
    assert_eq!(start_api(0, "caps").encode_simple(), "71|2|0|caps|");
}

#[test]
fn the_reply_gives_version_and_time() {
    let mut message = ResponseMessage::from("173\x0020250924 01:21:07 EST\x00");
    let reply = decode_server_reply(&mut message, MIN_SERVER_VERSION).unwrap();
    assert_eq!(reply.server_version, 173);
    assert_eq!(reply.server_time, "20250924 01:21:07 EST");
}

#[test]
fn a_version_below_the_floor_is_refused() {
    let mut message = ResponseMessage::from("99\x00now\x00");
    assert_eq!(decode_server_reply(&mut message, 100), Err(Error::ServerVersionUnsupported(100, 99)));
    let mut message = ResponseMessage::from("100\x00now\x00");
    assert!(decode_server_reply(&mut message, 100).is_ok());
}

#[test]
fn a_reply_that_cannot_be_read_is_a_parse_error() {
    let mut message = ResponseMessage::from("abc\x00now\x00");
    assert!(matches!(decode_server_reply(&mut message, 100), Err(Error::Parse(1, _, _))));
}

#[test]
fn the_start_up_waits_for_both_messages() {
    let start = StartUp::new();
    assert!(!start.is_complete());
    assert_eq!(start.clone().finish(), Err(Error::HandshakeTimeout));
    let start = start.observe(&ResponseMessage::from("15\x001\x00DU1234567,DU7654321\x00"));
    assert!(!start.is_complete());
    assert_eq!(start.clone().finish(), Err(Error::HandshakeTimeout));
    let start = start.observe(&ResponseMessage::from("4\x002\x00-1\x002104\x00farm is OK\x00"));
    assert!(!start.is_complete());
    let start = start.observe(&ResponseMessage::from("9\x001\x0042\x00"));
    assert!(start.is_complete());
    assert_eq!(start.finish(), Ok(("DU1234567,DU7654321".to_string(), 42)));
}
