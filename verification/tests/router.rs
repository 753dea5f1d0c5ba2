use tws_core::errors::Error;
use tws_core::messages::ResponseMessage;
use tws_core::router::classify;
use tws_core::router::decode_server_error;
use tws_core::router::handle_frame;
use tws_core::router::is_end_of_stream;
use tws_core::router::route;
use tws_core::router::routing;
use tws_core::router::ErrorClass;
use tws_core::router::Handling;
use tws_core::router::Registries;
use tws_core::router::Route;
use tws_core::router::Routing;
use tws_core::router::RoutingKey;
use tws_core::subscriptions::Dispatch;
use tws_core::subscriptions::Next;
use tws_core::subscriptions::SubscriptionState;
use tws_core::trace::last_interaction;
use tws_core::trace::start_new_interaction;
use tws_core::trace::TraceStorage;

fn frame(text: &str) -> ResponseMessage {
    ResponseMessage::from_simple(text)
}


#[test]
fn the_table_tells_where_the_key_stands() {
    assert_eq!(routing(1, 200), Routing::ByRequestId(2));
    assert_eq!(routing(63, 200), Routing::ByRequestId(2));
    assert_eq!(routing(10, 200), Routing::ByRequestId(1));
    assert_eq!(routing(94, 200), Routing::ByRequestId(1));
    assert_eq!(routing(3, 200), Routing::ByOrderId(1));
    assert_eq!(routing(5, 200), Routing::ByOrderId(1));
    assert_eq!(routing(9, 200), Routing::ByKind);
    assert_eq!(routing(15, 200), Routing::ByKind);
    assert_eq!(routing(61, 200), Routing::ByKind);
    assert_eq!(routing(12345, 200), Routing::ByKind);
}

#[test]
fn end_kinds_close_their_stream() {
    for kind in [52, 53, 55, 62, 64, 102] {
        assert!(is_end_of_stream(kind));
    }
    for kind in [1, 3, 4, 5, 10, 11, 61, 63, 101] {
        assert!(!is_end_of_stream(kind));
    }
}

#[test]
fn frames_are_routed_by_request_order_or_kind() {
    assert_eq!(route(&frame("63|1|9000|DU1|NetLiquidation|1.0|USD"), 200),
        Ok(Route { kind: 63, key: RoutingKey::Request(9000), end_of_stream: false }));
    assert_eq!(route(&frame("64|1|9000"), 200),
        Ok(Route { kind: 64, key: RoutingKey::Request(9000), end_of_stream: true }));
    assert_eq!(route(&frame("3|42|Filled|1|0|150.5"), 200),
        Ok(Route { kind: 3, key: RoutingKey::Order(42), end_of_stream: false }));
    assert_eq!(route(&frame("9|1|42"), 200),
        Ok(Route { kind: 9, key: RoutingKey::Kind(9), end_of_stream: false }));
    assert_eq!(route(&frame("62|1"), 200),
        Ok(Route { kind: 62, key: RoutingKey::Kind(61), end_of_stream: true }));
}

#[test]
fn an_error_without_a_request_is_a_notice_of_the_connection() {
    assert_eq!(route(&frame("4|2|-1|2104|Market data farm connection is OK"), 200),
        Ok(Route { kind: 4, key: RoutingKey::Kind(4), end_of_stream: false }));
    assert_eq!(route(&frame("4|2|9001|200|No security definition"), 200),
        Ok(Route { kind: 4, key: RoutingKey::Request(9001), end_of_stream: false }));
}

#[test]
fn a_frame_without_a_readable_key_has_no_route() {
    assert!(matches!(route(&frame("abc|1"), 200), Err(Error::Parse(1, _, _))));
    assert!(matches!(route(&frame("63|1|x"), 200), Err(Error::Parse(3, _, _))));
    assert!(matches!(route(&frame("63|1"), 200), Err(Error::Parse(2, _, _))));
}

#[test]
fn error_codes_are_classified() {
    for code in [1100, 1101, 1102] {
        assert_eq!(classify(code), ErrorClass::ConnectionWarning);
    }
    for code in [2103, 2105] {
        assert_eq!(classify(code), ErrorClass::FarmWarning);
    }
    for code in [10001, 326] {
        assert_eq!(classify(code), ErrorClass::FatalForCall);
    }
    for code in [0, 200, 2104, 2106, 1103] {
        assert_eq!(classify(code), ErrorClass::Ordinary);
    }
}

#[test]
fn a_server_error_becomes_a_protocol_error() {
    let mut message = ResponseMessage::from("4\x002\x009001\x00200\x00No security definition has been found\x00");
    let error = decode_server_error(&mut message).unwrap();
    assert_eq!(error.request_id, 9001);
    assert_eq!(error.into_error(), Error::Protocol(200, "No security definition has been found".to_string()));
    let mut short = ResponseMessage::from_simple("4|2|9001");
    assert!(matches!(decode_server_error(&mut short), Err(Error::Parse(_, _, _))));
}

#[test]
fn the_router_records_every_frame_and_hands_it_to_its_owner() {
    let mut registries = Registries::new();
    let mut trace = TraceStorage::new();
    start_new_interaction(&mut trace, "62|9000|All|".to_string());
    registries.requests.allocate(9000, 4, None, false).unwrap();
    registries.orders.allocate(42, 4, None, false).unwrap();
    registries.kinds.allocate(9, 4, None, false).unwrap();

    let summary = frame("63|1|9000|DU1|NetLiquidation|1.0|USD");
    assert_eq!(handle_frame(&mut registries, &mut trace, 200, &summary),
        Handling::Routed(RoutingKey::Request(9000), Dispatch::Delivered));
    assert_eq!(handle_frame(&mut registries, &mut trace, 200, &frame("3|42|Filled")),
        Handling::Routed(RoutingKey::Order(42), Dispatch::Delivered));
    assert_eq!(handle_frame(&mut registries, &mut trace, 200, &frame("9|1|43")),
        Handling::Routed(RoutingKey::Kind(9), Dispatch::Delivered));
    assert_eq!(handle_frame(&mut registries, &mut trace, 200, &frame("63|1|9777|x")),
        Handling::Routed(RoutingKey::Request(9777), Dispatch::Unsolicited));
    assert_eq!(handle_frame(&mut registries, &mut trace, 200, &frame("garbage")), Handling::Unroutable);
    assert_eq!(handle_frame(&mut registries, &mut trace, 200, &frame("64|1|9000")),
        Handling::Routed(RoutingKey::Request(9000), Dispatch::Ended));

    assert_eq!(last_interaction(&trace).unwrap().responses.len(), 6);
    assert_eq!(registries.requests.next(9000, 0), Next::Frame(summary));
    assert_eq!(registries.requests.next(9000, 0), Next::Ended);
    assert_eq!(registries.orders.next(42, 0), Next::Frame(frame("3|42|Filled")));
    assert_eq!(registries.kinds.next(9, 0), Next::Frame(frame("9|1|43")));
}

#[test]
fn after_shutdown_nothing_is_active_and_nothing_can_be_sent() {
    let mut registries = Registries::new();
    assert_eq!(registries.check_connected(), Ok(()));
    registries.requests.allocate(1, 1, None, false).unwrap();
    registries.orders.allocate(1, 1, None, false).unwrap();
    registries.kinds.allocate(61, 1, None, false).unwrap();
    registries.shutdown();
    assert_eq!(registries.check_connected(), Err(Error::NotConnected));
    assert_eq!(registries.requests.state(1), Some(SubscriptionState::Disconnected));
    assert_eq!(registries.orders.state(1), Some(SubscriptionState::Disconnected));
    assert_eq!(registries.kinds.state(61), Some(SubscriptionState::Disconnected));
}

#[test]
fn only_transport_errors_are_fatal() {
    assert!(Error::Io("broken pipe".to_string()).is_fatal());
    assert!(Error::ConnectionClosed.is_fatal());
    for error in [Error::NotConnected, Error::HandshakeTimeout, Error::ServerVersionUnsupported(100, 99),
        Error::Parse(1, "x".to_string(), "y".to_string()), Error::Protocol(200, "z".to_string()),
        Error::DuplicateId, Error::AlreadyCancelled, Error::Overrun, Error::Timeout, Error::FrameTooLarge(2, 1)] {
        assert!(!error.is_fatal());
    }
}

#[test]
fn three_kinds_carry_their_key_behind_a_version_field_at_old_versions() {
    assert_eq!(routing(3, 131), Routing::ByOrderId(1));
    assert_eq!(routing(3, 130), Routing::ByOrderId(2));
    assert_eq!(routing(5, 145), Routing::ByOrderId(1));
    assert_eq!(routing(5, 144), Routing::ByOrderId(2));
    assert_eq!(routing(11, 136), Routing::ByRequestId(1));
    assert_eq!(routing(11, 135), Routing::ByRequestId(2));
    assert_eq!(route(&frame("3|6|42|Filled"), 130),
        Ok(Route { kind: 3, key: RoutingKey::Order(42), end_of_stream: false }));
    assert_eq!(route(&frame("3|42|Filled"), 131),
        Ok(Route { kind: 3, key: RoutingKey::Order(42), end_of_stream: false }));
    assert_eq!(route(&frame("11|9|9000|42"), 135),
        Ok(Route { kind: 11, key: RoutingKey::Request(9000), end_of_stream: false }));
}
