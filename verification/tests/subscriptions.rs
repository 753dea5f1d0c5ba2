use tws_core::errors::Error;
use tws_core::messages::RequestMessage;
use tws_core::messages::ResponseMessage;
use tws_core::subscriptions::Dispatch;
use tws_core::subscriptions::Next;
use tws_core::subscriptions::Registry;
use tws_core::subscriptions::SubscriptionState;

fn frame(text: &str) -> ResponseMessage {
    ResponseMessage::from_simple(text)
}

fn cancel_frame(kind: i32, id: i32) -> RequestMessage {
    let mut message = RequestMessage::new();
    message.push_int(kind);
    message.push_int(1);
    message.push_int(id);
    message
}

#[test]
fn a_key_has_at_most_one_active_subscription() {
    let mut registry = Registry::new();
    assert_eq!(registry.allocate(9000, 4, None, false), Ok(()));
    assert_eq!(registry.allocate(9000, 4, None, false), Err(Error::DuplicateId));
    assert_eq!(registry.allocate(9001, 4, None, false), Ok(()));
    assert_eq!(registry.len(), 2);
    assert_eq!(registry.state(9000), Some(SubscriptionState::Active));
    assert_eq!(registry.state(9002), None);
}

#[test]
fn a_final_subscription_makes_room_for_a_new_one() {
    let mut registry = Registry::new();
    registry.allocate(1, 4, None, false).unwrap();
    assert_eq!(registry.dispatch(1, &frame("63|1|1"), false), Dispatch::Delivered);
    assert_eq!(registry.dispatch(1, &frame("64|1|1"), true), Dispatch::Ended);
    assert_eq!(registry.allocate(1, 4, None, false), Ok(()));
    assert_eq!(registry.len(), 1);
    assert_eq!(registry.state(1), Some(SubscriptionState::Active));
    assert_eq!(registry.next(1, 0), Next::Pending);
}

#[test]
fn frames_come_out_in_the_order_they_went_in() {
    let mut registry = Registry::new();
    registry.allocate(5, 10, None, false).unwrap();
    for n in 0..5 {
        assert_eq!(registry.dispatch(5, &frame(&format!("1|2|5|{}", n)), false), Dispatch::Delivered);
    }
    assert_eq!(registry.dispatch(5, &frame("64|1|5"), true), Dispatch::Ended);
    for n in 0..5 {
        assert_eq!(registry.next(5, 0), Next::Frame(frame(&format!("1|2|5|{}", n))));
    }
    assert_eq!(registry.next(5, 0), Next::Ended);
    assert_eq!(registry.next(5, 0), Next::Ended);
}

#[test]
fn a_full_channel_holds_the_router_back() {
    let mut registry = Registry::new();
    registry.allocate(5, 2, None, false).unwrap();
    assert_eq!(registry.dispatch(5, &frame("a"), false), Dispatch::Delivered);
    assert_eq!(registry.dispatch(5, &frame("b"), false), Dispatch::Delivered);
    assert_eq!(registry.dispatch(5, &frame("c"), false), Dispatch::Full);
    assert_eq!(registry.next(5, 0), Next::Frame(frame("a")));
    assert_eq!(registry.dispatch(5, &frame("c"), false), Dispatch::Delivered);
    assert_eq!(registry.dispatch(5, &frame("d"), false), Dispatch::Full);
    registry.overrun(5);
    assert_eq!(registry.state(5), Some(SubscriptionState::Overrun));
    assert_eq!(registry.dispatch(5, &frame("d"), false), Dispatch::Unsolicited);
    assert_eq!(registry.next(5, 0), Next::Frame(frame("b")));
    assert_eq!(registry.next(5, 0), Next::Frame(frame("c")));
    assert_eq!(registry.next(5, 0), Next::Failed(Error::Overrun));
}

#[test]
fn cancel_asks_for_the_cancel_frame_exactly_once() {
    let mut registry = Registry::new();
    registry.allocate(9000, 4, Some(cancel_frame(63, 9000)), false).unwrap();
    assert_eq!(registry.cancel(9000), Some(cancel_frame(63, 9000)));
    assert_eq!(registry.cancel(9000), None);
    assert_eq!(registry.cancel(9000), None);
    assert_eq!(registry.cancel(1), None);
    assert_eq!(registry.state(9000), Some(SubscriptionState::Cancelled));
    assert_eq!(registry.next(9000, 0), Next::Cancelled);
    assert_eq!(registry.dispatch(9000, &frame("late"), false), Dispatch::Unsolicited);
}

#[test]
fn frames_in_flight_are_still_handed_out_after_a_cancel() {
    let mut registry = Registry::new();
    registry.allocate(9000, 4, None, false).unwrap();
    registry.dispatch(9000, &frame("a"), false);
    assert_eq!(registry.cancel(9000), None);
    assert_eq!(registry.next(9000, 0), Next::Frame(frame("a")));
    assert_eq!(registry.next(9000, 0), Next::Cancelled);
}

#[test]
fn release_cancels_what_is_active_and_removes_it() {
    let mut registry = Registry::new();
    registry.allocate(1, 4, Some(cancel_frame(2, 1)), false).unwrap();
    registry.allocate(2, 4, Some(cancel_frame(2, 2)), false).unwrap();
    registry.cancel(2);
    assert_eq!(registry.release(1, 0), Some(cancel_frame(2, 1)));
    assert_eq!(registry.release(2, 0), None);
    assert_eq!(registry.release(3, 0), None);
    assert_eq!(registry.len(), 0);
    assert_eq!(registry.next(1, 0), Next::Unknown);
    assert_eq!(registry.dispatch(1, &frame("x"), false), Dispatch::Unsolicited);
}

#[test]
fn shutdown_fails_every_active_subscription() {
    let mut registry = Registry::new();
    for id in 0..6 {
        registry.allocate(id, 4, None, false).unwrap();
    }
    registry.dispatch(0, &frame("a"), false);
    registry.dispatch(1, &frame("end"), true);
    registry.cancel(2);
    registry.overrun(3);
    registry.shutdown();
    assert_eq!(registry.len(), 6);
    assert_eq!(registry.state(0), Some(SubscriptionState::Disconnected));
    assert_eq!(registry.state(1), Some(SubscriptionState::Ended));
    assert_eq!(registry.state(2), Some(SubscriptionState::Cancelled));
    assert_eq!(registry.state(3), Some(SubscriptionState::Overrun));
    assert_eq!(registry.state(4), Some(SubscriptionState::Disconnected));
    assert_eq!(registry.state(5), Some(SubscriptionState::Disconnected));
    assert_eq!(registry.next(0, 0), Next::Frame(frame("a")));
    assert_eq!(registry.next(0, 0), Next::Failed(Error::ConnectionClosed));
    assert_eq!(registry.next(4, 0), Next::Failed(Error::ConnectionClosed));
    registry.shutdown();
    assert_eq!(registry.state(1), Some(SubscriptionState::Ended));
    assert_eq!(registry.cancel(0), None);
    assert_eq!(registry.state(0), Some(SubscriptionState::Disconnected));
}

#[test]
fn a_shared_subscription_is_cancelled_when_the_last_consumer_lets_go() {
    let mut registry = Registry::new();
    registry.allocate(61, 8, Some(cancel_frame(64, 1)), false).unwrap();
    assert_eq!(registry.attach(61), Some(1));
    assert_eq!(registry.attach(62), None);
    registry.dispatch(61, &frame("61|3|DU1|AAPL"), false);
    assert_eq!(registry.release(61, 0), None);
    assert_eq!(registry.state(61), Some(SubscriptionState::Active));
    assert_eq!(registry.next(61, 0), Next::Unknown);
    assert_eq!(registry.next(61, 1), Next::Frame(frame("61|3|DU1|AAPL")));
    assert_eq!(registry.release(61, 0), None);
    assert_eq!(registry.release(61, 7), None);
    assert_eq!(registry.release(61, 1), Some(cancel_frame(64, 1)));
    assert_eq!(registry.state(61), None);
}

#[test]
fn two_consumers_of_a_shared_subscription_see_the_same_frames() {
    let mut registry = Registry::new();
    registry.allocate(61, 8, None, false).unwrap();
    assert_eq!(registry.dispatch(61, &frame("61|3|DU1|AAPL"), false), Dispatch::Delivered);
    let second = registry.attach(61).unwrap();
    assert_eq!(second, 1);
    for n in 0..3 {
        assert_eq!(registry.dispatch(61, &frame(&format!("61|3|DU1|{}", n)), false), Dispatch::Delivered);
    }
    assert_eq!(registry.next(61, 0), Next::Frame(frame("61|3|DU1|AAPL")));
    for n in 0..3 {
        assert_eq!(registry.next(61, 0), Next::Frame(frame(&format!("61|3|DU1|{}", n))));
    }
    assert_eq!(registry.next(61, 0), Next::Pending);
    for n in 0..3 {
        assert_eq!(registry.next(61, second), Next::Frame(frame(&format!("61|3|DU1|{}", n))));
    }
    assert_eq!(registry.next(61, second), Next::Pending);
    assert_eq!(registry.dispatch(61, &frame("62|1"), true), Dispatch::Ended);
    assert_eq!(registry.next(61, 0), Next::Ended);
    assert_eq!(registry.next(61, second), Next::Ended);
}

#[test]
fn the_slowest_consumer_of_a_shared_subscription_holds_the_router_back() {
    let mut registry = Registry::new();
    registry.allocate(61, 2, None, false).unwrap();
    let second = registry.attach(61).unwrap();
    assert_eq!(registry.dispatch(61, &frame("a"), false), Dispatch::Delivered);
    assert_eq!(registry.dispatch(61, &frame("b"), false), Dispatch::Delivered);
    assert_eq!(registry.next(61, 0), Next::Frame(frame("a")));
    assert_eq!(registry.dispatch(61, &frame("c"), false), Dispatch::Full);
    assert_eq!(registry.next(61, 0), Next::Frame(frame("b")));
    assert_eq!(registry.next(61, 0), Next::Pending);
    assert_eq!(registry.release(61, second), None);
    assert_eq!(registry.dispatch(61, &frame("c"), false), Dispatch::Delivered);
    assert_eq!(registry.next(61, 0), Next::Frame(frame("c")));
}

#[test]
fn a_key_is_held_until_the_server_has_acknowledged_the_end() {
    let mut registry = Registry::new();
    registry.allocate(9000, 4, Some(cancel_frame(63, 9000)), true).unwrap();
    assert_eq!(registry.cancel(9000), Some(cancel_frame(63, 9000)));
    assert_eq!(registry.allocate(9000, 4, None, true), Err(Error::DuplicateId));
    assert_eq!(registry.dispatch(9000, &frame("63|1|9000|late"), false), Dispatch::Unsolicited);
    assert_eq!(registry.allocate(9000, 4, None, true), Err(Error::DuplicateId));
    assert_eq!(registry.dispatch(9000, &frame("64|1|9000"), true), Dispatch::Acknowledged);
    assert_eq!(registry.dispatch(9000, &frame("64|1|9000"), true), Dispatch::Unsolicited);
    assert_eq!(registry.state(9000), Some(SubscriptionState::Cancelled));
    assert_eq!(registry.allocate(9000, 4, None, true), Ok(()));
    assert_eq!(registry.state(9000), Some(SubscriptionState::Active));
}

#[test]
fn a_released_key_is_held_until_the_grace_period_is_over() {
    let mut registry = Registry::new();
    registry.allocate(7, 4, Some(cancel_frame(2, 7)), true).unwrap();
    assert_eq!(registry.release(7, 0), Some(cancel_frame(2, 7)));
    assert_eq!(registry.state(7), Some(SubscriptionState::Cancelled));
    assert_eq!(registry.next(7, 0), Next::Unknown);
    assert_eq!(registry.allocate(7, 4, None, false), Err(Error::DuplicateId));
    registry.acknowledge(7);
    assert_eq!(registry.state(7), None);
    assert_eq!(registry.allocate(7, 4, None, false), Ok(()));
    registry.acknowledge(7);
    assert_eq!(registry.state(7), Some(SubscriptionState::Active));
    registry.overrun(7);
    assert_eq!(registry.allocate(7, 4, None, false), Err(Error::DuplicateId));
    registry.acknowledge(7);
    assert_eq!(registry.state(7), Some(SubscriptionState::Overrun));
    assert_eq!(registry.allocate(7, 4, None, false), Ok(()));
}

#[test]
fn a_pending_subscription_stays_active() {
    let mut registry = Registry::new();
    registry.allocate(1, 1, None, false).unwrap();
    assert_eq!(registry.next(1, 0), Next::Pending);
    assert_eq!(registry.next(1, 0), Next::Pending);
    assert_eq!(registry.state(1), Some(SubscriptionState::Active));
    assert!(!SubscriptionState::Active.is_terminal());
    assert!(SubscriptionState::Ended.is_terminal());
}

#[test]
fn the_registry_lists_its_keys() {
    let mut registry = Registry::new();
    assert!(registry.ids().is_empty());
    registry.allocate(3, 1, None, false).unwrap();
    registry.allocate(1, 1, None, false).unwrap();
    registry.allocate(2, 1, None, false).unwrap();
    registry.release(1, 0);
    let mut ids = registry.ids();
    ids.sort();
    assert_eq!(ids, vec![2, 3]);
}
