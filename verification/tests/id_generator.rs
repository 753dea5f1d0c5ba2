use tws_core::id_generator::IdGenerator;
use tws_core::id_generator::LAST_ID;
use tws_core::id_generator::REQUEST_ID_BASE;

#[test]
fn request_ids_start_at_the_base() {
    let mut ids = IdGenerator::new(1);
    assert_eq!(REQUEST_ID_BASE, 9000);
    assert_eq!(ids.next_request_id(), Some(9000));
    assert_eq!(ids.next_request_id(), Some(9001));
    assert_eq!(ids.next_order_id(), Some(1));
}

#[test]
fn order_ids_are_returned_then_advanced() {
    let mut ids = IdGenerator::new(42);
    assert_eq!(ids.peek_order_id(), 42);
    assert_eq!(ids.next_order_id(), Some(42));
    assert_eq!(ids.next_order_id(), Some(43));
    assert_eq!(ids.peek_order_id(), 44);
}

#[test]
fn a_seed_only_raises_the_counter() {
    let mut ids = IdGenerator::new(100);
    ids.set_order_id(50);
    assert_eq!(ids.next_order_id(), Some(100));
    ids.set_order_id(101);
    assert_eq!(ids.next_order_id(), Some(101));
    ids.set_order_id(500);
    assert_eq!(ids.next_order_id(), Some(500));
    ids.set_order_id(500);
    assert_eq!(ids.next_order_id(), Some(501));
}

#[test]
fn issued_order_ids_never_repeat() {
    let mut ids = IdGenerator::new(7);
    let mut seen = Vec::new();
    for round in 0..200 {
        if round % 17 == 0 {
            ids.set_order_id(round);
        }
        let id = ids.next_order_id().unwrap();
        assert!(seen.iter().all(|&earlier| earlier < id));
        seen.push(id);
    }
}

#[test]
fn the_last_id_is_never_issued() {
    let mut ids = IdGenerator::new(LAST_ID - 1);
    assert_eq!(ids.next_order_id(), Some(LAST_ID - 1));
    assert_eq!(ids.next_order_id(), None);
    assert_eq!(ids.next_order_id(), None);
    assert_eq!(ids.peek_order_id(), LAST_ID);
    assert_eq!(ids.next_request_id(), Some(9000));
}
