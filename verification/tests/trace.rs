use tws_core::messages::RequestMessage;
use tws_core::messages::ResponseMessage;
use tws_core::trace::add_response_to_current;
use tws_core::trace::clear;
use tws_core::trace::get_last_interaction;
use tws_core::trace::last_interaction;
use tws_core::trace::record_request;
use tws_core::trace::record_response;
use tws_core::trace::start_new_interaction;
use tws_core::trace::Interaction;
use tws_core::trace::TraceStorage;

#[test]
fn a_new_storage_holds_nothing() {
    let storage = TraceStorage::new();
    assert_eq!(get_last_interaction(&storage), None);
    assert_eq!(TraceStorage::default(), storage);
}

#[test]
fn a_request_replaces_what_was_recorded() {
    let mut storage = TraceStorage::new();
    start_new_interaction(&mut storage, "first".to_string());
    add_response_to_current(&mut storage, "a".to_string());
    start_new_interaction(&mut storage, "second".to_string());
    let last = get_last_interaction(&storage).unwrap();
    assert_eq!(last.request, "second");
    assert!(last.responses.is_empty());
}

#[test]
fn every_response_grows_the_list_by_one() {
    let mut storage = TraceStorage::new();
    start_new_interaction(&mut storage, "request".to_string());
    for n in 0..5 {
        assert_eq!(get_last_interaction(&storage).unwrap().responses.len(), n);
        add_response_to_current(&mut storage, format!("response {}", n));
    }
    let last = last_interaction(&storage).unwrap();
    assert_eq!(last.responses, vec!["response 0", "response 1", "response 2", "response 3", "response 4"]);
}

#[test]
fn a_response_without_a_request_is_dropped() {
    let mut storage = TraceStorage::new();
    add_response_to_current(&mut storage, "lost".to_string());
    assert_eq!(get_last_interaction(&storage), None);
}

#[test]
fn clear_forgets_the_interaction() {
    let mut storage = TraceStorage::new();
    start_new_interaction(&mut storage, "request".to_string());
    clear(&mut storage);
    assert_eq!(get_last_interaction(&storage), None);
}

#[test]
fn a_snapshot_is_not_reached_by_later_responses() {
    let mut storage = TraceStorage::new();
    start_new_interaction(&mut storage, "request".to_string());
    let snapshot = get_last_interaction(&storage).unwrap();
    add_response_to_current(&mut storage, "late".to_string());
    assert!(snapshot.responses.is_empty());
    assert_eq!(snapshot, Interaction::new("request".to_string()));
}

#[test]
fn the_hooks_record_the_display_form_of_frames() {
    let mut storage = TraceStorage::new();
    let mut request = RequestMessage::new();
    request.push_int(62);
    request.push_int(9000);
    request.push_str("All");
    record_request(&mut storage, &request);
    record_response(&mut storage, &ResponseMessage::from("63\x001\x009000\x00"));
    let last = last_interaction(&storage).unwrap();
    assert_eq!(last.request, "62|9000|All|");
    assert_eq!(last.responses, vec!["63|1|9000||"]);
}

#[test]
fn an_interaction_keeps_its_responses_in_order() {
    let mut interaction = Interaction::new("r".to_string());
    interaction.add_response("1".to_string());
    interaction.add_response("2".to_string());
    assert_eq!(interaction.snapshot().responses, vec!["1", "2"]);
}
