use qalttab::notification::{serve_message, decode_notification, Field, NotificationError, READ_LIMIT};
use qalttab::window::{AppEvent, MessageType, Response, WindowDescriptor};

const ACK: &str = "{\"message\":\"success\"}";

fn desc(pairs: &[(&str, &str)]) -> WindowDescriptor {
    WindowDescriptor {
        entries: pairs.iter().map(|(k, v)| (k.to_string(), v.to_string())).collect(),
    }
}

fn terminal() -> WindowDescriptor {
    desc(&[
        ("class", "Alacritty"),
        ("group_label", "I"),
        ("group_name", "1"),
        ("id", "1"),
        ("name", "term"),
    ])
}

#[test]
fn cycle_payload_emits_cycle_event() {
    let payload = r#"{"message_type":"cycle_windows","windows":[{"id":"1","class":"Alacritty","name":"term","group_name":"1","group_label":"I"}]}"#;
    let ex = serve_message(payload.as_bytes());
    assert_eq!(ex.reply, ACK);
    assert_eq!(ex.error, None);
    assert_eq!(
        ex.event,
        Some(AppEvent::UnixSocketMsg(Response {
            message_type: MessageType::CycleWindows,
            windows: vec![terminal()],
        }))
    );
}

#[test]
fn client_focus_keeps_window_order() {
    let payload = r#"{"message_type":"client_focus","windows":[{"id":"7"},{"id":"3"},{"id":"5"}]}"#;
    let r = decode_notification(payload.as_bytes()).unwrap();
    assert_eq!(r.message_type, MessageType::ClientFocus);
    assert_eq!(r.windows, vec![desc(&[("id", "7")]), desc(&[("id", "3")]), desc(&[("id", "5")])]);
}

#[test]
fn empty_window_list_is_accepted() {
    let r = decode_notification(br#"{"message_type":"cycle_windows","windows":[]}"#).unwrap();
    assert_eq!(r.message_type, MessageType::CycleWindows);
    assert!(r.windows.is_empty());
}

#[test]
fn unknown_message_type_emits_nothing() {
    let ex = serve_message(br#"{"message_type":"bogus","windows":[]}"#);
    assert_eq!(ex.reply, ACK);
    assert_eq!(ex.event, None);
    assert_eq!(ex.error, Some(NotificationError::UnknownMessageType("bogus".to_string())));
    // the next connection is served as usual
    let next = serve_message(br#"{"message_type":"client_focus","windows":[{"id":"2"}]}"#);
    assert!(next.event.is_some());
}

#[test]
fn bad_window_entry_rejects_message() {
    let ex = serve_message(br#"{"message_type":"cycle_windows","windows":[{"id":"1"},{"id":2}]}"#);
    assert_eq!(ex.reply, ACK);
    assert_eq!(ex.event, None);
    assert_eq!(ex.error, Some(NotificationError::BadWindowEntry));
}

#[test]
fn non_object_window_entry_rejects_message() {
    let ex = serve_message(br#"{"message_type":"client_focus","windows":["1"]}"#);
    assert_eq!(ex.event, None);
    assert_eq!(ex.error, Some(NotificationError::BadWindowEntry));
}

#[test]
fn malformed_json_is_dropped() {
    let ex = serve_message(b"{\"message_type\": ");
    assert_eq!(ex.reply, ACK);
    assert_eq!(ex.event, None);
    assert_eq!(ex.error, Some(NotificationError::Malformed));
}

#[test]
fn non_object_document_is_rejected() {
    assert_eq!(decode_notification(b"[1, 2]"), Err(NotificationError::NotAnObject));
}

#[test]
fn missing_and_mistyped_fields_are_rejected() {
    assert_eq!(
        decode_notification(br#"{"windows":[]}"#),
        Err(NotificationError::MissingField(Field::MessageType))
    );
    assert_eq!(
        decode_notification(br#"{"message_type":3,"windows":[]}"#),
        Err(NotificationError::WrongType(Field::MessageType))
    );
    assert_eq!(
        decode_notification(br#"{"message_type":"client_focus"}"#),
        Err(NotificationError::MissingField(Field::Windows))
    );
    assert_eq!(
        decode_notification(br#"{"message_type":"client_focus","windows":{}}"#),
        Err(NotificationError::WrongType(Field::Windows))
    );
}

#[test]
fn read_limit_is_four_kibibytes() {
    assert_eq!(READ_LIMIT, 4096);
}
