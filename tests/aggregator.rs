use qalttab::notification::serve_message;
use qalttab::overlay::{placement_height, OverlayState};
use qalttab::window::{AppEvent, MessageType, Response, WindowDescriptor};

fn desc(id: &str) -> WindowDescriptor {
    WindowDescriptor { entries: vec![("id".to_string(), id.to_string())] }
}

fn message(kind: MessageType, ids: &[&str]) -> AppEvent {
    AppEvent::UnixSocketMsg(Response {
        message_type: kind,
        windows: ids.iter().map(|i| desc(i)).collect(),
    })
}

const CYCLE: &[u8] = br#"{"message_type":"cycle_windows","windows":[{"id":"1","class":"Alacritty","name":"term","group_name":"1","group_label":"I"}]}"#;

#[test]
fn first_cycle_list_shows_overlay() {
    let mut state = OverlayState::new();
    let event = serve_message(CYCLE).event.unwrap();
    assert_eq!(state.apply(&event), Some(true));
    assert!(state.visible);
    assert_eq!(state.current.as_ref().unwrap().windows.len(), 1);
}

#[test]
fn same_cycle_list_twice_shows_once() {
    let mut state = OverlayState::new();
    let first = serve_message(CYCLE).event.unwrap();
    let second = serve_message(CYCLE).event.unwrap();
    assert_eq!(state.apply(&first), Some(true));
    assert_eq!(state.apply(&second), None);
    assert!(state.visible);
}

#[test]
fn batch_of_identical_cycles_commands_once() {
    let mut state = OverlayState::new();
    let events = vec![
        message(MessageType::CycleWindows, &["1", "2"]),
        message(MessageType::CycleWindows, &["1", "2"]),
    ];
    assert_eq!(state.apply_all(&events), Some(true));
    assert!(state.visible);
}

#[test]
fn changed_cycle_list_shows_again() {
    let mut state = OverlayState::new();
    assert_eq!(state.apply(&message(MessageType::CycleWindows, &["1", "2"])), Some(true));
    assert_eq!(state.apply(&message(MessageType::CycleWindows, &["2", "1"])), Some(true));
    assert_eq!(state.previous.as_ref().unwrap().windows, vec![desc("2"), desc("1")]);
}

#[test]
fn cycle_equal_to_focus_list_does_not_show() {
    let mut state = OverlayState::new();
    assert_eq!(state.apply(&message(MessageType::ClientFocus, &["1"])), Some(false));
    assert_eq!(state.apply(&message(MessageType::CycleWindows, &["1"])), None);
    assert!(!state.visible);
}

#[test]
fn focus_events_always_hide() {
    let mut state = OverlayState::new();
    state.apply(&message(MessageType::CycleWindows, &["1", "2"]));
    assert!(state.visible);
    let events = vec![
        message(MessageType::ClientFocus, &["2"]),
        message(MessageType::ClientFocus, &["3"]),
    ];
    assert_eq!(state.apply_all(&events), Some(false));
    assert!(!state.visible);
    assert_eq!(state.current.as_ref().unwrap().windows, vec![desc("3")]);
}

#[test]
fn alt_release_changes_nothing() {
    let mut state = OverlayState::new();
    state.apply(&message(MessageType::CycleWindows, &["1"]));
    assert_eq!(state.apply(&AppEvent::AltReleased), None);
    assert!(state.visible);
    assert_eq!(state.apply_all(&vec![AppEvent::AltReleased]), None);
}

#[test]
fn empty_batch_commands_nothing() {
    let mut state = OverlayState::new();
    assert_eq!(state.apply_all(&vec![]), None);
    assert!(!state.visible);
    assert!(state.current.is_none());
}

#[test]
fn batch_reports_last_command() {
    let mut state = OverlayState::new();
    let events = vec![
        message(MessageType::ClientFocus, &["1"]),
        message(MessageType::CycleWindows, &["1", "2"]),
        AppEvent::AltReleased,
    ];
    assert_eq!(state.apply_all(&events), Some(true));
    assert!(state.visible);
}

#[test]
fn placement_height_is_capped() {
    assert_eq!(placement_height(300, 1000, 19), 319);
    assert_eq!(placement_height(1500, 1000, 19), 1019);
    assert_eq!(placement_height(u32::MAX, u32::MAX, u32::MAX), 2 * (u32::MAX as u64));
}
