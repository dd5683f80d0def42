use input_relay::events::normalize;
use input_relay::keys::get_button_string;
use input_relay::keys::get_key_string;
use input_relay::Button;
use input_relay::KeyCode;
use input_relay::RawEvent;

#[test]
fn key_labels_match_the_table() {
    assert_eq!(get_key_string(&KeyCode::ControlLeft), Some("Ctrl".to_string()));
    assert_eq!(get_key_string(&KeyCode::ControlRight), Some("Ctrl".to_string()));
    assert_eq!(get_key_string(&KeyCode::KeyA), Some("a".to_string()));
    assert_eq!(get_key_string(&KeyCode::Num0), Some("0".to_string()));
    assert_eq!(get_key_string(&KeyCode::Kp7), Some("7".to_string()));
    assert_eq!(get_key_string(&KeyCode::F12), Some("F12".to_string()));
    assert_eq!(get_key_string(&KeyCode::Backspace), Some("⌫".to_string()));
    assert_eq!(get_key_string(&KeyCode::MetaLeft), Some("⌘".to_string()));
    assert_eq!(get_key_string(&KeyCode::Return), Some("⏎".to_string()));
    assert_eq!(get_key_string(&KeyCode::Space), Some("␣".to_string()));
    assert_eq!(get_key_string(&KeyCode::Escape), Some("esc".to_string()));
    assert_eq!(get_key_string(&KeyCode::Function), Some("Fn".to_string()));
    assert_eq!(get_key_string(&KeyCode::SemiColon), Some(";".to_string()));
}

#[test]
fn unknown_key_has_no_label() {
    assert_eq!(get_key_string(&KeyCode::Unknown(0)), None);
    assert_eq!(get_key_string(&KeyCode::Unknown(12345)), None);
}

#[test]
fn button_labels_match_the_table() {
    assert_eq!(get_button_string(&Button::Left), Some("Left".to_string()));
    assert_eq!(get_button_string(&Button::Right), Some("Right".to_string()));
    assert_eq!(get_button_string(&Button::Middle), Some("Middle".to_string()));
    assert_eq!(get_button_string(&Button::Unknown(9)), None);
}

#[test]
fn key_press_record_fields() {
    let ev = normalize(&RawEvent::KeyPress(KeyCode::KeyQ), vec!["Shift".to_string()], 42);
    assert_eq!(ev.event_type, "key_press".to_string());
    assert_eq!(ev.key, Some("q".to_string()));
    assert_eq!(ev.button, None);
    assert_eq!(ev.x, None);
    assert_eq!(ev.y, None);
    assert_eq!(ev.modifiers, vec!["Shift".to_string()]);
    assert_eq!(ev.timestamp, 42);
}

#[test]
fn key_release_record_fields() {
    let ev = normalize(&RawEvent::KeyRelease(KeyCode::Tab), Vec::new(), 7);
    assert_eq!(ev.event_type, "key_release".to_string());
    assert_eq!(ev.key, Some("↹".to_string()));
    assert_eq!(ev.timestamp, 7);
}

#[test]
fn unknown_key_event_is_still_emitted_without_a_label() {
    let ev = normalize(&RawEvent::KeyPress(KeyCode::Unknown(250)), Vec::new(), 1);
    assert_eq!(ev.event_type, "key_press".to_string());
    assert_eq!(ev.key, None);
}

#[test]
fn mouse_button_record_fields() {
    let press = normalize(&RawEvent::ButtonPress(Button::Left), Vec::new(), 3);
    assert_eq!(press.event_type, "mouse_press".to_string());
    assert_eq!(press.button, Some("Left".to_string()));
    assert_eq!(press.key, None);
    assert_eq!((press.x, press.y), (None, None));
    let release = normalize(&RawEvent::ButtonRelease(Button::Right), Vec::new(), 4);
    assert_eq!(release.event_type, "mouse_release".to_string());
    assert_eq!(release.button, Some("Right".to_string()));
}

#[test]
fn mouse_move_record_fields() {
    let ev = normalize(&RawEvent::MouseMove { x: -3, y: 99 }, Vec::new(), 5);
    assert_eq!(ev.event_type, "mouse_move".to_string());
    assert_eq!((ev.x, ev.y), (Some(-3), Some(99)));
    assert_eq!(ev.key, None);
    assert_eq!(ev.button, None);
}

#[test]
fn wheel_record_fields() {
    let ev = normalize(&RawEvent::Wheel { delta_x: 0, delta_y: -1 }, Vec::new(), 6);
    assert_eq!(ev.event_type, "wheel".to_string());
    assert_eq!((ev.x, ev.y), (Some(0), Some(-1)));
}

#[test]
fn record_owns_its_modifier_snapshot() {
    let snapshot = vec!["Ctrl".to_string(), "Alt".to_string()];
    let ev = normalize(&RawEvent::KeyPress(KeyCode::KeyC), snapshot.clone(), 8);
    assert_eq!(ev.modifiers, snapshot);
}
