use input_relay::KeyCode;
use input_relay::ModifierTracker;

#[test]
fn fresh_tracker_holds_nothing() {
    let t = ModifierTracker::new();
    assert_eq!(t.snapshot(), Vec::<String>::new());
}

#[test]
fn press_adds_release_removes() {
    let mut t = ModifierTracker::new();
    t.press(&KeyCode::ControlLeft);
    assert_eq!(t.snapshot(), vec!["Ctrl".to_string()]);
    t.release(&KeyCode::ControlRight);
    assert_eq!(t.snapshot(), Vec::<String>::new());
}

#[test]
fn repeated_press_is_idempotent() {
    let mut t = ModifierTracker::new();
    t.press(&KeyCode::ShiftLeft);
    t.press(&KeyCode::ShiftLeft);
    t.press(&KeyCode::ShiftRight);
    assert_eq!(t.snapshot(), vec!["Shift".to_string()]);
    t.release(&KeyCode::ShiftLeft);
    assert_eq!(t.snapshot(), Vec::<String>::new());
}

#[test]
fn release_of_unheld_modifier_is_a_no_op() {
    let mut t = ModifierTracker::new();
    t.release(&KeyCode::MetaLeft);
    assert_eq!(t.snapshot(), Vec::<String>::new());
}

#[test]
fn non_modifier_keys_never_touch_the_state() {
    let mut t = ModifierTracker::new();
    t.press(&KeyCode::KeyA);
    t.press(&KeyCode::Space);
    t.release(&KeyCode::KeyA);
    assert_eq!(t.snapshot(), Vec::<String>::new());
    t.press(&KeyCode::Alt);
    t.press(&KeyCode::KeyZ);
    t.release(&KeyCode::Return);
    assert_eq!(t.snapshot(), vec!["Alt".to_string()]);
}

#[test]
fn snapshot_lists_all_five_classes_in_canonical_order() {
    let mut t = ModifierTracker::new();
    t.press(&KeyCode::Function);
    t.press(&KeyCode::MetaRight);
    t.press(&KeyCode::ShiftRight);
    t.press(&KeyCode::AltGr);
    t.press(&KeyCode::ControlRight);
    assert_eq!(
        t.snapshot(),
        vec![
            "Ctrl".to_string(),
            "Alt".to_string(),
            "Shift".to_string(),
            "Meta".to_string(),
            "Fn".to_string(),
        ]
    );
}

#[test]
fn snapshot_is_a_copy_not_a_live_reference() {
    let mut t = ModifierTracker::new();
    t.press(&KeyCode::ControlLeft);
    let snap = t.snapshot();
    t.release(&KeyCode::ControlLeft);
    assert_eq!(snap, vec!["Ctrl".to_string()]);
    assert_eq!(t.snapshot(), Vec::<String>::new());
}

#[test]
fn held_set_matches_key_history() {
    // presses add, releases remove, the last transition of each class wins
    let mut t = ModifierTracker::new();
    t.press(&KeyCode::ControlLeft);
    t.press(&KeyCode::Alt);
    t.release(&KeyCode::ControlRight);
    t.press(&KeyCode::MetaLeft);
    t.release(&KeyCode::MetaLeft);
    t.press(&KeyCode::MetaRight);
    assert_eq!(t.snapshot(), vec!["Alt".to_string(), "Meta".to_string()]);
}

#[test]
fn clear_empties_the_tracker() {
    let mut t = ModifierTracker::new();
    t.press(&KeyCode::ControlLeft);
    t.press(&KeyCode::ShiftLeft);
    t.clear();
    assert_eq!(t.snapshot(), Vec::<String>::new());
}
