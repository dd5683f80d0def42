//! Raw platform events and the normalizer that turns each of them into one
//! structured, immutable record.

use crate::keys::button_label;
use crate::keys::get_button_string;
use crate::keys::get_key_string;
use crate::keys::key_label;
use crate::keys::Button;
use crate::keys::KeyCode;
use vstd::prelude::*;

verus! {

/// One raw hardware action, as the platform hook reports it: a key
/// transition, a pointer move, a button transition or a wheel tick.
/// Coordinates and wheel deltas are carried as integers.
#[derive(Clone, Copy, PartialEq, Eq, Structural, Debug)]
pub enum RawEvent {
    KeyPress(KeyCode),
    KeyRelease(KeyCode),
    ButtonPress(Button),
    ButtonRelease(Button),
    MouseMove { x: i64, y: i64 },
    Wheel { delta_x: i64, delta_y: i64 },
}

/// One immutable record per observed hardware action.
///
/// `key` is present only for key events whose key has a label, `button` only
/// for button events whose button has one; `x` and `y` are present only for
/// pointer moves (coordinates) and wheel ticks (deltas). `modifiers` is a
/// copy of the held-modifier snapshot taken when the record was built, and
/// `timestamp` is in milliseconds since a fixed epoch.
#[derive(Clone, PartialEq, Debug)]
pub struct InputEvent {
    pub event_type: String,
    pub key: Option<String>,
    pub button: Option<String>,
    pub x: Option<i64>,
    pub y: Option<i64>,
    pub modifiers: Vec<String>,
    pub timestamp: u128,
}

/// The `event_type` label of a raw event's kind.
pub open spec fn kind_label(raw: RawEvent) -> Seq<char> {
    match raw {
        RawEvent::KeyPress(_) => "key_press"@,
        RawEvent::KeyRelease(_) => "key_release"@,
        RawEvent::ButtonPress(_) => "mouse_press"@,
        RawEvent::ButtonRelease(_) => "mouse_release"@,
        RawEvent::MouseMove { .. } => "mouse_move"@,
        RawEvent::Wheel { .. } => "wheel"@,
    }
}

/// The `key` field owed to a raw event: the key's label for key events,
/// absent otherwise.
pub open spec fn key_field(raw: RawEvent) -> Option<Seq<char>> {
    match raw {
        RawEvent::KeyPress(k) => key_label(k),
        RawEvent::KeyRelease(k) => key_label(k),
        _ => None,
    }
}

/// The `button` field owed to a raw event: the button's label for button
/// events, absent otherwise.
pub open spec fn button_field(raw: RawEvent) -> Option<Seq<char>> {
    match raw {
        RawEvent::ButtonPress(b) => button_label(b),
        RawEvent::ButtonRelease(b) => button_label(b),
        _ => None,
    }
}

/// The `x` field owed to a raw event: the coordinate for pointer moves, the
/// horizontal delta for wheel ticks, absent otherwise.
pub open spec fn x_field(raw: RawEvent) -> Option<i64> {
    match raw {
        RawEvent::MouseMove { x, .. } => Some(x),
        RawEvent::Wheel { delta_x, .. } => Some(delta_x),
        _ => None,
    }
}

/// The `y` field owed to a raw event: the coordinate for pointer moves, the
/// vertical delta for wheel ticks, absent otherwise.
pub open spec fn y_field(raw: RawEvent) -> Option<i64> {
    match raw {
        RawEvent::MouseMove { y, .. } => Some(y),
        RawEvent::Wheel { delta_y, .. } => Some(delta_y),
        _ => None,
    }
}

/// What it means for a record to be the normalization of a raw event, under
/// a given modifier snapshot and timestamp: every field is pinned down.
pub open spec fn is_record_of(ev: InputEvent, raw: RawEvent, mods: Seq<Seq<char>>, ts: u128) -> bool {
    &&& ev.event_type@ == kind_label(raw)
    &&& ev.key.deep_view() == key_field(raw)
    &&& ev.button.deep_view() == button_field(raw)
    &&& ev.x == x_field(raw)
    &&& ev.y == y_field(raw)
    &&& ev.modifiers.deep_view() == mods
    &&& ev.timestamp == ts
}

/// Build the one record owed to a raw event. The caller supplies the
/// modifier snapshot (taken before the event's own press or release is
/// applied) and the timestamp; the record owns the snapshot copy.
pub fn normalize(raw: &RawEvent, modifiers: Vec<String>, timestamp: u128) -> (ev: InputEvent)
    ensures
        is_record_of(ev, *raw, modifiers.deep_view(), timestamp),
        ev.modifiers == modifiers,
{
    match raw {
        RawEvent::KeyPress(k) => InputEvent {
            event_type: "key_press".to_string(),
            key: get_key_string(k),
            button: None,
            x: None,
            y: None,
            modifiers,
            timestamp,
        },
        RawEvent::KeyRelease(k) => InputEvent {
            event_type: "key_release".to_string(),
            key: get_key_string(k),
            button: None,
            x: None,
            y: None,
            modifiers,
            timestamp,
        },
        RawEvent::ButtonPress(b) => InputEvent {
            event_type: "mouse_press".to_string(),
            key: None,
            button: get_button_string(b),
            x: None,
            y: None,
            modifiers,
            timestamp,
        },
        RawEvent::ButtonRelease(b) => InputEvent {
            event_type: "mouse_release".to_string(),
            key: None,
            button: get_button_string(b),
            x: None,
            y: None,
            modifiers,
            timestamp,
        },
        RawEvent::MouseMove { x, y } => InputEvent {
            event_type: "mouse_move".to_string(),
            key: None,
            button: None,
            x: Some(*x),
            y: Some(*y),
            modifiers,
            timestamp,
        },
        RawEvent::Wheel { delta_x, delta_y } => InputEvent {
            event_type: "wheel".to_string(),
            key: None,
            button: None,
            x: Some(*delta_x),
            y: Some(*delta_y),
            modifiers,
            timestamp,
        },
    }
}

} // verus!
