//! The library's own key and mouse-button identifiers, and the fixed lookup
//! table that maps them to stable human-readable labels.
//!
//! A raw platform key code that has no entry in the table is carried as
//! [`KeyCode::Unknown`]: its events are still emitted, with the label absent.

use vstd::prelude::*;

verus! {

/// A key identifier, one per recognized physical key. `Unknown` carries the
/// raw platform code of a key outside the table.
#[derive(Clone, Copy, PartialEq, Eq, Structural, Debug)]
pub enum KeyCode {
    Alt,
    AltGr,
    Backspace,
    CapsLock,
    ControlLeft,
    ControlRight,
    Delete,
    DownArrow,
    End,
    Escape,
    F1,
    F2,
    F3,
    F4,
    F5,
    F6,
    F7,
    F8,
    F9,
    F10,
    F11,
    F12,
    Home,
    LeftArrow,
    MetaLeft,
    MetaRight,
    PageDown,
    PageUp,
    Return,
    RightArrow,
    ShiftLeft,
    ShiftRight,
    Space,
    Tab,
    UpArrow,
    PrintScreen,
    ScrollLock,
    Pause,
    NumLock,
    BackQuote,
    Num1,
    Num2,
    Num3,
    Num4,
    Num5,
    Num6,
    Num7,
    Num8,
    Num9,
    Num0,
    Minus,
    Equal,
    KeyQ,
    KeyW,
    KeyE,
    KeyR,
    KeyT,
    KeyY,
    KeyU,
    KeyI,
    KeyO,
    KeyP,
    LeftBracket,
    RightBracket,
    KeyA,
    KeyS,
    KeyD,
    KeyF,
    KeyG,
    KeyH,
    KeyJ,
    KeyK,
    KeyL,
    SemiColon,
    Quote,
    KeyZ,
    KeyX,
    KeyC,
    KeyV,
    KeyB,
    KeyN,
    KeyM,
    Comma,
    Dot,
    Slash,
    Insert,
    KpReturn,
    KpMinus,
    KpPlus,
    KpMultiply,
    KpDivide,
    Kp0,
    Kp1,
    Kp2,
    Kp3,
    Kp4,
    Kp5,
    Kp6,
    Kp7,
    Kp8,
    Kp9,
    Function,
    BackSlash,
    Unknown(u32),
}

/// A mouse-button identifier. `Unknown` carries the raw platform code of a
/// button outside the table.
#[derive(Clone, Copy, PartialEq, Eq, Structural, Debug)]
pub enum Button {
    Left,
    Right,
    Middle,
    Unknown(u8),
}

/// The label of a key, or `None` for a key outside the table.
pub open spec fn key_label(key: KeyCode) -> Option<Seq<char>> {
    match key {
        KeyCode::Alt => Some("Alt"@),
        KeyCode::AltGr => Some("AltGr"@),
        KeyCode::Backspace => Some("⌫"@),
        KeyCode::CapsLock => Some("⇬"@),
        KeyCode::ControlLeft => Some("Ctrl"@),
        KeyCode::ControlRight => Some("Ctrl"@),
        KeyCode::Delete => Some("⌦"@),
        KeyCode::DownArrow => Some("↓"@),
        KeyCode::End => Some("End"@),
        KeyCode::Escape => Some("esc"@),
        KeyCode::F1 => Some("F1"@),
        KeyCode::F2 => Some("F2"@),
        KeyCode::F3 => Some("F3"@),
        KeyCode::F4 => Some("F4"@),
        KeyCode::F5 => Some("F5"@),
        KeyCode::F6 => Some("F6"@),
        KeyCode::F7 => Some("F7"@),
        KeyCode::F8 => Some("F8"@),
        KeyCode::F9 => Some("F9"@),
        KeyCode::F10 => Some("F10"@),
        KeyCode::F11 => Some("F11"@),
        KeyCode::F12 => Some("F12"@),
        KeyCode::Home => Some("Home"@),
        KeyCode::LeftArrow => Some("←"@),
        KeyCode::MetaLeft => Some("⌘"@),
        KeyCode::MetaRight => Some("⌘"@),
        KeyCode::PageDown => Some("PgDn"@),
        KeyCode::PageUp => Some("PgUp"@),
        KeyCode::Return => Some("⏎"@),
        KeyCode::RightArrow => Some("→"@),
        KeyCode::ShiftLeft => Some("⇧"@),
        KeyCode::ShiftRight => Some("⇧"@),
        KeyCode::Space => Some("␣"@),
        KeyCode::Tab => Some("↹"@),
        KeyCode::UpArrow => Some("↑"@),
        KeyCode::PrintScreen => Some("PrtSc"@),
        KeyCode::ScrollLock => Some("ScrollLock"@),
        KeyCode::Pause => Some("⎉"@),
        KeyCode::NumLock => Some("NumLock"@),
        KeyCode::BackQuote => Some("`"@),
        KeyCode::Num1 => Some("1"@),
        KeyCode::Num2 => Some("2"@),
        KeyCode::Num3 => Some("3"@),
        KeyCode::Num4 => Some("4"@),
        KeyCode::Num5 => Some("5"@),
        KeyCode::Num6 => Some("6"@),
        KeyCode::Num7 => Some("7"@),
        KeyCode::Num8 => Some("8"@),
        KeyCode::Num9 => Some("9"@),
        KeyCode::Num0 => Some("0"@),
        KeyCode::Minus => Some("-"@),
        KeyCode::Equal => Some("="@),
        KeyCode::KeyQ => Some("q"@),
        KeyCode::KeyW => Some("w"@),
        KeyCode::KeyE => Some("e"@),
        KeyCode::KeyR => Some("r"@),
        KeyCode::KeyT => Some("t"@),
        KeyCode::KeyY => Some("y"@),
        KeyCode::KeyU => Some("u"@),
        KeyCode::KeyI => Some("i"@),
        KeyCode::KeyO => Some("o"@),
        KeyCode::KeyP => Some("p"@),
        KeyCode::LeftBracket => Some("["@),
        KeyCode::RightBracket => Some("]"@),
        KeyCode::KeyA => Some("a"@),
        KeyCode::KeyS => Some("s"@),
        KeyCode::KeyD => Some("d"@),
        KeyCode::KeyF => Some("f"@),
        KeyCode::KeyG => Some("g"@),
        KeyCode::KeyH => Some("h"@),
        KeyCode::KeyJ => Some("j"@),
        KeyCode::KeyK => Some("k"@),
        KeyCode::KeyL => Some("l"@),
        KeyCode::SemiColon => Some(";"@),
        KeyCode::Quote => Some("'"@),
        KeyCode::KeyZ => Some("z"@),
        KeyCode::KeyX => Some("x"@),
        KeyCode::KeyC => Some("c"@),
        KeyCode::KeyV => Some("v"@),
        KeyCode::KeyB => Some("b"@),
        KeyCode::KeyN => Some("n"@),
        KeyCode::KeyM => Some("m"@),
        KeyCode::Comma => Some(","@),
        KeyCode::Dot => Some("."@),
        KeyCode::Slash => Some("/"@),
        KeyCode::Insert => Some("ins"@),
        KeyCode::KpReturn => Some("⏎"@),
        KeyCode::KpMinus => Some("−"@),
        KeyCode::KpPlus => Some("+"@),
        KeyCode::KpMultiply => Some("×"@),
        KeyCode::KpDivide => Some("÷"@),
        KeyCode::Kp0 => Some("0"@),
        KeyCode::Kp1 => Some("1"@),
        KeyCode::Kp2 => Some("2"@),
        KeyCode::Kp3 => Some("3"@),
        KeyCode::Kp4 => Some("4"@),
        KeyCode::Kp5 => Some("5"@),
        KeyCode::Kp6 => Some("6"@),
        KeyCode::Kp7 => Some("7"@),
        KeyCode::Kp8 => Some("8"@),
        KeyCode::Kp9 => Some("9"@),
        KeyCode::Function => Some("Fn"@),
        KeyCode::BackSlash => Some("'\'"@),
        KeyCode::Unknown(_) => None,
    }
}

/// The label of a mouse button, or `None` for a button outside the table.
pub open spec fn button_label(b: Button) -> Option<Seq<char>> {
    match b {
        Button::Left => Some("Left"@),
        Button::Right => Some("Right"@),
        Button::Middle => Some("Middle"@),
        Button::Unknown(_) => None,
    }
}

/// The fixed key-to-label lookup table.
pub fn get_key_string(key: &KeyCode) -> (r: Option<String>)
    ensures
        r.deep_view() == key_label(*key),
{
    match key {
        KeyCode::Alt => Some("Alt".to_string()),
        KeyCode::AltGr => Some("AltGr".to_string()),
        KeyCode::Backspace => Some("⌫".to_string()),
        KeyCode::CapsLock => Some("⇬".to_string()),
        KeyCode::ControlLeft => Some("Ctrl".to_string()),
        KeyCode::ControlRight => Some("Ctrl".to_string()),
        KeyCode::Delete => Some("⌦".to_string()),
        KeyCode::DownArrow => Some("↓".to_string()),
        KeyCode::End => Some("End".to_string()),
        KeyCode::Escape => Some("esc".to_string()),
        KeyCode::F1 => Some("F1".to_string()),
        KeyCode::F2 => Some("F2".to_string()),
        KeyCode::F3 => Some("F3".to_string()),
        KeyCode::F4 => Some("F4".to_string()),
        KeyCode::F5 => Some("F5".to_string()),
        KeyCode::F6 => Some("F6".to_string()),
        KeyCode::F7 => Some("F7".to_string()),
        KeyCode::F8 => Some("F8".to_string()),
        KeyCode::F9 => Some("F9".to_string()),
        KeyCode::F10 => Some("F10".to_string()),
        KeyCode::F11 => Some("F11".to_string()),
        KeyCode::F12 => Some("F12".to_string()),
        KeyCode::Home => Some("Home".to_string()),
        KeyCode::LeftArrow => Some("←".to_string()),
        KeyCode::MetaLeft => Some("⌘".to_string()),
        KeyCode::MetaRight => Some("⌘".to_string()),
        KeyCode::PageDown => Some("PgDn".to_string()),
        KeyCode::PageUp => Some("PgUp".to_string()),
        KeyCode::Return => Some("⏎".to_string()),
        KeyCode::RightArrow => Some("→".to_string()),
        KeyCode::ShiftLeft => Some("⇧".to_string()),
        KeyCode::ShiftRight => Some("⇧".to_string()),
        KeyCode::Space => Some("␣".to_string()),
        KeyCode::Tab => Some("↹".to_string()),
        KeyCode::UpArrow => Some("↑".to_string()),
        KeyCode::PrintScreen => Some("PrtSc".to_string()),
        KeyCode::ScrollLock => Some("ScrollLock".to_string()),
        KeyCode::Pause => Some("⎉".to_string()),
        KeyCode::NumLock => Some("NumLock".to_string()),
        KeyCode::BackQuote => Some("`".to_string()),
        KeyCode::Num1 => Some("1".to_string()),
        KeyCode::Num2 => Some("2".to_string()),
        KeyCode::Num3 => Some("3".to_string()),
        KeyCode::Num4 => Some("4".to_string()),
        KeyCode::Num5 => Some("5".to_string()),
        KeyCode::Num6 => Some("6".to_string()),
        KeyCode::Num7 => Some("7".to_string()),
        KeyCode::Num8 => Some("8".to_string()),
        KeyCode::Num9 => Some("9".to_string()),
        KeyCode::Num0 => Some("0".to_string()),
        KeyCode::Minus => Some("-".to_string()),
        KeyCode::Equal => Some("=".to_string()),
        KeyCode::KeyQ => Some("q".to_string()),
        KeyCode::KeyW => Some("w".to_string()),
        KeyCode::KeyE => Some("e".to_string()),
        KeyCode::KeyR => Some("r".to_string()),
        KeyCode::KeyT => Some("t".to_string()),
        KeyCode::KeyY => Some("y".to_string()),
        KeyCode::KeyU => Some("u".to_string()),
        KeyCode::KeyI => Some("i".to_string()),
        KeyCode::KeyO => Some("o".to_string()),
        KeyCode::KeyP => Some("p".to_string()),
        KeyCode::LeftBracket => Some("[".to_string()),
        KeyCode::RightBracket => Some("]".to_string()),
        KeyCode::KeyA => Some("a".to_string()),
        KeyCode::KeyS => Some("s".to_string()),
        KeyCode::KeyD => Some("d".to_string()),
        KeyCode::KeyF => Some("f".to_string()),
        KeyCode::KeyG => Some("g".to_string()),
        KeyCode::KeyH => Some("h".to_string()),
        KeyCode::KeyJ => Some("j".to_string()),
        KeyCode::KeyK => Some("k".to_string()),
        KeyCode::KeyL => Some("l".to_string()),
        KeyCode::SemiColon => Some(";".to_string()),
        KeyCode::Quote => Some("'".to_string()),
        KeyCode::KeyZ => Some("z".to_string()),
        KeyCode::KeyX => Some("x".to_string()),
        KeyCode::KeyC => Some("c".to_string()),
        KeyCode::KeyV => Some("v".to_string()),
        KeyCode::KeyB => Some("b".to_string()),
        KeyCode::KeyN => Some("n".to_string()),
        KeyCode::KeyM => Some("m".to_string()),
        KeyCode::Comma => Some(",".to_string()),
        KeyCode::Dot => Some(".".to_string()),
        KeyCode::Slash => Some("/".to_string()),
        KeyCode::Insert => Some("ins".to_string()),
        KeyCode::KpReturn => Some("⏎".to_string()),
        KeyCode::KpMinus => Some("−".to_string()),
        KeyCode::KpPlus => Some("+".to_string()),
        KeyCode::KpMultiply => Some("×".to_string()),
        KeyCode::KpDivide => Some("÷".to_string()),
        KeyCode::Kp0 => Some("0".to_string()),
        KeyCode::Kp1 => Some("1".to_string()),
        KeyCode::Kp2 => Some("2".to_string()),
        KeyCode::Kp3 => Some("3".to_string()),
        KeyCode::Kp4 => Some("4".to_string()),
        KeyCode::Kp5 => Some("5".to_string()),
        KeyCode::Kp6 => Some("6".to_string()),
        KeyCode::Kp7 => Some("7".to_string()),
        KeyCode::Kp8 => Some("8".to_string()),
        KeyCode::Kp9 => Some("9".to_string()),
        KeyCode::Function => Some("Fn".to_string()),
        KeyCode::BackSlash => Some("'\'".to_string()),
        KeyCode::Unknown(_) => None,
    }
}

/// The fixed button-to-label lookup table.
pub fn get_button_string(b: &Button) -> (r: Option<String>)
    ensures
        r.deep_view() == button_label(*b),
{
    match b {
        Button::Left => Some("Left".to_string()),
        Button::Right => Some("Right".to_string()),
        Button::Middle => Some("Middle".to_string()),
        Button::Unknown(_) => None,
    }
}

} // verus!
