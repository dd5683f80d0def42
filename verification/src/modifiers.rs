//! The modifier tracker: a record of which modifier classes are currently
//! held, updated on every key press and release and snapshotted into each
//! emitted event record.

use crate::keys::KeyCode;
use vstd::prelude::*;

verus! {

/// The five modifier classes a record can be annotated with.
#[derive(Clone, Copy, PartialEq, Eq, Structural, Debug)]
pub enum Modifier {
    Ctrl,
    Alt,
    Shift,
    Meta,
    FnKey,
}

/// The stable label a held modifier contributes to a record's `modifiers`
/// field.
pub open spec fn modifier_label(m: Modifier) -> Seq<char> {
    match m {
        Modifier::Ctrl => "Ctrl"@,
        Modifier::Alt => "Alt"@,
        Modifier::Shift => "Shift"@,
        Modifier::Meta => "Meta"@,
        Modifier::FnKey => "Fn"@,
    }
}

/// The modifier class a key belongs to, if any. Left and right variants of a
/// modifier key collapse into one class; every other key is no modifier.
pub open spec fn spec_modifier_of(key: KeyCode) -> Option<Modifier> {
    match key {
        KeyCode::ControlLeft | KeyCode::ControlRight => Some(Modifier::Ctrl),
        KeyCode::Alt | KeyCode::AltGr => Some(Modifier::Alt),
        KeyCode::ShiftLeft | KeyCode::ShiftRight => Some(Modifier::Shift),
        KeyCode::MetaLeft | KeyCode::MetaRight => Some(Modifier::Meta),
        KeyCode::Function => Some(Modifier::FnKey),
        _ => None,
    }
}

/// The label sequence contributed by one modifier class: its label when the
/// class is held, nothing otherwise.
pub open spec fn label_piece(held: bool, m: Modifier) -> Seq<Seq<char>> {
    if held {
        seq![modifier_label(m)]
    } else {
        Seq::empty()
    }
}

/// The snapshot of a held set as a label sequence, in the fixed canonical
/// order Ctrl, Alt, Shift, Meta, Fn. The order carries no meaning; it only
/// makes the snapshot a function of the set.
pub open spec fn labels_of(s: Set<Modifier>) -> Seq<Seq<char>> {
    label_piece(s.contains(Modifier::Ctrl), Modifier::Ctrl) + label_piece(
        s.contains(Modifier::Alt),
        Modifier::Alt,
    ) + label_piece(s.contains(Modifier::Shift), Modifier::Shift) + label_piece(
        s.contains(Modifier::Meta),
        Modifier::Meta,
    ) + label_piece(s.contains(Modifier::FnKey), Modifier::FnKey)
}

/// The set of modifier classes currently held. Pressing a key that belongs
/// to a class adds the class, releasing it removes the class; both are
/// idempotent, and keys outside the five classes never touch the state.
pub struct ModifierTracker {
    ctrl: bool,
    alt: bool,
    shift: bool,
    meta: bool,
    fn_key: bool,
}

impl ModifierTracker {
    /// The abstract state: the set of held modifier classes.
    pub closed spec fn held(self) -> Set<Modifier> {
        Set::new(
            |m: Modifier|
                match m {
                    Modifier::Ctrl => self.ctrl,
                    Modifier::Alt => self.alt,
                    Modifier::Shift => self.shift,
                    Modifier::Meta => self.meta,
                    Modifier::FnKey => self.fn_key,
                },
        )
    }

    /// A fresh tracker holds nothing.
    pub fn new() -> (t: ModifierTracker)
        ensures
            t.held() == Set::<Modifier>::empty(),
    {
        let t = ModifierTracker { ctrl: false, alt: false, shift: false, meta: false, fn_key: false };
        proof {
            assert(t.held() =~= Set::<Modifier>::empty());
        }
        t
    }

    /// Record a key going down: if the key belongs to a modifier class, the
    /// class is now held; any other key leaves the state untouched.
    pub fn press(&mut self, key: &KeyCode)
        ensures
            final(self).held() == match spec_modifier_of(*key) {
                Some(m) => old(self).held().insert(m),
                None => old(self).held(),
            },
    {
        match key {
            KeyCode::ControlLeft | KeyCode::ControlRight => {
                self.ctrl = true;
            },
            KeyCode::Alt | KeyCode::AltGr => {
                self.alt = true;
            },
            KeyCode::ShiftLeft | KeyCode::ShiftRight => {
                self.shift = true;
            },
            KeyCode::MetaLeft | KeyCode::MetaRight => {
                self.meta = true;
            },
            KeyCode::Function => {
                self.fn_key = true;
            },
            _ => {},
        }
        proof {
            match spec_modifier_of(*key) {
                Some(m) => {
                    assert(self.held() =~= old(self).held().insert(m));
                },
                None => {
                    assert(self.held() =~= old(self).held());
                },
            }
        }
    }

    /// Record a key coming up: if the key belongs to a modifier class, the
    /// class is no longer held; any other key leaves the state untouched.
    pub fn release(&mut self, key: &KeyCode)
        ensures
            final(self).held() == match spec_modifier_of(*key) {
                Some(m) => old(self).held().remove(m),
                None => old(self).held(),
            },
    {
        match key {
            KeyCode::ControlLeft | KeyCode::ControlRight => {
                self.ctrl = false;
            },
            KeyCode::Alt | KeyCode::AltGr => {
                self.alt = false;
            },
            KeyCode::ShiftLeft | KeyCode::ShiftRight => {
                self.shift = false;
            },
            KeyCode::MetaLeft | KeyCode::MetaRight => {
                self.meta = false;
            },
            KeyCode::Function => {
                self.fn_key = false;
            },
            _ => {},
        }
        proof {
            match spec_modifier_of(*key) {
                Some(m) => {
                    assert(self.held() =~= old(self).held().remove(m));
                },
                None => {
                    assert(self.held() =~= old(self).held());
                },
            }
        }
    }

    /// Forget everything that is held.
    pub fn clear(&mut self)
        ensures
            final(self).held() == Set::<Modifier>::empty(),
    {
        self.ctrl = false;
        self.alt = false;
        self.shift = false;
        self.meta = false;
        self.fn_key = false;
        proof {
            assert(self.held() =~= Set::<Modifier>::empty());
        }
    }

    /// A point-in-time copy of the held set, as labels in the canonical
    /// order. Later changes to the tracker leave the copy untouched.
    pub fn snapshot(&self) -> (r: Vec<String>)
        ensures
            r.deep_view() == labels_of(self.held()),
    {
        let mut r: Vec<String> = Vec::new();
        if self.ctrl {
            r.push("Ctrl".to_string());
        }
        proof {
            assert(r.deep_view() =~= label_piece(self.held().contains(Modifier::Ctrl), Modifier::Ctrl));
        }
        let ghost done1 = r.deep_view();
        if self.alt {
            r.push("Alt".to_string());
        }
        proof {
            assert(r.deep_view() =~= done1 + label_piece(
                self.held().contains(Modifier::Alt),
                Modifier::Alt,
            ));
        }
        let ghost done2 = r.deep_view();
        if self.shift {
            r.push("Shift".to_string());
        }
        proof {
            assert(r.deep_view() =~= done2 + label_piece(
                self.held().contains(Modifier::Shift),
                Modifier::Shift,
            ));
        }
        let ghost done3 = r.deep_view();
        if self.meta {
            r.push("Meta".to_string());
        }
        proof {
            assert(r.deep_view() =~= done3 + label_piece(
                self.held().contains(Modifier::Meta),
                Modifier::Meta,
            ));
        }
        let ghost done4 = r.deep_view();
        if self.fn_key {
            r.push("Fn".to_string());
        }
        proof {
            assert(r.deep_view() =~= done4 + label_piece(
                self.held().contains(Modifier::FnKey),
                Modifier::FnKey,
            ));
            assert(r.deep_view() =~= labels_of(self.held()));
        }
        r
    }
}

} // verus!
