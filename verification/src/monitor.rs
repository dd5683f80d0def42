//! The monitor core: the forwarding switch, the modifier tracker and the task
//! recording slot, with one step function per worker-thread decision.
//!
//! The capture side calls [`MonitorCore::capture`] once per raw event; the
//! relay side calls [`MonitorCore::deliver`] once per forwarded record; the
//! command surface calls [`MonitorCore::start_monitoring`] and
//! [`MonitorCore::stop_monitoring`].

use crate::events::is_record_of;
use crate::events::InputEvent;
use crate::events::RawEvent;
use crate::modifiers::labels_of;
use crate::modifiers::spec_modifier_of;
use crate::modifiers::Modifier;
use crate::modifiers::ModifierTracker;
use vstd::prelude::*;

verus! {

/// A named capture session: the ordered records forwarded between a start
/// and a stop command.
#[derive(Clone, PartialEq, Debug)]
pub struct TaskRecording {
    pub name: String,
    pub data: Vec<InputEvent>,
}

/// The abstract value of a recording slot: the session name and its record
/// sequence, or nothing when no session is active.
pub open spec fn rec_view(slot: Option<TaskRecording>) -> Option<(Seq<char>, Seq<InputEvent>)> {
    match slot {
        Some(r) => Some((r.name@, r.data@)),
        None => None,
    }
}

/// How one key transition changes the held-modifier set: a press adds the
/// key's modifier class, a release removes it, every other event leaves the
/// set alone.
pub open spec fn step_mods(s: Set<Modifier>, raw: RawEvent) -> Set<Modifier> {
    match raw {
        RawEvent::KeyPress(k) => match spec_modifier_of(k) {
            Some(m) => s.insert(m),
            None => s,
        },
        RawEvent::KeyRelease(k) => match spec_modifier_of(k) {
            Some(m) => s.remove(m),
            None => s,
        },
        _ => s,
    }
}

/// How one delivered record changes a recording slot: it is appended to an
/// active session and discarded when none is active.
pub open spec fn deliver_step(
    slot: Option<(Seq<char>, Seq<InputEvent>)>,
    ev: InputEvent,
) -> Option<(Seq<char>, Seq<InputEvent>)> {
    match slot {
        Some((name, data)) => Some((name, data.push(ev))),
        None => None,
    }
}

/// The shared state of the capture subsystem. A fresh core is idle:
/// forwarding disabled, no modifier held, no recording active.
pub struct MonitorCore {
    tracker: ModifierTracker,
    listening: bool,
    recording: Option<TaskRecording>,
}

impl MonitorCore {
    /// Whether forwarding is enabled.
    pub closed spec fn gate(self) -> bool {
        self.listening
    }

    /// The set of modifier classes the tracker currently holds.
    pub closed spec fn mods(self) -> Set<Modifier> {
        self.tracker.held()
    }

    /// The recording slot's abstract value.
    pub closed spec fn rec(self) -> Option<(Seq<char>, Seq<InputEvent>)> {
        rec_view(self.recording)
    }

    pub fn new() -> (core: MonitorCore)
        ensures
            !core.gate(),
            core.mods() == Set::<Modifier>::empty(),
            core.rec() is None,
    {
        MonitorCore { tracker: ModifierTracker::new(), listening: false, recording: None }
    }

    /// Whether forwarding is currently enabled.
    pub fn is_listening(&self) -> (r: bool)
        ensures
            r == self.gate(),
    {
        self.listening
    }

    /// Enable forwarding, and when a task name is given begin a fresh recording
    /// under it, replacing any session still in the slot (last start wins).
    /// A start without a name leaves an active session in place. Starting is
    /// always acknowledged; it is never an error, even while already active.
    pub fn start_monitoring(&mut self, task_name: Option<String>) -> (r: Result<String, String>)
        ensures
            r is Ok,
            (r matches Ok(ack) ==> ack@ == "Monitoring Started"@),
            final(self).gate(),
            final(self).mods() == old(self).mods(),
            final(self).rec() == match task_name {
                Some(name) => Some((name@, Seq::<InputEvent>::empty())),
                None => old(self).rec(),
            },
    {
        self.listening = true;
        if let Some(name) = task_name {
            self.recording = Some(TaskRecording { name, data: Vec::new() });
        }
        Ok("Monitoring Started".to_string())
    }

    /// Disable forwarding, clear the modifier tracker, and hand back the active
    /// recording, if any, leaving the slot empty. Never an error: with no
    /// active recording the result is simply absent.
    pub fn stop_monitoring(&mut self) -> (r: Option<TaskRecording>)
        ensures
            !final(self).gate(),
            final(self).mods() == Set::<Modifier>::empty(),
            final(self).rec() is None,
            rec_view(r) == old(self).rec(),
    {
        self.listening = false;
        self.tracker.clear();
        self.recording.take()
    }

    /// The capture-side step, one call per raw event: update the tracker on
    /// a key transition, and build the event's record from the snapshot
    /// taken before that update. The record is returned for forwarding
    /// exactly while forwarding is enabled; otherwise nothing comes back,
    /// though the tracker keeps following the keys.
    pub fn capture(&mut self, raw: &RawEvent, timestamp_ms: u128) -> (out: Option<InputEvent>)
        ensures
            final(self).gate() == old(self).gate(),
            final(self).rec() == old(self).rec(),
            final(self).mods() == step_mods(old(self).mods(), *raw),
            out is Some <==> old(self).gate(),
            out matches Some(ev) ==> is_record_of(
                ev,
                *raw,
                labels_of(old(self).mods()),
                timestamp_ms,
            ),
    {
        let snapshot = self.tracker.snapshot();
        match raw {
            RawEvent::KeyPress(k) => self.tracker.press(k),
            RawEvent::KeyRelease(k) => self.tracker.release(k),
            _ => {},
        }
        let ev = crate::events::normalize(raw, snapshot, timestamp_ms);
        if self.listening {
            Some(ev)
        } else {
            None
        }
    }

    /// The relay-side step, one call per forwarded record: append it to the
    /// active recording; with no active recording the record has already
    /// reached its other sinks and is dropped here.
    pub fn deliver(&mut self, ev: InputEvent)
        ensures
            final(self).gate() == old(self).gate(),
            final(self).mods() == old(self).mods(),
            final(self).rec() == deliver_step(old(self).rec(), ev),
    {
        match &mut self.recording {
            Some(r) => r.data.push(ev),
            None => {},
        }
    }
}

} // verus!
