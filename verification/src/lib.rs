//! A verified core for a global input-capture relay.
//!
//! The library models the logic of a desktop input monitor: a tracker for the
//! currently held modifier keys, a normalizer that turns each raw hardware
//! event into a structured [`InputEvent`] record, a forwarding switch that
//! decides whether records leave the capture side, and an optional named task
//! recording that accumulates forwarded records until it is handed back to
//! the caller. The operating-system hook, the channel plumbing and the GUI
//! emission live outside the library; they feed raw events in as plain values
//! and carry finished records away.

pub mod events;
pub mod keys;
pub mod laws;
pub mod modifiers;
pub mod monitor;

pub use events::InputEvent;
pub use events::RawEvent;
pub use keys::Button;
pub use keys::KeyCode;
pub use modifiers::Modifier;
pub use modifiers::ModifierTracker;
pub use monitor::MonitorCore;
pub use monitor::TaskRecording;
