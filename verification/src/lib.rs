//! A backend adapter that turns a native display/event-queue backend into a
//! generic windowing interface: keycode and mouse-button translation, raw
//! event translation into a uniform input-event vocabulary, the close-on-escape
//! policy, and the blocking/timed/non-blocking polling state machine.

pub mod adapter;
pub mod events;
pub mod keys;
pub mod translate;
