//! Translation of abstract mouse and keyboard input events into the
//! action-sequence shapes of a remote browser-automation protocol.
//!
//! The crate models the events a caller describes (`events`), the wire-level
//! action shapes the protocol expects (`actions`), and the pure translation
//! and command assembly between the two (`translate`, `dispatch`). Submitting
//! the assembled command over a transport is the caller's business; the
//! library only builds the command and states exactly what it contains.
pub mod actions;
pub mod dispatch;
pub mod events;
pub mod translate;
