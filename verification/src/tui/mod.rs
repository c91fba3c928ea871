//! TUI - full-screen interactive vault manager.
//!
//! The [`App`] state machine owns the vault store and index, so every operation
//! (copy / show / delete / add / edit / rename) is executed **inside** the event
//! loop without tearing the interface down.

pub mod app;
pub mod event;
pub mod input;
pub mod ui;

pub use app::{App, FormKind, Mode};
pub use event::EventResult;
