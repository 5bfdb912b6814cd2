//! Session coordinator for a terminal client around a command-line
//! text-generation tool: the shared application state, the focus and
//! input-mode state machines that key events drive, the ephemeral feedback
//! registry, and the pure parts of the protocol with the external tool
//! (model-list parsing, conversation-log grouping, reply composition).
//!
//! Blocking work (the external process, the terminal, the listener socket)
//! stays outside; it reaches this crate only as plain values: channel
//! messages drained each tick, and dispatch requests handed back out.

pub mod app;
pub mod channels;
pub mod clipboard;
pub mod data;
pub mod logs;
pub mod models;
pub mod reply;
pub mod text;
