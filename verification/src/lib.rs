//! An interactive console for turn-based dialogue between a user and an agent.
//!
//! The user submits free text or a slash-command; the agent streams a response
//! and may ask yes/no or free-text questions while it does so. The crate holds
//! the command-line parser, the observability flags, the console contract with
//! its two-state protocol, a line-based console over byte buffers, the
//! editing state of a full-screen console, and a full-screen console over
//! recorded key presses.

pub mod common;
pub mod confirm;
pub mod input;
pub mod screen;
pub mod state;
pub mod stdio;
pub mod terminal;
pub mod text;
