//! A text clipboard for a session-lock surface that degrades to a silent
//! no-op when no platform clipboard can be reached.

pub mod clipboard;
pub mod laws;
pub mod platform;

pub use clipboard::{read_answer, write_answer, Connection, SessionLockClipboard};
pub use iced_core::clipboard::Kind;
