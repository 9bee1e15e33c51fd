//! Terminal input decoding and terminal-mode bookkeeping.
//!
//! The library turns raw terminal bytes into typed events (`parse`, `parser`),
//! decides what to do with each readiness report of an event source (`source`)
//! and keeps the raw-mode snapshot consistent (`terminal`). The host program
//! performs the actual waits, reads and terminal calls.
mod event;
pub mod parse;
pub mod parser;
pub mod source;
pub mod terminal;

pub use event::{key, key_spec, EventModel, EventOf, InternalEvent, KeyCode, KeyEvent, MouseEvent};
