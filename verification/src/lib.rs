//! A single-user journal: entries are lines of text, tagged with a mode and
//! appended to one plain-text file.
//!
//! This crate holds the rules of the journal: how a typed character selects a
//! mode, how an entry line is laid out, how the interactive session moves
//! between its two states, and what appending does to the journal text.
//! Reading the keyboard and writing the file are left to the caller.

pub mod clock;
pub mod config;
pub mod contents;
pub mod entry;
pub mod mode;
pub mod session;
pub mod text;

pub use crate::clock::ClockReading;
pub use crate::config::JournalConfiguration;
pub use crate::mode::Mode;
pub use crate::session::Session;
