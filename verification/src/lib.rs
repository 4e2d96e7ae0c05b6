//! Core logic of a terminal Pomodoro-style countdown session controller.
//!
//! The library owns the session/phase state machine, its satellite
//! sub-machines (settings editor, notes editor, view navigation), the
//! duration mini-grammar, the statistics ledger with its daily/weekly
//! reset rules, and the CSV export. All time quantities are carried as
//! integer milliseconds. Rendering, keyboard capture, notification
//! delivery and file I/O are left to the embedding program, which feeds
//! events and clock readings in and carries requested effects out.

pub mod appstate;
pub mod clock;
pub mod config;
pub mod duration;
pub mod export;
pub mod input;
pub mod notes;
pub mod numeric;
pub mod settings;
pub mod state;
pub mod stats;
pub mod text;
