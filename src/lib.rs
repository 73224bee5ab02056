//! Logz: the verified engine of a terminal viewer for append-only log files.
//!
//! The library tracks how much of a log file has been consumed, turns the
//! file's current lines into new entries, and keeps the scroll and follow
//! state of the view consistent as entries arrive and as the user moves.
pub mod log_entry;
pub mod log_file;
pub mod tui;
pub mod log_viewer;
