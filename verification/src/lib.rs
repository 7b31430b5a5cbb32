//! A minimal text-editor backend: it tracks which file is "current" and
//! decides, for each user-driven operation (open, save, save-as, clear,
//! filename query), how the tracked path changes and what the caller is told.
//!
//! Dialog presentation and the file I/O itself live outside this library;
//! their outcomes are handed in as plain events, and every decision taken on
//! them is verified.

pub mod editor;
pub mod file_error;
pub mod path_name;
