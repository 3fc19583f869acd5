//! Core logic of a terminal system monitor: snapshot-to-view rendering.
//!
//! The library turns a point-in-time system snapshot into a laid-out,
//! colorized frame description (text spans, regions, colors) and tracks
//! the small input-driven state machine that toggles the help overlay.
//! How the frame reaches the terminal device is left to the caller.

pub mod helpers;
pub mod process;
pub mod snapshot;
pub mod style;
pub mod ui;
