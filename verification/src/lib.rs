//! Snapshot queries on a desktop's window manager, with the decisions proved.
//!
//! The window manager itself is out of reach of a verified library: it is
//! asked through native calls that only the embedding program can make. What
//! is decided from its answers is here: which windows a picker lists and
//! with what geometry and owner, which monitor an index selects, which key a
//! display gets, and which shape the cursor on screen has. The embedding
//! program asks the questions and hands in the answers as plain values.

pub mod geometry;
pub mod utf16;
pub mod exe_path;
pub mod cursor;
pub mod window;
pub mod monitor;
