//! The local state store of a desktop browser shell.
//!
//! The store keeps user settings, a bounded browsing history and the last
//! visited address as files below a data directory, cycles the window opacity
//! through a fixed ladder of levels, and clears the browser profile on
//! request. Nothing here touches the file system: every operation takes what
//! the host found on disk and answers with the value to hand back or the text
//! and directories to act on, so the host is left with the reads and writes
//! alone.

pub mod commands;
pub mod fs_helpers;
pub mod history;
pub mod layout;
pub mod opacity;
pub mod settings;
