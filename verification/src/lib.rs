//! Core logic of a desktop file manager: browser-style navigation history
//! with per-directory scroll memory, an escalating privileged-delete state
//! machine, and the pure helpers (path strings, listing order, readable
//! formatting) that the surrounding shell calls into.

pub mod cache;
pub mod delete;
pub mod entry;
pub mod formatting;
pub mod navigation;
pub mod paths;
pub mod popup;
pub mod text;
