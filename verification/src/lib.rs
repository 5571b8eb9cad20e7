//! Core state machines of a terminal file browser and tmux session manager:
//! selection and viewport scrolling for uniform and variable-height lists,
//! an incremental case-insensitive search overlay over a directory listing,
//! modal input routing between the tabs and overlays, and parsers for the
//! session provider's line-oriented wire format.

pub mod input;
pub mod list;
pub mod app;
pub mod search;
pub mod session;
pub mod text;
pub mod timestamp;
pub mod wire;
