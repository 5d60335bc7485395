//! Layout-mode tracking for the active desktop of a tiling window manager:
//! the mode itself, the state cell that de-duplicates updates, the decisions
//! of the refresh and toggle paths, and the decoding of the manager's replies.

pub mod layout;
pub mod state;
pub mod error;
pub mod response;
pub mod sync;
pub mod poll;
