//! Managing the skip-worktree bit of tracked files: reading the index
//! listing, and the decisions of an interactive list that toggles the bit.

pub mod browser;
pub mod command;
pub mod item;
pub mod listing;
