//! State machine of a terminal browser for a directory tree whose entries may
//! be git repositories: selectable lists, the entries of a scan, the search
//! filter, the key interpreter and the reaction to filesystem changes.

pub mod entry;
pub mod filter;
pub mod git;
pub mod list;
pub mod model;
pub mod render;
pub mod schedule;
pub mod state;
pub mod text;
pub mod widgets;
