//! Worktree workflow core: terminal widgets, the interactive flows built on
//! them, and the text rules around branch names, paths and git output.

pub mod cli;
pub mod commands;
pub mod config;
pub mod errors;
pub mod git;
pub mod paths;
pub mod text;
pub mod tui;
