//! What git prints, read into values, and the arguments that git is run
//! with.

pub mod executor;
pub mod repo;
pub mod status;
pub mod worktree;
