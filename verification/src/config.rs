//! The settings that are kept with a repository.

use vstd::prelude::*;

verus! {

/// The name of the settings file in the bare repository.
pub const CONFIG_FILE: &'static str = ".grov.toml";

/// The settings of a repository.
#[derive(Debug, Clone, PartialEq, Eq)]
pub struct GrovConfig {
    pub worktree: WorktreeConfig,
}

/// The settings for worktree directories.
#[derive(Debug, Clone, PartialEq, Eq)]
pub struct WorktreeConfig {
    /// What the names of worktree directories start with; empty for
    /// nothing.
    pub prefix: String,
}

impl Default for WorktreeConfig {
    fn default() -> (config: WorktreeConfig)
        ensures
            config.prefix@ == Seq::<char>::empty(),
    {
        WorktreeConfig { prefix: String::new() }
    }
}

impl Default for GrovConfig {
    fn default() -> (config: GrovConfig)
        ensures
            config.worktree.prefix@ == Seq::<char>::empty(),
    {
        GrovConfig { worktree: WorktreeConfig { prefix: String::new() } }
    }
}

} // verus!
