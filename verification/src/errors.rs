//! The errors of the repository layer.

use vstd::prelude::*;
use crate::text::concat;

verus! {

/// What can go wrong around the repository. Paths are held as text.
#[derive(Debug, Clone, PartialEq, Eq)]
pub enum GrovError {
    NotBareRepo(String),
    BareRepoNotFound(String),
    WorktreeAlreadyExists(String),
    WorktreeNotFound(String),
    WorktreeDirty,
    BranchNotFound(String),
    InvalidBranchName(String),
    GitCommandFailed(String),
    /// An input or output error, by its own text.
    Io(String),
}

impl GrovError {
    /// The text of the error.
    pub open spec fn spec_message(&self) -> Seq<char> {
        match self {
            GrovError::NotBareRepo(p) => p@ + " is not a bare repository"@,
            GrovError::BareRepoNotFound(p) => "could not find a bare repository from "@ + p@,
            GrovError::WorktreeAlreadyExists(p) => "worktree already exists at "@ + p@,
            GrovError::WorktreeNotFound(n) => "worktree not found: "@ + n@,
            GrovError::WorktreeDirty =>
                "worktree has uncommitted changes (use --force to override)"@,
            GrovError::BranchNotFound(n) => "branch not found: "@ + n@,
            GrovError::InvalidBranchName(n) => "invalid branch name: "@ + n@,
            GrovError::GitCommandFailed(m) => "git command failed: "@ + m@,
            GrovError::Io(m) => m@,
        }
    }

    /// The text of the error.
    pub fn message(&self) -> (text: String)
        ensures
            text@ == self.spec_message(),
    {
        match self {
            GrovError::NotBareRepo(p) => concat(p.as_str(), " is not a bare repository"),
            GrovError::BareRepoNotFound(p) => concat(
                "could not find a bare repository from ",
                p.as_str(),
            ),
            GrovError::WorktreeAlreadyExists(p) => concat(
                "worktree already exists at ",
                p.as_str(),
            ),
            GrovError::WorktreeNotFound(n) => concat("worktree not found: ", n.as_str()),
            GrovError::WorktreeDirty => {
                "worktree has uncommitted changes (use --force to override)".to_owned()
            },
            GrovError::BranchNotFound(n) => concat("branch not found: ", n.as_str()),
            GrovError::InvalidBranchName(n) => concat("invalid branch name: ", n.as_str()),
            GrovError::GitCommandFailed(m) => concat("git command failed: ", m.as_str()),
            GrovError::Io(m) => m.clone(),
        }
    }
}

} // verus!
