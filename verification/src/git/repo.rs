//! What git says of a repository.

use vstd::prelude::*;
use crate::errors::GrovError;
use crate::git::executor::GitOutput;
use crate::text::{chars_of, opt_text, same_text, strip_prefix, stripped};

verus! {

/// Whether a query for a bare repository was answered with `true`. A
/// query that could not be run says no.
pub fn is_bare_repo(answer: &Result<GitOutput, GrovError>) -> (bare: bool)
    ensures
        bare == (answer matches Ok(output) && output.stdout@ == "true"@),
{
    match answer {
        Ok(output) => same_text(output.stdout.as_str(), "true"),
        Err(_) => false,
    }
}

/// The branch that a symbolic reference of the remote's `HEAD` names.
pub open spec fn default_branch_of(reference: Seq<char>) -> Seq<char> {
    match stripped(reference, "refs/remotes/origin/"@) {
        Some(branch) => branch,
        None => reference,
    }
}

/// The default branch, from the symbolic reference `refs/remotes/origin/HEAD`:
/// the reference without `refs/remotes/origin/` in front, or as it is.
pub fn default_branch(reference: &str) -> (branch: String)
    ensures
        branch@ == default_branch_of(reference@),
{
    match strip_prefix(&chars_of(reference), "refs/remotes/origin/") {
        Some(branch) => branch,
        None => reference.to_owned(),
    }
}

/// Whether a query for being inside a work tree succeeded with `true`.
pub fn inside_work_tree(answer: &GitOutput) -> (inside: bool)
    ensures
        inside == (answer.success && answer.stdout@ == "true"@),
{
    answer.success && same_text(answer.stdout.as_str(), "true")
}

/// The current branch, from the answer to a query for the abbreviated
/// name of `HEAD` inside a work tree: none where the query failed or where
/// `HEAD` is detached, which git answers with `HEAD`.
pub fn current_branch(head: &GitOutput) -> (branch: Option<String>)
    ensures
        opt_text(branch) == if head.success && head.stdout@ != "HEAD"@ {
            Some(head.stdout@)
        } else {
            None
        },
{
    if !head.success || same_text(head.stdout.as_str(), "HEAD") {
        None
    } else {
        Some(head.stdout.clone())
    }
}

} // verus!
