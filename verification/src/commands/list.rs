//! What the listing of worktrees shows of each worktree.

use vstd::prelude::*;
use crate::errors::GrovError;
use crate::git::status::{all_digits, decimal, digit_value};
use crate::git::worktree::{InfoModel, infos, WorktreeInfo};
use crate::text::{lemma_texts_push, texts};
use crate::tui::surface::{Span, SpanModel, spans_view};
use crate::tui::theme::Style;

verus! {

/// The state of a worktree's directory.
#[derive(Debug, Clone, Copy, PartialEq, Eq)]
pub enum WorktreeStatus {
    /// Nothing to commit.
    Clean,
    /// Uncommitted changes.
    Dirty,
    /// The directory is gone.
    Missing,
    /// The state could not be read.
    Unknown,
}

/// The state of a worktree, from whether its directory exists and what
/// the check for changes gave.
pub fn worktree_status(present: bool, dirty: &Result<bool, GrovError>) -> (status: WorktreeStatus)
    ensures
        status == if !present {
            WorktreeStatus::Missing
        } else {
            match dirty {
                Ok(true) => WorktreeStatus::Dirty,
                Ok(false) => WorktreeStatus::Clean,
                Err(_) => WorktreeStatus::Unknown,
            }
        },
{
    if !present {
        WorktreeStatus::Missing
    } else {
        match dirty {
            Ok(d) => if *d {
                WorktreeStatus::Dirty
            } else {
                WorktreeStatus::Clean
            },
            Err(_) => WorktreeStatus::Unknown,
        }
    }
}

/// The decimal digit for a value below ten.
pub open spec fn digit_char(d: nat) -> char
    recommends
        d < 10,
{
    ('0' as u8 + d) as char
}

/// The decimal digits of `n`, without leading zeros.
pub open spec fn digits_of(n: nat) -> Seq<char>
    decreases n,
{
    if n < 10 {
        seq![digit_char(n)]
    } else {
        digits_of(n / 10).push(digit_char(n % 10))
    }
}

/// The digits of a number write that number.
pub proof fn law_digits_write_the_number(n: nat)
    ensures
        all_digits(digits_of(n)),
        decimal(digits_of(n)) == n,
        digits_of(n).len() > 0,
    decreases n,
{
    if n < 10 {
        let s = digits_of(n);
        assert(decimal(s) == decimal(s.drop_last()) * 10 + digit_value(s.last()));
    } else {
        law_digits_write_the_number(n / 10);
        let s = digits_of(n);
        assert(s.drop_last() =~= digits_of(n / 10));
    }
}

fn push_decimal(text: &mut String, n: u32)
    ensures
        final(text)@ == old(text)@ + digits_of(n as nat),
    decreases n,
{
    if n >= 10 {
        push_decimal(text, n / 10);
    }
    let d: u8 = (n % 10) as u8;
    text.push((48u8 + d) as char);
}

/// The mark in front of the number of commits ahead.
pub const AHEAD_MARK: &'static str = "\u{2191}";

/// The mark in front of the number of commits behind.
pub const BEHIND_MARK: &'static str = "\u{2193}";

/// What is shown of a worktree's distance to its upstream: the commits
/// ahead in green and the commits behind in red, each only where there are
/// any; nothing without an upstream.
pub open spec fn ahead_behind_parts(ab: Option<(u32, u32)>) -> Seq<SpanModel> {
    match ab {
        Some((ahead, behind)) => (if ahead > 0 {
            seq![SpanModel { text: AHEAD_MARK@ + digits_of(ahead as nat), style: Style::Green }]
        } else {
            seq![]
        }) + (if behind > 0 {
            seq![SpanModel { text: BEHIND_MARK@ + digits_of(behind as nat), style: Style::Error }]
        } else {
            seq![]
        }),
        None => seq![],
    }
}

/// The parts that show how far a worktree is ahead of and behind its
/// upstream.
pub fn format_ahead_behind(ab: Option<(u32, u32)>) -> (parts: Vec<Span>)
    ensures
        spans_view(parts@) == ahead_behind_parts(ab),
{
    let mut parts: Vec<Span> = Vec::new();
    match ab {
        Some((ahead, behind)) => {
            if ahead > 0 {
                let mut text = AHEAD_MARK.to_owned();
                push_decimal(&mut text, ahead);
                let part = Span::new(text, Style::Green);
                parts.push(part);
            }
            if behind > 0 {
                let mut text = BEHIND_MARK.to_owned();
                push_decimal(&mut text, behind);
                let part = Span::new(text, Style::Error);
                parts.push(part);
            }
        },
        None => {},
    }
    parts
}

/// The branches of the first `n` worktrees, in their order, the bare
/// repository and worktrees without a branch left out.
pub open spec fn listed_branches(worktrees: Seq<InfoModel>, n: int) -> Seq<Seq<char>>
    decreases n,
{
    if n <= 0 {
        Seq::empty()
    } else if !worktrees[n - 1].is_bare && worktrees[n - 1].branch is Some {
        listed_branches(worktrees, n - 1).push(worktrees[n - 1].branch->0)
    } else {
        listed_branches(worktrees, n - 1)
    }
}

/// The lines of the compact listing: the branch of each worktree that
/// has one, the bare repository aside.
pub fn compact_listing(worktrees: &[WorktreeInfo]) -> (branches: Vec<String>)
    ensures
        texts(branches@) == listed_branches(infos(worktrees@), worktrees@.len() as int),
{
    let mut branches: Vec<String> = Vec::new();
    let mut i: usize = 0;
    while i < worktrees.len()
        invariant
            i <= worktrees@.len(),
            texts(branches@) == listed_branches(infos(worktrees@), i as int),
        decreases worktrees@.len() - i,
    {
        let wt = &worktrees[i];
        proof {
            assert(infos(worktrees@)[i as int] == wt@);
        }
        if !wt.is_bare {
            match &wt.branch {
                Some(branch) => {
                    let line = branch.clone();
                    proof {
                        lemma_texts_push(branches@, line);
                    }
                    branches.push(line);
                },
                None => {},
            }
        }
        i += 1;
    }
    branches
}

} // verus!
