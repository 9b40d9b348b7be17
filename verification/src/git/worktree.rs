//! Worktrees as git lists them.

use vstd::prelude::*;
use crate::errors::GrovError;
use crate::git::executor::{arg_texts, GitOutput};
use crate::paths::{after_last, lemma_after_last_is};
use crate::text::{
    chars_of, concat, contains_seq, lemma_texts_push, lines, opt_str_text, opt_text, same_text,
    split_lines, str_contains, string_of, strip_prefix, stripped, texts,
};

verus! {

/// One worktree of a repository. `path` is the directory as git prints
/// it; `branch` is absent while the worktree has no branch checked out.
#[derive(Debug, Clone, PartialEq, Eq)]
pub struct WorktreeInfo {
    pub path: String,
    pub head: String,
    pub branch: Option<String>,
    pub is_bare: bool,
}

/// What a [`WorktreeInfo`] says.
pub struct InfoModel {
    pub path: Seq<char>,
    pub head: Seq<char>,
    pub branch: Option<Seq<char>>,
    pub is_bare: bool,
}

impl View for WorktreeInfo {
    type V = InfoModel;

    open spec fn view(&self) -> InfoModel {
        InfoModel {
            path: self.path@,
            head: self.head@,
            branch: opt_text(self.branch),
            is_bare: self.is_bare,
        }
    }
}

/// What a sequence of worktrees says.
pub open spec fn infos(worktrees: Seq<WorktreeInfo>) -> Seq<InfoModel> {
    worktrees.map_values(|w: WorktreeInfo| w@)
}

/// One more worktree says one thing more.
pub proof fn lemma_infos_push(worktrees: Seq<WorktreeInfo>, w: WorktreeInfo)
    ensures
        infos(worktrees.push(w)) == infos(worktrees).push(w@),
{
}

/// What has been read of the entry that the listing is in.
pub struct Pending {
    pub path: Option<Seq<char>>,
    pub head: Option<Seq<char>>,
    pub branch: Option<Seq<char>>,
    pub is_bare: bool,
}

/// The reader of a listing: the entries that are complete, and the one
/// that is being read.
pub struct Reading {
    pub done: Seq<InfoModel>,
    pub pending: Pending,
}

/// The entries with the pending one behind them, where that one has a
/// path and a head.
pub open spec fn flushed(r: Reading) -> Seq<InfoModel> {
    if r.pending.path is Some && r.pending.head is Some {
        r.done.push(
            InfoModel {
                path: r.pending.path->0,
                head: r.pending.head->0,
                branch: r.pending.branch,
                is_bare: r.pending.is_bare,
            },
        )
    } else {
        r.done
    }
}

/// The name of a branch in a `branch` line: the reference without
/// `refs/heads/` in front, or the reference as it is.
pub open spec fn branch_of(reference: Seq<char>) -> Seq<char> {
    match stripped(reference, "refs/heads/"@) {
        Some(name) => name,
        None => reference,
    }
}

/// The reader after one more line. `worktree`, `HEAD` and `branch` lines
/// set what they name, `bare` marks the entry, and an empty line ends it:
/// an entry with a path and a head is complete, and path, head and mark
/// are cleared; the branch is cleared only with a complete entry. Other
/// lines say nothing.
pub open spec fn read_line(r: Reading, line: Seq<char>) -> Reading {
    let p = r.pending;
    if stripped(line, "worktree "@) is Some {
        Reading { done: r.done, pending: Pending { path: stripped(line, "worktree "@), ..p } }
    } else if stripped(line, "HEAD "@) is Some {
        Reading { done: r.done, pending: Pending { head: stripped(line, "HEAD "@), ..p } }
    } else if stripped(line, "branch "@) is Some {
        Reading {
            done: r.done,
            pending: Pending { branch: Some(branch_of(stripped(line, "branch "@)->0)), ..p },
        }
    } else if line == "bare"@ {
        Reading { done: r.done, pending: Pending { is_bare: true, ..p } }
    } else if line.len() == 0 {
        Reading {
            done: flushed(r),
            pending: Pending {
                path: None,
                head: None,
                branch: if p.path is Some && p.head is Some {
                    None
                } else {
                    p.branch
                },
                is_bare: false,
            },
        }
    } else {
        r
    }
}

/// The reader after the first `n` lines of a listing.
pub open spec fn read_lines(listing: Seq<Seq<char>>, n: int) -> Reading
    decreases n,
{
    if n <= 0 {
        Reading {
            done: Seq::empty(),
            pending: Pending { path: None, head: None, branch: None, is_bare: false },
        }
    } else {
        read_line(read_lines(listing, n - 1), listing[n - 1])
    }
}

/// The worktrees that a porcelain listing names. The last entry needs no
/// empty line behind it.
pub open spec fn listed(output: Seq<char>) -> Seq<InfoModel> {
    flushed(read_lines(lines(output), lines(output).len() as int))
}

/// Reads the porcelain listing of worktrees.
pub fn list_worktrees(output: &str) -> (worktrees: Vec<WorktreeInfo>)
    ensures
        infos(worktrees@) == listed(output@),
{
    let listing = split_lines(output);
    let mut worktrees: Vec<WorktreeInfo> = Vec::new();
    let mut path: Option<String> = None;
    let mut head: Option<String> = None;
    let mut branch: Option<String> = None;
    let mut is_bare = false;
    let mut i: usize = 0;
    proof {
        assert(infos(worktrees@) =~= Seq::<InfoModel>::empty());
    }
    while i < listing.len()
        invariant
            i <= listing@.len(),
            texts(listing@) == lines(output@),
            read_lines(texts(listing@), i as int) == (Reading {
                done: infos(worktrees@),
                pending: Pending {
                    path: opt_text(path),
                    head: opt_text(head),
                    branch: opt_text(branch),
                    is_bare,
                },
            }),
        decreases listing@.len() - i,
    {
        let line = chars_of(listing[i].as_str());
        let as_path = strip_prefix(&line, "worktree ");
        let as_head = strip_prefix(&line, "HEAD ");
        let as_branch = strip_prefix(&line, "branch ");
        if as_path.is_some() {
            path = as_path;
        } else if as_head.is_some() {
            head = as_head;
        } else if as_branch.is_some() {
            let reference = as_branch.unwrap();
            let name = match strip_prefix(&chars_of(reference.as_str()), "refs/heads/") {
                Some(n) => n,
                None => reference,
            };
            branch = Some(name);
        } else if same_text(listing[i].as_str(), "bare") {
            is_bare = true;
        } else if line.len() == 0 {
            if path.is_some() && head.is_some() {
                let entry = WorktreeInfo {
                    path: path.unwrap(),
                    head: head.unwrap(),
                    branch,
                    is_bare,
                };
                proof {
                    lemma_infos_push(worktrees@, entry);
                }
                worktrees.push(entry);
                branch = None;
            }
            path = None;
            head = None;
            is_bare = false;
        }
        i += 1;
    }
    if path.is_some() && head.is_some() {
        let entry = WorktreeInfo { path: path.unwrap(), head: head.unwrap(), branch, is_bare };
        worktrees.push(entry);
    }
    worktrees
}

/// The final component of a path whose components stand between `/`,
/// as `Path::file_name` gives it: slashes at the end and components `.`
/// are passed over, and there is none where nothing is left or where the
/// path ends in `..`.
pub open spec fn file_name_of(path: Seq<char>) -> Option<Seq<char>>
    decreases path.len(),
{
    if path.len() == 0 {
        None
    } else if path.last() == '/' {
        file_name_of(path.drop_last())
    } else {
        let last = after_last(path, '/');
        if last == seq!['.'] {
            file_name_of(path.drop_last())
        } else if last == seq!['.', '.'] {
            None
        } else {
            Some(last)
        }
    }
}

/// The name of the directory of a path; empty where the path has no
/// final component.
pub open spec fn dir_name_of(path: Seq<char>) -> Seq<char> {
    match file_name_of(path) {
        Some(name) => name,
        None => Seq::empty(),
    }
}

/// The worktree has `name` as its branch.
pub open spec fn branch_is(w: InfoModel, name: Seq<char>) -> bool {
    w.branch == Some(name)
}

/// The directory of the worktree has the name `name`. A path without a
/// final component has no name, not even the empty one.
pub open spec fn dir_is(w: InfoModel, name: Seq<char>) -> bool {
    file_name_of(w.path) == Some(name)
}

/// The final component of a path, if it has one.
pub fn file_name(path: &str) -> (name: Option<String>)
    ensures
        opt_text(name) == file_name_of(path@),
{
    let v = chars_of(path);
    let mut hi: usize = v.len();
    proof {
        assert(v@.subrange(0, v@.len() as int) =~= v@);
    }
    while hi > 0
        invariant
            hi <= v@.len(),
            v@ == path@,
            file_name_of(path@) == file_name_of(v@.subrange(0, hi as int)),
        decreases hi,
    {
        let ghost part = v@.subrange(0, hi as int);
        proof {
            assert(part.drop_last() =~= v@.subrange(0, hi - 1));
        }
        if v[hi - 1] == '/' {
            hi -= 1;
        } else {
            let mut start: usize = hi;
            while start > 0 && v[start - 1] != '/'
                invariant
                    start <= hi <= v@.len(),
                    forall|k: int| start <= k < hi ==> v@[k] != '/',
                decreases start,
            {
                start -= 1;
            }
            proof {
                lemma_after_last_is(part, '/', start as int);
                assert(part.skip(start as int) =~= v@.subrange(start as int, hi as int));
            }
            let ghost last = v@.subrange(start as int, hi as int);
            if hi - start == 1 && v[start] == '.' {
                proof {
                    assert(last =~= seq!['.']);
                }
                hi -= 1;
            } else if hi - start == 2 && v[start] == '.' && v[start + 1] == '.' {
                proof {
                    assert(last =~= seq!['.', '.']);
                }
                return None;
            } else {
                proof {
                    if last == seq!['.'] {
                        assert(last.len() == 1 && last[0] == '.');
                    }
                }
                return Some(string_of(&v, start, hi));
            }
        }
    }
    None
}

/// The name of the directory of a worktree; empty where its path has no
/// final component.
pub fn worktree_dir_name(worktree: &WorktreeInfo) -> (name: String)
    ensures
        name@ == dir_name_of(worktree.path@),
{
    match file_name(worktree.path.as_str()) {
        Some(name) => name,
        None => String::new(),
    }
}

/// Whether the worktree has `name` as its branch.
pub fn matches_branch_name(worktree: &WorktreeInfo, name: &str) -> (b: bool)
    ensures
        b == branch_is(worktree@, name@),
{
    match &worktree.branch {
        Some(branch) => same_text(branch.as_str(), name),
        None => false,
    }
}

/// Whether the directory of the worktree has the name `name`.
pub fn matches_dir_name(worktree: &WorktreeInfo, name: &str) -> (b: bool)
    ensures
        b == dir_is(worktree@, name@),
{
    match file_name(worktree.path.as_str()) {
        Some(dir) => same_text(dir.as_str(), name),
        None => false,
    }
}

/// The index of the first among the first `n` worktrees that has `name`
/// as its branch or as the name of its directory; `n` where none has.
pub open spec fn first_named(worktrees: Seq<InfoModel>, name: Seq<char>, n: int) -> int
    decreases n,
{
    if n <= 0 {
        0
    } else {
        let before = first_named(worktrees, name, n - 1);
        if before < n - 1 {
            before
        } else if branch_is(worktrees[n - 1], name) || dir_is(worktrees[n - 1], name) {
            n - 1
        } else {
            n
        }
    }
}

/// The first named worktree is one that bears the name, and none in
/// front of it does.
pub proof fn lemma_first_named(worktrees: Seq<InfoModel>, name: Seq<char>, n: int)
    requires
        0 <= n <= worktrees.len(),
    ensures
        0 <= first_named(worktrees, name, n) <= n,
        forall|i: int|
            0 <= i < first_named(worktrees, name, n) ==> !branch_is(#[trigger] worktrees[i], name)
                && !dir_is(worktrees[i], name),
        first_named(worktrees, name, n) < n ==> branch_is(
            worktrees[first_named(worktrees, name, n)],
            name,
        ) || dir_is(worktrees[first_named(worktrees, name, n)], name),
    decreases n,
{
    if n > 0 {
        lemma_first_named(worktrees, name, n - 1);
    }
}

/// Finds a worktree by its branch or by the name of its directory: the
/// first in the list that bears the name either way.
pub fn find_worktree<'a>(worktrees: &'a [WorktreeInfo], name: &str) -> (found: Option<
    &'a WorktreeInfo,
>)
    ensures
        ({
            let i = first_named(infos(worktrees@), name@, worktrees@.len() as int);
            if i < worktrees@.len() {
                found == Some(&worktrees@[i])
            } else {
                found is None
            }
        }),
        found matches Some(w) ==> branch_is(w@, name@) || dir_is(w@, name@),
        found is None ==> forall|i: int|
            0 <= i < worktrees@.len() ==> !branch_is(#[trigger] worktrees@[i]@, name@) && !dir_is(
                worktrees@[i]@,
                name@,
            ),
{
    proof {
        lemma_first_named(infos(worktrees@), name@, worktrees@.len() as int);
        assert forall|i: int| 0 <= i < worktrees@.len() implies infos(worktrees@)[i]
            == #[trigger] worktrees@[i]@ by {}
    }
    let mut i: usize = 0;
    while i < worktrees.len()
        invariant
            i <= worktrees@.len(),
            first_named(infos(worktrees@), name@, i as int) == i,
        decreases worktrees@.len() - i,
    {
        let w = &worktrees[i];
        if matches_branch_name(w, name) || matches_dir_name(w, name) {
            proof {
                lemma_first_named_stays(infos(worktrees@), name@, i + 1, worktrees@.len() as int);
            }
            return Some(w);
        }
        i += 1;
    }
    None
}

/// Once a worktree bears the name, longer parts of the list have the same
/// first named worktree.
pub proof fn lemma_first_named_stays(worktrees: Seq<InfoModel>, name: Seq<char>, m: int, n: int)
    requires
        0 <= m <= n,
        first_named(worktrees, name, m) < m,
    ensures
        first_named(worktrees, name, n) == first_named(worktrees, name, m),
    decreases n - m,
{
    if m < n {
        lemma_first_named_stays(worktrees, name, m, n - 1);
    }
}

/// The arguments that add a worktree: `worktree add`, the extra
/// arguments, the path, and the commit where one is given.
pub open spec fn add_args(
    path: Seq<char>,
    commit_ish: Option<Seq<char>>,
    extra: Seq<Seq<char>>,
) -> Seq<Seq<char>> {
    let head = seq!["worktree"@, "add"@] + extra + seq![path];
    match commit_ish {
        Some(c) => head.push(c),
        None => head,
    }
}

/// The arguments for git to create a worktree at `worktree_path`.
pub fn add_worktree(worktree_path: &str, commit_ish: Option<&str>, extra_args: &[&str]) -> (args:
    Vec<String>)
    ensures
        texts(args@) == add_args(worktree_path@, opt_str_text(commit_ish), arg_texts(extra_args@)),
{
    let mut args: Vec<String> = Vec::new();
    args.push("worktree".to_owned());
    args.push("add".to_owned());
    let mut i: usize = 0;
    while i < extra_args.len()
        invariant
            i <= extra_args@.len(),
            texts(args@) == seq!["worktree"@, "add"@] + arg_texts(extra_args@).take(i as int),
        decreases extra_args@.len() - i,
    {
        let arg = extra_args[i].to_owned();
        proof {
            lemma_texts_push(args@, arg);
        }
        args.push(arg);
        i += 1;
    }
    let path = worktree_path.to_owned();
    proof {
        lemma_texts_push(args@, path);
    }
    args.push(path);
    match commit_ish {
        Some(c) => {
            let commit = c.to_owned();
            proof {
                lemma_texts_push(args@, commit);
            }
            args.push(commit);
        },
        None => {},
    }
    args
}

/// The arguments that remove a worktree: `worktree remove`, `--force`
/// where the removal is forced, and the path.
pub open spec fn remove_args(path: Seq<char>, force: bool) -> Seq<Seq<char>> {
    if force {
        seq!["worktree"@, "remove"@, "--force"@, path]
    } else {
        seq!["worktree"@, "remove"@, path]
    }
}

/// The arguments for git to remove the worktree at `worktree_path`.
pub fn remove_worktree(worktree_path: &str, force: bool) -> (args: Vec<String>)
    ensures
        texts(args@) == remove_args(worktree_path@, force),
{
    let args = if force {
        vec![
            "worktree".to_owned(),
            "remove".to_owned(),
            "--force".to_owned(),
            worktree_path.to_owned(),
        ]
    } else {
        vec!["worktree".to_owned(), "remove".to_owned(), worktree_path.to_owned()]
    };
    args
}

/// The arguments for git to delete the local branch `name`, merged or
/// not.
pub fn delete_branch(name: &str) -> (args: Vec<String>)
    ensures
        texts(args@) == seq!["branch"@, "-D"@, name@],
{
    let args = vec!["branch".to_owned(), "-D".to_owned(), name.to_owned()];
    args
}

/// The arguments for git to verify the reference `prefix` + `name`.
fn verify_ref(prefix: &str, name: &str) -> (args: Vec<String>)
    ensures
        texts(args@) == seq!["rev-parse"@, "--verify"@, prefix@ + name@],
{
    let args = vec!["rev-parse".to_owned(), "--verify".to_owned(), concat(prefix, name)];
    args
}

/// The arguments for git to check that the local branch `name` exists.
pub fn branch_exists_local(name: &str) -> (args: Vec<String>)
    ensures
        texts(args@) == seq!["rev-parse"@, "--verify"@, "refs/heads/"@ + name@],
{
    verify_ref("refs/heads/", name)
}

/// The arguments for git to check that the branch `name` exists on the
/// remote `origin`.
pub fn branch_exists_remote(name: &str) -> (args: Vec<String>)
    ensures
        texts(args@) == seq!["rev-parse"@, "--verify"@, "refs/remotes/origin/"@ + name@],
{
    verify_ref("refs/remotes/origin/", name)
}

/// Whether a check for a branch found it: the check ran and succeeded.
pub fn branch_exists(answer: &Result<GitOutput, GrovError>) -> (found: bool)
    ensures
        found == (answer matches Ok(output) && output.success),
{
    match answer {
        Ok(output) => output.success,
        Err(_) => false,
    }
}

/// What git says when it will not delete a branch that is not merged.
pub const UNMERGED_NOTE: &'static str = "not fully merged";

/// Whether the failure of a safe deletion of a branch says that the
/// branch is not fully merged.
pub fn is_unmerged_rejection(message: &str) -> (unmerged: bool)
    ensures
        unmerged == contains_seq(message@, UNMERGED_NOTE@),
{
    str_contains(message, UNMERGED_NOTE)
}

/// The arguments for git to delete the local branch `name` if it is
/// merged.
pub fn safe_delete_branch(name: &str) -> (args: Vec<String>)
    ensures
        texts(args@) == seq!["branch"@, "-d"@, name@],
{
    let args = vec!["branch".to_owned(), "-d".to_owned(), name.to_owned()];
    args
}

/// One of the first `n` worktrees has the branch `name` checked out.
pub open spec fn checked_out(worktrees: Seq<InfoModel>, name: Seq<char>, n: int) -> bool {
    exists|i: int| 0 <= i < n && branch_is(#[trigger] worktrees[i], name)
}

/// Those of the first `n` branches that no worktree has checked out, in
/// their order.
pub open spec fn free_branches(
    branches: Seq<Seq<char>>,
    worktrees: Seq<InfoModel>,
    n: int,
) -> Seq<Seq<char>>
    decreases n,
{
    if n <= 0 {
        Seq::empty()
    } else if checked_out(worktrees, branches[n - 1], worktrees.len() as int) {
        free_branches(branches, worktrees, n - 1)
    } else {
        free_branches(branches, worktrees, n - 1).push(branches[n - 1])
    }
}

/// Whether a worktree has the branch `name` checked out.
pub fn is_checked_out(worktrees: &[WorktreeInfo], name: &str) -> (taken: bool)
    ensures
        taken == checked_out(infos(worktrees@), name@, worktrees@.len() as int),
{
    let mut i: usize = 0;
    while i < worktrees.len()
        invariant
            i <= worktrees@.len(),
            !checked_out(infos(worktrees@), name@, i as int),
        decreases worktrees@.len() - i,
    {
        proof {
            assert(infos(worktrees@)[i as int] == worktrees@[i as int]@);
        }
        if matches_branch_name(&worktrees[i], name) {
            return true;
        }
        i += 1;
    }
    false
}

/// The branches that can get a worktree: those of `branches` that no
/// worktree has checked out.
pub fn available_branches(branches: &Vec<String>, worktrees: &[WorktreeInfo]) -> (free: Vec<
    String,
>)
    ensures
        texts(free@) == free_branches(
            texts(branches@),
            infos(worktrees@),
            branches@.len() as int,
        ),
{
    let mut free: Vec<String> = Vec::new();
    let mut i: usize = 0;
    while i < branches.len()
        invariant
            i <= branches@.len(),
            texts(free@) == free_branches(texts(branches@), infos(worktrees@), i as int),
        decreases branches@.len() - i,
    {
        if !is_checked_out(worktrees, branches[i].as_str()) {
            let branch = branches[i].clone();
            free.push(branch);
        }
        i += 1;
    }
    free
}

} // verus!
