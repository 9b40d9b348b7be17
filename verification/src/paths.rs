//! Directory names for branches, repository names from URLs, and relative
//! paths. A path is handled as the sequence of its components.

use vstd::prelude::*;
use crate::text::{
    chars_of, concat, contains_seq, ends_with, lemma_texts_push, skip_leading, skip_trailing,
    str_contains, string_of, texts, trim_end, trim_start,
};

verus! {

/// `s` with `-` in place of every `/`.
pub open spec fn dashed(s: Seq<char>) -> Seq<char> {
    s.map_values(
        |c: char|
            if c == '/' {
                '-'
            } else {
                c
            },
    )
}

/// `s` without the dashes that directly follow a dash.
pub open spec fn collapsed(s: Seq<char>) -> Seq<char>
    decreases s.len(),
{
    if s.len() == 0 {
        s
    } else if s.len() >= 2 && s.last() == '-' && s[s.len() - 2] == '-' {
        collapsed(s.drop_last())
    } else {
        collapsed(s.drop_last()).push(s.last())
    }
}

/// The directory name of a branch: slashes become dashes, dots at the
/// start are dropped, runs of dashes become one dash, dashes at both ends
/// are dropped, and what is empty after that becomes `branch`.
pub open spec fn sanitized(branch: Seq<char>) -> Seq<char> {
    let r = trim_end(trim_start(collapsed(trim_start(dashed(branch), '.')), '-'), '-');
    if r.len() == 0 {
        "branch"@
    } else {
        r
    }
}

/// Converts a branch name into a directory name.
pub fn sanitize_branch_name(branch: &str) -> (name: String)
    ensures
        name@ == sanitized(branch@),
{
    let v = chars_of(branch);
    let mut d: Vec<char> = Vec::new();
    let mut i: usize = 0;
    while i < v.len()
        invariant
            i <= v@.len(),
            d@ == dashed(v@.take(i as int)),
        decreases v@.len() - i,
    {
        let c = v[i];
        if c == '/' {
            d.push('-');
        } else {
            d.push(c);
        }
        i += 1;
    }
    proof {
        assert(v@.take(v@.len() as int) =~= v@);
    }
    let start = skip_leading(&d, 0, d.len(), '.');
    proof {
        assert(d@.subrange(0, d@.len() as int) =~= d@);
    }
    let mut c: Vec<char> = Vec::new();
    let mut j: usize = start;
    while j < d.len()
        invariant
            start <= j <= d@.len(),
            c@ == collapsed(d@.subrange(start as int, j as int)),
        decreases d@.len() - j,
    {
        let ch = d[j];
        proof {
            let part = d@.subrange(start as int, j + 1);
            assert(part.drop_last() =~= d@.subrange(start as int, j as int));
        }
        if !(ch == '-' && j > start && d[j - 1] == '-') {
            c.push(ch);
        }
        j += 1;
    }
    let a = skip_leading(&c, 0, c.len(), '-');
    let b = skip_trailing(&c, a, c.len(), '-');
    proof {
        assert(c@.subrange(0, c@.len() as int) =~= c@);
    }
    if a == b {
        "branch".to_owned()
    } else {
        string_of(&c, a, b)
    }
}

/// The name of the worktree directory of a branch: the directory name of
/// the branch, behind the prefix and `_` where there is a prefix.
pub open spec fn dir_name(branch: Seq<char>, prefix: Seq<char>) -> Seq<char> {
    if prefix.len() == 0 {
        sanitized(branch)
    } else {
        prefix + "_"@ + sanitized(branch)
    }
}

/// The worktree directory of a branch, as a sibling of the bare
/// repository: `parent` is the directory that holds the bare repository,
/// and the result is `parent` with one more component.
pub fn worktree_dir(parent: &Vec<String>, branch: &str, prefix: &str) -> (dir: Vec<String>)
    ensures
        texts(dir@) == texts(parent@).push(dir_name(branch@, prefix@)),
{
    let sanitized = sanitize_branch_name(branch);
    let name = if prefix.is_empty() {
        sanitized
    } else {
        concat(concat(prefix, "_").as_str(), sanitized.as_str())
    };
    let mut dir = parent.clone();
    dir.push(name);
    dir
}

/// What stands in `s` behind the last `c`; all of `s` where there is no
/// `c`.
pub open spec fn after_last(s: Seq<char>, c: char) -> Seq<char>
    decreases s.len(),
{
    if s.len() == 0 || s.last() == c {
        Seq::empty()
    } else {
        after_last(s.drop_last(), c).push(s.last())
    }
}

/// `after_last` is the part from `start` on where no `c` stands in that
/// part and one stands just in front of it, or the part is all of `s`.
pub proof fn lemma_after_last_is(s: Seq<char>, c: char, start: int)
    requires
        0 <= start <= s.len(),
        forall|k: int| start <= k < s.len() ==> s[k] != c,
        start > 0 ==> s[start - 1] == c,
    ensures
        after_last(s, c) == s.skip(start),
    decreases s.len() - start,
{
    if start < s.len() {
        lemma_after_last_is(s.drop_last(), c, start);
    }
}

/// The repository name of a URL: what stands behind the last `/`, the
/// slashes at the end aside, without a `.git` at its end.
pub open spec fn repo_name(url: Seq<char>) -> Seq<char> {
    let name = after_last(trim_end(url, '/'), '/');
    if ".git"@.is_suffix_of(name) {
        name.take(name.len() - ".git"@.len())
    } else {
        name
    }
}

/// Extracts the repository name from a URL.
pub fn repo_name_from_url(url: &str) -> (name: String)
    ensures
        name@ == repo_name(url@),
{
    let v = chars_of(url);
    let end = skip_trailing(&v, 0, v.len(), '/');
    let ghost trimmed = v@.subrange(0, end as int);
    proof {
        assert(v@.subrange(0, v@.len() as int) =~= v@);
    }
    let mut start: usize = end;
    while start > 0 && v[start - 1] != '/'
        invariant
            start <= end <= v@.len(),
            forall|k: int| start <= k < end ==> v@[k] != '/',
        decreases start,
    {
        start -= 1;
    }
    proof {
        lemma_after_last_is(trimmed, '/', start as int);
    }
    let suffix = chars_of(".git");
    if ends_with(&v, start, end, &suffix) {
        string_of(&v, start, end - suffix.len())
    } else {
        string_of(&v, start, end)
    }
}

/// The number of components that `a` and `b` share at their start.
pub open spec fn common_len(a: Seq<Seq<char>>, b: Seq<Seq<char>>) -> int
    decreases a.len(),
{
    if a.len() > 0 && b.len() > 0 && a[0] == b[0] {
        1 + common_len(a.drop_first(), b.drop_first())
    } else {
        0
    }
}

/// `n` is the number of shared components where the first `n` agree and
/// the next ones, if both paths have one, differ.
pub proof fn lemma_common_len_is(a: Seq<Seq<char>>, b: Seq<Seq<char>>, n: int)
    requires
        0 <= n <= a.len(),
        n <= b.len(),
        forall|i: int| 0 <= i < n ==> a[i] == b[i],
        n < a.len() && n < b.len() ==> a[n] != b[n],
    ensures
        common_len(a, b) == n,
    decreases n,
{
    if n > 0 {
        lemma_common_len_is(a.drop_first(), b.drop_first(), n - 1);
    }
}

/// The way from `base` to `target`: one `..` for each component of
/// `base` behind what the two share, then what `target` has behind it;
/// `.` where that is nothing at all. Paths that share nothing give
/// `target` as it is.
pub open spec fn relative(target: Seq<Seq<char>>, base: Seq<Seq<char>>) -> Seq<Seq<char>> {
    let common = common_len(base, target);
    if common == 0 {
        target
    } else {
        let way = Seq::new((base.len() - common) as nat, |i: int| ".."@) + target.skip(common);
        if way.len() == 0 {
            seq!["."@]
        } else {
            way
        }
    }
}

/// Computes the relative path from `base` to `target`, both given by
/// their components.
pub fn relative_from(target: &Vec<String>, base: &Vec<String>) -> (way: Vec<String>)
    ensures
        texts(way@) == relative(texts(target@), texts(base@)),
{
    let mut common: usize = 0;
    while common < base.len() && common < target.len() && base[common] == target[common]
        invariant
            common <= base@.len(),
            common <= target@.len(),
            forall|i: int| 0 <= i < common ==> texts(base@)[i] == texts(target@)[i],
        decreases base@.len() - common,
    {
        common += 1;
    }
    proof {
        lemma_common_len_is(texts(base@), texts(target@), common as int);
    }
    if common == 0 {
        return target.clone();
    }
    let ghost ups = Seq::new((base@.len() - common) as nat, |i: int| ".."@);
    let mut way: Vec<String> = Vec::new();
    let mut i: usize = common;
    while i < base.len()
        invariant
            common <= i <= base@.len(),
            texts(way@) =~= Seq::new((i - common) as nat, |k: int| ".."@),
        decreases base@.len() - i,
    {
        let up = "..".to_owned();
        proof {
            lemma_texts_push(way@, up);
        }
        way.push(up);
        i += 1;
    }
    let mut j: usize = common;
    while j < target.len()
        invariant
            common <= j <= target@.len(),
            ups == Seq::new((base@.len() - common) as nat, |i: int| ".."@),
            texts(way@) =~= ups + texts(target@).subrange(common as int, j as int),
        decreases target@.len() - j,
    {
        let part = target[j].clone();
        proof {
            lemma_texts_push(way@, part);
        }
        way.push(part);
        j += 1;
    }
    if way.len() == 0 {
        way.push(".".to_owned());
    }
    way
}

/// A path as it is shown in a hint to change directory: in double
/// quotes where it holds a space.
pub open spec fn hinted(path: Seq<char>) -> Seq<char> {
    if contains_seq(path, " "@) {
        "\""@ + path + "\""@
    } else {
        path
    }
}

/// Puts a path that holds a space in double quotes.
pub fn cd_argument(path: &str) -> (shown: String)
    ensures
        shown@ == hinted(path@),
{
    if str_contains(path, " ") {
        concat(concat("\"", path).as_str(), "\"")
    } else {
        path.to_owned()
    }
}

} // verus!
