//! What git says of the state of a worktree.

use vstd::prelude::*;
use crate::text::{chars_of, find_char, first_index};

verus! {

/// Whether a worktree has uncommitted changes, from the porcelain
/// status: it has where the status names anything.
pub fn is_dirty(status: &str) -> (dirty: bool)
    ensures
        dirty == (status@.len() > 0),
{
    !status.is_empty()
}

/// `c` is a decimal digit.
pub open spec fn is_digit(c: char) -> bool {
    '0' <= c && c <= '9'
}

/// The value of a decimal digit; 0 for other characters.
pub open spec fn digit_value(c: char) -> nat {
    if is_digit(c) {
        (c as u32 - '0' as u32) as nat
    } else {
        0
    }
}

/// Every character of `s` is a decimal digit.
pub open spec fn all_digits(s: Seq<char>) -> bool {
    forall|i: int| 0 <= i < s.len() ==> is_digit(#[trigger] s[i])
}

/// The number that a run of decimal digits writes.
pub open spec fn decimal(s: Seq<char>) -> nat
    decreases s.len(),
{
    if s.len() == 0 {
        0
    } else {
        decimal(s.drop_last()) * 10 + digit_value(s.last())
    }
}

/// The count that `s` writes: an optional `+` and at least one decimal
/// digit, with a value that a `u32` holds. Anything else counts as 0.
pub open spec fn count_of(s: Seq<char>) -> nat {
    let digits = if s.len() > 0 && s[0] == '+' {
        s.skip(1)
    } else {
        s
    };
    if digits.len() > 0 && all_digits(digits) && decimal(digits) <= u32::MAX {
        decimal(digits)
    } else {
        0
    }
}

/// A longer run of digits does not write a smaller number than its start.
pub proof fn lemma_decimal_grows(s: Seq<char>, n: int)
    requires
        0 <= n <= s.len(),
    ensures
        decimal(s.take(n)) <= decimal(s),
    decreases s.len() - n,
{
    if n < s.len() {
        lemma_decimal_grows(s.drop_last(), n);
        assert(s.drop_last().take(n) =~= s.take(n));
    } else {
        assert(s.take(n) =~= s);
    }
}

/// Reads a count from the characters of `v` from `lo` up to `hi`.
pub fn parse_count(v: &Vec<char>, lo: usize, hi: usize) -> (count: u32)
    requires
        lo <= hi <= v@.len(),
    ensures
        count == count_of(v@.subrange(lo as int, hi as int)),
{
    let ghost s = v@.subrange(lo as int, hi as int);
    let start = if lo < hi && v[lo] == '+' {
        lo + 1
    } else {
        lo
    };
    let ghost digits = v@.subrange(start as int, hi as int);
    if start == hi {
        return 0;
    }
    let mut acc: u64 = 0;
    let mut i: usize = start;
    while i < hi
        invariant
            lo <= start <= i <= hi <= v@.len(),
            start < hi,
            s == v@.subrange(lo as int, hi as int),
            digits == v@.subrange(start as int, hi as int),
            digits == (if s.len() > 0 && s[0] == '+' {
                s.skip(1)
            } else {
                s
            }),
            forall|k: int| 0 <= k < i - start ==> is_digit(#[trigger] digits[k]),
            acc == decimal(digits.take(i - start)),
            acc <= u32::MAX,
        decreases hi - i,
    {
        let c = v[i];
        if !('0' <= c && c <= '9') {
            proof {
                assert(!is_digit(digits[i - start]));
            }
            return 0;
        }
        let d = (c as u32 - '0' as u32) as u64;
        proof {
            let upto = digits.take(i - start + 1);
            assert(upto.drop_last() =~= digits.take(i - start));
        }
        acc = acc * 10 + d;
        if acc > 0xFFFF_FFFF {
            proof {
                lemma_decimal_grows(digits, i - start + 1);
            }
            return 0;
        }
        i += 1;
    }
    proof {
        assert(digits.take(hi - start) =~= digits);
    }
    acc as u32
}

/// The numbers of commits ahead of and behind the upstream that a count
/// of both sides writes: two counts with one tab between them. A text with
/// no tab or more than one says nothing.
pub open spec fn ahead_behind_of(text: Seq<char>) -> Option<(nat, nat)> {
    let tab = first_index(text, '\t');
    let rest = text.skip(tab + 1);
    if tab < text.len() && first_index(rest, '\t') == rest.len() {
        Some((count_of(text.take(tab)), count_of(rest)))
    } else {
        None
    }
}

/// Reads how far a worktree is ahead of and behind its upstream from the
/// count of both sides.
pub fn ahead_behind(text: &str) -> (counts: Option<(u32, u32)>)
    ensures
        match counts {
            Some(c) => ahead_behind_of(text@) == Some((c.0 as nat, c.1 as nat)),
            None => ahead_behind_of(text@) is None,
        },
{
    let v = chars_of(text);
    let tab = find_char(&v, 0, v.len(), '\t');
    proof {
        assert(v@.subrange(0, v@.len() as int) =~= v@);
    }
    if tab == v.len() {
        return None;
    }
    let next = find_char(&v, tab + 1, v.len(), '\t');
    if next != v.len() {
        return None;
    }
    let ahead = parse_count(&v, 0, tab);
    let behind = parse_count(&v, tab + 1, v.len());
    Some((ahead, behind))
}

} // verus!
