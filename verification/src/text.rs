//! Text primitives shared by the widgets and the parsers.
//!
//! A string is modelled by its view, a `Seq<char>`. Byte offsets into a
//! string are related to character positions through [`utf8_len`].

use vstd::prelude::*;
use vstd::string::StringExecFns;
use vstd::utf8::*;

verus! {

/// Number of bytes that `c` takes in UTF-8.
pub open spec fn char_width(c: char) -> nat {
    if (c as u32) < 0x80 {
        1
    } else if (c as u32) < 0x800 {
        2
    } else if (c as u32) < 0x10000 {
        3
    } else {
        4
    }
}

/// Number of bytes that the characters of `s` take in UTF-8.
pub open spec fn utf8_len(s: Seq<char>) -> nat
    decreases s.len(),
{
    if s.len() == 0 {
        0
    } else {
        utf8_len(s.drop_last()) + char_width(s.last())
    }
}

/// `offset` is the byte offset of character position `pos` in `s`.
pub open spec fn offset_of(s: Seq<char>, pos: int) -> nat
    recommends
        0 <= pos <= s.len(),
{
    utf8_len(s.take(pos))
}

/// `offset` falls between two characters of `s`, or at one of its ends.
pub open spec fn is_boundary(s: Seq<char>, offset: int) -> bool {
    exists|pos: int| 0 <= pos <= s.len() && #[trigger] offset_of(s, pos) == offset
}

/// The character position that sits at byte offset `offset`.
pub open spec fn pos_of(s: Seq<char>, offset: int) -> int
    recommends
        is_boundary(s, offset),
{
    choose|pos: int| 0 <= pos <= s.len() && #[trigger] offset_of(s, pos) == offset
}

/// One more character takes its own bytes more.
pub proof fn lemma_utf8_len_push(s: Seq<char>, c: char)
    ensures
        utf8_len(s.push(c)) == utf8_len(s) + char_width(c),
{
    assert(s.push(c).drop_last() =~= s);
}

/// Two texts in a row take the bytes of both.
pub proof fn lemma_utf8_len_concat(a: Seq<char>, b: Seq<char>)
    ensures
        utf8_len(a + b) == utf8_len(a) + utf8_len(b),
    decreases b.len(),
{
    if b.len() > 0 {
        assert((a + b).drop_last() =~= a + b.drop_last());
        lemma_utf8_len_concat(a, b.drop_last());
    }
}

/// Offsets grow strictly with the position, by at least one byte a character.
pub proof fn lemma_offset_monotonic(s: Seq<char>, i: int, j: int)
    requires
        0 <= i <= j <= s.len(),
    ensures
        offset_of(s, i) + (j - i) <= offset_of(s, j),
    decreases j - i,
{
    if i < j {
        lemma_offset_monotonic(s, i, j - 1);
        assert(s.take(j) =~= s.take(j - 1).push(s[j - 1]));
        lemma_utf8_len_push(s.take(j - 1), s[j - 1]);
    }
}

/// A boundary offset belongs to exactly one position.
pub proof fn lemma_pos_of_offset(s: Seq<char>, pos: int)
    requires
        0 <= pos <= s.len(),
    ensures
        is_boundary(s, offset_of(s, pos) as int),
        pos_of(s, offset_of(s, pos) as int) == pos,
{
    let off = offset_of(s, pos) as int;
    let p = pos_of(s, off);
    if p < pos {
        lemma_offset_monotonic(s, p, pos);
    } else if pos < p {
        lemma_offset_monotonic(s, pos, p);
    }
}

/// Offset 0 is the boundary in front of the first character.
pub proof fn lemma_boundary_start(s: Seq<char>)
    ensures
        is_boundary(s, 0),
        pos_of(s, 0) == 0,
        offset_of(s, 0) == 0,
{
    lemma_pos_of_offset(s, 0);
}

/// The length in bytes is the boundary behind the last character.
pub proof fn lemma_boundary_end(s: Seq<char>)
    ensures
        is_boundary(s, utf8_len(s) as int),
        pos_of(s, utf8_len(s) as int) == s.len(),
        offset_of(s, s.len() as int) == utf8_len(s),
{
    assert(s.take(s.len() as int) =~= s);
    lemma_pos_of_offset(s, s.len() as int);
}

/// The byte length that vstd assigns to a string is `utf8_len` of its view.
pub proof fn lemma_utf8_len_is_encoded_len(s: Seq<char>)
    ensures
        encode_utf8(s).len() == utf8_len(s),
    decreases s.len(),
{
    if s.len() > 0 {
        let c = s[0];
        char_is_scalar(c);
        lemma_utf8_len_is_encoded_len(s.drop_first());
        assert(s =~= seq![c] + s.drop_first());
        lemma_utf8_len_concat(seq![c], s.drop_first());
        assert(utf8_len(seq![c]) == char_width(c)) by {
            reveal_with_fuel(utf8_len, 2);
        }
    }
}

/// The texts of a sequence of strings.
pub open spec fn texts(v: Seq<String>) -> Seq<Seq<char>> {
    v.map_values(|s: String| s@)
}

/// One more string adds its text.
pub proof fn lemma_texts_push(v: Seq<String>, s: String)
    ensures
        texts(v.push(s)) == texts(v).push(s@),
{
}

/// The text of an optional string.
pub open spec fn opt_text(o: Option<String>) -> Option<Seq<char>> {
    match o {
        Some(s) => Some(s@),
        None => None,
    }
}

/// The text of an optional string slice.
pub open spec fn opt_str_text(o: Option<&str>) -> Option<Seq<char>> {
    match o {
        Some(s) => Some(s@),
        None => None,
    }
}

/// What `str::to_lowercase` returns for a string with these characters.
pub uninterp spec fn lowercase(s: Seq<char>) -> Seq<char>;

/// `needle` occurs in `hay` as a run of consecutive characters.
pub open spec fn contains_seq(hay: Seq<char>, needle: Seq<char>) -> bool {
    exists|i: int|
        0 <= i && i + needle.len() <= hay.len() && #[trigger] hay.subrange(
            i,
            i + needle.len(),
        ) == needle
}

/// `String::push` appends one character.
pub assume_specification[ String::push ](s: &mut String, c: char)
    ensures
        final(s)@ == old(s)@.push(c),
;

/// `String::pop` removes the last character and returns it, or returns `None`
/// and leaves an empty string as it is.
pub assume_specification[ String::pop ](s: &mut String) -> (c: Option<char>)
    ensures
        old(s)@.len() == 0 ==> c.is_none() && final(s)@ == old(s)@,
        old(s)@.len() > 0 ==> c == Some(old(s)@.last()) && final(s)@ == old(s)@.drop_last(),
;

/// `String::insert` puts a character at a byte offset. The offset has to lie
/// on a character boundary; the character then stands at the position that
/// the offset belongs to.
pub assume_specification[ String::insert ](s: &mut String, idx: usize, ch: char)
    requires
        is_boundary(old(s)@, idx as int),
    ensures
        final(s)@ == old(s)@.insert(pos_of(old(s)@, idx as int), ch),
;

/// `String::remove` takes out the character that starts at a byte offset and
/// returns it. The offset has to be the start of a character.
pub assume_specification[ String::remove ](s: &mut String, idx: usize) -> (ch: char)
    requires
        is_boundary(old(s)@, idx as int),
        idx < utf8_len(old(s)@),
    ensures
        ch == old(s)@[pos_of(old(s)@, idx as int)],
        final(s)@ == old(s)@.remove(pos_of(old(s)@, idx as int)),
;

/// `char::len_utf8` is the number of bytes of the character's UTF-8 encoding.
pub assume_specification[ char::len_utf8 ](c: char) -> (n: usize)
    ensures
        n == char_width(c),
;

/// `str::to_lowercase`: the lowercase form of a string depends on its
/// characters alone; the contract gives that form a name and says no more.
pub assume_specification[ str::to_lowercase ](s: &str) -> (r: String)
    ensures
        r@ == lowercase(s@),
;

/// `str::contains` with a string pattern: whether the pattern occurs in the
/// string as a run of consecutive characters.
#[verifier::external_body]
pub(crate) fn str_contains(hay: &str, needle: &str) -> (found: bool)
    ensures
        found == contains_seq(hay@, needle@),
{
    hay.contains(needle)
}

/// The length of a string in bytes.
pub fn byte_len(s: &String) -> (n: usize)
    ensures
        n == utf8_len(s@),
{
    proof {
        lemma_utf8_len_is_encoded_len(s@);
    }
    s.as_str().as_bytes().len()
}

/// The character that ends at byte offset `offset` of `s`, if any.
pub fn char_before(s: &str, offset: usize) -> (r: Option<char>)
    requires
        is_boundary(s@, offset as int),
    ensures
        pos_of(s@, offset as int) == 0 ==> r is None,
        pos_of(s@, offset as int) > 0 ==> r == Some(s@[pos_of(s@, offset as int) - 1]),
{
    let ghost pos = pos_of(s@, offset as int);
    let mut off: usize = 0;
    let mut prev: Option<char> = None;
    for c in it: s.chars()
        invariant
            it.seq() == s@,
            0 <= pos <= s@.len(),
            offset_of(s@, pos) == offset,
            it.index() <= pos,
            off == offset_of(s@, it.index()),
            it.index() == 0 ==> prev is None,
            it.index() > 0 ==> prev == Some(s@[it.index() - 1]),
    {
        if off == offset {
            proof {
                lemma_pos_of_offset(s@, it.index());
            }
            return prev;
        }
        proof {
            let i = it.index();
            lemma_offset_monotonic(s@, i + 1, pos);
            assert(s@.take(i + 1) =~= s@.take(i).push(s@[i]));
            lemma_utf8_len_push(s@.take(i), s@[i]);
        }
        off = off + c.len_utf8();
        prev = Some(c);
    }
    prev
}

/// The character that starts at byte offset `offset` of `s`, if any.
pub fn char_at(s: &str, offset: usize) -> (r: Option<char>)
    requires
        is_boundary(s@, offset as int),
    ensures
        pos_of(s@, offset as int) == s@.len() ==> r is None,
        pos_of(s@, offset as int) < s@.len() ==> r == Some(s@[pos_of(s@, offset as int)]),
{
    let ghost pos = pos_of(s@, offset as int);
    let mut off: usize = 0;
    for c in it: s.chars()
        invariant
            it.seq() == s@,
            0 <= pos <= s@.len(),
            offset_of(s@, pos) == offset,
            it.index() <= pos,
            off == offset_of(s@, it.index()),
    {
        if off == offset {
            proof {
                lemma_pos_of_offset(s@, it.index());
            }
            return Some(c);
        }
        proof {
            let i = it.index();
            lemma_offset_monotonic(s@, i + 1, pos);
            assert(s@.take(i + 1) =~= s@.take(i).push(s@[i]));
            lemma_utf8_len_push(s@.take(i), s@[i]);
        }
        off = off + c.len_utf8();
    }
    None
}

/// The number of characters in front of byte offset `offset` of `s`.
pub fn position(s: &str, offset: usize) -> (pos: usize)
    requires
        is_boundary(s@, offset as int),
    ensures
        pos == pos_of(s@, offset as int),
{
    let ghost target = pos_of(s@, offset as int);
    let mut off: usize = 0;
    let mut count: usize = 0;
    for c in it: s.chars()
        invariant
            it.seq() == s@,
            0 <= target <= s@.len(),
            offset_of(s@, target) == offset,
            it.index() <= target,
            count == it.index(),
            off == offset_of(s@, it.index()),
    {
        if off == offset {
            proof {
                lemma_pos_of_offset(s@, it.index());
            }
            return count;
        }
        proof {
            let i = it.index();
            lemma_offset_monotonic(s@, i + 1, target);
            lemma_offset_monotonic(s@, 0, i + 1);
            assert(s@.take(i + 1) =~= s@.take(i).push(s@[i]));
            lemma_utf8_len_push(s@.take(i), s@[i]);
        }
        off = off + c.len_utf8();
        count = count + 1;
    }
    count
}

/// `a` followed by `b`.
pub fn concat(a: &str, b: &str) -> (s: String)
    ensures
        s@ == a@ + b@,
{
    let mut s = a.to_owned();
    s.append(b);
    s
}

/// The characters of `s`.
pub fn chars_of(s: &str) -> (v: Vec<char>)
    ensures
        v@ == s@,
{
    let mut v: Vec<char> = Vec::new();
    for c in it: s.chars()
        invariant
            it.seq() == s@,
            v@ == s@.take(it.index()),
    {
        v.push(c);
    }
    v
}

/// The string made of the characters of `v` from `lo` up to `hi`.
pub fn string_of(v: &Vec<char>, lo: usize, hi: usize) -> (s: String)
    requires
        lo <= hi <= v@.len(),
    ensures
        s@ == v@.subrange(lo as int, hi as int),
{
    let mut s = String::new();
    let mut i: usize = lo;
    while i < hi
        invariant
            lo <= i <= hi <= v@.len(),
            s@ == v@.subrange(lo as int, i as int),
        decreases hi - i,
    {
        s.push(v[i]);
        i += 1;
    }
    s
}

/// The number of times `c` stands at the start of `s` without a break.
pub open spec fn leading(s: Seq<char>, c: char) -> int
    decreases s.len(),
{
    if s.len() > 0 && s[0] == c {
        1 + leading(s.drop_first(), c)
    } else {
        0
    }
}

/// The number of times `c` stands at the end of `s` without a break.
pub open spec fn trailing(s: Seq<char>, c: char) -> int
    decreases s.len(),
{
    if s.len() > 0 && s.last() == c {
        1 + trailing(s.drop_last(), c)
    } else {
        0
    }
}

/// `s` without the `c`s at its start.
pub open spec fn trim_start(s: Seq<char>, c: char) -> Seq<char> {
    s.skip(leading(s, c))
}

/// `s` without the `c`s at its end.
pub open spec fn trim_end(s: Seq<char>, c: char) -> Seq<char> {
    s.take(s.len() - trailing(s, c))
}

/// `n` is the number of leading `c`s where the first `n` characters are
/// `c` and the next one, if any, is not.
pub proof fn lemma_leading_is(s: Seq<char>, c: char, n: int)
    requires
        0 <= n <= s.len(),
        forall|i: int| 0 <= i < n ==> s[i] == c,
        n < s.len() ==> s[n] != c,
    ensures
        leading(s, c) == n,
    decreases n,
{
    if n > 0 {
        lemma_leading_is(s.drop_first(), c, n - 1);
    }
}

/// `n` is the number of trailing `c`s where the last `n` characters are
/// `c` and the one in front of them, if any, is not.
pub proof fn lemma_trailing_is(s: Seq<char>, c: char, n: int)
    requires
        0 <= n <= s.len(),
        forall|i: int| s.len() - n <= i < s.len() ==> s[i] == c,
        n < s.len() ==> s[s.len() - n - 1] != c,
    ensures
        trailing(s, c) == n,
    decreases n,
{
    if n > 0 {
        lemma_trailing_is(s.drop_last(), c, n - 1);
    }
}

/// The index in `v` behind the `c`s that follow `lo`, not beyond `hi`.
pub fn skip_leading(v: &Vec<char>, lo: usize, hi: usize, c: char) -> (i: usize)
    requires
        lo <= hi <= v@.len(),
    ensures
        lo <= i <= hi,
        i - lo == leading(v@.subrange(lo as int, hi as int), c),
{
    let mut i: usize = lo;
    while i < hi && v[i] == c
        invariant
            lo <= i <= hi <= v@.len(),
            forall|k: int| lo <= k < i ==> v@[k] == c,
        decreases hi - i,
    {
        i += 1;
    }
    proof {
        lemma_leading_is(v@.subrange(lo as int, hi as int), c, i - lo);
    }
    i
}

/// The index in `v` of the first of the `c`s that end at `hi`, not in
/// front of `lo`.
pub fn skip_trailing(v: &Vec<char>, lo: usize, hi: usize, c: char) -> (i: usize)
    requires
        lo <= hi <= v@.len(),
    ensures
        lo <= i <= hi,
        hi - i == trailing(v@.subrange(lo as int, hi as int), c),
{
    let mut i: usize = hi;
    while i > lo && v[i - 1] == c
        invariant
            lo <= i <= hi <= v@.len(),
            forall|k: int| i <= k < hi ==> v@[k] == c,
        decreases i,
    {
        i -= 1;
    }
    proof {
        lemma_trailing_is(v@.subrange(lo as int, hi as int), c, hi - i);
    }
    i
}

/// Whether the characters of `v` from `lo` up to `hi` start with `prefix`.
pub fn starts_with(v: &Vec<char>, lo: usize, hi: usize, prefix: &Vec<char>) -> (b: bool)
    requires
        lo <= hi <= v@.len(),
    ensures
        b == prefix@.is_prefix_of(v@.subrange(lo as int, hi as int)),
{
    if prefix.len() > hi - lo {
        return false;
    }
    let mut k: usize = 0;
    while k < prefix.len()
        invariant
            lo <= hi <= v@.len(),
            prefix@.len() <= hi - lo,
            k <= prefix@.len(),
            forall|j: int| 0 <= j < k ==> v@[lo + j] == prefix@[j],
        decreases prefix@.len() - k,
    {
        if v[lo + k] != prefix[k] {
            return false;
        }
        k += 1;
    }
    true
}

/// Whether the characters of `v` from `lo` up to `hi` end with `suffix`.
pub fn ends_with(v: &Vec<char>, lo: usize, hi: usize, suffix: &Vec<char>) -> (b: bool)
    requires
        lo <= hi <= v@.len(),
    ensures
        b == suffix@.is_suffix_of(v@.subrange(lo as int, hi as int)),
{
    if suffix.len() > hi - lo {
        return false;
    }
    let start = hi - suffix.len();
    let b = starts_with(v, start, hi, suffix);
    b
}

/// The index of the first `c` in `s`; the length of `s` where there is
/// none.
pub open spec fn first_index(s: Seq<char>, c: char) -> int
    decreases s.len(),
{
    if s.len() == 0 || s[0] == c {
        0
    } else {
        1 + first_index(s.drop_first(), c)
    }
}

/// `n` is the first index of `c` where no `c` stands in front of `n` and
/// one stands at `n`, or `n` is the length.
pub proof fn lemma_first_index_is(s: Seq<char>, c: char, n: int)
    requires
        0 <= n <= s.len(),
        forall|i: int| 0 <= i < n ==> s[i] != c,
        n < s.len() ==> s[n] == c,
    ensures
        first_index(s, c) == n,
    decreases n,
{
    if n > 0 {
        lemma_first_index_is(s.drop_first(), c, n - 1);
    }
}

/// What stands in `s` in front of the first `c`; all of `s` where there
/// is no `c`.
pub open spec fn before_first(s: Seq<char>, c: char) -> Seq<char> {
    s.take(first_index(s, c))
}

/// The index in `v` of the first `c` from `lo` on, or `hi` where there is
/// none in front of `hi`.
pub fn find_char(v: &Vec<char>, lo: usize, hi: usize, c: char) -> (i: usize)
    requires
        lo <= hi <= v@.len(),
    ensures
        lo <= i <= hi,
        i - lo == first_index(v@.subrange(lo as int, hi as int), c),
{
    let mut i: usize = lo;
    while i < hi && v[i] != c
        invariant
            lo <= i <= hi <= v@.len(),
            forall|k: int| lo <= k < i ==> v@[k] != c,
        decreases hi - i,
    {
        i += 1;
    }
    proof {
        lemma_first_index_is(v@.subrange(lo as int, hi as int), c, i - lo);
    }
    i
}

/// A line without the carriage return at its end, if it has one.
pub open spec fn chomp(line: Seq<char>) -> Seq<char> {
    if line.len() > 0 && line.last() == '\r' {
        line.drop_last()
    } else {
        line
    }
}

/// The lines of a text. A line ends at a line feed; the line feed, and a
/// carriage return in front of it, are not part of the line. What follows
/// the last line feed is a line unless it is empty.
pub open spec fn lines(s: Seq<char>) -> Seq<Seq<char>>
    decreases s.len(),
{
    if s.len() == 0 {
        Seq::empty()
    } else {
        let i = first_index(s, '\n');
        if 0 <= i < s.len() {
            seq![chomp(s.take(i))] + lines(s.skip(i + 1))
        } else {
            seq![s]
        }
    }
}

/// Splits a text into its lines.
pub fn split_lines(s: &str) -> (out: Vec<String>)
    ensures
        texts(out@) == lines(s@),
{
    let v = chars_of(s);
    let mut out: Vec<String> = Vec::new();
    let mut pos: usize = 0;
    proof {
        assert(v@.skip(0) =~= v@);
    }
    while pos < v.len()
        invariant
            pos <= v@.len(),
            lines(v@) =~= texts(out@) + lines(v@.skip(pos as int)),
        decreases v@.len() - pos,
    {
        let end = find_char(&v, pos, v.len(), '\n');
        let ghost rest = v@.skip(pos as int);
        if end < v.len() {
            let stop = if end > pos && v[end - 1] == '\r' {
                end - 1
            } else {
                end
            };
            let line = string_of(&v, pos, stop);
            proof {
                assert(rest.take(end - pos) =~= v@.subrange(pos as int, end as int));
                assert(chomp(v@.subrange(pos as int, end as int)) =~= v@.subrange(
                    pos as int,
                    stop as int,
                ));
                assert(rest.skip(end - pos + 1) =~= v@.skip(end + 1));
            }
            out.push(line);
            pos = end + 1;
        } else {
            let line = string_of(&v, pos, end);
            out.push(line);
            pos = end;
        }
    }
    out
}

/// What follows `prefix` in `line`, where `line` starts with it.
pub open spec fn stripped(line: Seq<char>, prefix: Seq<char>) -> Option<Seq<char>> {
    if prefix.is_prefix_of(line) {
        Some(line.skip(prefix.len() as int))
    } else {
        None
    }
}

/// What follows `prefix` in `line`, where `line` starts with it.
pub fn strip_prefix(line: &Vec<char>, prefix: &str) -> (rest: Option<String>)
    ensures
        opt_text(rest) == stripped(line@, prefix@),
{
    let p = chars_of(prefix);
    if starts_with(line, 0, line.len(), &p) {
        Some(string_of(line, p.len(), line.len()))
    } else {
        None
    }
}

/// Whether two strings have the same text.
pub fn same_text(a: &str, b: &str) -> (same: bool)
    ensures
        same == (a@ == b@),
{
    let x = chars_of(a);
    let y = chars_of(b);
    if x.len() != y.len() {
        return false;
    }
    let mut i: usize = 0;
    while i < x.len()
        invariant
            x@ == a@,
            y@ == b@,
            x@.len() == y@.len(),
            i <= x@.len(),
            forall|k: int| 0 <= k < i ==> x@[k] == y@[k],
        decreases x@.len() - i,
    {
        if x[i] != y[i] {
            return false;
        }
        i += 1;
    }
    proof {
        assert(x@ =~= y@);
    }
    true
}

} // verus!
