//! Whitespace and trimming of a line of text.

use vstd::prelude::*;

verus! {

/// Whether `c` is white space: a tab, a line feed, a vertical tab, a form
/// feed, a carriage return, a space, the next-line control, the no-break
/// space, the ogham space mark, one of the fixed-width spaces from the en
/// quad to the hair space, a line or paragraph separator, the narrow
/// no-break space, the medium mathematical space or the ideographic space.
pub open spec fn is_whitespace(c: char) -> bool {
    let code = c as u32;
    ||| 0x09 <= code <= 0x0d
    ||| code == 0x20
    ||| code == 0x85
    ||| code == 0xa0
    ||| code == 0x1680
    ||| 0x2000 <= code <= 0x200a
    ||| code == 0x2028
    ||| code == 0x2029
    ||| code == 0x202f
    ||| code == 0x205f
    ||| code == 0x3000
}

/// Tests one character for white space.
pub fn is_whitespace_char(c: char) -> (white: bool)
    ensures
        white == is_whitespace(c),
{
    let code: u32 = c as u32;
    (0x09 <= code && code <= 0x0d) || code == 0x20 || code == 0x85 || code == 0xa0 || code
        == 0x1680 || (0x2000 <= code && code <= 0x200a) || code == 0x2028 || code == 0x2029
        || code == 0x202f || code == 0x205f || code == 0x3000
}

/// `s` without the white space at its start.
pub open spec fn trim_start(s: Seq<char>) -> Seq<char>
    decreases s.len(),
{
    if s.len() > 0 && is_whitespace(s.first()) {
        trim_start(s.drop_first())
    } else {
        s
    }
}

/// `s` without the white space at its end.
pub open spec fn trim_end(s: Seq<char>) -> Seq<char>
    decreases s.len(),
{
    if s.len() > 0 && is_whitespace(s.last()) {
        trim_end(s.drop_last())
    } else {
        s
    }
}

/// `s` without the white space that surrounds it.
pub open spec fn trimmed(s: Seq<char>) -> Seq<char> {
    trim_end(trim_start(s))
}

/// Where the white space at the start of `s` ends: everything before the
/// index returned is white space, and what stands at it, if anything, is
/// not.
proof fn lemma_trim_start_cuts(s: Seq<char>) -> (from: int)
    ensures
        0 <= from <= s.len(),
        trim_start(s) == s.subrange(from, s.len() as int),
        forall|i: int| 0 <= i < from ==> is_whitespace(#[trigger] s[i]),
        from < s.len() ==> !is_whitespace(s[from]),
    decreases s.len(),
{
    if s.len() > 0 && is_whitespace(s.first()) {
        let rest = s.drop_first();
        let inner = lemma_trim_start_cuts(rest);
        assert forall|i: int| 0 <= i < inner + 1 implies is_whitespace(#[trigger] s[i]) by {
            if i > 0 {
                assert(s[i] == rest[i - 1]);
            }
        }
        inner + 1
    } else {
        0
    }
}

/// Where the white space at the end of `s` begins: everything from the
/// index returned on is white space, and what stands before it, if
/// anything, is not.
proof fn lemma_trim_end_cuts(s: Seq<char>) -> (to: int)
    ensures
        0 <= to <= s.len(),
        trim_end(s) == s.subrange(0, to),
        forall|i: int| to <= i < s.len() ==> is_whitespace(#[trigger] s[i]),
        0 < to ==> !is_whitespace(s[to - 1]),
    decreases s.len(),
{
    if s.len() > 0 && is_whitespace(s.last()) {
        let rest = s.drop_last();
        let inner = lemma_trim_end_cuts(rest);
        assert forall|i: int| inner <= i < s.len() implies is_whitespace(#[trigger] s[i]) by {
            if i < rest.len() {
                assert(s[i] == rest[i]);
            }
        }
        inner
    } else {
        s.len() as int
    }
}

/// Trimming cuts one stretch out of `s`, from the first index returned up
/// to the second: all that it leaves out is white space, and what it keeps
/// neither starts nor ends with white space.
pub proof fn lemma_trimmed_is_the_middle(s: Seq<char>) -> (cut: (int, int))
    ensures
        0 <= cut.0 <= cut.1 <= s.len(),
        trimmed(s) == s.subrange(cut.0, cut.1),
        forall|i: int| 0 <= i < cut.0 || cut.1 <= i < s.len() ==> is_whitespace(#[trigger] s[i]),
        cut.0 < cut.1 ==> !is_whitespace(s[cut.0]) && !is_whitespace(s[cut.1 - 1]),
{
    let from = lemma_trim_start_cuts(s);
    let tail = s.subrange(from, s.len() as int);
    let to = lemma_trim_end_cuts(tail);
    assert forall|i: int| from + to <= i < s.len() implies is_whitespace(#[trigger] s[i]) by {
        assert(s[i] == tail[i - from]);
    }
    (from, from + to)
}

/// Text that has been trimmed has nothing left to trim.
pub proof fn lemma_trimmed_twice(s: Seq<char>)
    ensures
        trimmed(trimmed(s)) == trimmed(s),
{
    lemma_trimmed_is_the_middle(s);
}

/// There is one way only to cut the white space off both ends: a stretch
/// of `s` with nothing but white space outside it, which is empty or has
/// other characters at both ends, is `s` trimmed.
pub proof fn lemma_cut_is_trimmed(s: Seq<char>, from: int, to: int)
    requires
        0 <= from <= to <= s.len(),
        forall|i: int| 0 <= i < from || to <= i < s.len() ==> is_whitespace(#[trigger] s[i]),
        from < to ==> !is_whitespace(s[from]) && !is_whitespace(s[to - 1]),
    ensures
        trimmed(s) == s.subrange(from, to),
{
    lemma_trimmed_is_the_middle(s);
}

/// Finds, in one pass over `line`, where its leading white space ends and
/// where its trailing white space begins.
fn bounds(line: &str) -> (cut: (usize, usize))
    ensures
        cut.0 <= cut.1 <= line@.len(),
        trimmed(line@) == line@.subrange(cut.0 as int, cut.1 as int),
{
    let len = line.unicode_len();
    let mut start: usize = 0;
    let mut end: usize = 0;
    let mut at: usize = 0;
    for c in walk: line.chars()
        invariant
            len == line@.len(),
            walk.seq() == line@,
            at == walk.index(),
            start <= end <= at <= len,
            start == end ==> start == at,
            forall|i: int| 0 <= i < start || end <= i < at ==> is_whitespace(#[trigger] line@[i]),
            start < end ==> !is_whitespace(line@[start as int]) && !is_whitespace(line@[end - 1]),
    {
        if !is_whitespace_char(c) {
            end = at + 1;
        } else if start == end {
            start = at + 1;
            end = at + 1;
        }
        at += 1;
    }
    proof {
        lemma_cut_is_trimmed(line@, start as int, end as int);
    }
    (start, end)
}

/// The part of `line` between its leading and its trailing white space.
pub fn trim(line: &str) -> (inner: &str)
    ensures
        inner@ == trimmed(line@),
{
    let (start, end) = bounds(line);
    line.substring_char(start, end)
}

} // verus!
