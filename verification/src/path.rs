//! Splitting a module path into its segments.

use vstd::prelude::*;
use vstd::string::StrSliceExecFns;

verus! {

/// Whether the separator `::` begins at index `i` of `s`.
pub open spec fn separator_at(s: Seq<char>, i: int) -> bool {
    0 <= i && i + 1 < s.len() && s[i] == ':' && s[i + 1] == ':'
}

/// The segments that a scan of `s` still yields when it stands at index `at`
/// and the segment it is reading began at index `from`.
///
/// The scan reads from left to right. A separator ends the segment being
/// read, and the next segment begins behind it; the end of `s` ends the last
/// segment.
pub open spec fn split_from(s: Seq<char>, from: int, at: int) -> Seq<Seq<char>>
    decreases s.len() - at,
{
    if at < 0 || at >= s.len() {
        seq![s.subrange(from, s.len() as int)]
    } else if separator_at(s, at) {
        seq![s.subrange(from, at)] + split_from(s, at + 2, at + 2)
    } else {
        split_from(s, from, at + 1)
    }
}

/// The segments of the path `s`: the pieces between its separators `::`,
/// where each separator is the leftmost one that does not overlap an earlier
/// one. A path with `k` separators has `k + 1` segments, some of which may be
/// empty.
pub open spec fn split_path(s: Seq<char>) -> Seq<Seq<char>> {
    split_from(s, 0, 0)
}

/// The path that `segments` make: the segments in order, with a separator
/// between each two of them.
pub open spec fn join_path(segments: Seq<Seq<char>>) -> Seq<char>
    decreases segments.len(),
{
    if segments.len() == 0 {
        Seq::empty()
    } else if segments.len() == 1 {
        segments[0]
    } else {
        segments[0] + seq![':', ':'] + join_path(segments.drop_first())
    }
}

/// Splits `path` at each separator `::`.
pub fn split_module_path<'a>(path: &'a str) -> (segments: Vec<&'a str>)
    ensures
        segments.deep_view() == split_path(path@),
{
    let n = path.unicode_len();
    let mut segments: Vec<&'a str> = Vec::new();
    let mut start: usize = 0;
    let mut i: usize = 0;
    while i < n
        invariant
            start <= i <= n,
            n == path@.len(),
            split_path(path@) == segments.deep_view() + split_from(path@, start as int, i as int),
        decreases n - i,
    {
        if i + 1 < n && path.get_char(i) == ':' && path.get_char(i + 1) == ':' {
            let ghost before = segments.deep_view();
            let segment = path.substring_char(start, i);
            segments.push(segment);
            assert(before + (seq![segment@] + split_from(path@, i + 2, i + 2))
                == before.push(segment@) + split_from(path@, i + 2, i + 2));
            i += 2;
            start = i;
        } else {
            i += 1;
        }
    }
    segments.push(path.substring_char(start, n));
    segments
}

/// Every path has at least one segment, the empty path too.
pub proof fn lemma_split_not_empty(s: Seq<char>)
    ensures
        split_path(s).len() >= 1,
{
    lemma_split_from_not_empty(s, 0, 0);
}

proof fn lemma_split_from_not_empty(s: Seq<char>, from: int, at: int)
    ensures
        split_from(s, from, at).len() >= 1,
    decreases s.len() - at,
{
    if 0 <= at < s.len() && !separator_at(s, at) {
        lemma_split_from_not_empty(s, from, at + 1);
    }
}

/// A path that begins with a separator has an empty first segment.
pub proof fn law_leading_separator(s: Seq<char>)
    requires
        separator_at(s, 0),
    ensures
        split_path(s).len() >= 2,
        split_path(s)[0] == Seq::<char>::empty(),
{
    lemma_split_from_not_empty(s, 2, 2);
}

/// A path without a separator is its own single segment.
pub proof fn law_no_separator(s: Seq<char>)
    requires
        forall|i: int| !separator_at(s, i),
    ensures
        split_path(s) == seq![s],
{
    lemma_no_separator_from(s, 0);
    assert(s.subrange(0, s.len() as int) == s);
}

proof fn lemma_no_separator_from(s: Seq<char>, at: int)
    requires
        0 <= at,
        forall|i: int| !separator_at(s, i),
    ensures
        split_from(s, 0, at) == seq![s.subrange(0, s.len() as int)],
    decreases s.len() - at,
{
    if at < s.len() {
        lemma_no_separator_from(s, at + 1);
    }
}

/// The segments of a path, joined again, make the path.
pub proof fn law_join_split(s: Seq<char>)
    ensures
        join_path(split_path(s)) == s,
{
    lemma_join_split_from(s, 0, 0);
}

proof fn lemma_join_split_from(s: Seq<char>, from: int, at: int)
    requires
        0 <= from <= at <= s.len(),
    ensures
        join_path(split_from(s, from, at)) == s.subrange(from, s.len() as int),
    decreases s.len() - at,
{
    if at < s.len() {
        if separator_at(s, at) {
            let first = s.subrange(from, at);
            let rest = split_from(s, at + 2, at + 2);
            let all = seq![first] + rest;
            lemma_join_split_from(s, at + 2, at + 2);
            assert(all.drop_first() == rest);
            assert(first + seq![':', ':'] + s.subrange(at + 2, s.len() as int) == s.subrange(
                from,
                s.len() as int,
            ));
        } else {
            lemma_join_split_from(s, from, at + 1);
        }
    }
}

/// No segment of a path holds a separator.
pub proof fn law_segments_hold_no_separator(s: Seq<char>, i: int, k: int)
    requires
        0 <= i < split_path(s).len(),
    ensures
        !separator_at(split_path(s)[i], k),
{
    lemma_segments_hold_no_separator_from(s, 0, 0, i, k);
}

proof fn lemma_segments_hold_no_separator_from(s: Seq<char>, from: int, at: int, i: int, k: int)
    requires
        0 <= from <= at <= s.len(),
        forall|j: int| from <= j < at ==> !separator_at(s, j),
        0 <= i < split_from(s, from, at).len(),
    ensures
        !separator_at(split_from(s, from, at)[i], k),
    decreases s.len() - at,
{
    if at < s.len() {
        if separator_at(s, at) {
            if i == 0 {
                if separator_at(s.subrange(from, at), k) {
                    assert(separator_at(s, from + k));
                }
            } else {
                lemma_segments_hold_no_separator_from(s, at + 2, at + 2, i - 1, k);
            }
        } else {
            lemma_segments_hold_no_separator_from(s, from, at + 1, i, k);
        }
    } else {
        if separator_at(s.subrange(from, s.len() as int), k) {
            assert(separator_at(s, from + k));
        }
    }
}

} // verus!
