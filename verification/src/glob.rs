//! Glob analysis: detecting metacharacters and cutting a pattern into its
//! literal prefix and the rest.

use vstd::prelude::*;
use crate::text::{chars_of, join, join_chars, split, split_chars, string_of, views};

verus! {

/// Whether `c` is one of the glob metacharacters `*`, `?`, `[`, `{`.
pub open spec fn is_glob_char(c: char) -> bool {
    c == '*' || c == '?' || c == '[' || c == '{'
}

/// Whether some character of `s` is a glob metacharacter.
pub open spec fn has_glob(s: Seq<char>) -> bool {
    exists|i: int| 0 <= i < s.len() && is_glob_char(#[trigger] s[i])
}

/// How many segments at the front of `segments` are free of glob
/// metacharacters.
pub open spec fn leading_literals(segments: Seq<Seq<char>>) -> nat
    decreases segments.len(),
{
    if segments.len() == 0 || has_glob(segments[0]) {
        0
    } else {
        1 + leading_literals(segments.drop_first())
    }
}

/// Whether a segment is non-empty.
pub open spec fn non_empty(segment: Seq<char>) -> bool {
    segment.len() > 0
}

/// The segments of `pattern` before its first glob segment, joined again;
/// `None` where no segment holds a glob metacharacter.
pub open spec fn literal_prefix_of(pattern: Seq<char>) -> Option<Seq<char>> {
    let segments = split(pattern, '/');
    let k = leading_literals(segments) as int;
    if k < segments.len() {
        Some(join(segments.take(k), '/'))
    } else {
        None
    }
}

/// The non-empty segments of `pattern`, cut before the first one that holds a
/// glob metacharacter, each side joined again.
pub open spec fn split_glob_of(pattern: Seq<char>) -> (Seq<char>, Seq<char>) {
    let segments = split(pattern, '/').filter(|segment: Seq<char>| non_empty(segment));
    let k = leading_literals(segments) as int;
    (join(segments.take(k), '/'), join(segments.skip(k), '/'))
}

/// `leading_literals` is the index of the first glob segment, or the number
/// of segments where there is none.
pub proof fn lemma_leading_literals(segments: Seq<Seq<char>>, k: int)
    requires
        0 <= k <= segments.len(),
        forall|j: int| 0 <= j < k ==> !has_glob(#[trigger] segments[j]),
        k < segments.len() ==> has_glob(segments[k]),
    ensures
        leading_literals(segments) == k,
    decreases k,
{
    if k > 0 {
        let rest = segments.drop_first();
        assert forall|j: int| 0 <= j < k - 1 implies !has_glob(#[trigger] rest[j]) by {
            assert(rest[j] == segments[j + 1]);
        }
        lemma_leading_literals(rest, k - 1);
    }
}

/// The first `leading_literals` segments are free of glob metacharacters, and
/// the one after them, if any, holds one.
pub proof fn lemma_leading_literals_shape(segments: Seq<Seq<char>>)
    ensures
        leading_literals(segments) <= segments.len(),
        forall|j: int| 0 <= j < leading_literals(segments) ==> !has_glob(#[trigger] segments[j]),
        leading_literals(segments) < segments.len() ==> has_glob(
            segments[leading_literals(segments) as int],
        ),
    decreases segments.len(),
{
    if segments.len() > 0 && !has_glob(segments[0]) {
        let rest = segments.drop_first();
        lemma_leading_literals_shape(rest);
        let k = leading_literals(segments);
        assert forall|j: int| 0 <= j < k implies !has_glob(#[trigger] segments[j]) by {
            if j > 0 {
                assert(segments[j] == rest[j - 1]);
            }
        }
    }
}

/// A string holds a glob metacharacter exactly when one of its segments does.
pub proof fn lemma_glob_in_segment(s: Seq<char>)
    ensures
        has_glob(s) <==> exists|i: int|
            0 <= i < split(s, '/').len() && has_glob(#[trigger] split(s, '/')[i]),
    decreases s.len(),
{
    let pieces = split(s, '/');
    if s.len() == 0 {
        assert forall|i: int| 0 <= i < pieces.len() implies !has_glob(#[trigger] pieces[i]) by {
            assert(pieces[i].len() == 0);
        }
    } else {
        let head = s.drop_last();
        let before = split(head, '/');
        lemma_glob_in_segment(head);
        crate::text::lemma_split_shape(head, '/');
        let c = s.last();
        if has_glob(s) {
            let g = choose|g: int| 0 <= g < s.len() && is_glob_char(#[trigger] s[g]);
            if g < head.len() {
                assert(head[g] == s[g]);
                let i = choose|i: int| 0 <= i < before.len() && has_glob(#[trigger] before[i]);
                if c == '/' {
                    assert(pieces[i] == before[i]);
                } else if i < before.len() - 1 {
                    assert(pieces[i] == before[i]);
                } else {
                    let w = choose|w: int|
                        0 <= w < before[i].len() && is_glob_char(#[trigger] before[i][w]);
                    assert(pieces[i][w] == before[i][w]);
                }
            } else {
                let last = pieces.len() - 1;
                assert(pieces[last][before.last().len() as int] == c);
            }
        }
        if exists|i: int| 0 <= i < pieces.len() && has_glob(#[trigger] pieces[i]) {
            let i = choose|i: int| 0 <= i < pieces.len() && has_glob(#[trigger] pieces[i]);
            let w = choose|w: int|
                0 <= w < pieces[i].len() && is_glob_char(#[trigger] pieces[i][w]);
            if c != '/' && i == before.len() - 1 && w < before.last().len() {
                assert(before.last()[w] == pieces[i][w]);
            }
        }
    }
}

/// A pattern has a literal prefix exactly when it holds a glob metacharacter.
pub proof fn lemma_literal_prefix_iff_glob(pattern: Seq<char>)
    ensures
        literal_prefix_of(pattern) is Some <==> has_glob(pattern),
{
    let segments = split(pattern, '/');
    lemma_glob_in_segment(pattern);
    lemma_leading_literals_shape(segments);
}

/// Whether the characters of `chars` hold a glob metacharacter.
pub fn chars_have_glob(chars: &Vec<char>) -> (found: bool)
    ensures
        found == has_glob(chars@),
{
    let mut i: usize = 0;
    while i < chars.len()
        invariant
            i <= chars.len(),
            forall|j: int| 0 <= j < i ==> !is_glob_char(#[trigger] chars@[j]),
        decreases chars.len() - i,
    {
        let c = chars[i];
        if c == '*' || c == '?' || c == '[' || c == '{' {
            return true;
        }
        i += 1;
    }
    false
}

/// True iff `s` contains any of `*`, `?`, `[`, `{`.
pub fn has_glob_chars(s: &str) -> (found: bool)
    ensures
        found == has_glob(s@),
{
    let chars = chars_of(s);
    chars_have_glob(&chars)
}

/// The index of the first piece from `from` on that holds a glob
/// metacharacter, or the number of pieces.
fn first_glob_piece(pieces: &Vec<Vec<char>>) -> (k: usize)
    ensures
        k == leading_literals(views(pieces@)),
        k <= pieces.len(),
{
    let mut k: usize = 0;
    while k < pieces.len()
        invariant
            k <= pieces.len(),
            forall|j: int| 0 <= j < k ==> !has_glob(#[trigger] views(pieces@)[j]),
        decreases pieces.len() - k,
    {
        if chars_have_glob(&pieces[k]) {
            proof {
                lemma_leading_literals(views(pieces@), k as int);
            }
            return k;
        }
        k += 1;
    }
    proof {
        lemma_leading_literals(views(pieces@), k as int);
    }
    k
}

/// The literal prefix of a glob pattern: the segments before the first one
/// that holds a glob metacharacter, joined with `/`. `None` where the pattern
/// holds none.
pub fn literal_prefix(pattern: &str) -> (prefix: Option<String>)
    ensures
        match prefix {
            Some(p) => literal_prefix_of(pattern@) == Some(p@),
            None => literal_prefix_of(pattern@) is None,
        },
        prefix is Some <==> has_glob(pattern@),
{
    let chars = chars_of(pattern);
    let pieces = split_chars(&chars, '/');
    let k = first_glob_piece(&pieces);
    proof {
        lemma_literal_prefix_iff_glob(pattern@);
    }
    if k < pieces.len() {
        let joined = join_chars(&pieces, 0, k, '/');
        Some(string_of(&joined))
    } else {
        None
    }
}

/// Cuts a pattern into its literal base and the glob remainder. Empty
/// segments are dropped on both sides.
pub fn split_glob_path(pattern: &str) -> (parts: (String, String))
    ensures
        (parts.0@, parts.1@) == split_glob_of(pattern@),
{
    let chars = chars_of(pattern);
    let pieces = split_chars(&chars, '/');
    let ghost keep = |segment: Seq<char>| non_empty(segment);
    let mut kept: Vec<Vec<char>> = Vec::new();
    let mut i: usize = 0;
    while i < pieces.len()
        invariant
            i <= pieces.len(),
            keep == |segment: Seq<char>| non_empty(segment),
            views(kept@) == views(pieces@).take(i as int).filter(keep),
        decreases pieces.len() - i,
    {
        proof {
            let done = views(pieces@).take(i as int);
            assert(views(pieces@).take(i + 1) == done.push(pieces@[i as int]@));
            done.lemma_filter_push(pieces@[i as int]@, keep);
        }
        if pieces[i].len() > 0 {
            kept.push(pieces[i].clone());
        }
        i += 1;
    }
    proof {
        assert(views(pieces@).take(pieces.len() as int) == views(pieces@));
    }
    let k = first_glob_piece(&kept);
    let base = join_chars(&kept, 0, k, '/');
    let rest = join_chars(&kept, k, kept.len(), '/');
    (string_of(&base), string_of(&rest))
}

} // verus!
