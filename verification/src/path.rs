//! Root-relative Unix paths: normalisation, joining, and the component
//! queries that the copy engine needs.

use vstd::prelude::*;
use crate::entry::text_of;
use crate::text::{chars_of, join, lemma_split_shape, split, string_of};
use typed_path::{Utf8UnixPath, Utf8UnixPathBuf};

verus! {

/// The segment `.`.
pub open spec fn is_dot(segment: Seq<char>) -> bool {
    segment.len() == 1 && segment[0] == '.'
}

/// The segment `..`.
pub open spec fn is_dot_dot(segment: Seq<char>) -> bool {
    segment.len() == 2 && segment[0] == '.' && segment[1] == '.'
}

/// A segment that names something: not empty, not `.`, not `..`, and free of
/// separators.
pub open spec fn is_name(segment: Seq<char>) -> bool {
    segment.len() > 0 && !is_dot(segment) && !is_dot_dot(segment) && !segment.contains('/')
}

/// Lexical resolution of a list of segments, left to right: empty segments
/// and `.` are dropped, `..` removes the name before it if there is one, and
/// is dropped otherwise.
pub open spec fn resolve(segments: Seq<Seq<char>>) -> Seq<Seq<char>>
    decreases segments.len(),
{
    if segments.len() == 0 {
        Seq::<Seq<char>>::empty()
    } else {
        let before = resolve(segments.drop_last());
        let segment = segments.last();
        if segment.len() == 0 || is_dot(segment) {
            before
        } else if is_dot_dot(segment) {
            if before.len() > 0 {
                before.drop_last()
            } else {
                before
            }
        } else {
            before.push(segment)
        }
    }
}

/// The names that remain of `path` after lexical resolution, joined with `/`.
pub open spec fn resolved_body(path: Seq<char>) -> Seq<char> {
    join(resolve(split(path, '/')), '/')
}

/// What lexical normalisation makes of a Unix path: a leading `/` where the
/// path has one, then the resolved names with single separators. A trailing
/// separator is not kept.
pub open spec fn lexical_normal(path: Seq<char>) -> Seq<char> {
    if path.len() > 0 && path[0] == '/' {
        seq!['/'] + resolved_body(path)
    } else {
        resolved_body(path)
    }
}

/// The normal form of a root-relative path: the resolved names with single
/// separators, no leading separator, and a trailing separator exactly where
/// `path` ends in one.
pub open spec fn normal_path(path: Seq<char>) -> Seq<char> {
    if path.len() > 0 && path.last() == '/' {
        resolved_body(path).push('/')
    } else {
        resolved_body(path)
    }
}

/// Lexically normalises a Unix path.
///
/// Wraps `Utf8UnixPath::normalize` of typed-path: `.` segments and repeated
/// or trailing separators are dropped, `..` removes the name before it, and a
/// `..` with no name before it is discarded. The root of an absolute path is
/// kept.
#[verifier::external_body]
fn unix_normalize(path: &str) -> (normal: String)
    ensures
        normal@ == lexical_normal(path@),
{
    Utf8UnixPath::new(path).normalize().into_string()
}

/// The characters of `chars` after its leading `/` characters.
pub open spec fn without_leading_slashes(chars: Seq<char>) -> Seq<char>
    decreases chars.len(),
{
    if chars.len() > 0 && chars[0] == '/' {
        without_leading_slashes(chars.drop_first())
    } else {
        chars
    }
}

/// Drops every `/` at the front of `chars`.
pub fn trim_leading_slashes(chars: &Vec<char>) -> (rest: Vec<char>)
    ensures
        rest@ == without_leading_slashes(chars@),
{
    let mut start: usize = 0;
    proof {
        assert(chars@.skip(0) == chars@);
    }
    while start < chars.len() && chars[start] == '/'
        invariant
            start <= chars.len(),
            without_leading_slashes(chars@) == without_leading_slashes(chars@.skip(start as int)),
        decreases chars.len() - start,
    {
        proof {
            assert(chars@.skip(start as int).drop_first() == chars@.skip(start + 1));
        }
        start += 1;
    }
    let mut rest: Vec<char> = Vec::new();
    let mut i: usize = start;
    while i < chars.len()
        invariant
            start <= i <= chars.len(),
            rest@ == chars@.subrange(start as int, i as int),
        decreases chars.len() - i,
    {
        rest.push(chars[i]);
        i += 1;
    }
    rest
}

/// Every segment that `resolve` keeps is a name, provided the segments hold
/// no separator.
pub proof fn lemma_resolve_names(segments: Seq<Seq<char>>)
    requires
        forall|i: int| 0 <= i < segments.len() ==> !(#[trigger] segments[i]).contains('/'),
    ensures
        forall|i: int|
            0 <= i < resolve(segments).len() ==> is_name(#[trigger] resolve(segments)[i]),
    decreases segments.len(),
{
    if segments.len() > 0 {
        let init = segments.drop_last();
        assert forall|i: int| 0 <= i < init.len() implies !(#[trigger] init[i]).contains('/') by {
            assert(init[i] == segments[i]);
        }
        lemma_resolve_names(init);
        let before = resolve(init);
        let after = resolve(segments);
        assert forall|i: int| 0 <= i < after.len() implies is_name(#[trigger] after[i]) by {
            if i < before.len() {
                assert(after[i] == before[i]);
            }
        }
    }
}

/// A list of names resolves to itself.
pub proof fn lemma_resolve_of_names(names: Seq<Seq<char>>)
    requires
        forall|i: int| 0 <= i < names.len() ==> is_name(#[trigger] names[i]),
    ensures
        resolve(names) == names,
    decreases names.len(),
{
    if names.len() > 0 {
        let init = names.drop_last();
        assert forall|i: int| 0 <= i < init.len() implies is_name(#[trigger] init[i]) by {
            assert(init[i] == names[i]);
        }
        lemma_resolve_of_names(init);
    }
}

/// Names joined with `/` begin with the first character of the first name
/// and end with the last character of the last name.
pub proof fn lemma_join_ends(names: Seq<Seq<char>>)
    requires
        names.len() > 0,
        forall|i: int| 0 <= i < names.len() ==> is_name(#[trigger] names[i]),
    ensures
        join(names, '/').len() > 0,
        join(names, '/')[0] == names[0][0],
        join(names, '/').last() == names.last().last(),
    decreases names.len(),
{
    if names.len() > 1 {
        let init = names.drop_last();
        assert forall|i: int| 0 <= i < init.len() implies is_name(#[trigger] init[i]) by {
            assert(init[i] == names[i]);
        }
        lemma_join_ends(init);
    }
}

/// A name holds no `/`, so it neither begins nor ends with one.
proof fn lemma_name_edges(name: Seq<char>)
    requires
        is_name(name),
    ensures
        name[0] != '/',
        name.last() != '/',
{
}

/// The resolved body of a path neither begins nor ends with a separator.
pub proof fn lemma_body_edges(path: Seq<char>)
    ensures
        resolved_body(path).len() > 0 ==> resolved_body(path)[0] != '/' && resolved_body(
            path,
        ).last() != '/',
        without_leading_slashes(resolved_body(path)) == resolved_body(path),
        without_leading_slashes(lexical_normal(path)) == resolved_body(path),
{
    let names = resolve(split(path, '/'));
    lemma_split_shape(path, '/');
    lemma_resolve_names(split(path, '/'));
    if names.len() > 0 {
        lemma_join_ends(names);
        lemma_name_edges(names[0]);
        lemma_name_edges(names.last());
    }
    let body = resolved_body(path);
    if path.len() > 0 && path[0] == '/' {
        let rooted = seq!['/'] + body;
        assert(rooted.drop_first() == body);
    }
}

/// An empty segment at the front changes nothing in what `resolve` keeps.
proof fn lemma_resolve_skips_leading_empty(segments: Seq<Seq<char>>)
    ensures
        resolve(seq![Seq::<char>::empty()] + segments) == resolve(segments),
    decreases segments.len(),
{
    let lead = seq![Seq::<char>::empty()];
    if segments.len() == 0 {
        assert(resolve(lead.drop_last()) == Seq::<Seq<char>>::empty());
    } else {
        lemma_resolve_skips_leading_empty(segments.drop_last());
        assert((lead + segments).drop_last() == lead + segments.drop_last());
    }
}

/// What is left of a normalised path when it is normalised again: the same
/// names.
proof fn lemma_resolve_of_body(names: Seq<Seq<char>>, trailing: bool)
    requires
        forall|i: int| 0 <= i < names.len() ==> is_name(#[trigger] names[i]),
    ensures
        ({
            let text = if trailing {
                join(names, '/').push('/')
            } else {
                join(names, '/')
            };
            resolve(split(text, '/')) == names
        }),
{
    let empty = Seq::<char>::empty();
    let body = join(names, '/');
    lemma_resolve_of_names(names);
    if names.len() == 0 {
        assert(seq![empty].drop_last() == Seq::<Seq<char>>::empty());
        assert(resolve(seq![empty]) == Seq::<Seq<char>>::empty());
        if trailing {
            crate::text::lemma_split_push_sep(empty, '/');
            let two = seq![empty].push(empty);
            assert(two.drop_last() == seq![empty]);
        }
    } else {
        assert forall|i: int| 0 <= i < names.len() implies !(#[trigger] names[i]).contains('/') by {
            assert(is_name(names[i]));
        }
        crate::text::lemma_split_join(names, '/');
        if trailing {
            crate::text::lemma_split_push_sep(body, '/');
            assert(names.push(empty).drop_last() == names);
        }
    }
}

/// Normalising is idempotent: a normalised path normalises to itself.
pub proof fn lemma_normalize_idempotent(path: Seq<char>)
    ensures
        normal_path(normal_path(path)) == normal_path(path),
{
    let names = resolve(split(path, '/'));
    lemma_split_shape(path, '/');
    lemma_resolve_names(split(path, '/'));
    lemma_body_edges(path);
    let trailing = path.len() > 0 && path.last() == '/';
    lemma_resolve_of_body(names, trailing);
}

/// A normalised path ends in a separator exactly where the input does.
pub proof fn lemma_normalize_trailing_separator(path: Seq<char>)
    ensures
        (normal_path(path).len() > 0 && normal_path(path).last() == '/') <==> (path.len() > 0
            && path.last() == '/'),
{
    lemma_body_edges(path);
}

/// A normalised path does not begin with a separator, except that a path
/// which resolves to nothing and ends in a separator normalises to `/`.
pub proof fn lemma_normalize_relative(path: Seq<char>)
    ensures
        normal_path(path).len() > 0 && normal_path(path)[0] == '/' ==> normal_path(path) == seq![
            '/',
        ],
{
    lemma_body_edges(path);
}

/// One separator in front of a non-empty path is stripped: the path
/// normalises as it does without it.
pub proof fn lemma_normalize_leading_separator(path: Seq<char>)
    requires
        path.len() > 0,
    ensures
        normal_path(seq!['/'] + path) == normal_path(path),
{
    crate::text::lemma_split_prepend_sep(path, '/');
    lemma_resolve_skips_leading_empty(split(path, '/'));
}

/// Normalizes a path: one leading separator is stripped (paths are relative
/// to the root), `.` and `..` segments are resolved lexically, repeated
/// separators collapse, and a trailing separator is kept exactly where the
/// input has one. Glob metacharacters are ordinary characters here. The empty
/// path and `.` both normalize to the empty path.
pub fn normalize_path(path: &str) -> (normal: String)
    ensures
        normal@ == normal_path(path@),
{
    let chars = chars_of(path);
    let is_dir = chars.len() > 0 && chars[chars.len() - 1] == '/';
    let resolved = unix_normalize(path);
    let resolved_chars = chars_of(resolved.as_str());
    let mut body = trim_leading_slashes(&resolved_chars);
    proof {
        lemma_body_edges(path@);
    }
    if is_dir {
        body.push('/');
    }
    string_of(&body)
}

/// `path` adjoined to `base`: an empty `path` leaves `base` as it is, an
/// absolute `path` replaces it, and any other is appended, after a separator
/// where `base` is non-empty and does not end in one.
pub open spec fn joined(base: Seq<char>, path: Seq<char>) -> Seq<char> {
    if path.len() == 0 {
        base
    } else if path[0] == '/' {
        path
    } else if base.len() > 0 && base.last() != '/' {
        base.push('/') + path
    } else {
        base + path
    }
}

/// The path without its final component, as typed-path cuts it; `None` for
/// a path that has no component or ends in the root.
pub uninterp spec fn unix_parent(path: Seq<char>) -> Option<Seq<char>>;

/// A segment that is a component of a path: not empty and not `.`.
pub open spec fn is_component(segment: Seq<char>) -> bool {
    segment.len() > 0 && !is_dot(segment)
}

/// The file name of a path: its last component, unless that is `..`. A path
/// without components has none.
pub open spec fn unix_file_name(path: Seq<char>) -> Option<Seq<char>> {
    let components = split(path, '/').filter(|segment: Seq<char>| is_component(segment));
    if components.len() > 0 && !is_dot_dot(components.last()) {
        Some(components.last())
    } else {
        None
    }
}

/// What is left of `path` after the components of `base`, as typed-path
/// strips them; `None` where `base` is not a prefix of `path` by whole
/// components.
pub uninterp spec fn unix_strip_prefix(path: Seq<char>, base: Seq<char>) -> Option<Seq<char>>;

/// The path rebuilt from its components, as typed-path parses them. Two
/// paths with the same components have the same key.
pub uninterp spec fn unix_path_key(path: Seq<char>) -> Seq<char>;

/// Adjoins `path` to `base`.
///
/// Wraps `Utf8UnixPath::join` of typed-path, which pushes `path` onto a copy
/// of `base`: nothing for an empty `path`, a replacement for one that begins
/// with `/`, and otherwise an append with one separator between the two unless
/// `base` is empty or ends in one already.
#[verifier::external_body]
pub(crate) fn join_paths(base: &str, path: &str) -> (result: String)
    ensures
        result@ == joined(base@, path@),
{
    Utf8UnixPath::new(base).join(Utf8UnixPath::new(path)).into_string()
}

/// The parent of a path.
///
/// Wraps `Utf8UnixPath::parent` of typed-path.
#[verifier::external_body]
pub(crate) fn parent_of(path: &str) -> (parent: Option<String>)
    ensures
        text_of(parent) == unix_parent(path@),
{
    match Utf8UnixPath::new(path).parent() {
        Some(parent) => Some(parent.as_str().to_string()),
        None => None,
    }
}

/// The file name of a path.
///
/// Wraps `Utf8UnixPath::file_name` of typed-path: the final component of the
/// path, where repeated and trailing separators and `.` segments count for
/// nothing, and `None` where there is no component or the final one is `..`.
#[verifier::external_body]
pub(crate) fn file_name_of(path: &str) -> (name: Option<String>)
    ensures
        text_of(name) == unix_file_name(path@),
{
    match Utf8UnixPath::new(path).file_name() {
        Some(name) => Some(name.to_string()),
        None => None,
    }
}

/// Strips the components of `base` from the front of `path`.
///
/// Wraps `Utf8UnixPath::strip_prefix` of typed-path; its error, which says
/// only that `base` is no prefix, becomes `None`.
#[verifier::external_body]
pub(crate) fn strip_prefix_of(path: &str, base: &str) -> (rest: Option<String>)
    ensures
        text_of(rest) == unix_strip_prefix(path@, base@),
{
    match Utf8UnixPath::new(path).strip_prefix(Utf8UnixPath::new(base)) {
        Ok(rest) => Some(rest.as_str().to_string()),
        Err(_) => None,
    }
}

/// The key under which a directory path is remembered.
///
/// Collects `Utf8UnixPath::components` of typed-path into a path again, so
/// that paths which typed-path holds equal, having the same components, get
/// one key.
#[verifier::external_body]
pub(crate) fn path_key(path: &str) -> (key: String)
    ensures
        key@ == unix_path_key(path@),
{
    Utf8UnixPath::new(path).components().collect::<Utf8UnixPathBuf>().into_string()
}

/// The path of an entry relative to the prefix under which it was listed,
/// given what stripping the prefix left: with an empty prefix the entry's own
/// path; where the prefix was stripped, the rest without leading separators;
/// and the entry's own path where the entry is not under the prefix.
pub open spec fn relative_given(
    entry_path: Seq<char>,
    prefix: Seq<char>,
    stripped: Option<Seq<char>>,
) -> Seq<char> {
    if prefix.len() == 0 {
        entry_path
    } else {
        match stripped {
            Some(rest) => without_leading_slashes(rest),
            None => entry_path,
        }
    }
}

/// The path of an entry relative to the prefix under which it was listed.
pub open spec fn relative_to(entry_path: Seq<char>, prefix: Seq<char>) -> Seq<char> {
    relative_given(entry_path, prefix, unix_strip_prefix(entry_path, prefix))
}

/// The relative path of an entry, from what stripping the prefix left.
pub fn relative_from(entry_path: &str, prefix: &str, stripped: Option<String>) -> (relative:
    String)
    ensures
        relative@ == relative_given(entry_path@, prefix@, text_of(stripped)),
{
    if prefix.unicode_len() == 0 {
        return entry_path.to_owned();
    }
    match stripped {
        Some(rest) => {
            let chars = chars_of(rest.as_str());
            let trimmed = trim_leading_slashes(&chars);
            string_of(&trimmed)
        },
        None => entry_path.to_owned(),
    }
}

/// The path of an entry relative to the prefix under which it was listed:
/// the entry's path with the prefix stripped, or the whole path where the
/// entry is not under the prefix.
pub fn relative_path(entry_path: &str, prefix: &str) -> (relative: String)
    ensures
        relative@ == relative_to(entry_path@, prefix@),
{
    let stripped = strip_prefix_of(entry_path, prefix);
    relative_from(entry_path, prefix, stripped)
}

} // verus!
