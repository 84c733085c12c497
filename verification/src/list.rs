//! Listing plans: where to list, how deep, and which entries pass.
//!
//! A path that holds glob metacharacters is listed recursively from its
//! literal prefix, and only entries whose whole path matches the pattern
//! pass. Any other path is listed as it stands.

use vstd::prelude::*;
use crate::entry::{entry_views, Failure, StorageEntry, StorageEntryView};
use crate::glob::{has_glob, literal_prefix, literal_prefix_of};
use crate::text::chars_of;
use globset::{Glob, GlobMatcher};

verus! {

/// A compiled glob of globset.
#[verifier::external_type_specification]
#[verifier::external_body]
pub struct ExGlobMatcher(GlobMatcher);

/// The error that globset gives for a pattern it cannot parse.
#[verifier::external_type_specification]
#[verifier::external_body]
pub struct ExGlobError(globset::Error);

/// Whether globset parses `pattern` as a glob, with its default options.
pub uninterp spec fn glob_well_formed(pattern: Seq<char>) -> bool;

/// Whether the glob `pattern` matches the whole of `path`, as globset
/// decides it with its default options where `/` alone separates the segments
/// of a path.
pub uninterp spec fn glob_matches(pattern: Seq<char>, path: Seq<char>) -> bool;

/// The glob text that a compiled matcher holds.
pub uninterp spec fn matcher_pattern(matcher: GlobMatcher) -> Seq<char>;

/// The longest pattern that is handed to the glob compiler.
pub const MAX_PATTERN_LEN: usize = 4096;

/// The most `{` that a pattern handed to the glob compiler may hold.
pub const MAX_PATTERN_BRACES: usize = 64;

/// How many `{` there are in `s`.
pub open spec fn brace_count(s: Seq<char>) -> nat
    decreases s.len(),
{
    if s.len() == 0 {
        0
    } else {
        brace_count(s.drop_last()) + if s.last() == '{' {
            1nat
        } else {
            0nat
        }
    }
}

/// Whether a pattern is within the size that the glob compiler is given: it
/// is no longer than `MAX_PATTERN_LEN` and opens no more than
/// `MAX_PATTERN_BRACES` alternations.
pub open spec fn within_limits(pattern: Seq<char>) -> bool {
    pattern.len() <= MAX_PATTERN_LEN && brace_count(pattern) <= MAX_PATTERN_BRACES
}

/// Whether a pattern is taken as a glob: it is within the limits and well
/// formed.
pub open spec fn glob_accepted(pattern: Seq<char>) -> bool {
    within_limits(pattern) && glob_well_formed(pattern)
}

/// Parses and compiles a glob.
///
/// Wraps `Glob::new` and `Glob::compile_matcher` of globset, with default
/// options. The result is `Ok` exactly for the patterns that globset parses,
/// and the matcher then holds the pattern. globset turns the glob into a
/// regular expression and does not expect that to fail to compile; alternation
/// nested some eighty deep, or a pattern of megabytes, would make it fail, so
/// such patterns are kept out.
#[verifier::external_body]
fn compile_glob(pattern: &str) -> (compiled: Result<GlobMatcher, globset::Error>)
    requires
        within_limits(pattern@),
    ensures
        (compiled is Ok) == glob_well_formed(pattern@),
        compiled matches Ok(matcher) ==> matcher_pattern(matcher) == pattern@,
{
    match Glob::new(pattern) {
        Ok(glob) => Ok(glob.compile_matcher()),
        Err(error) => Err(error),
    }
}

/// Tests a path against a compiled glob.
///
/// Wraps `GlobMatcher::is_match` of globset: whether the glob that the
/// matcher holds matches the whole path.
#[verifier::external_body]
fn matcher_is_match(matcher: &GlobMatcher, path: &str) -> (matched: bool)
    ensures
        matched == glob_matches(matcher_pattern(*matcher), path@),
{
    matcher.is_match(path)
}

/// Whether `pattern` is within the limits for compiling.
pub fn pattern_within_limits(pattern: &str) -> (ok: bool)
    ensures
        ok == within_limits(pattern@),
{
    let chars = chars_of(pattern);
    if chars.len() > MAX_PATTERN_LEN {
        return false;
    }
    let mut braces: usize = 0;
    let mut i: usize = 0;
    while i < chars.len()
        invariant
            i <= chars.len() <= MAX_PATTERN_LEN,
            braces == brace_count(chars@.take(i as int)),
            braces <= i,
        decreases chars.len() - i,
    {
        proof {
            assert(chars@.take(i + 1).drop_last() == chars@.take(i as int));
        }
        if chars[i] == '{' {
            braces += 1;
        }
        i += 1;
    }
    proof {
        assert(chars@.take(chars.len() as int) == chars@);
    }
    braces <= MAX_PATTERN_BRACES
}

/// Options of a listing.
#[derive(Clone, Copy, Debug, PartialEq, Eq, Structural)]
pub struct ListOptions {
    /// Whether to descend into directories.
    pub recursive: bool,
}

impl Default for ListOptions {
    fn default() -> (options: ListOptions)
        ensures
            !options.recursive,
    {
        ListOptions { recursive: false }
    }
}

/// Whether a listing with these options descends into directories.
pub open spec fn wants_recursion(options: Option<ListOptions>) -> bool {
    match options {
        Some(options) => options.recursive,
        None => false,
    }
}

/// A listing plan: the path to list on the backend, whether to list it
/// recursively, and the filter that its entries must pass.
pub struct Lister {
    root: String,
    recursive: bool,
    matcher: Option<GlobMatcher>,
}

/// The mathematical value of a `Lister`.
pub struct ListerView {
    pub root: Seq<char>,
    pub recursive: bool,
    pub pattern: Option<Seq<char>>,
}

impl View for Lister {
    type V = ListerView;

    closed spec fn view(&self) -> ListerView {
        ListerView {
            root: self.root@,
            recursive: self.recursive,
            pattern: match self.matcher {
                Some(matcher) => Some(matcher_pattern(matcher)),
                None => None,
            },
        }
    }
}

/// The plan for listing `path`. A path with a literal prefix is a glob: it is
/// listed recursively from that prefix and filtered by the whole path as the
/// pattern; there is no plan where the pattern is not accepted. Any other path
/// is listed as it stands, with the caller's recursion flag.
pub open spec fn plan_for(path: Seq<char>, recursive: bool) -> Option<ListerView> {
    match literal_prefix_of(path) {
        Some(prefix) => if glob_accepted(path) {
            Some(ListerView { root: prefix, recursive: true, pattern: Some(path) })
        } else {
            None
        },
        None => Some(ListerView { root: path, recursive, pattern: None }),
    }
}

/// The plan for listing below `prefix` what matches `glob`: always recursive.
pub open spec fn glob_plan_for(prefix: Seq<char>, glob: Seq<char>) -> Option<ListerView> {
    if glob_accepted(glob) {
        Some(ListerView { root: prefix, recursive: true, pattern: Some(glob) })
    } else {
        None
    }
}

/// Whether an entry at `path` passes the plan's filter.
pub open spec fn admitted(plan: ListerView, path: Seq<char>) -> bool {
    match plan.pattern {
        Some(pattern) => glob_matches(pattern, path),
        None => true,
    }
}

impl Lister {
    /// The plan that lists `root` as it stands, without a filter.
    pub fn unfiltered(root: String, recursive: bool) -> (lister: Lister)
        ensures
            lister@ == (ListerView { root: root@, recursive, pattern: None }),
    {
        Lister { root, recursive, matcher: None }
    }

    /// The path to list on the backend.
    pub fn root(&self) -> (root: &str)
        ensures
            root@ == self@.root,
    {
        self.root.as_str()
    }

    /// Whether the backend is to list recursively.
    pub fn recursive(&self) -> (recursive: bool)
        ensures
            recursive == self@.recursive,
    {
        self.recursive
    }

    /// Whether the plan filters by a glob.
    pub fn is_filtered(&self) -> (filtered: bool)
        ensures
            filtered == self@.pattern is Some,
    {
        self.matcher.is_some()
    }

    /// Whether an entry at `path` passes the filter. Without a glob every
    /// entry passes.
    pub fn admits(&self, path: &str) -> (passes: bool)
        ensures
            passes == admitted(self@, path@),
    {
        match &self.matcher {
            Some(matcher) => matcher_is_match(matcher, path),
            None => true,
        }
    }
}

/// Compiles `glob` into a plan rooted at `root`.
fn filtered_plan(root: String, glob: &str) -> (plan: Result<Lister, Failure>)
    ensures
        match plan {
            Ok(lister) => glob_plan_for(root@, glob@) == Some(lister@),
            Err(failure) => glob_plan_for(root@, glob@) is None && failure == Failure::InvalidGlob,
        },
{
    if !pattern_within_limits(glob) {
        return Err(Failure::InvalidGlob);
    }
    match compile_glob(glob) {
        Ok(matcher) => Ok(Lister { root, recursive: true, matcher: Some(matcher) }),
        Err(_) => Err(Failure::InvalidGlob),
    }
}

/// Plans the listing of `path`.
///
/// A path that holds a glob metacharacter is listed recursively from its
/// literal prefix and filtered by the whole path as the pattern; a pattern
/// that is not accepted as a glob gives `Unexpected`. Any other path is listed
/// as it stands, recursively where `options` say so.
pub fn lister(path: &str, options: Option<ListOptions>) -> (plan: Result<Lister, Failure>)
    ensures
        match plan {
            Ok(lister) => plan_for(path@, wants_recursion(options)) == Some(lister@),
            Err(failure) => plan_for(path@, wants_recursion(options)) is None && failure
                == Failure::InvalidGlob,
        },
        plan is Err <==> has_glob(path@) && !glob_accepted(path@),
{
    match literal_prefix(path) {
        Some(prefix) => filtered_plan(prefix, path),
        None => {
            let recursive = match options {
                Some(options) => options.recursive,
                None => false,
            };
            Ok(Lister::unfiltered(path.to_owned(), recursive))
        },
    }
}

/// Plans a recursive listing below `prefix`, filtered by `glob`. A pattern
/// that is not accepted as a glob gives `Unexpected`.
pub fn glob_lister(prefix: &str, glob: &str, options: Option<ListOptions>) -> (plan: Result<
    Lister,
    Failure,
>)
    ensures
        match plan {
            Ok(lister) => glob_plan_for(prefix@, glob@) == Some(lister@),
            Err(failure) => glob_plan_for(prefix@, glob@) is None && failure
                == Failure::InvalidGlob,
        },
        plan is Err <==> !glob_accepted(glob@),
{
    filtered_plan(prefix.to_owned(), glob)
}

/// The entries of a raw backend listing that pass the plan's filter, in the
/// order in which the backend gave them. Directory entries are filtered like
/// any other.
pub fn list(lister: &Lister, entries: &Vec<StorageEntry>) -> (kept: Vec<StorageEntry>)
    ensures
        entry_views(kept@) == entry_views(entries@).filter(
            |entry: StorageEntryView| admitted(lister@, entry.path),
        ),
{
    let ghost passes = |entry: StorageEntryView| admitted(lister@, entry.path);
    let mut kept: Vec<StorageEntry> = Vec::new();
    let mut i: usize = 0;
    while i < entries.len()
        invariant
            i <= entries.len(),
            passes == |entry: StorageEntryView| admitted(lister@, entry.path),
            entry_views(kept@) == entry_views(entries@).take(i as int).filter(passes),
        decreases entries.len() - i,
    {
        proof {
            let done = entry_views(entries@).take(i as int);
            assert(entry_views(entries@).take(i + 1) == done.push(entries@[i as int]@));
            done.lemma_filter_push(entries@[i as int]@, passes);
        }
        if lister.admits(entries[i].path.as_str()) {
            kept.push(entries[i].duplicate());
        }
        i += 1;
    }
    proof {
        assert(entry_views(entries@).take(entries.len() as int) == entry_views(entries@));
    }
    kept
}

} // verus!
