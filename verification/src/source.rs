//! The name under which a source file arrives in a destination directory.

use vstd::prelude::*;
use crate::entry::{text_of, Failure, Metadata};
use crate::path::{file_name_of, unix_file_name};
use content_disposition::parse_content_disposition;

verus! {

/// The file name that a `Content-Disposition` header suggests, if it
/// suggests one.
pub uninterp spec fn disposition_filename(header: Seq<char>) -> Option<Seq<char>>;

/// Reads the suggested file name out of a `Content-Disposition` header.
///
/// Wraps `parse_content_disposition` of the content_disposition crate and
/// `filename_full` of what it returns: the value of the header's `filename`
/// parameter, where it has one.
#[verifier::external_body]
fn filename_in_disposition(header: &str) -> (name: Option<String>)
    ensures
        text_of(name) == disposition_filename(header@),
{
    parse_content_disposition(header).filename_full()
}

/// The hint that a source's metadata gives for its file name.
pub open spec fn filename_hint(disposition: Option<Seq<char>>) -> Option<Seq<char>> {
    match disposition {
        Some(header) => disposition_filename(header),
        None => None,
    }
}

/// The name of a source, given the last segment of its path and the hint
/// from its metadata: the segment where there is one, else the hint.
pub open spec fn name_given(segment: Option<Seq<char>>, hint: Option<Seq<char>>) -> Option<
    Seq<char>,
> {
    match segment {
        Some(name) => Some(name),
        None => hint,
    }
}

/// The name of the source at `path` whose metadata carries `disposition`.
pub open spec fn source_name(path: Seq<char>, disposition: Option<Seq<char>>) -> Option<
    Seq<char>,
> {
    name_given(unix_file_name(path), filename_hint(disposition))
}

/// Picks the name of a source from the last segment of its path and the hint
/// from its metadata. Without either there is no name: `NoFilename`.
pub fn choose_name(segment: Option<String>, hint: Option<String>) -> (name: Result<
    String,
    Failure,
>)
    ensures
        match name {
            Ok(name) => name_given(text_of(segment), text_of(hint)) == Some(name@),
            Err(failure) => name_given(text_of(segment), text_of(hint)) is None && failure
                == Failure::NoFilename,
        },
{
    match segment {
        Some(name) => Ok(name),
        None => match hint {
            Some(name) => Ok(name),
            None => Err(Failure::NoFilename),
        },
    }
}

/// The file name of a source: the last segment of its path; where the path
/// has none, the name that the content disposition in its metadata suggests;
/// and `NoFilename` where that gives none either.
pub fn source_filename(path: &str, metadata: &Metadata) -> (name: Result<String, Failure>)
    ensures
        match name {
            Ok(name) => source_name(path@, metadata@.content_disposition) == Some(name@),
            Err(failure) => source_name(path@, metadata@.content_disposition) is None && failure
                == Failure::NoFilename,
        },
{
    let segment = file_name_of(path);
    let hint = match &segment {
        Some(_) => None,
        None => match &metadata.content_disposition {
            Some(header) => filename_in_disposition(header.as_str()),
            None => None,
        },
    };
    choose_name(segment, hint)
}

} // verus!
