//! The trait that closes the set of location types.

use vstd::prelude::*;
use url::Url;

verus! {

/// A URL of the url crate.
#[verifier::external_type_specification]
#[verifier::external_body]
pub struct ExUrl(Url);

/// Implemented by the location types of this crate, and by no other: the
/// module is private, so the trait cannot be named outside.
pub trait Sealed: Sized {
    /// An example of a location of this type.
    fn example() -> Self;
}

impl Sealed for String {
    fn example() -> (location: String)
        ensures
            location@ == "path/to/file.pdf"@,
    {
        "path/to/file.pdf".to_owned()
    }
}

/// The serialization that a URL holds: the text that `Url::as_str` gives.
pub uninterp spec fn url_text(url: Url) -> Seq<char>;

/// The URL `https://example.com/path/to/file.pdf`.
///
/// Wraps `Url::parse` of the url crate, on a literal that it parses. The
/// literal is an absolute URL in the form in which the url crate serializes
/// one, so the URL that comes back holds it unchanged.
#[verifier::external_body]
fn example_url() -> (url: Url)
    ensures
        url_text(url) == "https://example.com/path/to/file.pdf"@,
{
    Url::parse("https://example.com/path/to/file.pdf").unwrap()
}

impl Sealed for Url {
    fn example() -> (location: Url)
        ensures
            url_text(location) == "https://example.com/path/to/file.pdf"@,
    {
        example_url()
    }
}

} // verus!
