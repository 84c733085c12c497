//! Choosing the backend for a connection URI: by profile, and by a chain of
//! providers that are tried in order.
//!
//! Building the operator itself is the caller's work. This module decides
//! what it is built from, and which failure ends the search.

use vstd::prelude::*;
use crate::entry::{text_of, ErrorKind};
use url::Url;

verus! {

/// Why no operator can be built for a URI.
#[derive(Clone, Copy, Debug, PartialEq, Eq, Structural)]
pub enum FactoryFailure {
    /// The URI does not parse.
    InvalidUri,
    /// No profile is named like the scheme of the URI.
    ProfileNotFound,
    /// The profile has no `type` entry.
    MissingType,
    /// No provider of a chain supports the URI.
    UnsupportedUri,
}

impl FactoryFailure {
    /// The kind under which the failure is reported.
    pub open spec fn kind_spec(self) -> ErrorKind {
        match self {
            FactoryFailure::InvalidUri => ErrorKind::ConfigInvalid,
            FactoryFailure::ProfileNotFound => ErrorKind::Unsupported,
            FactoryFailure::MissingType => ErrorKind::ConfigInvalid,
            FactoryFailure::UnsupportedUri => ErrorKind::Unsupported,
        }
    }

    /// The message with which the failure is reported.
    pub open spec fn message_spec(self) -> Seq<char> {
        match self {
            FactoryFailure::InvalidUri => "Failed to parse uri"@,
            FactoryFailure::ProfileNotFound => "Profile not found"@,
            FactoryFailure::MissingType => "Missing 'type' in profile"@,
            FactoryFailure::UnsupportedUri => "Unsupported URI"@,
        }
    }

    /// The kind under which the failure is reported.
    #[verifier::when_used_as_spec(kind_spec)]
    pub fn kind(self) -> (kind: ErrorKind)
        ensures
            kind == self.kind_spec(),
    {
        match self {
            FactoryFailure::InvalidUri => ErrorKind::ConfigInvalid,
            FactoryFailure::ProfileNotFound => ErrorKind::Unsupported,
            FactoryFailure::MissingType => ErrorKind::ConfigInvalid,
            FactoryFailure::UnsupportedUri => ErrorKind::Unsupported,
        }
    }

    /// The message with which the failure is reported.
    pub fn message(self) -> (message: String)
        ensures
            message@ == self.message_spec(),
    {
        match self {
            FactoryFailure::InvalidUri => "Failed to parse uri".to_owned(),
            FactoryFailure::ProfileNotFound => "Profile not found".to_owned(),
            FactoryFailure::MissingType => "Missing 'type' in profile".to_owned(),
            FactoryFailure::UnsupportedUri => "Unsupported URI".to_owned(),
        }
    }
}

/// The factory that builds an operator from the URI alone.
#[derive(Clone, Copy, Debug)]
pub struct DefaultOperatorFactory {}

impl DefaultOperatorFactory {
    pub fn new() -> DefaultOperatorFactory {
        DefaultOperatorFactory {}
    }
}

impl Default for DefaultOperatorFactory {
    fn default() -> DefaultOperatorFactory {
        DefaultOperatorFactory::new()
    }
}

/// The value stored under `key` in a list of pairs: that of the first pair
/// with this key.
pub open spec fn lookup<V>(pairs: Seq<(Seq<char>, V)>, key: Seq<char>) -> Option<V>
    decreases pairs.len(),
{
    if pairs.len() == 0 {
        None
    } else if pairs[0].0 == key {
        Some(pairs[0].1)
    } else {
        lookup(pairs.drop_first(), key)
    }
}

/// The texts of a list of options.
pub open spec fn option_texts(options: Seq<(String, String)>) -> Seq<(Seq<char>, Seq<char>)> {
    options.map_values(|pair: (String, String)| (pair.0@, pair.1@))
}

/// The texts of a list of profiles.
pub open spec fn profile_texts(profiles: Seq<(String, Vec<(String, String)>)>) -> Seq<
    (Seq<char>, Seq<(Seq<char>, Seq<char>)>),
> {
    profiles.map_values(
        |profile: (String, Vec<(String, String)>)| (profile.0@, option_texts(profile.1@)),
    )
}

/// The scheme of a URI, as the url crate parses it; `None` where the URI
/// does not parse.
pub uninterp spec fn uri_scheme(uri: Seq<char>) -> Option<Seq<char>>;

/// The text of a URI after the url crate was asked to set its scheme. Where
/// it refuses the new scheme, the URI keeps the old one.
pub uninterp spec fn uri_with_scheme(uri: Seq<char>, scheme: Seq<char>) -> Seq<char>;

/// Parses a URI and gives its scheme.
///
/// Wraps `Url::parse` and `Url::scheme` of the url crate.
#[verifier::external_body]
fn scheme_of(uri: &str) -> (scheme: Option<String>)
    ensures
        text_of(scheme) == uri_scheme(uri@),
{
    match Url::parse(uri) {
        Ok(url) => Some(url.scheme().to_string()),
        Err(_) => None,
    }
}

/// Replaces the scheme of a URI.
///
/// Wraps `Url::parse`, `Url::set_scheme` and `Url::as_str` of the url crate.
/// A scheme that the url crate refuses for this URI leaves the URI with the
/// scheme that it has.
#[verifier::external_body]
fn with_scheme(uri: &str, scheme: &str) -> (rewritten: String)
    requires
        uri_scheme(uri@) is Some,
    ensures
        rewritten@ == uri_with_scheme(uri@, scheme@),
{
    let mut url = Url::parse(uri).unwrap();
    let _ = url.set_scheme(scheme);
    url.as_str().to_string()
}

/// What an operator for a profiled URI is built from.
#[derive(Debug)]
pub struct ResolvedUri {
    /// The URI, with the profile's type as its scheme.
    pub uri: String,
    /// The options of the profile.
    pub options: Vec<(String, String)>,
}

/// The mathematical value of a `ResolvedUri`.
pub struct ResolvedUriView {
    pub uri: Seq<char>,
    pub options: Seq<(Seq<char>, Seq<char>)>,
}

impl View for ResolvedUri {
    type V = ResolvedUriView;

    open spec fn view(&self) -> ResolvedUriView {
        ResolvedUriView { uri: self.uri@, options: option_texts(self.options@) }
    }
}

/// What a profiled URI resolves to, given its scheme. The scheme names the
/// profile, the profile's `type` entry becomes the scheme, and the profile's
/// options go with it.
pub open spec fn resolution(
    profiles: Seq<(Seq<char>, Seq<(Seq<char>, Seq<char>)>)>,
    uri: Seq<char>,
) -> Result<ResolvedUriView, FactoryFailure> {
    match uri_scheme(uri) {
        None => Err(FactoryFailure::InvalidUri),
        Some(name) => match lookup(profiles, name) {
            None => Err(FactoryFailure::ProfileNotFound),
            Some(options) => match lookup(options, "type"@) {
                None => Err(FactoryFailure::MissingType),
                Some(scheme) => Ok(ResolvedUriView { uri: uri_with_scheme(uri, scheme), options }),
            },
        },
    }
}

/// The factory that looks the scheme of a URI up among named profiles.
pub struct ProfileOperatorFactory {
    profiles: Vec<(String, Vec<(String, String)>)>,
}

impl View for ProfileOperatorFactory {
    type V = Seq<(Seq<char>, Seq<(Seq<char>, Seq<char>)>)>;

    closed spec fn view(&self) -> Self::V {
        profile_texts(self.profiles@)
    }
}

/// Finds the options of the first profile named `name`.
fn find_profile<'a>(profiles: &'a Vec<(String, Vec<(String, String)>)>, name: &String) -> (found:
    Option<&'a Vec<(String, String)>>)
    ensures
        match found {
            Some(options) => lookup(profile_texts(profiles@), name@) == Some(
                option_texts(options@),
            ),
            None => lookup(profile_texts(profiles@), name@) is None,
        },
{
    let mut i: usize = 0;
    proof {
        assert(profile_texts(profiles@).skip(0) == profile_texts(profiles@));
    }
    while i < profiles.len()
        invariant
            i <= profiles.len(),
            lookup(profile_texts(profiles@), name@) == lookup(
                profile_texts(profiles@).skip(i as int),
                name@,
            ),
        decreases profiles.len() - i,
    {
        proof {
            let rest = profile_texts(profiles@).skip(i as int);
            assert(rest.drop_first() == profile_texts(profiles@).skip(i + 1));
        }
        if profiles[i].0 == *name {
            return Some(&profiles[i].1);
        }
        i += 1;
    }
    None
}

/// Finds the value of the first option named `key`.
fn find_option(options: &Vec<(String, String)>, key: &String) -> (found: Option<String>)
    ensures
        text_of(found) == lookup(option_texts(options@), key@),
{
    let mut i: usize = 0;
    proof {
        assert(option_texts(options@).skip(0) == option_texts(options@));
    }
    while i < options.len()
        invariant
            i <= options.len(),
            lookup(option_texts(options@), key@) == lookup(
                option_texts(options@).skip(i as int),
                key@,
            ),
        decreases options.len() - i,
    {
        proof {
            let rest = option_texts(options@).skip(i as int);
            assert(rest.drop_first() == option_texts(options@).skip(i + 1));
        }
        if options[i].0 == *key {
            return Some(options[i].1.clone());
        }
        i += 1;
    }
    None
}

/// A copy of a list of options.
fn copy_options(options: &Vec<(String, String)>) -> (copy: Vec<(String, String)>)
    ensures
        option_texts(copy@) == option_texts(options@),
{
    let mut copy: Vec<(String, String)> = Vec::new();
    let mut i: usize = 0;
    while i < options.len()
        invariant
            i <= options.len(),
            option_texts(copy@) == option_texts(options@).take(i as int),
        decreases options.len() - i,
    {
        copy.push((options[i].0.clone(), options[i].1.clone()));
        proof {
            assert(option_texts(options@).take(i + 1) == option_texts(options@).take(i as int).push(
                (options@[i as int].0@, options@[i as int].1@),
            ));
        }
        i += 1;
    }
    copy
}

impl ProfileOperatorFactory {
    /// A factory over the given profiles: pairs of a name and the options
    /// that go with it.
    pub fn new(profiles: Vec<(String, Vec<(String, String)>)>) -> (factory: ProfileOperatorFactory)
        ensures
            factory@ == profile_texts(profiles@),
    {
        ProfileOperatorFactory { profiles }
    }

    /// Resolves a URI whose scheme names a profile into what the operator is
    /// built from: the URI with the profile's type as its scheme, and the
    /// profile's options.
    pub fn resolve(&self, uri: &str) -> (resolved: Result<ResolvedUri, FactoryFailure>)
        ensures
            match resolved {
                Ok(found) => resolution(self@, uri@) == Ok::<ResolvedUriView, FactoryFailure>(
                    found@,
                ),
                Err(failure) => resolution(self@, uri@) == Err::<ResolvedUriView, FactoryFailure>(
                    failure,
                ),
            },
    {
        let name = match scheme_of(uri) {
            Some(name) => name,
            None => {
                return Err(FactoryFailure::InvalidUri);
            },
        };
        let options = match find_profile(&self.profiles, &name) {
            Some(options) => options,
            None => {
                return Err(FactoryFailure::ProfileNotFound);
            },
        };
        let scheme = match find_option(options, &"type".to_owned()) {
            Some(scheme) => scheme,
            None => {
                return Err(FactoryFailure::MissingType);
            },
        };
        Ok(ResolvedUri { uri: with_scheme(uri, scheme.as_str()), options: copy_options(options) })
    }
}

/// What a chain of providers does with the outcome of one of them.
#[derive(Clone, Copy, Debug, PartialEq, Eq, Structural)]
pub enum ChainVerdict {
    /// The outcome stands: the operator, or the error, is returned.
    Return,
    /// The provider does not support the URI: the next one is tried.
    TryNext,
}

/// The verdict on the outcome of one provider: `None` for an operator, the
/// kind of the error otherwise. Only `Unsupported` lets the chain go on.
pub open spec fn verdict_on(outcome: Option<ErrorKind>) -> ChainVerdict {
    if outcome == Some(ErrorKind::Unsupported) {
        ChainVerdict::TryNext
    } else {
        ChainVerdict::Return
    }
}

/// The index of the provider whose outcome a chain returns: the first that
/// is not `Unsupported`. `None` where every provider is `Unsupported`.
pub open spec fn first_decisive(outcomes: Seq<Option<ErrorKind>>) -> Option<int>
    decreases outcomes.len(),
{
    if outcomes.len() == 0 {
        None
    } else if verdict_on(outcomes[0]) == ChainVerdict::Return {
        Some(0int)
    } else {
        match first_decisive(outcomes.drop_first()) {
            Some(index) => Some(index + 1),
            None => None,
        }
    }
}

/// Decides what a chain does with the outcome of one provider.
pub fn chain_verdict(outcome: Option<ErrorKind>) -> (verdict: ChainVerdict)
    ensures
        verdict == verdict_on(outcome),
{
    match outcome {
        Some(ErrorKind::Unsupported) => ChainVerdict::TryNext,
        _ => ChainVerdict::Return,
    }
}

/// A chain returns the outcome of the first provider that does not answer
/// `Unsupported`: every provider before it was passed over, and none after it
/// is consulted.
pub proof fn lemma_chain_short_circuits(outcomes: Seq<Option<ErrorKind>>)
    ensures
        match first_decisive(outcomes) {
            Some(index) => 0 <= index < outcomes.len() && verdict_on(outcomes[index])
                == ChainVerdict::Return && forall|i: int|
                0 <= i < index ==> verdict_on(#[trigger] outcomes[i]) == ChainVerdict::TryNext,
            None => forall|i: int|
                0 <= i < outcomes.len() ==> verdict_on(#[trigger] outcomes[i])
                    == ChainVerdict::TryNext,
        },
    decreases outcomes.len(),
{
    if outcomes.len() > 0 && verdict_on(outcomes[0]) != ChainVerdict::Return {
        let rest = outcomes.drop_first();
        lemma_chain_short_circuits(rest);
        match first_decisive(rest) {
            Some(index) => {
                assert forall|i: int| 0 <= i < index + 1 implies verdict_on(#[trigger] outcomes[i])
                    == ChainVerdict::TryNext by {
                    if i > 0 {
                        assert(outcomes[i] == rest[i - 1]);
                    }
                }
            },
            None => {
                assert forall|i: int| 0 <= i < outcomes.len() implies verdict_on(
                    #[trigger] outcomes[i],
                ) == ChainVerdict::TryNext by {
                    if i > 0 {
                        assert(outcomes[i] == rest[i - 1]);
                    }
                }
            },
        }
    }
}

} // verus!
