//! Absolute URLs, parsed and resolved by the `url` crate and kept in serialized form;
//! the `http` crate says which of them a request can be sent to.

use crate::error::{CmdError, Failure};
use vstd::prelude::*;

verus! {

/// The error type of the `url` crate.
#[verifier::external_type_specification]
#[verifier::external_body]
pub struct ExParseError(url::ParseError);

/// The serialization of the URL that `url::Url::parse` makes of `text`, where it
/// accepts `text`.
pub uninterp spec fn url_parse(text: Seq<char>) -> Option<Seq<char>>;

/// The serialization of the URL that `url::Url::join` makes of `reference` against the
/// URL parsed from `base`, where both are accepted.
pub uninterp spec fn url_join(base: Seq<char>, reference: Seq<char>) -> Option<Seq<char>>;

/// Whether `http::Uri::try_from` takes `text` as a URI.
pub uninterp spec fn uri_accepted(text: Seq<char>) -> bool;

/// Calls `http::Uri::try_from` and tells whether it gave a URI. The contract only names
/// the outcome: `uri_accepted` of the text.
#[verifier::external_body]
fn accepts_uri(text: &str) -> (accepted: bool)
    ensures
        accepted == uri_accepted(text@),
{
    http::Uri::try_from(text).is_ok()
}

/// Why a text is no URL that can be used.
#[derive(Debug, PartialEq, Eq)]
pub enum UrlError {
    /// The `url` crate could not parse or resolve it.
    Parse(url::ParseError),
    /// The `http` crate does not take it as the target of a request.
    Target,
}

/// Calls `url::Url::parse` and hands back the serialization of the URL it made. The
/// contract only names the outcome: `url_parse` of the text.
#[verifier::external_body]
fn parse_text(text: &str) -> (parsed: Result<String, url::ParseError>)
    ensures
        match parsed {
            Ok(s) => url_parse(text@) == Some(s@),
            Err(_) => url_parse(text@) is None,
        },
{
    url::Url::parse(text).map(String::from)
}

/// Calls `url::Url::join` on the URL that `base` serializes, and hands back the
/// serialization of the result. The contract only names the outcome: `url_join` of
/// the two texts.
#[verifier::external_body]
fn join_text(base: &str, reference: &str) -> (joined: Result<String, url::ParseError>)
    ensures
        match joined {
            Ok(s) => url_join(base@, reference@) == Some(s@),
            Err(_) => url_join(base@, reference@) is None,
        },
{
    url::Url::parse(base)?.join(reference).map(String::from)
}

/// An absolute URL in its serialized form.
#[derive(Debug, PartialEq, Eq)]
pub struct Url {
    text: String,
}

impl View for Url {
    type V = Seq<char>;

    closed spec fn view(&self) -> Seq<char> {
        self.text@
    }
}

/// What parsing `text` gives: the URL's serialization, or the failure to parse.
pub open spec fn spec_parse(text: Seq<char>) -> Result<Seq<char>, Failure> {
    match url_parse(text) {
        Some(s) => Ok(s),
        None => Err(Failure::InvalidUrl),
    }
}

/// What resolving `reference` against `base` gives.
pub open spec fn spec_join(base: Seq<char>, reference: Seq<char>) -> Result<
    Seq<char>,
    Failure,
> {
    match url_join(base, reference) {
        Some(s) => Ok(s),
        None => Err(Failure::InvalidUrl),
    }
}

impl Url {
    /// Parses an absolute URL.
    pub fn parse(text: &str) -> (parsed: Result<Url, CmdError>)
        ensures
            match parsed {
                Ok(u) => spec_parse(text@) == Ok::<Seq<char>, Failure>(u@),
                Err(e) => spec_parse(text@) == Err::<Seq<char>, Failure>(e@),
            },
    {
        match parse_text(text) {
            Ok(text) => Ok(Url { text }),
            Err(e) => Err(CmdError::InvalidUrl(UrlError::Parse(e))),
        }
    }

    /// Resolves `reference` against this URL.
    pub fn join(&self, reference: &str) -> (joined: Result<Url, CmdError>)
        ensures
            match joined {
                Ok(u) => spec_join(self@, reference@) == Ok::<Seq<char>, Failure>(u@),
                Err(e) => spec_join(self@, reference@) == Err::<Seq<char>, Failure>(
                    e@,
                ),
            },
    {
        match join_text(self.text.as_str(), reference) {
            Ok(text) => Ok(Url { text }),
            Err(e) => Err(CmdError::InvalidUrl(UrlError::Parse(e))),
        }
    }

    /// Whether a request can be sent to this URL.
    pub fn is_request_target(&self) -> (accepted: bool)
        ensures
            accepted == uri_accepted(self@),
    {
        accepts_uri(self.text.as_str())
    }

    /// The serialization of this URL.
    pub fn as_str(&self) -> (text: &str)
        ensures
            text@ == self@,
    {
        self.text.as_str()
    }

    /// The serialization of this URL, owned.
    pub fn into_string(self) -> (text: String)
        ensures
            text@ == self@,
    {
        self.text
    }

    /// Whether two URLs have the same serialization.
    pub fn same_as(&self, other: &Url) -> (same: bool)
        ensures
            same == (self@ == other@),
    {
        self.text == other.text
    }

    /// Whether `text` is the serialization of this URL.
    pub fn is_text(&self, text: &str) -> (same: bool)
        ensures
            same == (self@ == text@),
    {
        self.text == text.to_owned()
    }

    /// A copy of this URL.
    pub fn duplicate(&self) -> (copy: Url)
        ensures
            copy@ == self@,
    {
        Url { text: self.text.clone() }
    }
}

} // verus!
