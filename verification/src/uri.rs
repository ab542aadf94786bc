//! URIs of WebSocket endpoints, as the `http` crate reads them.
//!
//! Parsing a URI is left to `http::Uri`. The library keeps the components
//! that come out of it as plain texts.

use vstd::prelude::*;

verus! {

/// The error `http` gives for a text that is no URI.
#[verifier::external_type_specification]
#[verifier::external_body]
pub struct ExInvalidUri(http::uri::InvalidUri);

/// The components of a URI, each as it was written.
#[derive(Clone, Debug, PartialEq, Eq, Hash)]
pub struct ParsedUri {
    /// The scheme, without `://`.
    pub scheme: Option<String>,
    /// Host and port, with user information where it was given.
    pub authority: Option<String>,
    /// The path and, behind `?`, the query.
    pub path_and_query: Option<String>,
}

/// Mathematical value of a `ParsedUri`.
pub struct UriModel {
    pub scheme: Option<Seq<char>>,
    pub authority: Option<Seq<char>>,
    pub path_and_query: Option<Seq<char>>,
}

/// The characters of an optional text.
pub open spec fn text_of(s: Option<String>) -> Option<Seq<char>> {
    match s {
        Some(t) => Some(t@),
        None => None,
    }
}

impl View for ParsedUri {
    type V = UriModel;

    open spec fn view(&self) -> UriModel {
        UriModel {
            scheme: text_of(self.scheme),
            authority: text_of(self.authority),
            path_and_query: text_of(self.path_and_query),
        }
    }
}

/// The components that `http::Uri` finds in a text, or `None` where it
/// rejects the text. The grammar is that of the `http` crate and is not
/// restated here.
pub uninterp spec fn uri_components(text: Seq<char>) -> Option<UriModel>;

/// Parses `text` with `http::Uri::try_from` and copies out what
/// `Uri::scheme_str`, `Uri::authority` and `Uri::path_and_query` return.
///
/// Trusted: the contract only names the outcome. It claims that the outcome
/// depends on nothing but the characters of `text`, and that a rejected text
/// yields the error of `http`.
#[verifier::external_body]
pub(crate) fn parse_uri(text: &str) -> (r: Result<ParsedUri, http::uri::InvalidUri>)
    ensures
        r is Ok <==> uri_components(text@) is Some,
        r matches Ok(u) ==> uri_components(text@) == Some(u@),
{
    let uri = http::Uri::try_from(text)?;
    Ok(
        ParsedUri {
            scheme: uri.scheme_str().map(str::to_owned),
            authority: uri.authority().map(http::uri::Authority::as_str).map(str::to_owned),
            path_and_query: uri.path_and_query().map(http::uri::PathAndQuery::as_str).map(
                str::to_owned,
            ),
        },
    )
}

/// The reason `http` gives for rejecting a text, from the error's `Display`.
///
/// Trusted: nothing is claimed of the text returned.
#[verifier::external_body]
pub(crate) fn invalid_uri_reason(error: &http::uri::InvalidUri) -> String {
    error.to_string()
}

} // verus!
