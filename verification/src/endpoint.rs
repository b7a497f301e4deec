//! The address at which a client finds the relay.

use url::{ParseError, Url};
use vstd::prelude::*;

verus! {

/// The error type of the `url` crate's parser. Nothing is known of a value of
/// it here; it is carried to the caller, who can print it.
#[verifier::external_type_specification]
#[verifier::external_body]
pub struct ExUrlParseError(ParseError);

/// What `url::Url::parse` makes of `input`: the serialization of the URL that
/// it parsed, or `None` where it returns an error. The parser follows the URL
/// Standard and looks at nothing but its input.
pub uninterp spec fn url_serialization(input: Seq<char>) -> Option<Seq<char>>;

/// Parses `input` with `url::Url::parse` and hands back the serialization of
/// the URL, which is the text that `Url` holds and displays.
///
/// Trusted: that the result is the one value that the parser gives for this
/// input. Nothing is claimed about which inputs parse, nor about what the
/// serialization of one looks like.
#[verifier::external_body]
fn parse_url(input: &str) -> (parsed: Result<String, ParseError>)
    ensures
        match parsed {
            Ok(text) => url_serialization(input@) == Some(text@),
            Err(_) => url_serialization(input@).is_none(),
        },
{
    match Url::parse(input) {
        Ok(url) => Ok(String::from(url)),
        Err(cause) => Err(cause),
    }
}

/// Why a text is not the address of a relay.
#[derive(PartialEq, Eq, Debug)]
pub enum EndpointError {
    /// The text is not an absolute URL; the parser's own error says why.
    NotAUrl(ParseError),
}

/// The mathematical value of an [`Endpoint`].
pub struct EndpointView {
    /// The address as it was given.
    pub given: Seq<char>,
    /// The address as the URL parser writes it.
    pub normalized: Seq<char>,
}

/// The address of a relay: a text that parses as an absolute URL.
#[derive(PartialEq, Eq, Debug)]
pub struct Endpoint {
    given: String,
    normalized: String,
}

impl View for Endpoint {
    type V = EndpointView;

    closed spec fn view(&self) -> EndpointView {
        EndpointView { given: self.given@, normalized: self.normalized@ }
    }
}

impl Endpoint {
    /// The endpoint that `input` names, if `input` parses as an absolute URL.
    pub fn parse(input: &str) -> (r: Result<Endpoint, EndpointError>)
        ensures
            match r {
                Ok(endpoint) => endpoint@.given == input@ && url_serialization(input@) == Some(
                    endpoint@.normalized,
                ),
                Err(_) => url_serialization(input@).is_none(),
            },
    {
        Endpoint::from_parsed(input, parse_url(input))
    }

    /// The endpoint for `input`, given what the URL parser made of `input`:
    /// an endpoint with the parser's serialization if it parsed, and the
    /// parser's error if it did not.
    pub fn from_parsed(input: &str, parsed: Result<String, ParseError>) -> (r: Result<
        Endpoint,
        EndpointError,
    >)
        ensures
            match parsed {
                Ok(text) => r matches Ok(endpoint) && endpoint@ == (EndpointView {
                    given: input@,
                    normalized: text@,
                }),
                Err(cause) => r matches Err(EndpointError::NotAUrl(c)) && c == cause,
            },
    {
        match parsed {
            Ok(normalized) => Ok(Endpoint { given: input.to_owned(), normalized }),
            Err(cause) => Err(EndpointError::NotAUrl(cause)),
        }
    }

    /// The address as it was given; this is what a client connects to.
    pub fn as_str(&self) -> (s: &str)
        ensures
            s@ == self@.given,
    {
        self.given.as_str()
    }

    /// The address as the URL parser writes it, for display.
    pub fn normalized(&self) -> (s: &str)
        ensures
            s@ == self@.normalized,
    {
        self.normalized.as_str()
    }
}

} // verus!
