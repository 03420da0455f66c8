//! Validity of URI texts, as decided by the `http` crate's parsers.
use vstd::prelude::*;

verus! {

#[verifier::external_type_specification]
#[verifier::external_body]
pub struct ExAuthority(axum::http::uri::Authority);

#[verifier::external_type_specification]
#[verifier::external_body]
pub struct ExUri(axum::http::Uri);

#[verifier::external_type_specification]
#[verifier::external_body]
pub struct ExInvalidUri(axum::http::uri::InvalidUri);

/// Whether the `http` crate accepts the text as a URI authority (`host[:port]`).
pub uninterp spec fn authority_valid(s: Seq<char>) -> bool;

/// Whether the `http` crate accepts the text as a URI.
pub uninterp spec fn uri_valid(s: Seq<char>) -> bool;

/// Relies on `http::uri::Authority::from_str`: success depends on the text
/// alone, and an empty text is refused.
#[verifier::external_body]
pub(crate) fn parse_authority(s: &str) -> (r: Result<axum::http::uri::Authority, axum::http::uri::InvalidUri>)
    ensures
        r is Ok <==> authority_valid(s@),
        s@.len() == 0 ==> r is Err,
{
    s.parse::<axum::http::uri::Authority>()
}

/// Relies on `http::Uri::from_str`: success depends on the text alone.
#[verifier::external_body]
pub(crate) fn parse_uri(s: &str) -> (r: Result<axum::http::Uri, axum::http::uri::InvalidUri>)
    ensures
        r is Ok <==> uri_valid(s@),
{
    s.parse::<axum::http::Uri>()
}

} // verus!
