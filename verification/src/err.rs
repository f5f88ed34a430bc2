//! The error taxonomy of the crate.
//!
//! Every failure of a query is surfaced to the caller as one of these kinds;
//! callers can branch on the kind without inspecting error text. The
//! distinction between `NotFound` and `UnexpectedStatus` matters because
//! racetime.gg serves its generic, user-facing 404 page (not JSON) for
//! unknown resources.

use vstd::prelude::*;

verus! {

/// Outside type: `url::ParseError`, the error of `url::Url::parse` and
/// `url::Url::join`.
#[verifier::external_type_specification]
#[verifier::external_body]
pub struct ExUrlParseError(url::ParseError);

/// Outside type: `serde_json::Error`, the error of `serde_json::from_slice`.
#[verifier::external_type_specification]
#[verifier::external_body]
pub struct ExJsonError(serde_json::Error);

/// Outside type: `serde_urlencoded::ser::Error`, the error of
/// `serde_urlencoded::to_string`.
#[verifier::external_type_specification]
#[verifier::external_body]
pub struct ExUrlencodedSerError(serde_urlencoded::ser::Error);

/// Outside type: `reqwest::Error`, the error of the HTTP transport.
#[verifier::external_type_specification]
#[verifier::external_body]
pub struct ExReqwestError(reqwest::Error);

/// Outside type: `http::Error`, the error of assembling an `http::Response`.
#[verifier::external_type_specification]
#[verifier::external_body]
pub struct ExHttpError(http::Error);

/// Everything that can go wrong while querying the API.
#[derive(Debug)]
pub enum RacetimeError {
    /// Transport-level failure: connection, timeout, TLS or protocol error.
    ReqwestError(reqwest::Error),
    /// An endpoint's relative path could not be joined into a valid URL.
    ParseError(url::ParseError),
    /// racetime.gg appears to have their API behind their normal webserver,
    /// so 404s return the _generic, user-facing_ 404 page.
    NotFound,
    /// Any non-404 error status; the body is discarded.
    UnexpectedStatus(u16),
    /// An HTTP response value could not be assembled.
    HttpError(http::Error),
    /// The JSON body does not match the requested target type.
    DeserializationError(serde_json::Error),
    /// The query parameters could not be URL-encoded.
    ParameterSerializationError(serde_urlencoded::ser::Error),
}

} // verus!
