//! Failure kinds of an authentication flow.
use vstd::prelude::*;

verus! {

#[verifier::external_type_specification]
#[verifier::external_body]
pub struct ExParseError(url::ParseError);

#[verifier::external_type_specification]
#[verifier::external_body]
pub struct ExInvalidHeaderName(http::header::InvalidHeaderName);

#[verifier::external_type_specification]
#[verifier::external_body]
pub struct ExInvalidHeaderValue(http::header::InvalidHeaderValue);

/// Why a flow could not be started, or how it ended without a redirect URL.
#[derive(Debug)]
#[non_exhaustive]
pub enum Error {
    /// The system authentication session reported a failure; holds its
    /// description.
    Darwin(String),
    /// The session signalled completion without a usable URL.
    NoUrlInResponse,
    /// The callback scheme matched but the navigated URL does not parse.
    InvalidUrlInResponse(url::ParseError),
    /// The flow was cancelled, or its result channel was dropped unused.
    Aborted,
    /// The flow was started off the UI thread.
    NeedsToRunOnMainThread,
    /// The embedded web surface could not be built; holds the reason.
    Wry(String),
    /// An extra header field has a name that is not an HTTP token.
    InvalidHeaderName(http::header::InvalidHeaderName),
    /// An extra header field has a value with a forbidden byte.
    InvalidHeaderValue(http::header::InvalidHeaderValue),
}

} // verus!
