//! Errors surfaced by token acquisition. All of them abort the in-flight
//! operation immediately and propagate to the caller; none is swallowed or
//! downgraded to a placeholder token.

use vstd::prelude::*;

verus! {

/// Why a token-fetch attempt failed.
#[derive(Debug)]
pub enum Error {
    /// The network call to the endpoint could not be completed
    /// (connection failure, timeout). Carries a description of the failure.
    TransportError(String),
    /// The authorization endpoint replied with a status other than success.
    /// Carries the status code and the raw response body for diagnostics.
    UnexpectedStatusError(u16, String),
    /// A success response body could not be parsed into the expected
    /// `{access_token, expires_in}` shape. Carries the raw body.
    DecodeError(String),
}

} // verus!
