//! The one error of the library.

use vstd::prelude::*;
use vstd::std_specs::convert::FromSpecImpl;

verus! {

/// `reqwest::Error`: what the HTTP client reports when a request cannot be
/// sent, a response carries an error status, or a body cannot be read.
/// Nothing inside it is visible to the proofs; it is only carried and dropped.
#[verifier::external_type_specification]
#[verifier::external_body]
pub struct ExReqwestError(reqwest::Error);

/// A fetch failed: the transport could not connect, timed out, or the server
/// answered with a status outside 200..=299. It carries no detail.
#[derive(Debug, Clone, Copy, PartialEq, Eq, Structural)]
pub struct NetworkError;

impl From<reqwest::Error> for NetworkError {
    /// Every failure of the HTTP client is the same `NetworkError`, so that
    /// `?` can be used on the client's results.
    fn from(e: reqwest::Error) -> (r: NetworkError) {
        NetworkError
    }
}

impl FromSpecImpl<reqwest::Error> for NetworkError {
    open spec fn obeys_from_spec() -> bool {
        true
    }

    open spec fn from_spec(e: reqwest::Error) -> NetworkError {
        NetworkError
    }
}

} // verus!
