//! Errors the client-side helpers report.

use vstd::prelude::*;

verus! {

/// A client-side failure.
#[derive(Debug, PartialEq, Eq)]
pub enum ClientError {
    /// The network could not be reached or answered improperly.
    NetworkError(String),
    /// A response could not be interpreted.
    MalformedResponse(String),
    /// Signing material was rejected.
    IncorrectCredentials,
    /// The token is not known to the rollup.
    UnknownToken,
    /// The wallet holds no base-chain private key.
    NoEthereumPrivateKey,
    /// The value cannot be represented in the packed fee encoding.
    NotPackableValue,
    /// A required field was not set before sending.
    MissingRequiredField(String),
}

} // verus!
