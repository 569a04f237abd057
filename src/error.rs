use vstd::prelude::*;

verus! {

/// Everything that can go wrong while discovering an issuer or verifying
/// one of its tokens. Variants that carry a `String` hold the message of the
/// underlying failure.
#[derive(Debug, Clone)]
pub enum OidcError {
    /// The discovery document names another issuer than the one requested.
    IssuerMismatch,
    /// The token failed signature verification or could not be decoded.
    ValidationError,
    /// The key set holds no key.
    NoRemoteKeys,
    /// The selected key is not an RSA key.
    InvalidRemoteKeys,
    /// The HTTP request failed or returned a non-success status.
    Reqwest(String),
    /// A response body is not JSON of the expected shape.
    Serde(String),
    /// A configuration field is not a valid URL.
    InvalidUrl(String),
    /// The token codec refused the token.
    JwtError(String),
    /// A registered claim failed validation.
    JwtValidation(String),
    /// A key-set refresh failed.
    RemoteGet(String),
}

} // verus!
