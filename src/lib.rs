//! OpenID Connect token verification: issuer discovery, a single-flight
//! cache of the issuer's signing keys, and token verification against it.
//!
//! Network I/O stays with the caller: the functions here take what was
//! fetched and decide what happens next.
pub mod claims;
pub mod error;
pub mod keys;
pub mod provider;
pub mod token;
pub mod urls;
