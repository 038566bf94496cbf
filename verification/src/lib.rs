//! Verification of OpenID-Connect identity tokens issued to CI workloads.
//!
//! A token is accepted when it is a well-formed compact token, names a key of
//! the issuer's published key set, carries a valid RS256 signature of that
//! key, is within its validity period, is addressed to the expected audience
//! and comes from the expected organization and repository.
pub mod bindings;
pub mod claims;
pub mod error;
pub mod guarantees;
pub mod json;
pub mod keys;
pub mod token;
pub mod verify;
