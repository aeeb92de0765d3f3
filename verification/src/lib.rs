//! A minimal abstraction for supplying and refreshing bearer-style access
//! credentials. A caller stays agnostic to how credentials are obtained: it
//! asks a provider for the current credential and, when the provider signals
//! that a refresh is needed, invokes the refresh operation, which yields a
//! fresh token or a typed failure.

use vstd::prelude::*;

pub mod auth;

verus! {

/// The fatal error produced by a provider that does not support refreshing:
/// the held token is all it will ever have. It is not a transient condition
/// and must not be retried.
#[derive(Debug, Clone, PartialEq, Eq, Structural)]
pub struct AccessTokenExpired;

impl AccessTokenExpired {
    /// A human-readable description of this error.
    pub fn message(&self) -> (r: &'static str)
        ensures
            r@ == "access token expired and this provider does not support refreshing"@,
    {
        "access token expired and this provider does not support refreshing"
    }
}

} // verus!
