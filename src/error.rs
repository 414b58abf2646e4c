use vstd::prelude::*;

verus! {

/// Why an operation against the portal was abandoned.
#[derive(Debug, Clone, Copy, PartialEq, Eq, Structural)]
pub enum ApiError {
    /// The transport failed (connection, DNS, TLS, reading the body).
    NetworkError,
    /// No element that carries the anti-forgery token was found in the page.
    TokenNotFound,
    /// The token element was found but lacks the attribute holding the token.
    TokenAttributeMissing,
    /// The condition label is not one of `best`, `good`, `normal`, `bad`.
    InvalidCondition,
}

} // verus!
