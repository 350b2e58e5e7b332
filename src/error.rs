//! Failure categories of authentication and authorization.
use vstd::prelude::*;

verus! {

/// Why an authentication-related operation failed.
#[derive(Clone, Copy, Debug, PartialEq, Eq, Structural)]
pub enum AuthError {
    /// Bad credentials at login (unknown user or wrong password).
    AuthenticationFailed,
    /// Wrong old password on a password change.
    AuthorizationFailed,
    /// Missing, malformed, expired or badly signed session token.
    Unauthorized,
    /// No account with the given username.
    NotFound,
    /// The credential store could not be reached.
    StoreUnavailable,
    /// Hashing, verification or token signing failed; the caller may retry.
    OperationFailed,
}

/// The HTTP status that reports each failure category.
pub open spec fn status_of(e: AuthError) -> u16 {
    match e {
        AuthError::AuthenticationFailed => 401,
        AuthError::AuthorizationFailed => 403,
        AuthError::Unauthorized => 401,
        AuthError::NotFound => 404,
        AuthError::StoreUnavailable => 500,
        AuthError::OperationFailed => 500,
    }
}

impl AuthError {
    /// The HTTP status code for this failure.
    pub fn status_code(&self) -> (r: u16)
        ensures
            r == status_of(*self),
    {
        match self {
            AuthError::AuthenticationFailed => 401,
            AuthError::AuthorizationFailed => 403,
            AuthError::Unauthorized => 401,
            AuthError::NotFound => 404,
            AuthError::StoreUnavailable => 500,
            AuthError::OperationFailed => 500,
        }
    }
}

} // verus!
