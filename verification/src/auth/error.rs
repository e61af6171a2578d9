//! Errors of authentication.

use vstd::prelude::*;

verus! {

/// What can go wrong when authenticating a user.
#[derive(Debug, PartialEq, Eq)]
pub enum AuthError {
    MissingAuthToken,
    ClaimsEncodeError(String),
    ClaimsDecodeError,
    PasswordTaskFailed(String),
    PasswordHashingFailed(String),
    PasswordParsingFailed(String),
    PasswordVerificationFailed,
}

/// The message of each error.
pub open spec fn auth_error_text(e: AuthError) -> Seq<char> {
    match e {
        AuthError::MissingAuthToken => "Missing auth token"@,
        AuthError::ClaimsEncodeError(s) => "Claims encoding failed: "@ + s@,
        AuthError::ClaimsDecodeError => "Claims token is invalid"@,
        AuthError::PasswordTaskFailed(s) => "Password task failed: "@ + s@,
        AuthError::PasswordHashingFailed(s) => "Password hashing failed: "@ + s@,
        AuthError::PasswordParsingFailed(s) => "Password parsing failed: "@ + s@,
        AuthError::PasswordVerificationFailed => "Password verification failed"@,
    }
}

/// `prefix` followed by `detail`.
fn prefixed(prefix: &str, detail: &String) -> (t: String)
    ensures
        t@ == prefix@ + detail@,
{
    let mut t = prefix.to_owned();
    t.append(detail.as_str());
    t
}

impl AuthError {
    /// The error's message.
    pub fn to_text(&self) -> (t: String)
        ensures
            t@ == auth_error_text(*self),
    {
        match self {
            AuthError::MissingAuthToken => "Missing auth token".to_owned(),
            AuthError::ClaimsEncodeError(s) => prefixed("Claims encoding failed: ", s),
            AuthError::ClaimsDecodeError => "Claims token is invalid".to_owned(),
            AuthError::PasswordTaskFailed(s) => prefixed("Password task failed: ", s),
            AuthError::PasswordHashingFailed(s) => prefixed("Password hashing failed: ", s),
            AuthError::PasswordParsingFailed(s) => prefixed("Password parsing failed: ", s),
            AuthError::PasswordVerificationFailed => "Password verification failed".to_owned(),
        }
    }
}

} // verus!
