//! Errors as the API reports them, and the errors of the service layer that
//! they come from.

use vstd::prelude::*;
use vstd::std_specs::convert::FromSpecImpl;
use crate::auth::error::{AuthError, auth_error_text};
use crate::repository::error::{DBError, db_error_text};

verus! {

/// What can go wrong in the service layer.
#[derive(Debug, PartialEq, Eq)]
pub enum ServiceError {
    /// An internal failure, with its message.
    InternalServerError(String),
    Unauthorized,
    /// No user has this email.
    UserNotFound(String),
    PasswordDoesntMatch,
    /// A user with this email is already registered.
    UserEmailAlreadyExistsError(String),
}

impl ServiceError {
    /// The service error that a storage error is reported as: a taken email
    /// stays visible to the caller; anything else is an internal failure
    /// with the storage error's message.
    pub fn from_db_error(e: DBError) -> (r: ServiceError)
        ensures
            e matches DBError::UserEmailAlreadyExistsError(email) ==> r == ServiceError::UserEmailAlreadyExistsError(
                email,
            ),
            !(e is UserEmailAlreadyExistsError) ==> (r matches ServiceError::InternalServerError(m) && m@
                == db_error_text(e)),
    {
        match e {
            DBError::UserEmailAlreadyExistsError(email) => ServiceError::UserEmailAlreadyExistsError(email),
            other => ServiceError::InternalServerError(other.to_text()),
        }
    }

    /// The service error that an authentication error is reported as: a
    /// missing or invalid token is unauthorized, a wrong password does not
    /// match, and anything else is an internal failure with the error's
    /// message.
    pub fn from_auth_error(e: AuthError) -> (r: ServiceError)
        ensures
            e is MissingAuthToken || e is ClaimsDecodeError ==> r == ServiceError::Unauthorized,
            e is PasswordVerificationFailed ==> r == ServiceError::PasswordDoesntMatch,
            !(e is MissingAuthToken || e is ClaimsDecodeError || e is PasswordVerificationFailed) ==> (r matches ServiceError::InternalServerError(
                m,
            ) && m@ == auth_error_text(e)),
    {
        match e {
            AuthError::MissingAuthToken => ServiceError::Unauthorized,
            AuthError::ClaimsDecodeError => ServiceError::Unauthorized,
            AuthError::PasswordVerificationFailed => ServiceError::PasswordDoesntMatch,
            other => ServiceError::InternalServerError(other.to_text()),
        }
    }
}

/// An error as the API reports it.
#[derive(Debug, PartialEq, Eq)]
pub enum ApiError {
    /// An internal failure, logged and not shown to the client.
    InternalServerError(String),
    BadRequest(String),
    Unauthorized,
    UserNotFound,
    UserAlreadyRegistered,
}

/// The API error that a service error is reported as. An unknown email and
/// a wrong password are reported alike.
pub open spec fn api_error_of(e: ServiceError) -> ApiError {
    match e {
        ServiceError::InternalServerError(err) => ApiError::InternalServerError(err),
        ServiceError::Unauthorized => ApiError::Unauthorized,
        ServiceError::UserNotFound(_) => ApiError::UserNotFound,
        ServiceError::PasswordDoesntMatch => ApiError::UserNotFound,
        ServiceError::UserEmailAlreadyExistsError(_) => ApiError::UserAlreadyRegistered,
    }
}

impl From<ServiceError> for ApiError {
    fn from(service_error: ServiceError) -> (e: Self) {
        match service_error {
            ServiceError::InternalServerError(err) => ApiError::InternalServerError(err),
            ServiceError::Unauthorized => ApiError::Unauthorized,
            ServiceError::UserNotFound(_) => ApiError::UserNotFound,
            ServiceError::PasswordDoesntMatch => ApiError::UserNotFound,
            ServiceError::UserEmailAlreadyExistsError(_) => ApiError::UserAlreadyRegistered,
        }
    }
}

impl FromSpecImpl<ServiceError> for ApiError {
    open spec fn obeys_from_spec() -> bool {
        true
    }

    open spec fn from_spec(v: ServiceError) -> ApiError {
        api_error_of(v)
    }
}

/// The message of each API error.
pub open spec fn api_error_text(e: ApiError) -> Seq<char> {
    match e {
        ApiError::InternalServerError(s) => s@,
        ApiError::BadRequest(s) => "Bad request "@ + s@,
        ApiError::Unauthorized => "Unauthorized"@,
        ApiError::UserNotFound => "Email/password doesn't match"@,
        ApiError::UserAlreadyRegistered => "User already registered"@,
    }
}

/// The status, error code and description of the response for an error.
pub struct ErrorResponse {
    pub status: u16,
    pub error_code: String,
    pub description: String,
}

/// The HTTP status of the response for each error.
pub open spec fn api_error_status(e: ApiError) -> u16 {
    match e {
        ApiError::InternalServerError(_) => 500,
        ApiError::BadRequest(_) => 400,
        ApiError::Unauthorized => 401,
        ApiError::UserNotFound => 401,
        ApiError::UserAlreadyRegistered => 409,
    }
}

/// The error code of the response for each error.
pub open spec fn api_error_code(e: ApiError) -> Seq<char> {
    match e {
        ApiError::InternalServerError(_) => "INTERNAL_SERVER_ERROR"@,
        ApiError::BadRequest(_) => "BAD_REQUEST"@,
        ApiError::Unauthorized => "UNAUTHORIZED"@,
        ApiError::UserNotFound => "USER_NOT_FOUND"@,
        ApiError::UserAlreadyRegistered => "CONFLICT"@,
    }
}

/// The description of the response for each error: its message, except
/// for internal failures, whose details stay hidden.
pub open spec fn api_error_description(e: ApiError) -> Seq<char> {
    match e {
        ApiError::InternalServerError(_) => "Internal server error"@,
        _ => api_error_text(e),
    }
}

impl ApiError {
    /// The error's message.
    pub fn to_text(&self) -> (t: String)
        ensures
            t@ == api_error_text(*self),
    {
        match self {
            ApiError::InternalServerError(s) => s.clone(),
            ApiError::BadRequest(s) => {
                let mut t = "Bad request ".to_owned();
                t.append(s.as_str());
                t
            },
            ApiError::Unauthorized => "Unauthorized".to_owned(),
            ApiError::UserNotFound => "Email/password doesn't match".to_owned(),
            ApiError::UserAlreadyRegistered => "User already registered".to_owned(),
        }
    }

    /// Whether the error is an internal failure, which is logged.
    pub fn is_internal(&self) -> (b: bool)
        ensures
            b == (*self is InternalServerError),
    {
        match self {
            ApiError::InternalServerError(_) => true,
            _ => false,
        }
    }

    /// The status, error code and description of the response for the error.
    pub fn response_parts(&self) -> (r: ErrorResponse)
        ensures
            r.status == api_error_status(*self),
            r.error_code@ == api_error_code(*self),
            r.description@ == api_error_description(*self),
    {
        match self {
            ApiError::InternalServerError(_) => ErrorResponse {
                status: 500,
                error_code: "INTERNAL_SERVER_ERROR".to_owned(),
                description: "Internal server error".to_owned(),
            },
            ApiError::BadRequest(_) => ErrorResponse {
                status: 400,
                error_code: "BAD_REQUEST".to_owned(),
                description: self.to_text(),
            },
            ApiError::Unauthorized => ErrorResponse {
                status: 401,
                error_code: "UNAUTHORIZED".to_owned(),
                description: self.to_text(),
            },
            ApiError::UserNotFound => ErrorResponse {
                status: 401,
                error_code: "USER_NOT_FOUND".to_owned(),
                description: self.to_text(),
            },
            ApiError::UserAlreadyRegistered => ErrorResponse {
                status: 409,
                error_code: "CONFLICT".to_owned(),
                description: self.to_text(),
            },
        }
    }
}

/// A response never shows the details of an internal failure, and every
/// error that the client caused gets a status in the 4xx range.
pub proof fn lemma_responses_hide_internal_details(e: ApiError)
    ensures
        e is InternalServerError ==> api_error_description(e) == "Internal server error"@ && api_error_status(e)
            == 500,
        !(e is InternalServerError) ==> 400 <= api_error_status(e) < 500,
{
}

/// An unknown email and a wrong password are reported identically.
pub proof fn lemma_login_failures_indistinguishable(email: String)
    ensures
        api_error_of(ServiceError::UserNotFound(email)) == api_error_of(ServiceError::PasswordDoesntMatch),
{
}

} // verus!
