use portfolio_tracker_backend::api::error::{ApiError, ServiceError};
use portfolio_tracker_backend::api::model::{LoginRequest, RegisterRequest, TokenResponse};
use portfolio_tracker_backend::appconfig::default_false;
use portfolio_tracker_backend::auth::password::{hash_password, verify_password};
use portfolio_tracker_backend::auth::token::extract_bearer_token;
use portfolio_tracker_backend::auth::AuthError;

#[test]
fn hashed_password_verifies() {
    let hash = hash_password("correct horse").unwrap();
    assert_ne!(hash, "correct horse");
    assert_eq!(verify_password("correct horse", &hash), Ok(()));
    assert_eq!(verify_password("wrong horse", &hash), Err(AuthError::PasswordVerificationFailed));
    let other = hash_password("correct horse").unwrap();
    assert_ne!(hash, other);
}

#[test]
fn empty_password_hashes_and_verifies() {
    let hash = hash_password("").unwrap();
    assert_eq!(verify_password("", &hash), Ok(()));
    assert_eq!(verify_password(" ", &hash), Err(AuthError::PasswordVerificationFailed));
}

#[test]
fn malformed_hash_is_a_parsing_error() {
    assert!(matches!(verify_password("pw", "not a hash"), Err(AuthError::PasswordParsingFailed(_))));
}

#[test]
fn bearer_token_is_extracted() {
    assert_eq!(extract_bearer_token(Some("Bearer abc.def")), Ok("abc.def"));
    assert_eq!(extract_bearer_token(Some("Bearer ")), Ok(""));
    assert_eq!(extract_bearer_token(Some("bearer abc")), Err(AuthError::MissingAuthToken));
    assert_eq!(extract_bearer_token(Some("Basic abc")), Err(AuthError::MissingAuthToken));
    assert_eq!(extract_bearer_token(None), Err(AuthError::MissingAuthToken));
}

#[test]
fn auth_error_messages() {
    assert_eq!(AuthError::MissingAuthToken.to_text(), "Missing auth token");
    assert_eq!(AuthError::ClaimsEncodeError("bad key".to_string()).to_text(), "Claims encoding failed: bad key");
    assert_eq!(AuthError::PasswordVerificationFailed.to_text(), "Password verification failed");
}

#[test]
fn service_errors_map_to_api_errors() {
    assert_eq!(ApiError::from(ServiceError::Unauthorized), ApiError::Unauthorized);
    assert_eq!(ApiError::from(ServiceError::UserNotFound("a@b.c".to_string())), ApiError::UserNotFound);
    assert_eq!(ApiError::from(ServiceError::PasswordDoesntMatch), ApiError::UserNotFound);
    assert_eq!(
        ApiError::from(ServiceError::UserEmailAlreadyExistsError("a@b.c".to_string())),
        ApiError::UserAlreadyRegistered
    );
    assert_eq!(
        ApiError::from(ServiceError::InternalServerError("db down".to_string())),
        ApiError::InternalServerError("db down".to_string())
    );
}

#[test]
fn api_error_responses() {
    let internal = ApiError::InternalServerError("secret detail".to_string()).response_parts();
    assert_eq!(internal.status, 500);
    assert_eq!(internal.error_code, "INTERNAL_SERVER_ERROR");
    assert_eq!(internal.description, "Internal server error");
    let bad = ApiError::BadRequest("email: Invalid email format".to_string()).response_parts();
    assert_eq!((bad.status, bad.error_code.as_str()), (400, "BAD_REQUEST"));
    assert_eq!(bad.description, "Bad request email: Invalid email format");
    let nf = ApiError::UserNotFound.response_parts();
    assert_eq!((nf.status, nf.error_code.as_str(), nf.description.as_str()), (401, "USER_NOT_FOUND", "Email/password doesn't match"));
    let conflict = ApiError::UserAlreadyRegistered.response_parts();
    assert_eq!((conflict.status, conflict.error_code.as_str()), (409, "CONFLICT"));
    assert_eq!(ApiError::Unauthorized.response_parts().status, 401);
    assert!(ApiError::InternalServerError(String::new()).is_internal());
}

#[test]
fn register_request_validation() {
    let ok = RegisterRequest { email: "user@example.com".to_string(), password: "12345678".to_string() };
    assert!(ok.validate().is_ok());
    let bad = RegisterRequest { email: "not-an-email".to_string(), password: "short".to_string() };
    let errs = bad.validate().unwrap_err();
    assert_eq!(errs.errors.len(), 2);
    assert_eq!(errs.errors[0].field, "email");
    assert_eq!(errs.errors[0].message, "Invalid email format");
    assert_eq!(errs.errors[1].code, "length");
    assert_eq!(errs.to_text(), "email: Invalid email format\npassword: Password must be at least 8 characters");
    let unicode = RegisterRequest { email: "u@example.com".to_string(), password: "ééééééé".to_string() };
    assert_eq!(unicode.validate().unwrap_err().errors.len(), 1);
}

#[test]
fn login_request_validation() {
    let bad = LoginRequest { email: "user@example.com".to_string(), password: "1234567".to_string() };
    let errs = bad.validate().unwrap_err();
    assert_eq!(errs.to_text(), "password: Wrong password");
    let empty = LoginRequest { email: String::new(), password: "long enough".to_string() };
    assert_eq!(empty.validate().unwrap_err().errors[0].field, "email");
}

#[test]
fn email_that_is_empty_or_lacks_at_sign_is_rejected() {
    let no_at = RegisterRequest { email: "user.example.com".to_string(), password: "12345678".to_string() };
    let errs = no_at.validate().unwrap_err();
    assert_eq!(errs.errors.len(), 1);
    assert_eq!(errs.errors[0].field, "email");
    let empty = RegisterRequest { email: String::new(), password: "12345678".to_string() };
    assert_eq!(empty.validate().unwrap_err().errors[0].field, "email");
    let login = LoginRequest { email: "plain".to_string(), password: "12345678".to_string() };
    assert_eq!(login.validate().unwrap_err().errors[0].field, "email");
    let ok = LoginRequest { email: "a@b.co".to_string(), password: "12345678".to_string() };
    assert!(ok.validate().is_ok());
}

#[test]
fn token_response_is_bearer() {
    let r = TokenResponse::new("t".to_string());
    assert_eq!(r.token, "t");
    assert_eq!(r.token_type, "Bearer");
    assert!(!default_false());
}
