//! Password hashing and verification with Argon2.

use vstd::prelude::*;
use vstd::string::StringSliceAdditionalSpecFns;
use crate::auth::error::AuthError;

verus! {

/// Whether argon2's `PasswordHash::new` accepts `hash` as an encoded
/// password hash.
pub uninterp spec fn argon2_hash_parses(hash: Seq<char>) -> bool;

/// The message of the error that argon2's `PasswordHash::new` gives for
/// `hash`.
pub uninterp spec fn argon2_parse_error_text(hash: Seq<char>) -> Seq<char>;

/// Whether argon2's `PasswordVerifier::verify_password`, with the default
/// `Argon2` instance, accepts `password` against the parsed `hash`.
pub uninterp spec fn argon2_password_matches(password: Seq<u8>, hash: Seq<char>) -> bool;

/// Whether `password` verifies against the encoded hash `hash`.
pub open spec fn password_verifies(password: Seq<u8>, hash: Seq<char>) -> bool {
    argon2_hash_parses(hash) && argon2_password_matches(password, hash)
}

/// The largest password, in bytes, that argon2 hashes.
pub const MAX_PASSWORD_BYTES: usize = 0xFFFF_FFFF;

/// The encoded hash of `password` with a fresh random salt: argon2's
/// `SaltString::generate`, drawing from the operating system's random
/// source, then `PasswordHasher::hash_password` with the default `Argon2`
/// instance, written out with its `ToString`.
///
/// With a generated salt and the default parameters, argon2 fails only on a
/// password longer than 2^32 - 1 bytes, so hashing succeeds on every other
/// password. A hash it makes parses and verifies `password`, as the crate's
/// hash-then-verify usage shows. The hash text itself, which depends on the
/// random salt, and the text of the error are left unsaid.
#[verifier::external_body]
fn argon2_hash_with_fresh_salt(password: &[u8]) -> (r: Result<String, String>)
    ensures
        password@.len() <= MAX_PASSWORD_BYTES ==> r is Ok,
        r matches Ok(h) ==> argon2_hash_parses(h@) && argon2_password_matches(password@, h@),
{
    let salt = argon2::password_hash::SaltString::generate(&mut argon2::password_hash::rand_core::OsRng);
    match argon2::PasswordHasher::hash_password(&argon2::Argon2::default(), password, &salt) {
        Ok(h) => Ok(h.to_string()),
        Err(e) => Err(e.to_string()),
    }
}

/// Parses `hash` with argon2's `PasswordHash::new` and, when it parses,
/// checks `password` against it with `PasswordVerifier::verify_password`
/// and the default `Argon2` instance. Verifying needs the parsed hash,
/// which borrows `hash`; both steps stand here so that the result can be
/// tied to the text of `hash`.
#[verifier::external_body]
fn argon2_check(password: &[u8], hash: &str) -> (r: Result<bool, String>)
    ensures
        r is Ok <==> argon2_hash_parses(hash@),
        r matches Ok(b) ==> b == argon2_password_matches(password@, hash@),
        r matches Err(m) ==> m@ == argon2_parse_error_text(hash@),
{
    match argon2::password_hash::PasswordHash::new(hash) {
        Ok(parsed) => Ok(
            argon2::PasswordVerifier::verify_password(&argon2::Argon2::default(), password, &parsed).is_ok(),
        ),
        Err(e) => Err(e.to_string()),
    }
}

/// The Argon2 hash of `password` with a fresh random salt. It succeeds on
/// every password of at most 2^32 - 1 bytes, and a hash it returns verifies
/// `password`.
pub fn hash_password(password: &str) -> (r: Result<String, AuthError>)
    ensures
        password.spec_bytes().len() <= MAX_PASSWORD_BYTES ==> r is Ok,
        r matches Ok(h) ==> password_verifies(password.spec_bytes(), h@),
        r matches Err(e) ==> e is PasswordHashingFailed,
{
    match argon2_hash_with_fresh_salt(password.as_bytes()) {
        Ok(h) => Ok(h),
        Err(m) => Err(AuthError::PasswordHashingFailed(m)),
    }
}

/// Checks `password` against the encoded hash `hash`: succeeds exactly when
/// it verifies, fails with the parser's message when `hash` does not parse,
/// and with `PasswordVerificationFailed` when the password does not match.
pub fn verify_password(password: &str, hash: &str) -> (r: Result<(), AuthError>)
    ensures
        r is Ok <==> password_verifies(password.spec_bytes(), hash@),
        !argon2_hash_parses(hash@) ==> (r matches Err(AuthError::PasswordParsingFailed(m))
            && m@ == argon2_parse_error_text(hash@)),
        argon2_hash_parses(hash@) && !argon2_password_matches(password.spec_bytes(), hash@)
            ==> r == Err::<(), AuthError>(AuthError::PasswordVerificationFailed),
{
    match argon2_check(password.as_bytes(), hash) {
        Ok(true) => Ok(()),
        Ok(false) => Err(AuthError::PasswordVerificationFailed),
        Err(m) => Err(AuthError::PasswordParsingFailed(m)),
    }
}

} // verus!
