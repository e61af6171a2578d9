//! Bearer tokens.

use vstd::prelude::*;
use crate::auth::error::AuthError;
use crate::text::strip_prefix;

verus! {

/// The token of the `Authorization` header, given its value when the header
/// is present and readable as text: the value without its `Bearer ` prefix.
/// Fails with `MissingAuthToken` when the header is absent or does not
/// start with `Bearer `.
pub fn extract_bearer_token<'a>(authorization: Option<&'a str>) -> (r: Result<&'a str, AuthError>)
    ensures
        r is Ok <==> (authorization matches Some(v) && v@.len() >= 7 && v@.take(7) == "Bearer "@),
        r matches Ok(t) ==> (authorization matches Some(v) && v@ == "Bearer "@ + t@),
        r matches Err(e) ==> e == AuthError::MissingAuthToken,
{
    proof {
        reveal_strlit("Bearer ");
    }
    match authorization {
        Some(v) => match strip_prefix(v, "Bearer ") {
            Some(t) => Ok(t),
            None => Err(AuthError::MissingAuthToken),
        },
        None => Err(AuthError::MissingAuthToken),
    }
}

} // verus!
