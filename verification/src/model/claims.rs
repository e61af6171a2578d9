//! The claims carried by an authentication token.

use vstd::prelude::*;
use crate::model::ids::UserId;

verus! {

/// How long a token stays valid, in seconds: 24 hours.
pub const TOKEN_VALIDITY_SECS: i64 = 86400;

/// The claims of an authentication token: the user, and when the token
/// expires and was issued, in seconds since the Unix epoch.
pub struct Claims {
    pub sub: UserId,
    pub exp: i64,
    pub iat: i64,
}

impl Claims {
    /// The claims of a token issued to `sub` at `now` (seconds since the
    /// Unix epoch), which expires 24 hours later.
    pub fn issued_at(sub: UserId, now: i64) -> (c: Claims)
        requires
            now <= i64::MAX - TOKEN_VALIDITY_SECS,
        ensures
            c.sub == sub,
            c.iat == now,
            c.exp == now + TOKEN_VALIDITY_SECS,
    {
        Claims { sub, exp: now + TOKEN_VALIDITY_SECS, iat: now }
    }
}

} // verus!
