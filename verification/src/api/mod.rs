//! The API's errors, requests and responses, and the values that its
//! extractors produce.

pub mod error;
pub mod model;

use vstd::prelude::*;
use crate::model::UserId;

verus! {

/// A request body that was read and passed validation.
pub struct ValidatedJson<T>(pub T);

/// The user that a request's bearer token identifies.
pub struct AuthenticatedUser {
    pub id: UserId,
}

} // verus!
