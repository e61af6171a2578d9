//! Authentication: errors, password hashing and bearer tokens.

pub mod error;
pub mod password;
pub mod token;

pub use error::AuthError;
