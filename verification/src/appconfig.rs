//! The application's configuration.

use vstd::prelude::*;

verus! {

/// The default of `json_logs`: plain-text logs.
pub fn default_false() -> (b: bool)
    ensures
        !b,
{
    false
}

/// The settings the application starts with.
pub struct AppConfig {
    pub database_url: String,
    pub cg_url: String,
    pub cg_key: String,
    pub jwt_secret: String,
    /// Whether logs are written as JSON; `false` when not set.
    pub json_logs: bool,
    pub rust_log: String,
}

} // verus!
