//! The storage side: stored rows, their mapping into domain values, and the
//! grouping of rows.

pub mod columns;
pub mod error;
pub mod holdings;
pub mod mapper;
pub mod model;

pub use error::DBError;
