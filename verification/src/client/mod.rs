//! The client side of the price provider: its response model, the mapping
//! into domain values, request paths and the classification of replies.

pub mod cg_model;
pub mod endpoint;
pub mod error;
pub mod mapper;
pub mod model;
pub mod util;

pub use error::ClientError;
