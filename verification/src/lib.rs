//! Domain model and decision logic of a crypto portfolio tracker backend:
//! networks and assets, price feeds, holdings and allocations, the mapping
//! of stored rows into domain values, authentication helpers and the
//! classification of API errors.

pub mod text;
pub mod decimal;
pub mod model;
pub mod api;
pub mod appconfig;
pub mod auth;
pub mod client;
pub mod repository;

pub use client::ClientError;
