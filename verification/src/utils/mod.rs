pub mod auth;
pub mod error;
