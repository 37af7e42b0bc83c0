pub mod auth;
pub mod item;
pub mod user;
