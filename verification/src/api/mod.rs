pub mod auth;
pub mod pages;
pub mod posts;
pub mod views;
