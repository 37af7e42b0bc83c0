pub mod auth_controller;
pub mod item_controller;
