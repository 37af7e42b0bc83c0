pub mod item_repository;
pub mod pool;
pub mod sqlite;
pub mod user_repository;
