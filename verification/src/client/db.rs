pub mod client;
pub mod entities_db;
pub mod tasks_db;
