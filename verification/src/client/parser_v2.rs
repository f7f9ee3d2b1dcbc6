pub mod account_manager;
pub mod parser;
pub mod statistics;
pub mod task_publisher;
