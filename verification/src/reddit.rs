pub mod data_types;
pub mod reddit;
pub mod reddit_parsing_task;
