pub mod entity;
pub mod parsing_tasks;
pub mod social_network;
