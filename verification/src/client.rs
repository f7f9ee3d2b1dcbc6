pub mod db;
pub mod parser_v2;
pub mod settings;
