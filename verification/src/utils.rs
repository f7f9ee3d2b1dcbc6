pub mod list;
pub mod number;
pub mod text;
pub mod time;
