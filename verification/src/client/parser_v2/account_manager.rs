pub mod account;
pub mod account_pool;
pub mod account_pool_builder;
