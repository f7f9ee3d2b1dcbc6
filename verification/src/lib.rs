//! The core of a crawler for social networks.
//!
//! The crate holds what the crawler decides: which tasks the settings seed,
//! which address a task is fetched from, what a fetched page makes of tasks
//! and entities, which account a worker gets and when it has to wait, and
//! what a publisher does next. It makes no request and talks to no store:
//! it plans requests and store operations as plain values, and its caller
//! performs them and hands back what came of them.
//!
//! - [`commons`]: tasks, entities, networks and their handlers.
//! - [`reddit`]: the handler for Reddit and the pages it reads.
//! - [`client`]: settings, the operations on the stores, the account pool,
//!   the publisher, the worker counter and the statistics.
//! - [`utils`]: the clock, and reading of numbers and texts.

pub mod client;
pub mod commons;
pub mod reddit;
pub mod utils;
