//! Core library of a bulk media archiver for a streaming platform.
//!
//! The verified pieces are the batched pagination engine that drives many
//! independently-paginated queries in lock-step waves, the domain mapper that
//! turns raw API nodes into stable records, the manifest resolution and
//! segment-task planning for downloads, and the bookkeeping around progress,
//! remuxing and de-duplication.  Network and file I/O live outside this crate;
//! the library hands plans and decisions to its caller.

pub mod batch;
pub mod config;
pub mod gql;
pub mod itd;
pub mod pull;
pub mod twitch;
pub mod twitch_api;
pub mod util;
pub mod vodbot_api;
