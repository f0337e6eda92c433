//! A verified core for discovering the methods available on a Rust type by
//! driving `rust-analyzer`: response parsing, filtering and ranking, probe
//! project layout and caching, documentation links and argument parsing.

pub mod text;
pub mod analyzer;
pub mod query;
pub mod interactive;
pub mod error;
pub mod cache_key;
pub mod probe;
pub mod args;
pub mod links;
pub mod daemon;
pub mod lsp;
pub mod session;
pub mod locations;
pub mod cli;
pub mod display;
