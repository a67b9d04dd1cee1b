//! Coordination core of a daemon that issues and transfers fungible asset
//! contracts and commits them to an authoritative stash before its own cache.

pub mod api;
pub mod asset;
pub mod cache;
pub mod digest;
pub mod encoding;
pub mod error;
pub mod injectivity;
pub mod laws;
pub mod processor;
pub mod runtime;
pub mod types;
