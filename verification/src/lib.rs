//! Verified core of a single-author publishing backend.
//!
//! The library holds the logic that deserves proof: slug derivation, the
//! access-control evaluator, pagination clamping, the parameter-bound query
//! builder, the in-memory content model with its tag-synchronization rules,
//! token-based identity, and the feed/sitemap text builders.  Transport,
//! storage I/O and process bootstrap live outside the library and hand it
//! plain values.

pub mod access;
pub mod auth;
pub mod config;
pub mod error;
pub mod feed;
pub mod markdown;
pub mod models;
pub mod paging;
pub mod profile;
pub mod query;
pub mod slug;
pub mod store;
