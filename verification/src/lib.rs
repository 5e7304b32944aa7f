//! Cache/ledger synchronization core of a small social-network backend.
//!
//! Post and comment counters (likes, hates, comments) and membership facts
//! ("did user U like post P") live in a fast key-value store and are lazily
//! reconciled onto records fetched from the relational store. This crate
//! holds the verified logic of that layer: the key namespace, the command
//! and reply language of the cache, a reference interpreter for it, the
//! reconciliation and mutation-ledger operations, and the per-user unread
//! notification counters, together with the supporting record types.

pub mod auth;
pub mod bigint;
pub mod cmd;
pub mod errors;
pub mod idgen;
pub mod keys;
pub mod laws;
pub mod ledger;
pub mod notice;
pub mod num;
pub mod paging;
pub mod post;
pub mod resp;
pub mod store;
pub mod user;

pub use keys::RedisKey;
pub use num::string_to_i64;
