//! Core logic of a ranked-leaderboard service: query-shape normalization,
//! deterministic cache keys, a TTL read-through cache, a refresh cycle that
//! invalidates stale pages and broadcasts freshness events, and a fan-out
//! hub with per-subscriber bounded queues.

pub mod cache;
pub mod entry;
pub mod errors;
pub mod hub;
pub mod keys;
pub mod kv;
pub mod refresher;
pub mod service;
pub mod session;
pub mod shape;
pub mod text;
