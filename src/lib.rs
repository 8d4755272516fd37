//! Routing, client caching and retrying reads for an object-storage access
//! layer: a path is routed to the backend that owns it, a client for that
//! backend is built once and reused, and reads that fail partway through are
//! issued once more.

pub mod cache;
pub mod client;
pub mod config;
pub mod error;
pub mod router;
pub mod runtime;
pub mod series;
