//! Identifier-gated ingestion of experiment results.
//!
//! The library holds the decision logic of a small gateway: a registry
//! membership check, the validate-then-write step functions that gate a
//! result insert on that check, and the mapping from each outcome to a
//! reply. The surrounding transport and database I/O live outside the
//! library and hand it plain values.

pub mod handler;
pub mod registry;
pub mod store;
