//! Buffers of file-backed datasets that are queried as one table.
//!
//! The library holds what the application decides and computes: the paths of
//! a storage backend and the prefix order on them, the collapsing of
//! overlapping prefixes, buffers and the listing tables and view that they
//! ask of a query engine, and the event-sourced state with its id counters
//! and stores. Reading and writing the event log, listing and reading
//! objects, and running the query engine are left to the caller, who is
//! handed what to do as plain values.

pub mod commands;
pub mod content;
pub mod errors;
pub mod messages;
pub mod query;
pub mod state;
pub mod text;

pub use state::events;
