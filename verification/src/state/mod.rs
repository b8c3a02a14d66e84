//! The application's in-memory projection of the event log.

pub mod app;
pub mod events;
pub mod identity;
pub mod model;
pub mod mutex_map;
pub mod store;

pub use app::{App, BufferState, Config, FileSystemBufferState, PrefixState, State};
pub use mutex_map::{Id, MutexMap};
