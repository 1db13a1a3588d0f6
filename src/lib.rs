//! An in-memory store of string keys and values, shared between threads,
//! with operation tallies and JSON snapshots.
pub mod codec;
pub mod dbdata;
pub mod error;
pub mod laws;
pub mod report;
pub mod schedule;
pub mod store;

pub use dbdata::DbData;
pub use error::DbError;
pub use report::Tallies;
pub use store::DbMap;
