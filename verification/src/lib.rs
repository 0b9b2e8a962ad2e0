//! A single-writer actor that accepts, tracks and reports database dumps.
//!
//! At most one dump is in flight at a time. A request to start a dump is
//! answered at once, either with the fresh status record or with a refusal;
//! the outcome of the dump itself is recorded later and read by polling.

pub mod status;
pub mod error;
pub mod registry;
pub mod exclusion;
mod clock;
pub mod actor;
pub mod laws;
