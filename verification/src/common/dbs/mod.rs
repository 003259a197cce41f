//! The typed store with an error type for each kind of operation.

pub mod errors;
pub mod interface;
