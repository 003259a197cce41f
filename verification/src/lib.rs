//! Pending payment invoices in an embedded key-value store, and the
//! reconciliation of those invoices against on-chain balances.

pub mod common;
pub mod engine;
pub mod text;
pub mod types;
pub mod db;
pub mod poller;
