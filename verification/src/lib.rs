//! Decision logic of a blockchain event indexer.
//!
//! Every loop of the indexer is written as a state machine: the caller
//! performs the action that a machine answers (a query, a pause, a handler
//! invocation) and reports the outcome as the next event. The machines own
//! all pacing, clamping and ordering rules, and those rules are proved.

pub mod address;
pub mod block_handler;
pub mod cache;
pub mod config;
pub mod definitions;
pub mod handler;
pub mod indexer;
pub mod latest_block_manager;
pub mod process_logs;
pub mod rate_limit;

pub use crate::indexer::Indexer;
