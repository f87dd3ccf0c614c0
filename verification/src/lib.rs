//! Execution-dispatch core of a blockchain-indexing node.
//!
//! For each data source being indexed, a [`host::RuntimeHost`] routes incoming
//! triggers to a sandboxed execution unit (modelled by [`worker::Worker`]),
//! correlates the asynchronous result back to the calling pipeline, and
//! accounts for the execution cost consumed.

pub mod block;
pub mod bus;
pub mod data_source;
pub mod gas;
pub mod host;
pub mod mapping;
pub mod metrics;
mod text;
pub mod worker;
