//! Core of a distributed dataflow engine for parallel graph computation.
//!
//! A job is executed by a fixed pool of cooperating workers. This library
//! verifies the engine's core: the worker-identity and execution-context
//! model, the exchange router that partitions records across workers, the
//! subtask fork/join machinery that correlates a nested sub-computation with
//! the parent record that spawned it, the bounded iteration controller, and
//! the filter-chain codec that turns a wire-format comparison tree into an
//! element predicate.

pub mod codec;
pub mod context;
pub mod errors;
pub mod exchange;
pub mod filter;
pub mod iterate;
pub mod pb;
pub mod subtask;
pub mod worker_id;
