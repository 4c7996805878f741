//! Building blocks for thread-based concurrency: the state that a task
//! handle, a multi-producer single-consumer channel and a lock-guarded cell
//! keep, with every transition proved against a mathematical model.
//!
//! Blocking is left to the caller: each operation here returns at once and
//! says whether the caller has to wait and try again.
pub mod task;
pub mod channel;
pub mod cell;
