//! A load-generation and measurement harness for streaming chat-completion
//! endpoints: bounded-concurrency task dispatch, per-task token accounting,
//! cross-task metric aggregation, and cooperative shutdown.

pub mod counters;
pub mod dataset;
pub mod errors;
pub mod gate;
pub mod run;
pub mod task;
pub mod tokenize;
pub mod transcript;
