//! Supervision of a background worker process and a bridge that forwards
//! tool invocations to it over local HTTP.
//!
//! The library holds the decisions: when a worker may be started or stopped,
//! what state is recorded, which request reaches the worker and how its reply
//! is read. The caller performs the outside work (spawning, terminating,
//! sending) and hands the outcome back.
pub mod bridge;
pub mod error;
pub mod supervisor;
pub mod text;
