//! Orchestration of simulated transaction runs: account overrides, block
//! progression across a bundle, session bookkeeping and result shaping.
//!
//! The execution engine itself is driven by the caller. This crate holds the
//! state that the orchestrator reads and writes around each engine invocation
//! and decides, step by step, what the caller does next.

pub mod errors;
pub mod evm;
pub mod primitives;
pub mod registry;
pub mod simulation;
