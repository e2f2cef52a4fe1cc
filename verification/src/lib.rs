//! Batch transaction execution engine for an L2 rollup sequencer.
//!
//! The engine drives a deterministic, gas-metered virtual machine through an
//! ordered sequence of transactions belonging to one rollup batch, and
//! produces the finalized batch artifact. The virtual machine itself is an
//! opaque capability of the surrounding system; this crate pairs the engine
//! with a verified model of that capability (`vm`), so that the engine's snapshot
//! and rollback discipline, its bytecode-compression retry protocol, and its
//! block-tip finalization procedure are all proved against the capability's
//! stated contract.

pub mod engine;
pub mod executor;
pub mod laws;
pub mod types;
pub mod vm;
