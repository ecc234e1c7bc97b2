//! Model lifecycle and generation engine for a local llama.cpp-backed
//! assistant.
//!
//! The crate verifies the engine's decisions: the single-slot model
//! lifecycle, prompt templating, the autoregressive session's bookkeeping
//! (token budget, end-of-generation, stop-sequence trimming), streaming
//! event order, and progress formatting. The blocking native calls (backend
//! initialization, model loading, decoding, sampling) are performed by the
//! surrounding application, which feeds their outcomes to the state machines
//! defined here.

pub mod allowlist;
pub mod bridge;
pub mod config;
pub mod embedding;
pub mod error;
pub mod generation;
pub mod learning;
pub mod memory;
pub mod progress;
pub mod session;
pub mod slot;
pub mod template;
pub mod text;
