//! Configuration for model loading and text generation, and chat messages.
//!
//! Temperature, nucleus probability and repeat penalty are fractional
//! quantities that the engine itself never computes with: it only hands them
//! to the native sampler. They are therefore carried as the raw bit patterns
//! of their 32-bit IEEE-754 values, which a caller obtains with `to_bits` and
//! turns back with `from_bits`.

use vstd::prelude::*;

verus! {

/// Bit pattern of the default sampling temperature, 0.7.
pub const DEFAULT_TEMPERATURE_BITS: u32 = 0x3F33_3333;

/// Bit pattern of the default nucleus probability, 0.9.
pub const DEFAULT_TOP_P_BITS: u32 = 0x3F66_6666;

/// Bit pattern of the default repeat penalty, 1.1.
pub const DEFAULT_REPEAT_PENALTY_BITS: u32 = 0x3F8C_CCCD;

/// Default number of tokens a generation call may produce.
pub const DEFAULT_MAX_TOKENS: u32 = 2048;

/// Default top-k filter width.
pub const DEFAULT_TOP_K: i32 = 40;

/// Seed of the final categorical draw; fixed, so identical logits reproduce
/// the same draw sequence.
pub const SAMPLER_SEED: u32 = 42;

/// Configuration for model loading.
#[derive(Debug, Clone, Copy, PartialEq, Eq, Structural)]
pub struct ModelConfig {
    /// How many layers to offload to the GPU.
    pub gpu_layers: i32,
    /// Size of the decode context, in tokens. Must be positive.
    pub context_size: u32,
    /// Size of a decode batch, in tokens. Must be positive.
    pub batch_size: u32,
    /// Worker threads for native decode; a hint, not applied by the engine.
    pub threads: u32,
    /// Whether to ask the runtime for flash attention; a hint, not applied by
    /// the engine.
    pub flash_attention: bool,
}

impl ModelConfig {
    /// A configuration the engine accepts: the context and batch sizes are
    /// positive and fit the native 32-bit signed token counts.
    pub open spec fn wf(&self) -> bool {
        &&& 1 <= self.context_size <= 0x7fff_ffff
        &&& 1 <= self.batch_size <= 0x7fff_ffff
    }
}

/// The default model configuration: offload as much as possible, an
/// 8192-token context, 512-token batches, 8 threads, flash attention on.
pub open spec fn spec_default_config() -> ModelConfig {
    ModelConfig { gpu_layers: 99, context_size: 8192, batch_size: 512, threads: 8, flash_attention: true }
}

impl Default for ModelConfig {
    /// Defaults: offload as much as possible, an 8192-token context,
    /// 512-token batches, 8 threads, flash attention on.
    fn default() -> (c: ModelConfig)
        ensures
            c == spec_default_config(),
            c.wf(),
    {
        ModelConfig { gpu_layers: 99, context_size: 8192, batch_size: 512, threads: 8, flash_attention: true }
    }
}

/// Parameters for one text-generation call.
#[derive(Debug, Clone)]
pub struct GenerateParams {
    /// Bit pattern of the sampling temperature (an `f32`, at least 0).
    pub temperature_bits: u32,
    /// Most tokens this call may produce; 0 means no sampling at all.
    pub max_tokens: u32,
    /// Bit pattern of the nucleus probability (an `f32` in [0, 1]).
    pub top_p_bits: u32,
    /// Top-k filter width.
    pub top_k: i32,
    /// Bit pattern of the repeat penalty (an `f32`); carried but not wired
    /// into the sampler chain.
    pub repeat_penalty_bits: u32,
    /// Generation halts when the output comes to end with one of these, and
    /// the matched suffix is trimmed; checked in this order.
    pub stop_sequences: Vec<String>,
}

impl Default for GenerateParams {
    /// Defaults: temperature 0.7, 2048 tokens, nucleus probability 0.9,
    /// top-k 40, repeat penalty 1.1, no stop sequences.
    fn default() -> (p: GenerateParams)
        ensures
            p.temperature_bits == DEFAULT_TEMPERATURE_BITS,
            p.max_tokens == DEFAULT_MAX_TOKENS,
            p.top_p_bits == DEFAULT_TOP_P_BITS,
            p.top_k == DEFAULT_TOP_K,
            p.repeat_penalty_bits == DEFAULT_REPEAT_PENALTY_BITS,
            p.stop_sequences@ == Seq::<String>::empty(),
    {
        GenerateParams {
            temperature_bits: DEFAULT_TEMPERATURE_BITS,
            max_tokens: DEFAULT_MAX_TOKENS,
            top_p_bits: DEFAULT_TOP_P_BITS,
            top_k: DEFAULT_TOP_K,
            repeat_penalty_bits: DEFAULT_REPEAT_PENALTY_BITS,
            stop_sequences: Vec::new(),
        }
    }
}

/// One chat turn: a role ("system", "user" or "assistant") and its text.
#[derive(Debug, Clone)]
pub struct ChatMessage {
    /// The speaker's role.
    pub role: String,
    /// The turn's text.
    pub content: String,
}

} // verus!
