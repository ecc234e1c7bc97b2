//! Error taxonomy of the engine.
//!
//! Every error carries a human-readable detail string where the failure has
//! one; all errors are terminal for the call in which they occur.

use vstd::prelude::*;

verus! {

use vstd::string::StringExecFns;

/// The errors the engine can report.
#[derive(Debug)]
pub enum LlamaError {
    /// The native runtime could not be initialized.
    BackendNotInitialized,
    /// An operation needed a loaded model and none was loaded.
    ModelNotLoaded,
    /// The model file was missing or the native load call failed.
    ModelLoadError(String),
    /// A native decode or sampling step failed.
    GenerationError(String),
    /// The input could not be tokenized.
    TokenizationError(String),
    /// A decoding context could not be constructed.
    ContextError(String),
    /// An input/output failure outside the engine proper.
    IoError(String),
}

/// The human-readable message of an error, over its detail string.
pub open spec fn spec_message(e: LlamaError) -> Seq<char> {
    match e {
        LlamaError::BackendNotInitialized => "Backend not initialized"@,
        LlamaError::ModelNotLoaded => "Model not loaded"@,
        LlamaError::ModelLoadError(d) => "Failed to load model: "@ + d@,
        LlamaError::GenerationError(d) => "Generation error: "@ + d@,
        LlamaError::TokenizationError(d) => "Tokenization error: "@ + d@,
        LlamaError::ContextError(d) => "Context error: "@ + d@,
        LlamaError::IoError(d) => "IO error: "@ + d@,
    }
}

impl LlamaError {
    /// The human-readable message of this error.
    pub fn message(&self) -> (r: String)
        ensures
            r@ == spec_message(*self),
    {
        match self {
            LlamaError::BackendNotInitialized => String::from_str("Backend not initialized"),
            LlamaError::ModelNotLoaded => String::from_str("Model not loaded"),
            LlamaError::ModelLoadError(d) => String::from_str("Failed to load model: ").concat(
                d.as_str(),
            ),
            LlamaError::GenerationError(d) => String::from_str("Generation error: ").concat(
                d.as_str(),
            ),
            LlamaError::TokenizationError(d) => String::from_str("Tokenization error: ").concat(
                d.as_str(),
            ),
            LlamaError::ContextError(d) => String::from_str("Context error: ").concat(d.as_str()),
            LlamaError::IoError(d) => String::from_str("IO error: ").concat(d.as_str()),
        }
    }
}

} // verus!
