//! The embedding extractor's decisions. The extraction itself is one native
//! decode over a dedicated short context with embedding output enabled — no
//! sampling, no loop — performed by the surrounding application; what is
//! decided here is whether it may run, and how large that context is.

use vstd::prelude::*;

use crate::error::LlamaError;
use crate::slot::ModelSlot;

verus! {

/// Size of the dedicated embedding context, in tokens.
pub const EMBEDDING_CONTEXT_SIZE: u32 = 512;

/// Begins an embedding extraction against the loaded model: fails with
/// `ModelNotLoaded` exactly when the slot is empty, and otherwise yields the
/// size of the short context to build, with embedding output enabled.
pub fn plan_embedding(slot: &ModelSlot) -> (r: Result<u32, LlamaError>)
    ensures
        r is Err <==> !slot.is_loaded_spec(),
        match r {
            Ok(n) => n == EMBEDDING_CONTEXT_SIZE,
            Err(e) => e is ModelNotLoaded,
        },
{
    if !slot.is_model_loaded() {
        return Err(LlamaError::ModelNotLoaded);
    }
    Ok(EMBEDDING_CONTEXT_SIZE)
}

} // verus!
