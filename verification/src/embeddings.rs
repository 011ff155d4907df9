//! Embeddings: token accounting for embedding requests. The embedding
//! vectors themselves are floating-point data and live with the
//! application code around this library, together with the distance
//! helpers over them.

use vstd::prelude::*;

verus! {

/// Token accounting reported for an embeddings request.
#[derive(Debug, Clone, Copy, PartialEq, Eq)]
pub struct EmbeddingsUsage {
    pub prompt_tokens: u32,
    pub total_tokens: u32,
}

} // verus!
