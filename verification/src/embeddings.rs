use vstd::prelude::*;

verus! {

/// Request body for text embeddings.
#[derive(Debug, Clone, Default)]
pub struct EmbedRequest {
    /// Embedding model (e.g. "text-embedding-3-small", "text-embedding-3-large").
    pub model: String,

    /// Texts to embed.
    pub input: Vec<String>,
}

} // verus!
