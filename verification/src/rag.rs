use vstd::prelude::*;

verus! {

/// Request body for Vertex AI RAG search.
#[derive(Debug, Clone, Default)]
pub struct RagSearchRequest {
    /// Search query.
    pub query: String,

    /// Filter by corpus name or ID (fuzzy match). Omit to search all corpora.
    pub corpus: Option<String>,

    /// Maximum number of results to return (default 10).
    pub top_k: Option<i32>,
}

/// Describes an available RAG corpus.
#[derive(Debug, Clone)]
pub struct RagCorpus {
    /// Full resource name.
    pub name: String,

    /// Human-readable name.
    pub display_name: String,

    /// Describes the corpus contents.
    pub description: String,

    /// Corpus state (e.g. "ACTIVE").
    pub state: String,
}

/// Request body for SurrealDB-backed RAG search.
#[derive(Debug, Clone, Default)]
pub struct SurrealRagSearchRequest {
    /// Search query.
    pub query: String,

    /// Filter by documentation provider (e.g. "xai", "heygen").
    pub provider: Option<String>,

    /// Maximum number of results (default 10, max 50).
    pub limit: Option<i32>,
}

/// A SurrealDB RAG provider.
#[derive(Debug, Clone, Default)]
pub struct SurrealRagProviderInfo {
    /// Provider identifier (e.g. "xai", "heygen").
    pub provider: String,

    /// Number of document chunks for this provider.
    pub chunks: i64,
}

/// Backwards-compatible alias.
pub type SurrealRagProvider = SurrealRagProviderInfo;

/// Response from listing SurrealDB RAG providers.
#[derive(Debug, Clone, Default)]
pub struct SurrealRagProvidersResponse {
    /// Providers with at least one chunk, most chunks first. Empty (sent as
    /// `null`) when the table is empty.
    pub providers: Vec<SurrealRagProviderInfo>,
    pub request_id: Option<String>,
}

/// A user-scoped document collection, proxied through the gateway onto the
/// upstream provider.
#[derive(Debug, Clone, Default)]
pub struct Collection {
    /// Collection identifier, gateway-issued.
    pub id: String,

    /// Owner: a user id, or `"shared"` for collections everyone can read.
    pub owner: String,

    /// Backend the collection lives on (e.g. `"xai"`).
    pub provider: String,

    /// Human-readable name.
    pub name: String,

    /// What the collection is for.
    pub description: String,

    /// The provider's own id for the collection.
    pub provider_collection_id: String,

    /// Number of documents indexed.
    pub document_count: i64,

    /// RFC3339 creation timestamp.
    pub created_at: String,
}

/// Request body for `POST /qai/v1/rag/collections`.
#[derive(Debug, Clone, Default)]
pub struct CreateCollectionRequest {
    /// Human-readable name. Required.
    pub name: String,

    /// What the collection is for.
    pub description: Option<String>,

    /// Label stored on the collection record. It does not choose a backend:
    /// every collection is created on xAI regardless of the value.
    pub provider: Option<String>,
}

/// A document within a collection.
#[derive(Debug, Clone, Default)]
pub struct CollectionDocument {
    /// Document identifier, gateway-issued.
    pub id: String,

    /// The collection the document belongs to.
    pub collection_id: String,

    /// The provider's own file id.
    pub file_id: String,

    /// Uploaded filename.
    pub filename: String,

    /// Indexing status. The upload route records `indexed` as soon as the
    /// provider accepts the file; no other value is written today.
    pub status: String,

    /// Number of chunks the document was split into. The upload route never
    /// sets it, so it is zero in practice.
    pub chunks: i64,

    /// RFC3339 upload timestamp.
    pub uploaded_at: String,
}

/// One collection with its documents — the shape
/// `GET /qai/v1/rag/collections/{id}` returns.
#[derive(Debug, Clone, Default)]
pub struct CollectionDetail {
    /// The collection itself.
    pub collection: Collection,

    /// Its documents.
    pub documents: Vec<CollectionDocument>,
}

/// Request body for `POST /qai/v1/rag/collections/search`.
#[derive(Debug, Clone, Default)]
pub struct CollectionSearchRequest {
    /// The search query. Required.
    pub query: String,

    /// Collections to search. Empty searches every collection the caller can
    /// read, their own and shared.
    pub collection_ids: Vec<String>,

    /// Maximum chunks to return across all collections. Defaults to 10.
    pub max_chunks: Option<i64>,
}

/// The document record an upload produces.
pub type CollectionUploadResult = CollectionDocument;

/// Response from `DELETE /qai/v1/rag/collections/{id}`.
#[derive(Debug, Clone, Default)]
pub struct DeleteCollectionResponse {
    /// True once the collection is gone.
    pub deleted: bool,

    /// The collection that was deleted.
    pub id: String,
}

/// Response from `GET /qai/v1/rag/collections`.
#[derive(Debug, Clone, Default)]
pub struct CollectionsListResponse {
    /// The caller's collections plus the shared ones.
    pub collections: Vec<Collection>,

    /// Gateway request identifier.
    pub request_id: String,
}

} // verus!
