use vstd::prelude::*;

verus! {

/// Options for configuring web search requests.
#[derive(Debug, Clone, Default)]
pub struct SearchOptions {
    /// Number of results to return.
    pub count: Option<i32>,

    /// Zero-based result offset for pagination.
    pub offset: Option<i32>,

    /// Country code filter (e.g. "US", "GB").
    pub country: Option<String>,

    /// Language code filter (e.g. "en", "fr").
    pub language: Option<String>,

    /// Time range filter (e.g. "24h", "7d", "30d").
    pub freshness: Option<String>,

    /// Adult content filtering ("off", "moderate", "strict").
    pub safe_search: Option<String>,
}

/// Options for configuring LLM context search requests.
#[derive(Debug, Clone, Default)]
pub struct ContextOptions {
    /// Number of context chunks to return.
    pub count: Option<i32>,

    /// Country code filter.
    pub country: Option<String>,

    /// Language code filter.
    pub language: Option<String>,

    /// Time range filter.
    pub freshness: Option<String>,
}

/// A message in a search-answer conversation.
#[derive(Debug, Clone)]
pub struct SearchMessage {
    /// Message role ("user" or "assistant").
    pub role: String,

    /// Message text content.
    pub content: String,
}

/// Request body for Brave web search.
#[derive(Debug, Clone, Default)]
pub struct WebSearchRequest {
    /// Search query string.
    pub query: String,

    /// Number of results to return.
    pub count: Option<i32>,

    /// Pagination offset.
    pub offset: Option<i32>,

    /// Country code filter (e.g. "US", "GB").
    pub country: Option<String>,

    /// Language code filter (e.g. "en", "fr").
    pub language: Option<String>,

    /// Freshness filter (e.g. "pd" for past day, "pw" for past week).
    pub freshness: Option<String>,

    /// Safe search level (e.g. "off", "moderate", "strict").
    pub safesearch: Option<String>,
}

/// A single web search result.
#[derive(Debug, Clone)]
pub struct WebResult {
    /// Page title.
    pub title: String,

    /// Page URL.
    pub url: String,

    /// Result description / snippet.
    pub description: String,

    /// Age of the result (e.g. "2 hours ago").
    pub age: Option<String>,

    /// Favicon URL.
    pub favicon: Option<String>,
}

/// A news search result.
#[derive(Debug, Clone)]
pub struct NewsResult {
    /// Article title.
    pub title: String,

    /// Article URL.
    pub url: String,

    /// Short description.
    pub description: String,

    /// Age of the article.
    pub age: Option<String>,

    /// Publisher name.
    pub source: Option<String>,
}

/// A video search result.
#[derive(Debug, Clone)]
pub struct VideoResult {
    /// Video title.
    pub title: String,

    /// Video page URL.
    pub url: String,

    /// Short description.
    pub description: String,

    /// Thumbnail URL.
    pub thumbnail: Option<String>,

    /// Age of the video.
    pub age: Option<String>,
}

/// An infobox (knowledge panel) result.
#[derive(Debug, Clone)]
pub struct Infobox {
    /// Infobox title.
    pub title: String,

    /// Long description.
    pub description: String,

    /// Source URL.
    pub url: Option<String>,
}

/// Backwards-compatible alias.
pub type InfoboxResult = Infobox;

/// A discussion / forum result.
#[derive(Debug, Clone)]
pub struct Discussion {
    /// Discussion title.
    pub title: String,

    /// Discussion URL.
    pub url: String,

    /// Short description.
    pub description: String,

    /// Age of the discussion.
    pub age: Option<String>,

    /// Forum name.
    pub forum: Option<String>,
}

/// Backwards-compatible alias.
pub type DiscussionResult = Discussion;

/// Response from the web search endpoint.
#[derive(Debug, Clone)]
pub struct WebSearchResponse {
    /// Original query.
    pub query: String,

    /// Web search results.
    pub web: Vec<WebResult>,

    /// News results.
    pub news: Vec<NewsResult>,

    /// Video results.
    pub videos: Vec<VideoResult>,

    /// Infobox / knowledge panel entries.
    pub infobox: Vec<Infobox>,

    /// Discussion / forum results.
    pub discussions: Vec<Discussion>,
}

/// Request body for search context (returns chunked page content).
#[derive(Debug, Clone, Default)]
pub struct SearchContextRequest {
    /// Search query string.
    pub query: String,

    /// Number of results to fetch context from.
    pub count: Option<i32>,

    /// Country code filter.
    pub country: Option<String>,

    /// Language code filter.
    pub language: Option<String>,

    /// Freshness filter.
    pub freshness: Option<String>,
}

/// A source reference from search context.
#[derive(Debug, Clone)]
pub struct SearchContextSource {
    /// Source URL.
    pub url: String,

    /// Source title.
    pub title: String,
}

/// A chat message for the search answer endpoint.
#[derive(Debug, Clone)]
pub struct SearchAnswerMessage {
    /// Message role ("user", "assistant", "system").
    pub role: String,

    /// Message text content.
    pub content: String,
}

/// Request body for search answer (AI-generated answer grounded in search).
#[derive(Debug, Clone, Default)]
pub struct SearchAnswerRequest {
    /// Conversation messages.
    pub messages: Vec<SearchAnswerMessage>,

    /// Model to use for answer generation.
    pub model: Option<String>,
}

/// A citation reference in a search answer.
#[derive(Debug, Clone)]
pub struct SearchAnswerCitation {
    /// Source URL.
    pub url: String,

    /// Source title.
    pub title: String,

    /// Snippet from the source.
    pub snippet: Option<String>,
}

/// A choice in the search answer response.
#[derive(Debug, Clone)]
pub struct SearchAnswerChoice {
    /// Choice index.
    pub index: i32,

    /// The generated message.
    pub message: SearchAnswerMessage,

    /// Finish reason (e.g. "stop").
    pub finish_reason: Option<String>,
}

/// Response from the search answer endpoint.
#[derive(Debug, Clone)]
pub struct SearchAnswerResponse {
    /// Generated answer choices.
    pub choices: Vec<SearchAnswerChoice>,

    /// Model that produced the answer.
    pub model: String,

    /// Unique response identifier.
    pub id: String,

    /// Citations used in the answer.
    pub citations: Vec<SearchAnswerCitation>,
}

/// Request body for Google grounded search via Gemini.
///
/// The premium search backend: Google's index rather than Brave's, billed
/// per executed query at $0.035 each. The model decides how many queries one
/// prompt becomes; `web_search_queries` on the response lists them.
#[derive(Debug, Clone, Default)]
pub struct GoogleSearchRequest {
    /// Search query string. Free-form natural language; the model will
    /// translate this into one or more concrete Google searches.
    pub query: String,
}

/// A web source returned by Google grounding.
#[derive(Debug, Clone)]
pub struct GoogleSearchCitation {
    /// Source URL (may be a Google redirect link the user can follow).
    pub url: String,

    /// Source title from the search result.
    pub title: String,
}

/// Links a span of the answer text to one or more citation indices,
/// enabling inline-citation rendering on the frontend.
#[derive(Debug, Clone)]
pub struct GoogleSearchSupport {
    /// Byte offset where this span starts in the answer text.
    pub start_index: i32,

    /// Byte offset where this span ends (exclusive).
    pub end_index: i32,

    /// The text of the span, so a renderer can match by content when the
    /// answer has been transformed and the byte offsets no longer apply.
    pub text: String,

    /// Indices into `citations` for the sources backing this span.
    pub grounding_chunk_indices: Vec<i32>,
}

/// Response from the Google grounded search endpoint.
#[derive(Debug, Clone)]
pub struct GoogleSearchResponse {
    /// The grounded answer text Gemini produced. May be empty if the
    /// model decided no answer was warranted.
    pub answer: String,

    /// Web sources Gemini grounded its answer on.
    pub citations: Vec<GoogleSearchCitation>,

    /// HTML/CSS widget of search-suggestion chips. Google's grounding terms
    /// require it to be rendered, unmodified, alongside any grounded response.
    pub search_entry_point: String,

    /// The queries Gemini executed against Google Search; each one is a
    /// billing unit.
    pub web_search_queries: Vec<String>,

    /// Inline-citation spans linking text segments to citations.
    pub supports: Vec<GoogleSearchSupport>,
}

} // verus!
