use vstd::prelude::*;

use crate::client::{backfill_ticks, backfill_text, ResponseMeta};

use crate::query::{add_encoded, add_number, add_param, add_verbatim, encoded, from_i32, from_i64, from_u32, numeral, opt_param, path_with_query, texts, verbatim, with_query};
use crate::encoding::url_encode;

verus! {

/// A voice available for TTS.
#[derive(Debug, Clone)]
pub struct Voice {
    /// Voice identifier.
    pub voice_id: String,

    /// Human-readable voice name.
    pub name: String,

    /// Voice category (e.g. "premade", "cloned", "professional").
    pub category: String,

    /// Provider (e.g. "elevenlabs", "openai", "gemini").
    pub provider: Option<String>,

    /// TTS model id to pass to `Client::speak` for this voice.
    pub model: Option<String>,

    /// Language/locale codes supported (not sent by the gateway today).
    pub languages: Option<Vec<String>>,

    /// Voice gender (not sent by the gateway today).
    pub gender: Option<String>,

    /// Whether this is a cloned voice.
    pub is_cloned: Option<bool>,

    /// Voice description.
    pub description: Option<String>,

    /// Preview audio URL.
    pub preview_url: Option<String>,
}

/// Response from listing voices.
#[derive(Debug, Clone)]
pub struct VoicesResponse {
    /// Available voices: built-in catalogs first, then the live ElevenLabs
    /// library (omitted when that fetch fails).
    pub voices: Vec<Voice>,

    /// Unique request identifier.
    pub request_id: String,
}

/// Describes an available voice with detail info.
#[derive(Debug, Clone)]
pub struct VoiceInfo {
    /// Voice identifier.
    pub voice_id: String,

    /// Human-readable voice name.
    pub name: String,

    /// Voice category (e.g. "premade", "cloned").
    pub category: String,

    /// Voice description.
    pub description: Option<String>,

    /// Preview audio URL.
    pub preview_url: Option<String>,
}

/// Request body for instant voice cloning from base64 audio samples.
#[derive(Debug, Clone, Default)]
pub struct CloneVoiceRequest {
    /// Display name for the cloned voice (required).
    pub name: String,

    /// Description of the voice.
    pub description: Option<String>,

    /// Base64-encoded audio files for cloning (at least one).
    pub audio_samples: Vec<String>,
}

/// Response from cloning a voice.
#[derive(Debug, Clone)]
pub struct CloneVoiceResponse {
    /// The new voice identifier.
    pub voice_id: String,

    /// The name assigned to the cloned voice (echo of the request).
    pub name: String,

    /// Unique request identifier.
    pub request_id: String,
}

/// Request parameters for browsing the voice library.
#[derive(Debug, Clone, Default)]
pub struct VoiceLibraryQuery {
    /// Search text. Wire param: `q`.
    pub query: Option<String>,

    /// Maximum number of results per page (gateway default 30).
    pub page_size: Option<i32>,

    /// Pagination cursor: the previous response's `last_sort_id`.
    pub cursor: Option<String>,

    /// Filter by gender.
    pub gender: Option<String>,

    /// Filter by language.
    pub language: Option<String>,

    /// Filter by use case.
    pub use_case: Option<String>,
}

/// Request body for adding a shared voice from the library.
#[derive(Debug, Clone, Default)]
pub struct AddVoiceFromLibraryRequest {
    /// Public owner identifier.
    pub public_owner_id: String,

    /// Voice identifier in the library.
    pub voice_id: String,

    /// Optional display name (defaults to the library name).
    pub name: Option<String>,
}

/// Response from adding a voice from the library.
#[derive(Debug, Clone)]
pub struct AddVoiceFromLibraryResponse {
    /// The voice ID added to the user's account.
    pub voice_id: String,

    /// Always "added".
    pub status: String,
}

/// A query value, URL-encoded.
pub fn encode_query_value(s: &str) -> (r: String)
    ensures
        r@ == crate::encoding::url_encoded(s@),
{
    url_encode(s)
}

/// The voice library parameters that are set, in wire order: `q`,
/// `page_size`, `cursor`, `gender`, `language`, `use_case`; text values
/// URL-encoded.
pub open spec fn voice_library_spec(query: VoiceLibraryQuery) -> Seq<Seq<char>> {
    opt_param("q"@, encoded(query.query)) + opt_param("page_size"@, numeral(from_i32(query.page_size)))
        + opt_param("cursor"@, encoded(query.cursor)) + opt_param("gender"@, encoded(query.gender))
        + opt_param("language"@, encoded(query.language)) + opt_param(
        "use_case"@,
        encoded(query.use_case),
    )
}

/// Builds the query parameters for the voice library route.
pub fn voice_library_params(query: &VoiceLibraryQuery) -> (r: Vec<String>)
    ensures
        texts(r@) == voice_library_spec(*query),
{
    let mut params: Vec<String> = Vec::new();
    assert(texts(params@) =~= Seq::empty());
    add_encoded(&mut params, "q", &query.query);
    add_number(&mut params, "page_size", match query.page_size {
        Some(n) => Some(n as i64),
        None => None,
    });
    add_encoded(&mut params, "cursor", &query.cursor);
    add_encoded(&mut params, "gender", &query.gender);
    add_encoded(&mut params, "language", &query.language);
    add_encoded(&mut params, "use_case", &query.use_case);
    assert(texts(params@) =~= voice_library_spec(*query));
    params
}

/// The voice library route with its query.
pub fn voice_library_path(query: &VoiceLibraryQuery) -> (r: String)
    ensures
        r@ == with_query("/qai/v1/voices/library"@, voice_library_spec(*query)),
{
    let params = voice_library_params(query);
    path_with_query("/qai/v1/voices/library", &params)
}


impl CloneVoiceResponse {
    /// Fills the request id from the response headers where the body
    /// left them empty; a value the body carried is kept.
    pub fn backfill(&mut self, meta: &ResponseMeta)
        ensures
            final(self).request_id@ == (if old(self).request_id@.len() == 0 {
                meta.request_id@
            } else {
                old(self).request_id@
            }),
            *final(self) == (CloneVoiceResponse { request_id: final(self).request_id, ..*old(self) }),
    {
        let mut id = String::new();
        std::mem::swap(&mut id, &mut self.request_id);
        self.request_id = backfill_text(id, meta.request_id.as_str());
    }
}

} // verus!
