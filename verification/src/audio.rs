use vstd::prelude::*;

use crate::client::{backfill_ticks, backfill_text, ResponseMeta};

use crate::encoding::{debug_quoted, debug_str};
use crate::error::{local_error, Error, Result};
use crate::text::{push_str, str_eq, string_from_chars};

verus! {

broadcast use vstd::string::group_string_axioms;

/// Response from text-to-speech.
#[derive(Debug, Clone)]
pub struct TextToSpeechResponse {
    /// Base64-encoded audio data.
    pub audio_base64: String,

    /// Audio format (e.g. "mp3").
    pub format: String,

    /// Audio file size.
    pub size_bytes: i64,

    /// Model that generated the audio.
    pub model: String,

    /// Total cost in ticks.
    pub cost_ticks: i64,

    /// Post-deduction credit balance in ticks.
    pub balance_after: i64,

    /// Unique request identifier.
    pub request_id: String,
}

/// Backwards-compatible alias.
pub type TtsResponse = TextToSpeechResponse;

/// Request body for speech-to-text.
#[derive(Debug, Clone, Default)]
pub struct SpeechToTextRequest {
    /// STT model (e.g. "whisper-1", "scribe_v2").
    pub model: String,

    /// Base64-encoded audio data.
    pub audio_base64: String,

    /// Original filename (helps with format detection). Default: "audio.mp3".
    pub filename: Option<String>,

    /// BCP-47 language code hint (e.g. "en", "de").
    pub language: Option<String>,
}

/// Backwards-compatible alias.
pub type SttRequest = SpeechToTextRequest;

/// Response from speech-to-text.
#[derive(Debug, Clone)]
pub struct SpeechToTextResponse {
    /// Transcribed text.
    pub text: String,

    /// Model that performed transcription.
    pub model: String,

    /// Total cost in ticks.
    pub cost_ticks: i64,

    /// Post-deduction credit balance in ticks.
    pub balance_after: i64,

    /// Unique request identifier.
    pub request_id: String,
}

/// Backwards-compatible alias.
pub type SttResponse = SpeechToTextResponse;

/// Request body for music generation.
#[derive(Debug, Clone, Default)]
pub struct MusicRequest {
    /// Music generation model (e.g. "lyria").
    pub model: String,

    /// Describes the music to generate.
    pub prompt: String,

    /// Target duration in seconds (default 30).
    pub duration_seconds: Option<i32>,
}

/// Response from music generation.
#[derive(Debug, Clone)]
pub struct MusicResponse {
    /// Generated music clips.
    pub audio_clips: Vec<MusicClip>,

    /// Model that generated the music.
    pub model: String,

    /// Total cost in ticks.
    pub cost_ticks: i64,

    /// Post-deduction credit balance in ticks.
    pub balance_after: i64,

    /// Unique request identifier.
    pub request_id: String,
}

/// A single generated music clip.
#[derive(Debug, Clone)]
pub struct MusicClip {
    /// Base64-encoded audio data.
    pub base64: String,

    /// Audio format (e.g. "mp3", "wav").
    pub format: String,

    /// Audio file size.
    pub size_bytes: i64,

    /// Clip index within the batch.
    pub index: i32,
}

/// Response from sound effects generation.
#[derive(Debug, Clone)]
pub struct SoundEffectResponse {
    /// Base64-encoded audio data.
    pub audio_base64: String,

    /// Audio format (e.g. "mp3").
    pub format: String,

    /// File size in bytes.
    pub size_bytes: i64,

    /// Model used.
    pub model: String,

    /// Total cost in ticks.
    pub cost_ticks: i64,

    /// Unique request identifier.
    pub request_id: String,
}

/// A single dialogue turn, used to build a [`DialogueRequest`] with
/// [`DialogueRequest::from_turns`].
#[derive(Debug, Clone, Default)]
pub struct DialogueTurn {
    /// Speaker name or identifier.
    pub speaker: String,

    /// Text for this speaker to say.
    pub text: String,

    /// Voice ID for this speaker. A speaker needs a voice on at least one
    /// of its turns; every turn of the same speaker must agree.
    pub voice: Option<String>,
}

/// Voice mapping for ElevenLabs dialogue.
#[derive(Debug, Clone)]
pub struct DialogueVoice {
    pub voice_id: String,
    pub name: String,
}

/// Request body for dialogue generation: `text` (the full script) plus
/// `voices` (speaker-to-voice mapping). Billed per character of `text`.
#[derive(Debug, Clone, Default)]
pub struct DialogueRequest {
    /// Full dialogue script (e.g. "Speaker1: Hello!\nSpeaker2: Hi there!").
    pub text: String,

    /// Voice mappings: each speaker name mapped to a voice_id (at least one).
    pub voices: Vec<DialogueVoice>,

    /// Dialogue model (default "eleven_v3").
    pub model: Option<String>,

    /// Output audio format.
    pub output_format: Option<String>,

    /// Seed for reproducible generation.
    pub seed: Option<i32>,
}

/// One line of the script: `speaker: text`.
pub open spec fn turn_line(t: DialogueTurn) -> Seq<char> {
    t.speaker@ + ": "@ + t.text@
}

/// The script: one line per turn, in order, joined by `\n`.
pub open spec fn dialogue_script(turns: Seq<DialogueTurn>) -> Seq<char>
    decreases turns.len(),
{
    if turns.len() == 0 {
        Seq::empty()
    } else if turns.len() == 1 {
        turn_line(turns[0])
    } else {
        dialogue_script(turns.drop_last()) + "\n"@ + turn_line(turns.last())
    }
}

/// A voice mapping as `(speaker, voice id)` pairs.
pub open spec fn voice_pairs(vs: Seq<DialogueVoice>) -> Seq<(Seq<char>, Seq<char>)> {
    vs.map_values(|v: DialogueVoice| (v.name@, v.voice_id@))
}

/// The voice mapped to `name`, if any.
pub open spec fn voice_for(vs: Seq<(Seq<char>, Seq<char>)>, name: Seq<char>) -> Option<Seq<char>>
    decreases vs.len(),
{
    if vs.len() == 0 {
        None
    } else if vs.last().0 == name {
        Some(vs.last().1)
    } else {
        voice_for(vs.drop_last(), name)
    }
}

/// The speaker-to-voice mapping the turns give, one pair per speaker in
/// order of first appearance of a voice; or the first conflict, as
/// `(speaker, voice mapped before, voice that disagrees)`.
pub open spec fn voice_mapping(turns: Seq<DialogueTurn>) -> std::result::Result<
    Seq<(Seq<char>, Seq<char>)>,
    (Seq<char>, Seq<char>, Seq<char>),
>
    decreases turns.len(),
{
    if turns.len() == 0 {
        Ok(Seq::empty())
    } else {
        match voice_mapping(turns.drop_last()) {
            Err(c) => Err(c),
            Ok(vs) => {
                let t = turns.last();
                match t.voice {
                    None => Ok(vs),
                    Some(v) => match voice_for(vs, t.speaker@) {
                        Some(existing) => if existing == v@ {
                            Ok(vs)
                        } else {
                            Err((t.speaker@, existing, v@))
                        },
                        None => Ok(vs.push((t.speaker@, v@))),
                    },
                }
            },
        }
    }
}

/// The speaker of the first turn whose speaker has no voice in `vs`.
pub open spec fn first_unmapped(turns: Seq<DialogueTurn>, vs: Seq<(Seq<char>, Seq<char>)>) -> Option<
    Seq<char>,
>
    decreases turns.len(),
{
    if turns.len() == 0 {
        None
    } else {
        match first_unmapped(turns.drop_last(), vs) {
            Some(s) => Some(s),
            None => if voice_for(vs, turns.last().speaker@) is None {
                Some(turns.last().speaker@)
            } else {
                None
            },
        }
    }
}

/// The message for a speaker mapped to two voices.
pub open spec fn conflict_message(speaker: Seq<char>, first: Seq<char>, second: Seq<char>) -> Seq<
    char,
> {
    "speaker "@ + debug_quoted(speaker) + " maps to both voice "@ + debug_quoted(first)
        + " and voice "@ + debug_quoted(second)
}

/// The message for a speaker with no voice.
pub open spec fn unmapped_message(speaker: Seq<char>) -> Seq<char> {
    "speaker "@ + debug_quoted(speaker) + " has no voice on any turn"@
}

/// The local `invalid_request` error with the given message.
pub open spec fn local_invalid(r: Error, message: Seq<char>) -> bool {
    r matches Error::Api(e) && e.status_code == 0 && e.code@ == "invalid_request"@ && e.message@
        == message && e.request_id@.len() == 0
}

/// Once the mapping of a prefix has failed, the mapping of the whole fails
/// the same way.
proof fn lemma_conflict_persists(turns: Seq<DialogueTurn>, k: int)
    requires
        0 <= k <= turns.len(),
        voice_mapping(turns.take(k)) is Err,
    ensures
        voice_mapping(turns) == voice_mapping(turns.take(k)),
    decreases turns.len(),
{
    if k == turns.len() {
        assert(turns.take(k) =~= turns);
    } else {
        assert(turns.drop_last().take(k) =~= turns.take(k));
        lemma_conflict_persists(turns.drop_last(), k);
    }
}

/// Once a prefix has an unmapped speaker, the first one of the whole is
/// that one.
proof fn lemma_unmapped_persists(
    turns: Seq<DialogueTurn>,
    vs: Seq<(Seq<char>, Seq<char>)>,
    k: int,
)
    requires
        0 <= k <= turns.len(),
        first_unmapped(turns.take(k), vs) is Some,
    ensures
        first_unmapped(turns, vs) == first_unmapped(turns.take(k), vs),
    decreases turns.len(),
{
    if k == turns.len() {
        assert(turns.take(k) =~= turns);
    } else {
        assert(turns.drop_last().take(k) =~= turns.take(k));
        lemma_unmapped_persists(turns.drop_last(), vs, k);
    }
}

/// The index of the entry for `name`, searched from the end.
fn find_voice(voices: &Vec<DialogueVoice>, name: &str) -> (r: Option<usize>)
    ensures
        match r {
            Some(j) => j < voices@.len() && voice_for(voice_pairs(voices@), name@) == Some(
                voices@[j as int].voice_id@,
            ),
            None => voice_for(voice_pairs(voices@), name@) is None,
        },
{
    let mut i: usize = voices.len();
    assert(voices@.take(i as int) =~= voices@);
    while i > 0
        invariant
            i <= voices@.len(),
            voice_for(voice_pairs(voices@), name@) == voice_for(
                voice_pairs(voices@.take(i as int)),
                name@,
            ),
        decreases i,
    {
        let ghost pre = voice_pairs(voices@.take(i as int));
        assert(pre.drop_last() =~= voice_pairs(voices@.take(i - 1)));
        assert(pre.last() == (voices@[i - 1].name@, voices@[i - 1].voice_id@));
        if str_eq(voices[i - 1].name.as_str(), name) {
            return Some(i - 1);
        }
        i = i - 1;
    }
    None
}

/// The script of the turns: `speaker: text` lines joined by `\n`.
fn build_script(turns: &Vec<DialogueTurn>) -> (r: String)
    ensures
        r@ == dialogue_script(turns@),
{
    let mut acc: Vec<char> = Vec::new();
    let mut i: usize = 0;
    while i < turns.len()
        invariant
            i <= turns@.len(),
            acc@ == dialogue_script(turns@.take(i as int)),
        decreases turns@.len() - i,
    {
        let t = &turns[i];
        assert(turns@.take(i + 1).drop_last() =~= turns@.take(i as int));
        if i > 0 {
            push_str(&mut acc, "\n");
        }
        push_str(&mut acc, t.speaker.as_str());
        push_str(&mut acc, ": ");
        push_str(&mut acc, t.text.as_str());
        i = i + 1;
        assert(acc@ =~= dialogue_script(turns@.take(i as int)));
    }
    assert(turns@.take(turns@.len() as int) =~= turns@);
    string_from_chars(acc)
}

fn conflict_error(speaker: &str, first: &str, second: &str) -> (e: Error)
    ensures
        local_invalid(e, conflict_message(speaker@, first@, second@)),
{
    let mut m: Vec<char> = Vec::new();
    push_str(&mut m, "speaker ");
    push_str(&mut m, debug_str(speaker).as_str());
    push_str(&mut m, " maps to both voice ");
    push_str(&mut m, debug_str(first).as_str());
    push_str(&mut m, " and voice ");
    push_str(&mut m, debug_str(second).as_str());
    local_invalid_request(string_from_chars(m))
}

fn unmapped_error(speaker: &str) -> (e: Error)
    ensures
        local_invalid(e, unmapped_message(speaker@)),
{
    let mut m: Vec<char> = Vec::new();
    push_str(&mut m, "speaker ");
    push_str(&mut m, debug_str(speaker).as_str());
    push_str(&mut m, " has no voice on any turn");
    local_invalid_request(string_from_chars(m))
}

/// An `invalid_request` error raised locally (status 0).
pub fn local_invalid_request(message: String) -> (e: Error)
    ensures
        local_invalid(e, message@),
{
    local_error("invalid_request", message)
}

impl DialogueRequest {
    /// Builds a request from individual turns: the script becomes
    /// "Speaker: text" lines and `voices` gets one entry per speaker, in
    /// order of first appearance.
    ///
    /// Every speaker must carry a voice on at least one turn, and all of a
    /// speaker's turns must name the same voice; otherwise this returns an
    /// `invalid_request` error (status 0, raised locally) rather than
    /// sending a script the gateway would bill with an unmapped speaker.
    pub fn from_turns(turns: Vec<DialogueTurn>, model: Option<String>) -> (r: Result<DialogueRequest>)
        ensures
            match voice_mapping(turns@) {
                Err((s, first, second)) => r matches Err(e) && local_invalid(
                    e,
                    conflict_message(s, first, second),
                ),
                Ok(vs) => match first_unmapped(turns@, vs) {
                    Some(s) => r matches Err(e) && local_invalid(e, unmapped_message(s)),
                    None => r matches Ok(req) && req.text@ == dialogue_script(turns@)
                        && voice_pairs(req.voices@) == vs && req.model == model
                        && req.output_format is None && req.seed is None,
                },
            },
            r is Ok <==> (every_speaker_voiced(turns@) && voices_agree(turns@)),
    {
        let ghost ts = turns@;
        let r = DialogueRequest::checked_from_turns(turns, model);
        proof {
            lemma_dialogue_accepted_iff(ts);
        }
        r
    }

    /// [`from_turns`](Self::from_turns), stated step by step over the
    /// mapping the turns build.
    fn checked_from_turns(turns: Vec<DialogueTurn>, model: Option<String>) -> (r: Result<DialogueRequest>)
        ensures
            match voice_mapping(turns@) {
                Err((s, first, second)) => r matches Err(e) && local_invalid(
                    e,
                    conflict_message(s, first, second),
                ),
                Ok(vs) => match first_unmapped(turns@, vs) {
                    Some(s) => r matches Err(e) && local_invalid(e, unmapped_message(s)),
                    None => r matches Ok(req) && req.text@ == dialogue_script(turns@)
                        && voice_pairs(req.voices@) == vs && req.model == model
                        && req.output_format is None && req.seed is None,
                },
            },
    {
        let text = build_script(&turns);
        let mut voices: Vec<DialogueVoice> = Vec::new();
        let mut i: usize = 0;
        assert(turns@.take(0) =~= Seq::<DialogueTurn>::empty());
        assert(voice_pairs(voices@) =~= Seq::empty());
        while i < turns.len()
            invariant
                i <= turns@.len(),
                voice_mapping(turns@.take(i as int)) == std::result::Result::<_, (Seq<char>, Seq<char>, Seq<char>)>::Ok(
                    voice_pairs(voices@),
                ),
            decreases turns@.len() - i,
        {
            let t = &turns[i];
            assert(turns@.take(i + 1).drop_last() =~= turns@.take(i as int));
            assert(turns@.take(i + 1).last() == turns@[i as int]);
            match &t.voice {
                None => {},
                Some(v) => match find_voice(&voices, t.speaker.as_str()) {
                    Some(j) => {
                        if !str_eq(voices[j].voice_id.as_str(), v.as_str()) {
                            proof {
                                lemma_conflict_persists(turns@, i + 1);
                            }
                            return Err(
                                conflict_error(
                                    t.speaker.as_str(),
                                    voices[j].voice_id.as_str(),
                                    v.as_str(),
                                ),
                            );
                        }
                    },
                    None => {
                        let ghost before = voices@;
                        voices.push(DialogueVoice { voice_id: v.clone(), name: t.speaker.clone() });
                        assert(voice_pairs(voices@) =~= voice_pairs(before).push(
                            (t.speaker@, v@),
                        ));
                    },
                },
            }
            i = i + 1;
        }
        assert(turns@.take(turns@.len() as int) =~= turns@);
        let ghost vs = voice_pairs(voices@);
        let mut k: usize = 0;
        while k < turns.len()
            invariant
                k <= turns@.len(),
                vs == voice_pairs(voices@),
                voice_mapping(turns@) == std::result::Result::<_, (Seq<char>, Seq<char>, Seq<char>)>::Ok(
                    vs,
                ),
                first_unmapped(turns@.take(k as int), vs) is None,
            decreases turns@.len() - k,
        {
            let t = &turns[k];
            assert(turns@.take(k + 1).drop_last() =~= turns@.take(k as int));
            assert(turns@.take(k + 1).last() == turns@[k as int]);
            if find_voice(&voices, t.speaker.as_str()).is_none() {
                proof {
                    lemma_unmapped_persists(turns@, vs, k + 1);
                }
                return Err(unmapped_error(t.speaker.as_str()));
            }
            k = k + 1;
        }
        assert(turns@.take(turns@.len() as int) =~= turns@);
        Ok(DialogueRequest { text, voices, model, output_format: None, seed: None })
    }
}

/// Response from dialogue generation.
#[derive(Debug, Clone)]
pub struct DialogueResponse {
    /// Base64-encoded audio data.
    pub audio_base64: String,

    /// Audio format (e.g. "mp3").
    pub format: String,

    /// File size in bytes.
    pub size_bytes: i64,

    /// Model used.
    pub model: String,

    /// Total cost in ticks.
    pub cost_ticks: i64,

    /// Unique request identifier.
    pub request_id: String,
}

/// Request body for speech-to-speech conversion (ElevenLabs).
///
/// The gateway fixes the model to `eleven_multilingual_v2` and the provider
/// default output format; neither can be chosen per request.
#[derive(Debug, Clone, Default)]
pub struct SpeechToSpeechRequest {
    /// Target voice identifier (required).
    pub voice_id: String,

    /// Base64-encoded source audio (required).
    pub audio_base64: String,
}

/// Response from speech-to-speech conversion.
#[derive(Debug, Clone)]
pub struct SpeechToSpeechResponse {
    /// Base64-encoded audio data.
    pub audio_base64: String,

    /// Audio format (e.g. "mp3").
    pub format: String,

    /// File size in bytes.
    pub size_bytes: i64,

    /// Model used.
    pub model: String,

    /// Total cost in ticks.
    pub cost_ticks: i64,

    /// Unique request identifier.
    pub request_id: String,
}

/// Request body for voice isolation. The output format is the provider
/// default and cannot be chosen.
#[derive(Debug, Clone, Default)]
pub struct IsolateVoiceRequest {
    /// Base64-encoded audio to isolate voice from.
    pub audio_base64: String,

    /// Original filename (helps detect the container format).
    pub filename: Option<String>,
}

/// Backwards-compatible alias.
pub type IsolateRequest = IsolateVoiceRequest;

/// Response from voice isolation.
#[derive(Debug, Clone)]
pub struct IsolateVoiceResponse {
    /// Base64-encoded audio data.
    pub audio_base64: String,

    /// Audio format (e.g. "mp3").
    pub format: String,

    /// File size in bytes.
    pub size_bytes: i64,

    /// Total cost in ticks.
    pub cost_ticks: i64,

    /// Unique request identifier.
    pub request_id: String,
}

/// Request body for voice remixing (ElevenLabs voice remix). Only
/// `audio_base64` is required; the remaining knobs steer the remix and are
/// forwarded as-is. Billed flat per request.
#[derive(Debug, Clone, Default)]
pub struct RemixVoiceRequest {
    /// Base64-encoded source audio (required).
    pub audio_base64: String,

    /// Original filename (helps detect the container format).
    pub filename: Option<String>,

    /// Target gender for the remixed voice.
    pub gender: Option<String>,

    /// Target accent.
    pub accent: Option<String>,

    /// Target speaking style.
    pub style: Option<String>,

    /// Target pacing.
    pub pacing: Option<String>,

    /// Audio quality setting.
    pub audio_quality: Option<String>,

    /// How strongly the attributes steer the remix.
    pub prompt_strength: Option<String>,

    /// Script to speak in the remixed voice.
    pub script: Option<String>,
}

/// Backwards-compatible alias.
pub type RemixRequest = RemixVoiceRequest;

/// Response from voice remixing.
#[derive(Debug, Clone)]
pub struct RemixVoiceResponse {
    /// Base64-encoded audio data (absent when the provider returned none).
    pub audio_base64: Option<String>,

    /// Audio format.
    pub format: String,

    /// File size in bytes.
    pub size_bytes: i64,

    /// Identifier of the remixed voice, when the provider created one.
    pub voice_id: Option<String>,

    /// Total cost in ticks.
    pub cost_ticks: i64,

    /// Unique request identifier.
    pub request_id: String,
}

/// Request body for audio dubbing.
#[derive(Debug, Clone, Default)]
pub struct DubRequest {
    /// Base64-encoded source audio or video.
    pub audio_base64: Option<String>,

    /// Original filename (helps detect format).
    pub filename: Option<String>,

    /// URL to source media (alternative to audio_base64).
    pub source_url: Option<String>,

    /// Target language (BCP-47 code, e.g. "es", "de").
    pub target_lang: String,

    /// Source language (auto-detected if omitted).
    pub source_lang: Option<String>,

    /// Number of speakers (optional).
    pub num_speakers: Option<i32>,

    /// Enable highest quality processing.
    pub highest_resolution: Option<bool>,
}

/// Request body for audio alignment / forced alignment.
#[derive(Debug, Clone, Default)]
pub struct AlignRequest {
    /// Base64-encoded audio data.
    pub audio_base64: String,

    /// Original filename (helps detect the container format).
    pub filename: Option<String>,

    /// Transcript text to align against the audio.
    pub text: String,

    /// Language code.
    pub language: Option<String>,
}

/// Request body for voice design (generating a voice from a description).
/// The preview format is the provider default and cannot be chosen.
#[derive(Debug, Clone, Default)]
pub struct VoiceDesignRequest {
    /// Text description of the desired voice.
    pub description: String,

    /// Sample text to speak with the designed voice.
    pub text: String,
}

/// Response from voice design: several candidate voices, each with a
/// preview clip. Save the chosen `generated_voice_id` to keep it.
#[derive(Debug, Clone)]
pub struct VoiceDesignResponse {
    /// Candidate voices.
    pub previews: Vec<VoicePreview>,

    /// Total cost in ticks.
    pub cost_ticks: i64,

    /// Unique request identifier.
    pub request_id: String,
}

/// A single voice preview from voice design.
#[derive(Debug, Clone)]
pub struct VoicePreview {
    /// Identifier of the candidate voice.
    pub generated_voice_id: String,

    /// Base64-encoded preview audio.
    pub audio_base64: String,

    /// Audio format of the preview.
    pub format: String,
}

/// A section within an Eleven Music generation request.
#[derive(Debug, Clone, Default)]
pub struct MusicSection {
    pub section_type: String,
    pub lyrics: Option<String>,
    pub style: Option<String>,
    pub style_exclude: Option<String>,
}

/// Request body for advanced music generation (ElevenLabs Eleven Music).
/// Either `prompt` or `sections` is required.
#[derive(Debug, Clone, Default)]
pub struct ElevenMusicRequest {
    /// Music model (default "music_v1").
    pub model: Option<String>,

    /// Describes the music to generate.
    pub prompt: String,

    /// Structured sections (verse, chorus, …) with lyrics and style.
    pub sections: Option<Vec<MusicSection>>,

    /// Target duration in seconds (default 30). Cost scales with duration.
    pub duration_seconds: Option<i32>,

    /// Accepted by the gateway but not forwarded to the provider yet; steer
    /// language through the prompt or lyrics instead.
    pub language: Option<String>,

    /// Include vocals.
    pub vocals: Option<bool>,

    /// Global style.
    pub style: Option<String>,

    /// Styles to avoid.
    pub style_exclude: Option<String>,

    /// Finetune to generate with (see `Client::list_finetunes`).
    pub finetune_id: Option<String>,
}

/// A single music clip from advanced generation.
#[derive(Debug, Clone)]
pub struct ElevenMusicClip {
    /// Base64-encoded audio data.
    pub base64: String,
    /// Audio format (e.g. "mp3").
    pub format: String,
    /// File size in bytes.
    pub size: i64,
}

/// Response from advanced music generation.
#[derive(Debug, Clone)]
pub struct ElevenMusicResponse {
    /// Generated music clips.
    pub clips: Vec<ElevenMusicClip>,
    /// Model used.
    pub model: String,
    /// Total cost in ticks.
    pub cost_ticks: i64,
    /// Unique request identifier.
    pub request_id: String,
}

/// A music finetune as the gateway reports it. Creation returns `id` and
/// `status` only; `model_id` appears once training has produced a model.
#[derive(Debug, Clone)]
pub struct FinetuneInfo {
    /// Finetune identifier.
    pub id: String,

    /// Training status.
    pub status: String,

    /// Model id to pass as `finetune_id`, once available.
    pub model_id: Option<String>,
}

/// Response from listing finetunes.
#[derive(Debug, Clone)]
pub struct ListFinetunesResponse {
    /// Finetunes on the account.
    pub finetunes: Vec<FinetuneInfo>,
}

/// Request body for creating a music finetune.
#[derive(Debug, Clone, Default)]
pub struct MusicFinetuneCreateRequest {
    /// Display name (required).
    pub name: String,

    /// Description.
    pub description: Option<String>,

    /// Base64-encoded training audio files (at least one).
    pub samples: Vec<String>,
}

/// Response from `POST /qai/v1/audio/stt/realtime-token`.
#[derive(Debug, Clone, Default)]
pub struct RealtimeSttTokenResponse {
    /// Realtime credential. Pass it as the `token` query parameter on the
    /// WebSocket connect.
    pub token: String,

    /// Token lifetime in seconds (900 — 15 minutes).
    pub expires_in: i64,

    /// WebSocket endpoint the token authenticates against.
    pub ws_endpoint: String,

    /// Ticks charged for the session estimate.
    pub cost_ticks: i64,

    /// Gateway request identifier.
    pub request_id: String,
}

/// Adding a pair for a new name leaves every other name's voice as it
/// was.
proof fn lemma_voice_for_push(
    vs: Seq<(Seq<char>, Seq<char>)>,
    pair: (Seq<char>, Seq<char>),
    name: Seq<char>,
)
    ensures
        voice_for(vs.push(pair), name) == (if pair.0 == name {
            Some(pair.1)
        } else {
            voice_for(vs, name)
        }),
{
    assert(vs.push(pair).drop_last() =~= vs);
}

/// A name `voice_for` does not find is on no pair.
proof fn lemma_voice_for_none(vs: Seq<(Seq<char>, Seq<char>)>, name: Seq<char>)
    requires
        voice_for(vs, name) is None,
    ensures
        forall|i: int| 0 <= i < vs.len() ==> (#[trigger] vs[i]).0 != name,
    decreases vs.len(),
{
    if vs.len() > 0 {
        lemma_voice_for_none(vs.drop_last(), name);
        assert forall|i: int| 0 <= i < vs.len() implies (#[trigger] vs[i]).0 != name by {
            if i < vs.len() - 1 {
                assert(vs.drop_last()[i] == vs[i]);
            }
        }
    }
}

/// The mapping names each speaker once, and gives every turn that carries
/// a voice the voice it carries.
proof fn lemma_mapping_facts(turns: Seq<DialogueTurn>)
    requires
        voice_mapping(turns) is Ok,
    ensures
        ({
            let vs = voice_mapping(turns)->Ok_0;
            &&& forall|i: int, j: int|
                0 <= i < j < vs.len() ==> (#[trigger] vs[i]).0 != (#[trigger] vs[j]).0
            &&& forall|k: int|
                0 <= k < turns.len() && (#[trigger] turns[k]).voice is Some ==> voice_for(
                    vs,
                    turns[k].speaker@,
                ) == Some(turns[k].voice->0@)
        }),
    decreases turns.len(),
{
    if turns.len() > 0 {
        let prev = turns.drop_last();
        lemma_mapping_facts(prev);
        let pvs = voice_mapping(prev)->Ok_0;
        let vs = voice_mapping(turns)->Ok_0;
        let t = turns.last();
        if t.voice is Some && voice_for(pvs, t.speaker@) is None {
            let pair = (t.speaker@, t.voice->0@);
            assert(vs == pvs.push(pair));
            lemma_voice_for_none(pvs, t.speaker@);
            assert forall|k: int|
                0 <= k < turns.len() && (#[trigger] turns[k]).voice is Some implies voice_for(
                vs,
                turns[k].speaker@,
            ) == Some(turns[k].voice->0@) by {
                lemma_voice_for_push(pvs, pair, turns[k].speaker@);
                if k < turns.len() - 1 {
                    assert(prev[k] == turns[k]);
                }
            }
        } else {
            assert(vs == pvs);
            assert forall|k: int|
                0 <= k < turns.len() && (#[trigger] turns[k]).voice is Some implies voice_for(
                vs,
                turns[k].speaker@,
            ) == Some(turns[k].voice->0@) by {
                if k < turns.len() - 1 {
                    assert(prev[k] == turns[k]);
                }
            }
        }
    }
}

/// When no speaker is unmapped, every turn's speaker has a voice.
proof fn lemma_no_unmapped(turns: Seq<DialogueTurn>, vs: Seq<(Seq<char>, Seq<char>)>)
    requires
        first_unmapped(turns, vs) is None,
    ensures
        forall|k: int| 0 <= k < turns.len() ==> voice_for(vs, (#[trigger] turns[k]).speaker@) is Some,
    decreases turns.len(),
{
    if turns.len() > 0 {
        lemma_no_unmapped(turns.drop_last(), vs);
        assert forall|k: int| 0 <= k < turns.len() implies voice_for(
            vs,
            (#[trigger] turns[k]).speaker@,
        ) is Some by {
            if k < turns.len() - 1 {
                assert(turns.drop_last()[k] == turns[k]);
            }
        }
    }
}

/// When [`DialogueRequest::from_turns`] succeeds, its mapping names each
/// speaker of the script exactly once, every turn's speaker has a voice in
/// it, and a turn that names a voice gets that voice.
pub proof fn lemma_dialogue_maps_every_speaker(turns: Seq<DialogueTurn>)
    requires
        voice_mapping(turns) is Ok,
        first_unmapped(turns, voice_mapping(turns)->Ok_0) is None,
    ensures
        ({
            let vs = voice_mapping(turns)->Ok_0;
            &&& forall|i: int, j: int|
                0 <= i < j < vs.len() ==> (#[trigger] vs[i]).0 != (#[trigger] vs[j]).0
            &&& forall|k: int|
                0 <= k < turns.len() ==> voice_for(vs, (#[trigger] turns[k]).speaker@) is Some
            &&& forall|k: int|
                0 <= k < turns.len() && (#[trigger] turns[k]).voice is Some ==> voice_for(
                    vs,
                    turns[k].speaker@,
                ) == Some(turns[k].voice->0@)
        }),
{
    lemma_mapping_facts(turns);
    lemma_no_unmapped(turns, voice_mapping(turns)->Ok_0);
}

/// Every speaker of the script has at least one turn that names a voice.
pub open spec fn every_speaker_voiced(turns: Seq<DialogueTurn>) -> bool {
    forall|k: int|
        0 <= k < turns.len() ==> exists|j: int|
            #![trigger turns[j]]
            0 <= j < turns.len() && turns[j].voice is Some && turns[j].speaker@ == (
            #[trigger] turns[k]).speaker@
}

/// All turns of one speaker that name a voice name the same voice.
pub open spec fn voices_agree(turns: Seq<DialogueTurn>) -> bool {
    forall|i: int, j: int|
        0 <= i < turns.len() && 0 <= j < turns.len() && (#[trigger] turns[i]).voice is Some && (
        #[trigger] turns[j]).voice is Some && turns[i].speaker@ == turns[j].speaker@
            ==> turns[i].voice->0@ == turns[j].voice->0@
}

/// A voice the mapping gives a name comes from a turn of that speaker
/// that names it.
proof fn lemma_mapping_source(turns: Seq<DialogueTurn>, name: Seq<char>)
    requires
        voice_mapping(turns) is Ok,
        voice_for(voice_mapping(turns)->Ok_0, name) is Some,
    ensures
        exists|k: int|
            0 <= k < turns.len() && (#[trigger] turns[k]).voice is Some && turns[k].speaker@
                == name && turns[k].voice->0@ == voice_for(voice_mapping(turns)->Ok_0, name)->0,
    decreases turns.len(),
{
    if turns.len() == 0 {
        assert(voice_for(voice_mapping(turns)->Ok_0, name) is None);
    } else {
        let prev = turns.drop_last();
        let pvs = voice_mapping(prev)->Ok_0;
        let vs = voice_mapping(turns)->Ok_0;
        let t = turns.last();
        let last: int = turns.len() - 1;
        if t.voice is Some && voice_for(pvs, t.speaker@) is None {
            let pair = (t.speaker@, t.voice->0@);
            assert(vs == pvs.push(pair));
            lemma_voice_for_push(pvs, pair, name);
            if t.speaker@ == name {
                assert(turns[last] == t);
            } else {
                lemma_mapping_source(prev, name);
                let k = choose|k: int|
                    0 <= k < prev.len() && (#[trigger] prev[k]).voice is Some && prev[k].speaker@
                        == name && prev[k].voice->0@ == voice_for(pvs, name)->0;
                assert(turns[k] == prev[k]);
            }
        } else {
            assert(vs == pvs);
            lemma_mapping_source(prev, name);
            let k = choose|k: int|
                0 <= k < prev.len() && (#[trigger] prev[k]).voice is Some && prev[k].speaker@
                    == name && prev[k].voice->0@ == voice_for(pvs, name)->0;
            assert(turns[k] == prev[k]);
        }
    }
}

/// When voiced turns agree, the mapping finds no conflict.
proof fn lemma_agreeing_turns_map(turns: Seq<DialogueTurn>)
    requires
        voices_agree(turns),
    ensures
        voice_mapping(turns) is Ok,
    decreases turns.len(),
{
    if turns.len() > 0 {
        let prev = turns.drop_last();
        let last: int = turns.len() - 1;
        assert forall|i: int, j: int|
            0 <= i < prev.len() && 0 <= j < prev.len() && (#[trigger] prev[i]).voice is Some && (
            #[trigger] prev[j]).voice is Some && prev[i].speaker@ == prev[j].speaker@ implies prev[i].voice->0@
            == prev[j].voice->0@ by {
            assert(prev[i] == turns[i] && prev[j] == turns[j]);
        }
        lemma_agreeing_turns_map(prev);
        let pvs = voice_mapping(prev)->Ok_0;
        let t = turns.last();
        if t.voice is Some && voice_for(pvs, t.speaker@) is Some {
            lemma_mapping_source(prev, t.speaker@);
            let k = choose|k: int|
                0 <= k < prev.len() && (#[trigger] prev[k]).voice is Some && prev[k].speaker@
                    == t.speaker@ && prev[k].voice->0@ == voice_for(pvs, t.speaker@)->0;
            assert(turns[k] == prev[k]);
            assert(turns[last] == t);
        }
    }
}

/// When every turn's speaker has a voice in `vs`, none is unmapped.
proof fn lemma_all_mapped(turns: Seq<DialogueTurn>, vs: Seq<(Seq<char>, Seq<char>)>)
    requires
        forall|k: int| 0 <= k < turns.len() ==> voice_for(vs, (#[trigger] turns[k]).speaker@) is Some,
    ensures
        first_unmapped(turns, vs) is None,
    decreases turns.len(),
{
    if turns.len() > 0 {
        let prev = turns.drop_last();
        assert forall|k: int| 0 <= k < prev.len() implies voice_for(vs, (#[trigger] prev[k]).speaker@) is Some by {
            assert(prev[k] == turns[k]);
        }
        lemma_all_mapped(prev, vs);
        assert(turns[turns.len() - 1] == turns.last());
    }
}

/// [`DialogueRequest::from_turns`] accepts the turns exactly when every
/// speaker has a turn that names a voice and all the voiced turns of one
/// speaker name the same voice; otherwise it refuses them with a local
/// `invalid_request` error.
pub proof fn lemma_dialogue_accepted_iff(turns: Seq<DialogueTurn>)
    ensures
        (voice_mapping(turns) is Ok && first_unmapped(turns, voice_mapping(turns)->Ok_0) is None)
            <==> (every_speaker_voiced(turns) && voices_agree(turns)),
{
    if voice_mapping(turns) is Ok {
        let vs = voice_mapping(turns)->Ok_0;
        lemma_mapping_facts(turns);
        assert(voices_agree(turns));
        if first_unmapped(turns, vs) is None {
            lemma_no_unmapped(turns, vs);
            assert forall|k: int| 0 <= k < turns.len() implies exists|j: int|
                #![trigger turns[j]]
                0 <= j < turns.len() && turns[j].voice is Some && turns[j].speaker@ == (
                #[trigger] turns[k]).speaker@ by {
                assert(voice_for(vs, turns[k].speaker@) is Some);
                lemma_mapping_source(turns, turns[k].speaker@);
            }
        } else {
            if every_speaker_voiced(turns) {
                assert forall|k: int| 0 <= k < turns.len() implies voice_for(
                    vs,
                    (#[trigger] turns[k]).speaker@,
                ) is Some by {
                    let j = choose|j: int|
                        #![trigger turns[j]]
                        0 <= j < turns.len() && turns[j].voice is Some && turns[j].speaker@
                            == turns[k].speaker@;
                    assert(voice_for(vs, turns[j].speaker@) == Some(turns[j].voice->0@));
                }
                lemma_all_mapped(turns, vs);
            }
        }
    } else {
        if voices_agree(turns) {
            lemma_agreeing_turns_map(turns);
        }
    }
}


impl TextToSpeechResponse {
    /// Fills the cost and the request id from the response headers where the body
    /// left them empty; a value the body carried is kept.
    pub fn backfill(&mut self, meta: &ResponseMeta)
        ensures
            final(self).cost_ticks == (if old(self).cost_ticks == 0 {
                meta.cost_ticks
            } else {
                old(self).cost_ticks
            }),
            final(self).request_id@ == (if old(self).request_id@.len() == 0 {
                meta.request_id@
            } else {
                old(self).request_id@
            }),
            *final(self) == (TextToSpeechResponse { cost_ticks: final(self).cost_ticks, request_id: final(self).request_id, ..*old(self) }),
    {
        self.cost_ticks = backfill_ticks(self.cost_ticks, meta.cost_ticks);
        let mut id = String::new();
        std::mem::swap(&mut id, &mut self.request_id);
        self.request_id = backfill_text(id, meta.request_id.as_str());
    }
}

impl SpeechToTextResponse {
    /// Fills the cost and the request id from the response headers where the body
    /// left them empty; a value the body carried is kept.
    pub fn backfill(&mut self, meta: &ResponseMeta)
        ensures
            final(self).cost_ticks == (if old(self).cost_ticks == 0 {
                meta.cost_ticks
            } else {
                old(self).cost_ticks
            }),
            final(self).request_id@ == (if old(self).request_id@.len() == 0 {
                meta.request_id@
            } else {
                old(self).request_id@
            }),
            *final(self) == (SpeechToTextResponse { cost_ticks: final(self).cost_ticks, request_id: final(self).request_id, ..*old(self) }),
    {
        self.cost_ticks = backfill_ticks(self.cost_ticks, meta.cost_ticks);
        let mut id = String::new();
        std::mem::swap(&mut id, &mut self.request_id);
        self.request_id = backfill_text(id, meta.request_id.as_str());
    }
}

impl SoundEffectResponse {
    /// Fills the cost and the request id from the response headers where the body
    /// left them empty; a value the body carried is kept.
    pub fn backfill(&mut self, meta: &ResponseMeta)
        ensures
            final(self).cost_ticks == (if old(self).cost_ticks == 0 {
                meta.cost_ticks
            } else {
                old(self).cost_ticks
            }),
            final(self).request_id@ == (if old(self).request_id@.len() == 0 {
                meta.request_id@
            } else {
                old(self).request_id@
            }),
            *final(self) == (SoundEffectResponse { cost_ticks: final(self).cost_ticks, request_id: final(self).request_id, ..*old(self) }),
    {
        self.cost_ticks = backfill_ticks(self.cost_ticks, meta.cost_ticks);
        let mut id = String::new();
        std::mem::swap(&mut id, &mut self.request_id);
        self.request_id = backfill_text(id, meta.request_id.as_str());
    }
}

impl MusicResponse {
    /// Fills the cost and the request id from the response headers where the body
    /// left them empty; a value the body carried is kept.
    pub fn backfill(&mut self, meta: &ResponseMeta)
        ensures
            final(self).cost_ticks == (if old(self).cost_ticks == 0 {
                meta.cost_ticks
            } else {
                old(self).cost_ticks
            }),
            final(self).request_id@ == (if old(self).request_id@.len() == 0 {
                meta.request_id@
            } else {
                old(self).request_id@
            }),
            *final(self) == (MusicResponse { cost_ticks: final(self).cost_ticks, request_id: final(self).request_id, ..*old(self) }),
    {
        self.cost_ticks = backfill_ticks(self.cost_ticks, meta.cost_ticks);
        let mut id = String::new();
        std::mem::swap(&mut id, &mut self.request_id);
        self.request_id = backfill_text(id, meta.request_id.as_str());
    }
}

impl DialogueResponse {
    /// Fills the cost and the request id from the response headers where the body
    /// left them empty; a value the body carried is kept.
    pub fn backfill(&mut self, meta: &ResponseMeta)
        ensures
            final(self).cost_ticks == (if old(self).cost_ticks == 0 {
                meta.cost_ticks
            } else {
                old(self).cost_ticks
            }),
            final(self).request_id@ == (if old(self).request_id@.len() == 0 {
                meta.request_id@
            } else {
                old(self).request_id@
            }),
            *final(self) == (DialogueResponse { cost_ticks: final(self).cost_ticks, request_id: final(self).request_id, ..*old(self) }),
    {
        self.cost_ticks = backfill_ticks(self.cost_ticks, meta.cost_ticks);
        let mut id = String::new();
        std::mem::swap(&mut id, &mut self.request_id);
        self.request_id = backfill_text(id, meta.request_id.as_str());
    }
}

impl SpeechToSpeechResponse {
    /// Fills the cost and the request id from the response headers where the body
    /// left them empty; a value the body carried is kept.
    pub fn backfill(&mut self, meta: &ResponseMeta)
        ensures
            final(self).cost_ticks == (if old(self).cost_ticks == 0 {
                meta.cost_ticks
            } else {
                old(self).cost_ticks
            }),
            final(self).request_id@ == (if old(self).request_id@.len() == 0 {
                meta.request_id@
            } else {
                old(self).request_id@
            }),
            *final(self) == (SpeechToSpeechResponse { cost_ticks: final(self).cost_ticks, request_id: final(self).request_id, ..*old(self) }),
    {
        self.cost_ticks = backfill_ticks(self.cost_ticks, meta.cost_ticks);
        let mut id = String::new();
        std::mem::swap(&mut id, &mut self.request_id);
        self.request_id = backfill_text(id, meta.request_id.as_str());
    }
}

impl IsolateVoiceResponse {
    /// Fills the cost and the request id from the response headers where the body
    /// left them empty; a value the body carried is kept.
    pub fn backfill(&mut self, meta: &ResponseMeta)
        ensures
            final(self).cost_ticks == (if old(self).cost_ticks == 0 {
                meta.cost_ticks
            } else {
                old(self).cost_ticks
            }),
            final(self).request_id@ == (if old(self).request_id@.len() == 0 {
                meta.request_id@
            } else {
                old(self).request_id@
            }),
            *final(self) == (IsolateVoiceResponse { cost_ticks: final(self).cost_ticks, request_id: final(self).request_id, ..*old(self) }),
    {
        self.cost_ticks = backfill_ticks(self.cost_ticks, meta.cost_ticks);
        let mut id = String::new();
        std::mem::swap(&mut id, &mut self.request_id);
        self.request_id = backfill_text(id, meta.request_id.as_str());
    }
}

impl RemixVoiceResponse {
    /// Fills the cost and the request id from the response headers where the body
    /// left them empty; a value the body carried is kept.
    pub fn backfill(&mut self, meta: &ResponseMeta)
        ensures
            final(self).cost_ticks == (if old(self).cost_ticks == 0 {
                meta.cost_ticks
            } else {
                old(self).cost_ticks
            }),
            final(self).request_id@ == (if old(self).request_id@.len() == 0 {
                meta.request_id@
            } else {
                old(self).request_id@
            }),
            *final(self) == (RemixVoiceResponse { cost_ticks: final(self).cost_ticks, request_id: final(self).request_id, ..*old(self) }),
    {
        self.cost_ticks = backfill_ticks(self.cost_ticks, meta.cost_ticks);
        let mut id = String::new();
        std::mem::swap(&mut id, &mut self.request_id);
        self.request_id = backfill_text(id, meta.request_id.as_str());
    }
}

impl VoiceDesignResponse {
    /// Fills the cost and the request id from the response headers where the body
    /// left them empty; a value the body carried is kept.
    pub fn backfill(&mut self, meta: &ResponseMeta)
        ensures
            final(self).cost_ticks == (if old(self).cost_ticks == 0 {
                meta.cost_ticks
            } else {
                old(self).cost_ticks
            }),
            final(self).request_id@ == (if old(self).request_id@.len() == 0 {
                meta.request_id@
            } else {
                old(self).request_id@
            }),
            *final(self) == (VoiceDesignResponse { cost_ticks: final(self).cost_ticks, request_id: final(self).request_id, ..*old(self) }),
    {
        self.cost_ticks = backfill_ticks(self.cost_ticks, meta.cost_ticks);
        let mut id = String::new();
        std::mem::swap(&mut id, &mut self.request_id);
        self.request_id = backfill_text(id, meta.request_id.as_str());
    }
}

impl ElevenMusicResponse {
    /// Fills the cost and the request id from the response headers where the body
    /// left them empty; a value the body carried is kept.
    pub fn backfill(&mut self, meta: &ResponseMeta)
        ensures
            final(self).cost_ticks == (if old(self).cost_ticks == 0 {
                meta.cost_ticks
            } else {
                old(self).cost_ticks
            }),
            final(self).request_id@ == (if old(self).request_id@.len() == 0 {
                meta.request_id@
            } else {
                old(self).request_id@
            }),
            *final(self) == (ElevenMusicResponse { cost_ticks: final(self).cost_ticks, request_id: final(self).request_id, ..*old(self) }),
    {
        self.cost_ticks = backfill_ticks(self.cost_ticks, meta.cost_ticks);
        let mut id = String::new();
        std::mem::swap(&mut id, &mut self.request_id);
        self.request_id = backfill_text(id, meta.request_id.as_str());
    }
}

impl RealtimeSttTokenResponse {
    /// Fills the cost and the request id from the response headers where the body
    /// left them empty; a value the body carried is kept.
    pub fn backfill(&mut self, meta: &ResponseMeta)
        ensures
            final(self).cost_ticks == (if old(self).cost_ticks == 0 {
                meta.cost_ticks
            } else {
                old(self).cost_ticks
            }),
            final(self).request_id@ == (if old(self).request_id@.len() == 0 {
                meta.request_id@
            } else {
                old(self).request_id@
            }),
            *final(self) == (RealtimeSttTokenResponse { cost_ticks: final(self).cost_ticks, request_id: final(self).request_id, ..*old(self) }),
    {
        self.cost_ticks = backfill_ticks(self.cost_ticks, meta.cost_ticks);
        let mut id = String::new();
        std::mem::swap(&mut id, &mut self.request_id);
        self.request_id = backfill_text(id, meta.request_id.as_str());
    }
}

} // verus!
