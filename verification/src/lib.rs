//! Client SDK for the Quantum AI API: the request and response types, and
//! every decision the client takes on the way to and from the wire.

pub mod outside;
pub mod text;
pub mod error;
pub mod region;
pub mod client;
pub mod encoding;
pub mod json;
pub mod query;
pub mod sse;
pub mod account;
pub mod agent;
pub mod agent_runtime;
pub mod audio;
pub mod auth;
pub mod avatar;
pub mod batch;
pub mod caches;
pub mod chat;
pub mod cloudrun;
pub mod compute;
pub mod contact;
pub mod credits;
pub mod documents;
pub mod embeddings;
pub mod files;
pub mod image;
pub mod jobs;
pub mod keys;
pub mod licenses;
pub mod media_sessions;
pub mod mesh;
pub mod missions;
pub mod rag;
pub mod realtime;
pub mod scanner;
pub mod scraper;
pub mod search;
pub mod security;
pub mod session;
pub mod video;
pub mod vision;
pub mod voices;

pub use client::{ClientBuilder, ClientSettings, ResponseMeta, DEFAULT_BASE_URL, TICKS_PER_USD};
pub use error::{ApiError, Error, ErrorCode, Result};
pub use error::{is_auth_error, is_not_found_error, is_rate_limit_error};
pub use region::Region;

pub use chat::stop_reason;
pub use chat::{
    ChatMessage, ChatResponse, ChatTool, ChatUsage, Citation, ContentBlock, StreamDelta, StreamEvent,
    StreamToolUse, StreamToolUseComplete, StreamToolUseInputDelta, StreamToolUseStart,
};
pub use session::{
    ContextConfig, ContextMetadata, SessionChatRequest, SessionChatResponse, SessionContext,
    SessionToolResult, ToolResult,
};
pub use agent::{
    AgentEvent, AgentStreamEvent, MissionEvent, MissionRequest, MissionWorker, MissionWorkerConfig,
};
pub use image::{GeneratedImage, ImageEditRequest, ImageEditResponse, ImageRequest, ImageResponse};
pub use video::{
    Avatar, AvatarsResponse, GeneratedVideo, HeyGenVoice, HeyGenVoicesResponse, JobResponse,
    PhotoAvatarRequest, StudioVideoRequest, TranslateRequest, VideoBatchItem, VideoBatchItemError,
    VideoBatchStatusQuery, VideoBatchStatusResponse, VideoBatchSubmitRequest,
    VideoBatchSubmitResponse, VideoRequest, VideoResponse, VideoStudioRequest, VideoTemplate,
    VideoTemplateDetail, VideoTemplateDetailResponse, VideoTemplateDimension, VideoTemplateScene,
    VideoTemplateSceneVariable, VideoTemplatesResponse, VideoTranslateRequest,
};
pub use avatar::{
    AvatarAudioInput, AvatarRealtimeCancelResponse, AvatarRealtimeCreateResponse,
    AvatarRealtimeRequest, AvatarRealtimeStatusResponse, AvatarRealtimeTextRequest,
    AvatarRealtimeTextResponse,
};
pub use audio::{
    AlignRequest, DialogueRequest, DialogueResponse, DialogueTurn, DubRequest, ElevenMusicClip,
    ElevenMusicRequest, ElevenMusicResponse, FinetuneInfo, IsolateRequest, IsolateVoiceRequest,
    IsolateVoiceResponse, ListFinetunesResponse, MusicClip, MusicFinetuneCreateRequest,
    MusicRequest, MusicResponse, MusicSection, RemixRequest, RemixVoiceRequest,
    RemixVoiceResponse, SoundEffectResponse, SpeechToSpeechRequest, SpeechToSpeechResponse,
    SpeechToTextRequest, SpeechToTextResponse, SttRequest, SttResponse, TextToSpeechResponse,
    TtsResponse, VoiceDesignRequest, VoiceDesignResponse, VoicePreview,
};
pub use account::{UsageEntry, UsageQuery, UsageResponse};
pub use auth::{
    AuthAppleRequest, AuthFirebaseRequest, AuthGoogleRequest, AuthUser, RevokeSessionResponse,
    VerifyKeyRequest, VerifyKeyResponse,
};
pub use credits::{
    CreditPurchaseRequest, CreditPurchaseResponse, DevProgramApplyResponse,
    LifetimePurchaseRequest,
};
pub use keys::{
    CreateKeyResponse, DeviceKey, EphemeralKeyResponse, KeyDetails, ListDeviceKeysResponse,
    ListKeysResponse, PartnerKeyResponse, RotateKeyRequest, RotateKeyResponse, StatusResponse,
};
pub use batch::{
    BatchJob, BatchJobInfo, BatchJobInput, BatchJobsResponse, BatchJsonlResponse,
    BatchSubmitRequest, BatchSubmitResponse,
};
pub use jobs::{
    JobAcceptedResponse, JobCreateRequest, JobCreateResponse, JobListEntry, JobListResponse,
    JobStatusResponse, JobStreamEvent, ListJobsResponse,
};
pub use compute::{DeleteResponse, ProvisionRequest, SSHKeyRequest};
pub use voices::{
    AddVoiceFromLibraryRequest, AddVoiceFromLibraryResponse, CloneVoiceRequest, CloneVoiceResponse,
    Voice, VoiceInfo, VoiceLibraryQuery, VoicesResponse,
};
pub use mesh::{
    AnimateRequest, AnimationPostProcess, BasicAnimations, ModelUrls, PostProcess, RetextureRequest,
};
pub use contact::ContactRequest;
pub use embeddings::EmbedRequest;
pub use documents::{
    ChunkDocumentRequest, ChunkDocumentResponse, ChunkRequest, ChunkResponse, DocumentChunk,
    DocumentRequest, DocumentResponse, ProcessDocumentRequest, ProcessDocumentResponse,
    ProcessRequest, ProcessResponse,
};
pub use rag::{
    Collection, CollectionDocument, CollectionSearchRequest, CollectionUploadResult,
    CreateCollectionRequest, RagCorpus, RagSearchRequest, SurrealRagProvider,
    SurrealRagProviderInfo, SurrealRagProvidersResponse, SurrealRagSearchRequest,
};
pub use scraper::{
    ScrapeRequest, ScrapeResponse, ScrapeTarget, ScreenshotJobResponse, ScreenshotRequest,
    ScreenshotResponse, ScreenshotResult, ScreenshotURL,
};
pub use search::{
    ContextOptions, Discussion, DiscussionResult, GoogleSearchCitation, GoogleSearchRequest,
    GoogleSearchResponse, GoogleSearchSupport, Infobox, InfoboxResult, NewsResult,
    SearchAnswerChoice, SearchAnswerCitation, SearchAnswerMessage, SearchAnswerRequest,
    SearchAnswerResponse, SearchContextRequest, SearchContextSource, SearchMessage, SearchOptions,
    VideoResult, WebResult, WebSearchRequest, WebSearchResponse,
};
pub use realtime::{
    ElevenLabsProxyConfig, RealtimeConfig, RealtimeEvent, RealtimeSession, RealtimeSessionResponse,
};
pub use vision::{OcrResult, TextOverlay, VisionContext, VisionRequest};
pub use missions::{
    MissionApproveRequest, MissionChatRequest, MissionChatResponse, MissionCheckpoint,
    MissionCheckpointsResponse, MissionConfirmStructure, MissionCreateRequest,
    MissionCreateResponse, MissionDetail, MissionImportRequest, MissionListResponse,
    MissionPlanUpdate, MissionStatusResponse, MissionTask,
};
pub use security::{
    SecurityReportRequest, SecurityReportResponse, SecurityScanHtmlRequest, SecurityScanUrlRequest,
};
