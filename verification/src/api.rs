//! Shared request/response types of the runtime contract, and the error
//! taxonomy of the core.
//!
//! Every runtime implementation is driven through the same small surface:
//! capabilities, status, load/unload, chat, streaming chat and image
//! generation. The types here are the currency of that surface.

use vstd::prelude::*;
use vstd::string::StringExecFns;

verus! {

/// Thousandths: the scale of fixed-point temperatures and guidance scales.
pub const MILLI_SCALE: u32 = 1000;

/// Capabilities a runtime implementation provides. Fixed per implementation.
#[derive(Clone, Debug)]
pub struct RuntimeCaps {
    pub chat: bool,
    pub completions: bool,
    pub embeddings: bool,
    pub images: bool,
    pub audio: bool,
    pub streaming: bool,
}

/// Status of one runtime. Mutated only by the lifecycle manager.
#[derive(Clone, Copy, Debug, PartialEq, Eq, Structural)]
pub enum RuntimeStatus {
    Unloaded,
    Loading,
    Ready,
    Error,
}

/// Configuration handed to a load; immutable once passed.
#[derive(Clone, Debug)]
pub struct RuntimeConfig {
    pub model_path: String,
    pub gpu_id: Option<u32>,
    pub vram_budget_mb: Option<u64>,
    pub cpu_threads: Option<u32>,
}

/// One message of a chat conversation.
#[derive(Clone, Debug)]
pub struct ChatMessage {
    pub role: String,
    pub content: String,
}

/// A chat-completion request.
///
/// `temperature` is in thousandths (`MILLI_SCALE` is 1.0).
#[derive(Clone, Debug)]
pub struct ChatRequest {
    pub messages: Vec<ChatMessage>,
    pub max_tokens: u32,
    pub temperature: u32,
    pub stream: bool,
}

/// The answer of a non-streaming chat completion.
#[derive(Clone, Debug)]
pub struct ChatResponse {
    pub content: String,
    pub tokens_used: u32,
    pub finish_reason: String,
}

/// One unit of a streamed chat completion.
#[derive(Clone, Debug)]
pub struct ChatToken {
    pub content: String,
    pub finish_reason: Option<String>,
}

/// What a finished text generation amounts to.
#[derive(Clone, Debug)]
pub struct GenerationResult {
    pub text: String,
    pub tokens_generated: usize,
    pub finish_reason: String,
}

/// Why a load failed. Fatal to the one `load` call; the runtime's status is
/// `Error` afterwards.
#[derive(Clone, Debug)]
pub enum LoadError {
    /// The model name is not in the registry.
    NotFound(String),
    /// Bad path, weights or model configuration.
    Config(String),
    /// The device or the backend failed during the load.
    Backend(String),
}

/// Why a single generation request failed. Never changes the runtime's status.
#[derive(Clone, Debug)]
pub enum GenerationError {
    /// chat/chat_stream/generate_image was called while the runtime is not
    /// `Ready`.
    NotLoaded,
    /// The prompt could not be tokenized.
    Tokenization(String),
    /// A forward pass or a decode failed on the device.
    Backend(String),
    /// The requested image size is incompatible with the model's spatial
    /// compression factor.
    InvalidDimensions { width: u32, height: u32, factor: u32 },
}

/// What the tensor-backend text runtime can do: chat and completions, with
/// streaming; no embeddings, images or audio.
pub fn text_runtime_caps() -> (c: RuntimeCaps)
    ensures
        c.chat,
        c.completions,
        !c.embeddings,
        !c.images,
        !c.audio,
        c.streaming,
{
    RuntimeCaps {
        chat: true,
        completions: true,
        embeddings: false,
        images: false,
        audio: false,
        streaming: true,
    }
}

/// The check every generation entry point makes first: work is admitted
/// exactly when the runtime is ready, and refused with `NotLoaded` otherwise
/// — this path never loads a model by itself.
pub fn require_ready(status: RuntimeStatus) -> (r: Result<(), GenerationError>)
    ensures
        (r is Ok <==> status == RuntimeStatus::Ready),
        (r matches Err(e) ==> e is NotLoaded),
{
    match status {
        RuntimeStatus::Ready => Ok(()),
        _ => Err(GenerationError::NotLoaded),
    }
}

/// The chat answer a finished generation amounts to.
pub fn chat_response_of(result: GenerationResult) -> (r: ChatResponse)
    requires
        result.tokens_generated <= u32::MAX as usize,
    ensures
        r.content@ == result.text@,
        r.tokens_used == result.tokens_generated,
        r.finish_reason@ == result.finish_reason@,
{
    ChatResponse {
        content: result.text,
        tokens_used: result.tokens_generated as u32,
        finish_reason: result.finish_reason,
    }
}

impl LoadError {
    /// A human-readable rendering, in place of `Display`.
    pub fn message(&self) -> String {
        match self {
            LoadError::NotFound(name) => {
                let mut s = String::from_str("model not found in registry: ");
                s.append(name.as_str());
                s
            },
            LoadError::Config(m) => {
                let mut s = String::from_str("bad model configuration: ");
                s.append(m.as_str());
                s
            },
            LoadError::Backend(m) => {
                let mut s = String::from_str("backend failure during load: ");
                s.append(m.as_str());
                s
            },
        }
    }
}

impl GenerationError {
    /// A human-readable rendering, in place of `Display`.
    pub fn message(&self) -> String {
        match self {
            GenerationError::NotLoaded => String::from_str("model not loaded"),
            GenerationError::Tokenization(m) => {
                let mut s = String::from_str("tokenization error: ");
                s.append(m.as_str());
                s
            },
            GenerationError::Backend(m) => {
                let mut s = String::from_str("backend error: ");
                s.append(m.as_str());
                s
            },
            GenerationError::InvalidDimensions { width: _, height: _, factor: _ } => {
                String::from_str("image dimensions are not divisible by the compression factor")
            },
        }
    }
}

} // verus!
