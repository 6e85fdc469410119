//! The wire-protocol payload shapes the core accepts and produces, and the
//! builders that fill them.
//!
//! Two dialects are served: an OpenAI-style chat-completions surface and an
//! Ollama-style one. The shapes here are the plain data; their encoding to
//! and from bytes is the adapters' concern. Temperatures are in thousandths,
//! as everywhere in the library.

use vstd::prelude::*;
use vstd::string::StringExecFns;

use crate::api::ChatMessage;
use crate::api::ChatRequest;
use crate::api::ChatResponse;
use crate::api::ChatToken;
use crate::registry::ModelInfo;
use crate::strutil::hex_chars;
use crate::strutil::u128_to_hex;

verus! {

/// One incoming chat message of the OpenAI-style surface.
#[derive(Clone, Debug)]
pub struct ChatMessageInput {
    pub role: String,
    pub content: String,
}

/// An incoming OpenAI-style chat-completions request.
#[derive(Clone, Debug)]
pub struct ChatCompletionRequest {
    pub model: String,
    pub messages: Vec<ChatMessageInput>,
    pub max_tokens: u32,
    /// In thousandths.
    pub temperature: u32,
    pub stream: bool,
}

/// The OpenAI-style non-streaming answer.
#[derive(Clone, Debug)]
pub struct ChatCompletionResponse {
    pub id: String,
    pub object: String,
    pub created: i64,
    pub model: String,
    pub choices: Vec<ChatChoice>,
    pub usage: Usage,
}

#[derive(Clone, Debug)]
pub struct ChatChoice {
    pub index: u32,
    pub message: ChatMessageOutput,
    pub finish_reason: String,
}

#[derive(Clone, Debug)]
pub struct ChatMessageOutput {
    pub role: String,
    pub content: String,
}

#[derive(Clone, Debug)]
pub struct Usage {
    pub prompt_tokens: u32,
    pub completion_tokens: u32,
    pub total_tokens: u32,
}

/// One streamed OpenAI-style chunk.
#[derive(Clone, Debug)]
pub struct ChatCompletionChunk {
    pub id: String,
    pub object: String,
    pub created: i64,
    pub model: String,
    pub choices: Vec<ChatChoiceDelta>,
}

#[derive(Clone, Debug)]
pub struct ChatChoiceDelta {
    pub index: u32,
    pub delta: Delta,
    pub finish_reason: Option<String>,
}

#[derive(Clone, Debug)]
pub struct Delta {
    pub role: Option<String>,
    pub content: Option<String>,
}

/// One entry of the model listing.
#[derive(Clone, Debug)]
pub struct ModelObject {
    pub id: String,
    pub object: String,
    pub owned_by: String,
}

/// The model listing.
#[derive(Clone, Debug)]
pub struct ModelsResponse {
    pub object: String,
    pub data: Vec<ModelObject>,
}

/// One incoming chat message of the Ollama-style surface.
#[derive(Clone, Debug)]
pub struct OllamaChatMessage {
    pub role: String,
    pub content: String,
}

/// Ollama-style generation options.
#[derive(Clone, Debug)]
pub struct OllamaOptions {
    /// In thousandths.
    pub temperature: Option<u32>,
    pub num_predict: Option<u32>,
}

/// An incoming Ollama-style chat request.
#[derive(Clone, Debug)]
pub struct OllamaChatRequest {
    pub model: String,
    pub messages: Vec<OllamaChatMessage>,
    pub stream: Option<bool>,
    pub options: Option<OllamaOptions>,
}

/// One Ollama-style chat answer or streamed chunk.
#[derive(Clone, Debug)]
pub struct OllamaChatResponse {
    pub model: String,
    pub created_at: String,
    pub message: OllamaChatMessageOutput,
    pub done: bool,
    pub total_duration: Option<u64>,
    pub eval_count: Option<u32>,
}

#[derive(Clone, Debug)]
pub struct OllamaChatMessageOutput {
    pub role: String,
    pub content: String,
}

/// An incoming Ollama-style generate request.
#[derive(Clone, Debug)]
pub struct OllamaGenerateRequest {
    pub model: String,
    pub prompt: String,
    pub stream: Option<bool>,
    pub options: Option<OllamaOptions>,
}

/// The Ollama-style generate answer.
#[derive(Clone, Debug)]
pub struct OllamaGenerateResponse {
    pub model: String,
    pub created_at: String,
    pub response: String,
    pub done: bool,
    pub total_duration: Option<u64>,
    pub eval_count: Option<u32>,
}

/// The Ollama-style local-model listing.
#[derive(Clone, Debug)]
pub struct OllamaTagsResponse {
    pub models: Vec<OllamaModelInfo>,
}

#[derive(Clone, Debug)]
pub struct OllamaModelInfo {
    pub name: String,
    pub modified_at: String,
    pub size: u64,
    pub digest: String,
    pub details: OllamaModelDetails,
}

#[derive(Clone, Debug)]
pub struct OllamaModelDetails {
    pub format: String,
    pub family: String,
    pub parameter_size: String,
    pub quantization_level: String,
}

/// The Ollama-style version answer.
#[derive(Clone, Debug)]
pub struct OllamaVersionResponse {
    pub version: String,
}

/// An incoming Ollama-style show request.
#[derive(Clone, Debug)]
pub struct OllamaShowRequest {
    pub name: String,
}

/// The Ollama-style show answer.
#[derive(Clone, Debug)]
pub struct OllamaShowResponse {
    pub modelfile: String,
    pub parameters: String,
    pub template: String,
    pub details: OllamaModelDetails,
}

/// A completion id: a fixed prefix and the hexadecimal of a caller-supplied
/// timestamp.
pub fn completion_id(nanos: u128) -> (r: String)
    ensures
        r@ == "chatcmpl-"@ + hex_chars(nanos as int),
{
    let mut s = String::from_str("chatcmpl-");
    let hex = u128_to_hex(nanos);
    s.append(hex.as_str());
    s
}

/// The core chat request an OpenAI-style request amounts to.
pub fn chat_request_of(req: &ChatCompletionRequest) -> (r: ChatRequest)
    ensures
        r.messages@.len() == req.messages@.len(),
        forall|i: int|
            0 <= i < req.messages@.len() ==> #[trigger] r.messages@[i].role@
                == req.messages@[i].role@ && r.messages@[i].content@ == req.messages@[i].content@,
        r.max_tokens == req.max_tokens,
        r.temperature == req.temperature,
        r.stream == req.stream,
{
    let mut messages: Vec<ChatMessage> = Vec::new();
    let mut i: usize = 0;
    while i < req.messages.len()
        invariant
            i <= req.messages@.len(),
            messages@.len() == i,
            forall|j: int|
                0 <= j < i ==> #[trigger] messages@[j].role@ == req.messages@[j].role@
                    && messages@[j].content@ == req.messages@[j].content@,
        decreases req.messages@.len() - i,
    {
        let m = &req.messages[i];
        messages.push(ChatMessage { role: m.role.clone(), content: m.content.clone() });
        i += 1;
    }
    ChatRequest {
        messages,
        max_tokens: req.max_tokens,
        temperature: req.temperature,
        stream: req.stream,
    }
}

/// The core chat request an Ollama-style request amounts to: absent options
/// fall back to the stock budget and temperature.
pub fn chat_request_of_ollama(req: &OllamaChatRequest, stream: bool) -> (r: ChatRequest)
    ensures
        r.messages@.len() == req.messages@.len(),
        forall|i: int|
            0 <= i < req.messages@.len() ==> #[trigger] r.messages@[i].role@
                == req.messages@[i].role@ && r.messages@[i].content@ == req.messages@[i].content@,
        r.max_tokens == match req.options {
            Some(ref o) => match o.num_predict {
                Some(n) => n,
                None => 2048u32,
            },
            None => 2048u32,
        },
        r.temperature == match req.options {
            Some(ref o) => match o.temperature {
                Some(t) => t,
                None => 700u32,
            },
            None => 700u32,
        },
        r.stream == stream,
{
    let mut messages: Vec<ChatMessage> = Vec::new();
    let mut i: usize = 0;
    while i < req.messages.len()
        invariant
            i <= req.messages@.len(),
            messages@.len() == i,
            forall|j: int|
                0 <= j < i ==> #[trigger] messages@[j].role@ == req.messages@[j].role@
                    && messages@[j].content@ == req.messages@[j].content@,
        decreases req.messages@.len() - i,
    {
        let m = &req.messages[i];
        messages.push(ChatMessage { role: m.role.clone(), content: m.content.clone() });
        i += 1;
    }
    let (max_tokens, temperature) = match &req.options {
        Some(o) => (
            match o.num_predict {
                Some(n) => n,
                None => 2048,
            },
            match o.temperature {
                Some(t) => t,
                None => 700,
            },
        ),
        None => (2048, 700),
    };
    ChatRequest { messages, max_tokens, temperature, stream }
}

/// An Ollama-style generate request is a chat with one user message.
pub fn ollama_generate_as_chat(req: OllamaGenerateRequest) -> (r: OllamaChatRequest)
    ensures
        r.model@ == req.model@,
        r.messages@.len() == 1,
        r.messages@[0].role@ == "user"@,
        r.messages@[0].content@ == req.prompt@,
        r.stream == req.stream,
        r.options == req.options,
{
    let mut messages: Vec<OllamaChatMessage> = Vec::new();
    messages.push(OllamaChatMessage { role: String::from_str("user"), content: req.prompt });
    OllamaChatRequest { model: req.model, messages, stream: req.stream, options: req.options }
}

/// The OpenAI-style answer a finished generation amounts to: one assistant
/// choice, the token count in the usage block.
pub fn chat_completion_response(
    id: String,
    created: i64,
    model: String,
    response: &ChatResponse,
) -> (r: ChatCompletionResponse)
    ensures
        r.id@ == id@,
        r.object@ == "chat.completion"@,
        r.created == created,
        r.model@ == model@,
        r.choices@.len() == 1,
        r.choices@[0].index == 0,
        r.choices@[0].message.role@ == "assistant"@,
        r.choices@[0].message.content@ == response.content@,
        r.choices@[0].finish_reason@ == response.finish_reason@,
        r.usage.prompt_tokens == 0,
        r.usage.completion_tokens == response.tokens_used,
        r.usage.total_tokens == response.tokens_used,
{
    let mut choices: Vec<ChatChoice> = Vec::new();
    choices.push(
        ChatChoice {
            index: 0,
            message: ChatMessageOutput {
                role: String::from_str("assistant"),
                content: response.content.clone(),
            },
            finish_reason: response.finish_reason.clone(),
        },
    );
    ChatCompletionResponse {
        id,
        object: String::from_str("chat.completion"),
        created,
        model,
        choices,
        usage: Usage {
            prompt_tokens: 0,
            completion_tokens: response.tokens_used,
            total_tokens: response.tokens_used,
        },
    }
}

/// The chunk that opens an OpenAI-style stream: the assistant role, no
/// content, no finish reason.
pub fn initial_chunk(id: String, created: i64, model: String) -> (r: ChatCompletionChunk)
    ensures
        r.id@ == id@,
        r.object@ == "chat.completion.chunk"@,
        r.created == created,
        r.model@ == model@,
        r.choices@.len() == 1,
        r.choices@[0].index == 0,
        (r.choices@[0].delta.role matches Some(role) && role@ == "assistant"@),
        r.choices@[0].delta.content is None,
        r.choices@[0].finish_reason is None,
{
    let mut choices: Vec<ChatChoiceDelta> = Vec::new();
    choices.push(
        ChatChoiceDelta {
            index: 0,
            delta: Delta { role: Some(String::from_str("assistant")), content: None },
            finish_reason: None,
        },
    );
    ChatCompletionChunk {
        id,
        object: String::from_str("chat.completion.chunk"),
        created,
        model,
        choices,
    }
}

/// The chunk one streamed token amounts to: its text as the content delta —
/// absent when empty — and its finish reason carried through.
pub fn token_chunk(id: String, created: i64, model: String, token: ChatToken) -> (r:
    ChatCompletionChunk)
    ensures
        r.id@ == id@,
        r.object@ == "chat.completion.chunk"@,
        r.created == created,
        r.model@ == model@,
        r.choices@.len() == 1,
        r.choices@[0].index == 0,
        r.choices@[0].delta.role is None,
        token.content@.len() == 0 ==> r.choices@[0].delta.content is None,
        token.content@.len() > 0 ==> (r.choices@[0].delta.content matches Some(c) && c@
            == token.content@),
        r.choices@[0].finish_reason == token.finish_reason,
{
    let content = if token.content.as_str().is_empty() {
        None
    } else {
        Some(token.content)
    };
    let mut choices: Vec<ChatChoiceDelta> = Vec::new();
    choices.push(
        ChatChoiceDelta {
            index: 0,
            delta: Delta { role: None, content },
            finish_reason: token.finish_reason,
        },
    );
    ChatCompletionChunk {
        id,
        object: String::from_str("chat.completion.chunk"),
        created,
        model,
        choices,
    }
}

/// The Ollama-style answer or chunk one piece of assistant text amounts to.
pub fn ollama_chat_response(
    model: String,
    created_at: String,
    content: String,
    done: bool,
    eval_count: Option<u32>,
) -> (r: OllamaChatResponse)
    ensures
        r.model@ == model@,
        r.created_at@ == created_at@,
        r.message.role@ == "assistant"@,
        r.message.content@ == content@,
        r.done == done,
        r.total_duration is None,
        r.eval_count == eval_count,
{
    OllamaChatResponse {
        model,
        created_at,
        message: OllamaChatMessageOutput { role: String::from_str("assistant"), content },
        done,
        total_duration: None,
        eval_count,
    }
}

/// The stock details block shown for a local model.
pub fn ollama_model_details() -> (r: OllamaModelDetails)
    ensures
        r.format@ == "safetensors"@,
        r.family@ == "unknown"@,
        r.parameter_size@ == "unknown"@,
        r.quantization_level@ == "unknown"@,
{
    OllamaModelDetails {
        format: String::from_str("safetensors"),
        family: String::from_str("unknown"),
        parameter_size: String::from_str("unknown"),
        quantization_level: String::from_str("unknown"),
    }
}

/// The tags listing the installed models amount to, stamped with one
/// caller-supplied timestamp.
pub fn ollama_tags_response(models: &Vec<ModelInfo>, modified_at: &String) -> (r:
    OllamaTagsResponse)
    ensures
        r.models@.len() == models@.len(),
        forall|i: int|
            0 <= i < models@.len() ==> {
                &&& (#[trigger] r.models@[i]).name@ == models@[i].name@
                &&& r.models@[i].modified_at@ == modified_at@
                &&& r.models@[i].size == 0
                &&& r.models@[i].digest@ == "sha256:unknown"@
            },
{
    let mut out: Vec<OllamaModelInfo> = Vec::new();
    let mut i: usize = 0;
    while i < models.len()
        invariant
            i <= models@.len(),
            out@.len() == i,
            forall|j: int|
                0 <= j < i ==> {
                    &&& (#[trigger] out@[j]).name@ == models@[j].name@
                    &&& out@[j].modified_at@ == modified_at@
                    &&& out@[j].size == 0
                    &&& out@[j].digest@ == "sha256:unknown"@
                },
        decreases models@.len() - i,
    {
        out.push(
            OllamaModelInfo {
                name: models[i].name.clone(),
                modified_at: modified_at.clone(),
                size: 0,
                digest: String::from_str("sha256:unknown"),
                details: ollama_model_details(),
            },
        );
        i += 1;
    }
    OllamaTagsResponse { models: out }
}

/// The model listing the installed models amount to.
pub fn models_response(models: &Vec<ModelInfo>) -> (r: ModelsResponse)
    ensures
        r.object@ == "list"@,
        r.data@.len() == models@.len(),
        forall|i: int|
            0 <= i < models@.len() ==> {
                &&& (#[trigger] r.data@[i]).id@ == models@[i].name@
                &&& r.data@[i].object@ == "model"@
                &&& r.data@[i].owned_by@ == "user"@
            },
{
    let mut data: Vec<ModelObject> = Vec::new();
    let mut i: usize = 0;
    while i < models.len()
        invariant
            i <= models@.len(),
            data@.len() == i,
            forall|j: int|
                0 <= j < i ==> {
                    &&& (#[trigger] data@[j]).id@ == models@[j].name@
                    &&& data@[j].object@ == "model"@
                    &&& data@[j].owned_by@ == "user"@
                },
        decreases models@.len() - i,
    {
        data.push(
            ModelObject {
                id: models[i].name.clone(),
                object: String::from_str("model"),
                owned_by: String::from_str("user"),
            },
        );
        i += 1;
    }
    ModelsResponse { object: String::from_str("list"), data }
}

/// The show answer for one installed model.
pub fn ollama_show_response(name: &String) -> (r: OllamaShowResponse)
    ensures
        r.modelfile@ == "FROM "@ + name@,
        r.parameters@ == Seq::<char>::empty(),
        r.template@ == "{{ .Prompt }}"@,
{
    let mut modelfile = String::from_str("FROM ");
    modelfile.append(name.as_str());
    OllamaShowResponse {
        modelfile,
        parameters: String::new(),
        template: String::from_str("{{ .Prompt }}"),
        details: ollama_model_details(),
    }
}

/// The version answer.
pub fn ollama_version_response(version: String) -> (r: OllamaVersionResponse)
    ensures
        r.version@ == version@,
{
    OllamaVersionResponse { version }
}

} // verus!
