use ohmygpu::api::{ChatResponse, ChatToken};
use ohmygpu::protocol::{
    chat_completion_response, chat_request_of, chat_request_of_ollama, completion_id,
    initial_chunk, models_response, ollama_chat_response, ollama_generate_as_chat,
    ollama_show_response, ollama_tags_response, token_chunk, ChatCompletionRequest,
    ChatMessageInput, OllamaChatMessage, OllamaChatRequest, OllamaGenerateRequest, OllamaOptions,
};
use ohmygpu::registry::{ModelInfo, ModelSource, ModelType};

fn model(name: &str) -> ModelInfo {
    ModelInfo {
        name: name.to_string(),
        source: ModelSource::Local,
        model_type: ModelType::LLM,
        path: "/m".to_string(),
        size_bytes: 0,
        files: vec![],
        downloaded_at: 0,
    }
}

/// The completion id is the hexadecimal timestamp under a fixed prefix.
#[test]
fn completion_id_form() {
    assert_eq!(completion_id(0), "chatcmpl-0");
    assert_eq!(completion_id(255), "chatcmpl-ff");
    assert_eq!(completion_id(48879), "chatcmpl-beef");
}

/// An OpenAI-style request maps onto the core request one to one.
#[test]
fn openai_request_mapping() {
    let req = ChatCompletionRequest {
        model: "m".to_string(),
        messages: vec![ChatMessageInput { role: "user".to_string(), content: "hi".to_string() }],
        max_tokens: 64,
        temperature: 800,
        stream: false,
    };
    let core = chat_request_of(&req);
    assert_eq!(core.messages.len(), 1);
    assert_eq!(core.messages[0].role, "user");
    assert_eq!(core.messages[0].content, "hi");
    assert_eq!((core.max_tokens, core.temperature, core.stream), (64, 800, false));
}

/// An Ollama-style request falls back to the stock budget and temperature
/// when options are absent.
#[test]
fn ollama_request_mapping() {
    let bare = OllamaChatRequest {
        model: "m".to_string(),
        messages: vec![OllamaChatMessage { role: "user".to_string(), content: "q".to_string() }],
        stream: None,
        options: None,
    };
    let core = chat_request_of_ollama(&bare, true);
    assert_eq!((core.max_tokens, core.temperature, core.stream), (2048, 700, true));

    let tuned = OllamaChatRequest {
        options: Some(OllamaOptions { temperature: Some(300), num_predict: Some(16) }),
        ..bare
    };
    let core = chat_request_of_ollama(&tuned, false);
    assert_eq!((core.max_tokens, core.temperature), (16, 300));
}

/// A generate request is a chat with one user message.
#[test]
fn generate_is_single_user_chat() {
    let req = OllamaGenerateRequest {
        model: "m".to_string(),
        prompt: "describe".to_string(),
        stream: Some(false),
        options: None,
    };
    let chat = ollama_generate_as_chat(req);
    assert_eq!(chat.messages.len(), 1);
    assert_eq!(chat.messages[0].role, "user");
    assert_eq!(chat.messages[0].content, "describe");
    assert_eq!(chat.stream, Some(false));
}

/// The non-streaming answer: one assistant choice, the token count in the
/// usage block.
#[test]
fn completion_response_shape() {
    let response = ChatResponse {
        content: "hello".to_string(),
        tokens_used: 5,
        finish_reason: "stop".to_string(),
    };
    let r = chat_completion_response("id1".to_string(), 7, "m".to_string(), &response);
    assert_eq!(r.object, "chat.completion");
    assert_eq!(r.choices.len(), 1);
    assert_eq!(r.choices[0].message.role, "assistant");
    assert_eq!(r.choices[0].message.content, "hello");
    assert_eq!(r.choices[0].finish_reason, "stop");
    assert_eq!(
        (r.usage.prompt_tokens, r.usage.completion_tokens, r.usage.total_tokens),
        (0, 5, 5)
    );
}

/// The stream opens with the role chunk; token chunks carry the delta —
/// absent when empty — and the finish reason through.
#[test]
fn stream_chunk_shapes() {
    let first = initial_chunk("id1".to_string(), 7, "m".to_string());
    assert_eq!(first.object, "chat.completion.chunk");
    assert_eq!(first.choices[0].delta.role.as_deref(), Some("assistant"));
    assert!(first.choices[0].delta.content.is_none());

    let mid = token_chunk(
        "id1".to_string(),
        7,
        "m".to_string(),
        ChatToken { content: "hi".to_string(), finish_reason: None },
    );
    assert_eq!(mid.choices[0].delta.content.as_deref(), Some("hi"));
    assert!(mid.choices[0].finish_reason.is_none());

    let last = token_chunk(
        "id1".to_string(),
        7,
        "m".to_string(),
        ChatToken { content: String::new(), finish_reason: Some("length".to_string()) },
    );
    assert!(last.choices[0].delta.content.is_none());
    assert_eq!(last.choices[0].finish_reason.as_deref(), Some("length"));
}

/// The Ollama answer shape.
#[test]
fn ollama_response_shape() {
    let r = ollama_chat_response(
        "m".to_string(),
        "now".to_string(),
        "text".to_string(),
        true,
        Some(3),
    );
    assert_eq!(r.message.role, "assistant");
    assert_eq!(r.message.content, "text");
    assert!(r.done);
    assert_eq!(r.eval_count, Some(3));
    assert!(r.total_duration.is_none());
}

/// The two model listings over the registry's entries.
#[test]
fn listings() {
    let models = vec![model("a"), model("b")];
    let tags = ollama_tags_response(&models, &"t0".to_string());
    assert_eq!(tags.models.len(), 2);
    assert_eq!(tags.models[1].name, "b");
    assert_eq!(tags.models[0].digest, "sha256:unknown");
    assert_eq!(tags.models[0].details.format, "safetensors");

    let listing = models_response(&models);
    assert_eq!(listing.object, "list");
    assert_eq!(listing.data[0].id, "a");
    assert_eq!(listing.data[0].object, "model");
    assert_eq!(listing.data[0].owned_by, "user");
}

/// The show answer names the model in its modelfile line.
#[test]
fn show_shape() {
    let r = ollama_show_response(&"mm".to_string());
    assert_eq!(r.modelfile, "FROM mm");
    assert_eq!(r.template, "{{ .Prompt }}");
    assert_eq!(r.parameters, "");
}
