use ohmygpu::engine::{DecodeState, TextEngine};
use ohmygpu::sampler::{Sampler, TOP_P_SCALE};

fn word_tokenizer() -> tokenizers::Tokenizer {
    let spec = "{\
        \"version\":\"1.0\",\
        \"pre_tokenizer\":{\"type\":\"Whitespace\"},\
        \"model\":{\"type\":\"WordLevel\",\
            \"vocab\":{\"hello\":0,\"world\":1,\"again\":2,\"</s>\":3,\"<unk>\":4},\
            \"unk_token\":\"<unk>\"}}";
    serde_json::from_str(spec).unwrap()
}

/// The engine finds the end-of-sequence id in the vocabulary.
#[test]
fn eos_lookup() {
    let engine = TextEngine::new(word_tokenizer());
    assert_eq!(engine.eos_token_id, Some(3));
}

/// A whole non-streaming generation: tokenize, decode steps, detokenize only
/// the generated suffix.
#[test]
fn generate_to_completion() {
    let engine = TextEngine::new(word_tokenizer());
    let sampler = Sampler::new(700, TOP_P_SCALE, 42);
    let mut session = engine.start_session("hello world", 2, sampler).unwrap();
    assert_eq!(session.prompt_len, 2);
    assert_eq!(session.tokens, vec![0, 1]);

    // All the mass on "again", then on "world".
    assert_eq!(session.step(&vec![0, 0, 9, 0, 0]), 2);
    assert_eq!(session.step(&vec![0, 9, 0, 0, 0]), 1);
    assert_eq!(session.state, DecodeState::StoppedLength);

    let result = engine.finish(&session).unwrap();
    assert_eq!(result.text, "again world");
    assert_eq!(result.tokens_generated, 2);
    assert_eq!(result.finish_reason, "length");
}

/// Sampling the end-of-sequence id stops the generation with the stop
/// reason; the id is not part of the text.
#[test]
fn generate_stops_at_eos() {
    let engine = TextEngine::new(word_tokenizer());
    let sampler = Sampler::new(700, TOP_P_SCALE, 42);
    let mut session = engine.start_session("hello", 5, sampler).unwrap();
    assert_eq!(session.step(&vec![9, 0, 0, 0, 0]), 0);
    assert_eq!(session.step(&vec![0, 0, 0, 9, 0]), 3);
    assert_eq!(session.state, DecodeState::StoppedEos);
    let result = engine.finish(&session).unwrap();
    assert_eq!(result.text, "hello");
    assert_eq!(result.tokens_generated, 1);
    assert_eq!(result.finish_reason, "stop");
}

/// Streaming and non-streaming agree: the concatenated deltas equal the text
/// the non-streaming call returns for the same seed and distributions.
#[test]
fn streaming_matches_non_streaming() {
    let distributions: Vec<Vec<u64>> = vec![
        vec![0, 0, 9, 0, 0],
        vec![0, 9, 0, 0, 0],
        vec![9, 0, 0, 0, 0],
    ];

    let engine = TextEngine::new(word_tokenizer());
    let mut plain = engine
        .start_session("hello world", 3, Sampler::new(700, TOP_P_SCALE, 42))
        .unwrap();
    for ws in &distributions {
        plain.step(ws);
    }
    let whole = engine.finish(&plain).unwrap();

    let mut streaming = engine
        .start_session("hello world", 3, Sampler::new(700, TOP_P_SCALE, 42))
        .unwrap();
    let mut collected = String::new();
    for ws in &distributions {
        streaming.step(ws);
        let text = engine.decode_generated(&streaming).unwrap();
        if let Some(delta) = streaming.stream_delta(&text) {
            collected.push_str(&delta);
        }
    }
    assert_eq!(collected, whole.text);
    assert_eq!(collected, "again world hello");
}
