use ohmygpu::api::ChatMessage;
use ohmygpu::engine::{
    build_chat_prompt, classify_text_arch, DecodeState, GenerationSession, TextArch,
};
use ohmygpu::sampler::{Sampler, TOP_P_SCALE};

fn session(max_tokens: u32, eos: Option<u32>) -> GenerationSession {
    let sampler = Sampler::new(700, TOP_P_SCALE, 42);
    GenerationSession::new(vec![5, 6, 7], max_tokens, eos, sampler)
}

/// With no end-of-sequence id ever sampled, exactly `max_tokens` ids are
/// generated and the finish reason is the length one.
#[test]
fn budget_exhaustion_gives_length() {
    let mut s = session(3, None);
    // All the mass on entry 1: each step samples id 1.
    let ws = vec![0, 5, 0];
    assert_eq!(s.step(&ws), 1);
    assert_eq!(s.step(&ws), 1);
    assert_eq!(s.state, DecodeState::Decoding);
    assert_eq!(s.step(&ws), 1);
    assert_eq!(s.state, DecodeState::StoppedLength);
    assert_eq!(s.generated, 3);
    assert_eq!(s.generated_ids(), vec![1, 1, 1]);
    assert_eq!(s.finish_reason().unwrap(), "length");
}

/// With the end-of-sequence id sampled at the second step, exactly one id is
/// generated, the id itself is not appended, and the finish reason is the
/// stop one.
#[test]
fn eos_stops_early_with_stop() {
    let mut s = session(5, Some(2));
    assert_eq!(s.step(&vec![0, 5, 0]), 1);
    assert_eq!(s.step(&vec![0, 0, 5]), 2);
    assert_eq!(s.state, DecodeState::StoppedEos);
    assert_eq!(s.generated, 1);
    assert_eq!(s.generated_ids(), vec![1]);
    assert_eq!(s.finish_reason().unwrap(), "stop");
}

/// A zero budget stops at once with the length reason.
#[test]
fn zero_budget_stops_immediately() {
    let s = session(0, None);
    assert_eq!(s.state, DecodeState::StoppedLength);
    assert_eq!(s.generated, 0);
    assert_eq!(s.finish_reason().unwrap(), "length");
}

/// A failed send cancels the session: no finish reason is emitted and the
/// state admits no further step.
#[test]
fn send_failure_cancels() {
    let mut s = session(5, None);
    s.step(&vec![0, 5]);
    s.note_send_failure();
    assert_eq!(s.state, DecodeState::Cancelled);
    assert!(s.finish_reason().is_none());
}

/// Deltas emit each character once: concatenating them re-forms the final
/// decoded text.
#[test]
fn stream_deltas_concatenate_to_final_text() {
    let mut s = session(5, None);
    let texts = ["he", "hel", "hello"];
    let mut collected = String::new();
    for t in texts {
        if let Some(delta) = s.stream_delta(&t.to_string()) {
            collected.push_str(&delta);
        }
    }
    assert_eq!(collected, "hello");
    // A text that resolved no further characters emits nothing.
    let mut s = session(5, None);
    assert_eq!(s.stream_delta(&"ab".to_string()).unwrap(), "ab");
    assert!(s.stream_delta(&"ab".to_string()).is_none());
}

/// The prompt template wraps each role its own way.
#[test]
fn chat_prompt_template() {
    let messages = vec![
        ChatMessage { role: "system".to_string(), content: "be brief".to_string() },
        ChatMessage { role: "user".to_string(), content: "hi".to_string() },
        ChatMessage { role: "assistant".to_string(), content: "hello".to_string() },
        ChatMessage { role: "tool".to_string(), content: "raw".to_string() },
    ];
    let p = build_chat_prompt(&messages);
    assert_eq!(p, "<<SYS>>\nbe brief\n<</SYS>>\n\n[INST] hi [/INST] hello raw");
}

/// The architecture tag dispatch: the Phi markers, and the Llama fallback.
#[test]
fn text_arch_classification() {
    assert_eq!(classify_text_arch("phi"), TextArch::Phi);
    assert_eq!(classify_text_arch("phi-msft"), TextArch::Phi);
    assert_eq!(classify_text_arch("phi2"), TextArch::Phi);
    assert_eq!(classify_text_arch("llama"), TextArch::Llama);
    assert_eq!(classify_text_arch("mistral"), TextArch::Llama);
}

/// Streaming and non-streaming runs of the same seed sample the same ids.
#[test]
fn stream_and_non_stream_sample_same_ids() {
    let distributions: Vec<Vec<u64>> = vec![vec![3, 1, 4], vec![1, 5, 9], vec![2, 6, 5]];
    let mut plain = session(3, None);
    let mut streaming = session(3, None);
    let mut ids_plain = Vec::new();
    let mut ids_streaming = Vec::new();
    for ws in &distributions {
        ids_plain.push(plain.step(ws));
    }
    for ws in &distributions {
        ids_streaming.push(streaming.step(ws));
        // The streaming run decodes and emits between steps; that never
        // feeds back into sampling.
        let _ = streaming.stream_delta(&"text".to_string());
    }
    assert_eq!(ids_plain, ids_streaming);
}
