//! The autoregressive text-generation session.
//!
//! A session is created per call and destroyed at the call's end. It owns the
//! token history and the sampler state and walks the per-call state machine
//! `Decoding -> StoppedEos | StoppedLength | Cancelled`. The caller runs the
//! decode loop: it produces one weight distribution per step (a forward pass
//! over the current sequence) and hands it to `step`; between steps it decodes
//! the generated suffix and, when streaming, emits the not-yet-emitted part
//! through `stream_delta`. When a streamed send fails — the consumer dropped
//! its end — the caller records it with `note_send_failure`, and the session
//! refuses further steps: no forward pass after the drop is ever asked for.

use vstd::prelude::*;
use vstd::pervasive::unreached;
use vstd::string::StrSliceExecFns;
use vstd::string::StringExecFns;

use crate::sampler::Sampler;
use crate::sampler::sample_spec;
use crate::sampler::sum_weights;

verus! {

/// Where a generation stands.
#[derive(Clone, Copy, Debug, PartialEq, Eq, Structural)]
pub enum DecodeState {
    /// Steps may still be taken.
    Decoding,
    /// The sampled id matched the model's end-of-sequence id.
    StoppedEos,
    /// The step budget is exhausted.
    StoppedLength,
    /// The stream's consumer went away; no further step is taken.
    Cancelled,
}

/// The mathematical image of a session.
pub ghost struct SessionModel {
    /// Prompt ids followed by the generated ids.
    pub tokens: Seq<u32>,
    /// How many of `tokens` are the prompt.
    pub prompt_len: int,
    /// The step budget.
    pub max_tokens: int,
    /// How many ids were generated so far.
    pub generated: int,
    /// The model's end-of-sequence id, if it has one.
    pub eos: Option<u32>,
    /// The sampler's nucleus mass, in millionths.
    pub top_p: u32,
    /// The sampler's PRNG state.
    pub rng: u64,
    pub state: DecodeState,
    /// How many characters of the decoded text were already emitted.
    pub emitted: int,
}

impl SessionModel {
    /// Internal consistency of a session.
    pub open spec fn inv(self) -> bool {
        &&& 0 <= self.prompt_len <= self.tokens.len()
        &&& self.generated == self.tokens.len() - self.prompt_len
        &&& 0 <= self.generated <= self.max_tokens
        &&& self.state == DecodeState::Decoding ==> self.generated < self.max_tokens
        &&& self.emitted >= 0
    }
}

/// A fresh session over a tokenized prompt: nothing generated, nothing
/// emitted, decoding — unless the budget is zero, which stops it at once
/// with the length reason.
pub open spec fn init_model(
    prompt: Seq<u32>,
    max_tokens: u32,
    eos: Option<u32>,
    top_p: u32,
    rng: u64,
) -> SessionModel {
    SessionModel {
        tokens: prompt,
        prompt_len: prompt.len() as int,
        max_tokens: max_tokens as int,
        generated: 0,
        eos,
        top_p,
        rng,
        state: if max_tokens == 0 {
            DecodeState::StoppedLength
        } else {
            DecodeState::Decoding
        },
        emitted: 0,
    }
}

/// One decode step: sample from the distribution; stop with the EOS reason if
/// the sampled id is the end-of-sequence id (the id is not appended), else
/// append it and stop with the length reason when the budget is exhausted.
/// The PRNG advances exactly one update either way.
pub open spec fn step_model(m: SessionModel, ws: Seq<u64>) -> (SessionModel, u32) {
    let (t, rng2) = sample_spec(ws, m.top_p, m.rng);
    if m.eos == Some(t) {
        (SessionModel { rng: rng2, state: DecodeState::StoppedEos, ..m }, t)
    } else {
        (
            SessionModel {
                tokens: m.tokens.push(t),
                generated: m.generated + 1,
                rng: rng2,
                state: if m.generated + 1 == m.max_tokens {
                    DecodeState::StoppedLength
                } else {
                    DecodeState::Decoding
                },
                ..m
            },
            t,
        )
    }
}

/// A whole decode run: steps are taken while the session is decoding and
/// distributions remain; a session that stopped stays put.
pub open spec fn run_model(m: SessionModel, wss: Seq<Seq<u64>>) -> SessionModel
    decreases wss.len(),
{
    if wss.len() == 0 || m.state != DecodeState::Decoding {
        m
    } else {
        run_model(step_model(m, wss[0]).0, wss.drop_first())
    }
}

/// The session after the first `i` distributions of a run.
pub open spec fn run_prefix(m: SessionModel, wss: Seq<Seq<u64>>, i: int) -> SessionModel {
    run_model(m, wss.take(i))
}

/// The id sampled at step `i` of a run.
pub open spec fn step_token(m: SessionModel, wss: Seq<Seq<u64>>, i: int) -> u32 {
    step_model(run_prefix(m, wss, i), wss[i]).1
}

/// A run over one distribution per step never revisits a stopped or
/// cancelled session: once the state leaves `Decoding`, no number of further
/// distributions changes anything — in particular, a cancelled stream takes
/// no further step after the one in which the drop was noticed.
pub proof fn lemma_halted_run_is_fixed(m: SessionModel, wss: Seq<Seq<u64>>)
    requires
        m.state != DecodeState::Decoding,
    ensures
        run_model(m, wss) == m,
{
}

/// One step keeps a session internally consistent.
pub proof fn lemma_step_preserves_inv(m: SessionModel, ws: Seq<u64>)
    requires
        m.inv(),
        m.state == DecodeState::Decoding,
    ensures
        step_model(m, ws).0.inv(),
{
}

/// A whole run keeps a session internally consistent: the generated count
/// never exceeds the budget, and the token history stays prompt-then-suffix.
pub proof fn lemma_run_preserves_inv(m: SessionModel, wss: Seq<Seq<u64>>)
    requires
        m.inv(),
    ensures
        run_model(m, wss).inv(),
    decreases wss.len(),
{
    if wss.len() > 0 && m.state == DecodeState::Decoding {
        lemma_step_preserves_inv(m, wss[0]);
        lemma_run_preserves_inv(step_model(m, wss[0]).0, wss.drop_first());
    }
}

/// Stepping a run once and running the rest is the same as running the whole.
proof fn lemma_run_prefix_shift(m: SessionModel, wss: Seq<Seq<u64>>, i: int)
    requires
        m.state == DecodeState::Decoding,
        1 <= wss.len(),
        0 <= i < wss.len(),
    ensures
        run_prefix(m, wss, i + 1) == run_prefix(step_model(m, wss[0]).0, wss.drop_first(), i),
{
    assert(wss.take(i + 1)[0] == wss[0]);
    assert(wss.take(i + 1).drop_first() =~= wss.drop_first().take(i));
}

/// With the end-of-sequence id never sampled, a run over exactly the
/// remaining budget generates exactly that many ids and stops with the
/// length reason.
pub proof fn lemma_run_exhausts_budget(m: SessionModel, wss: Seq<Seq<u64>>)
    requires
        m.inv(),
        m.state == DecodeState::Decoding,
        wss.len() == m.max_tokens - m.generated,
        forall|i: int| 0 <= i < wss.len() ==> m.eos != Some(#[trigger] step_token(m, wss, i)),
    ensures
        ({
            let f = run_model(m, wss);
            &&& f.state == DecodeState::StoppedLength
            &&& f.generated == m.max_tokens
            &&& f.tokens.len() == m.tokens.len() + wss.len()
            &&& f.prompt_len == m.prompt_len
            &&& f.inv()
        }),
    decreases wss.len(),
{
    assert(wss.take(0) =~= Seq::<Seq<u64>>::empty());
    assert(run_prefix(m, wss, 0) == m);
    let (m1, t0) = step_model(m, wss[0]);
    assert(m.eos != Some(step_token(m, wss, 0)));
    let wss1 = wss.drop_first();
    if wss.len() == 1 {
        lemma_halted_run_is_fixed(m1, wss1);
    } else {
        assert forall|i: int| 0 <= i < wss1.len() implies m1.eos != Some(
            #[trigger] step_token(m1, wss1, i),
        ) by {
            lemma_run_prefix_shift(m, wss, i);
            assert(wss1[i] == wss[i + 1]);
            assert(m.eos != Some(step_token(m, wss, i + 1)));
        }
        lemma_run_exhausts_budget(m1, wss1);
    }
}

/// With the end-of-sequence id first sampled at step `k`, inside the budget,
/// a run generates exactly `k` ids and stops with the EOS reason; the
/// end-of-sequence id itself is not appended.
pub proof fn lemma_run_stops_at_eos(m: SessionModel, wss: Seq<Seq<u64>>, k: int)
    requires
        m.inv(),
        m.state == DecodeState::Decoding,
        0 <= k < wss.len(),
        k < m.max_tokens - m.generated,
        forall|i: int| 0 <= i < k ==> m.eos != Some(#[trigger] step_token(m, wss, i)),
        m.eos == Some(step_token(m, wss, k)),
    ensures
        ({
            let f = run_model(m, wss);
            &&& f.state == DecodeState::StoppedEos
            &&& f.generated == m.generated + k
            &&& f.tokens.len() == m.tokens.len() + k
            &&& f.prompt_len == m.prompt_len
            &&& f.inv()
        }),
    decreases k,
{
    assert(wss.take(0) =~= Seq::<Seq<u64>>::empty());
    assert(run_prefix(m, wss, 0) == m);
    let (m1, t0) = step_model(m, wss[0]);
    let wss1 = wss.drop_first();
    if k == 0 {
        lemma_halted_run_is_fixed(m1, wss1);
    } else {
        assert(m.eos != Some(step_token(m, wss, 0)));
        assert forall|i: int| 0 <= i < k - 1 implies m1.eos != Some(
            #[trigger] step_token(m1, wss1, i),
        ) by {
            lemma_run_prefix_shift(m, wss, i);
            assert(wss1[i] == wss[i + 1]);
            assert(m.eos != Some(step_token(m, wss, i + 1)));
        }
        assert(m1.eos == Some(step_token(m1, wss1, k - 1))) by {
            lemma_run_prefix_shift(m, wss, k - 1);
            assert(wss1[k - 1] == wss[k]);
        }
        lemma_run_stops_at_eos(m1, wss1, k - 1);
    }
}

/// Emission never feeds back into sampling: two sessions that differ only in
/// how much text they have emitted sample the same id from the same
/// distribution and differ afterwards only in that same bookkeeping — so a
/// streaming run generates exactly the ids the non-streaming run does.
pub proof fn lemma_emission_does_not_affect_sampling(m: SessionModel, e: int, ws: Seq<u64>)
    ensures
        step_model((SessionModel { emitted: e, ..m }), ws).1 == step_model(m, ws).1,
        step_model((SessionModel { emitted: e, ..m }), ws).0 == (SessionModel {
            emitted: e,
            ..step_model(m, ws).0
        }),
{
}

/// The deltas a streamed run emits from the successive decoded texts: the
/// first text whole, then each text's tail past the previous text's length.
pub open spec fn stream_deltas(texts: Seq<Seq<char>>) -> Seq<Seq<char>> {
    Seq::new(
        texts.len(),
        |i: int|
            if i == 0 {
                texts[0]
            } else {
                texts[i].skip(texts[i - 1].len() as int)
            },
    )
}

/// All the pieces, in order, as one text.
pub open spec fn concat_texts(s: Seq<Seq<char>>) -> Seq<char>
    decreases s.len(),
{
    if s.len() == 0 {
        Seq::empty()
    } else {
        concat_texts(s.drop_last()) + s.last()
    }
}

/// Streaming/non-streaming equivalence of the emitted text: when each decoded
/// text extends the previous one — byte-level detokenization only ever
/// resolves further characters — concatenating every streamed delta re-forms
/// the final decoded text, the one a non-streaming call returns for the same
/// ids.
pub proof fn lemma_stream_concat(texts: Seq<Seq<char>>)
    requires
        texts.len() >= 1,
        forall|i: int| 0 <= i < texts.len() - 1 ==> (#[trigger] texts[i]).is_prefix_of(texts[i + 1]),
    ensures
        concat_texts(stream_deltas(texts)) == texts.last(),
    decreases texts.len(),
{
    let ds = stream_deltas(texts);
    if texts.len() == 1 {
        assert(ds.drop_last() =~= Seq::<Seq<char>>::empty());
        assert(concat_texts(Seq::<Seq<char>>::empty()) =~= Seq::<char>::empty());
        assert(ds.last() == texts[0]);
        assert(concat_texts(ds) == Seq::<char>::empty() + texts[0]);
        assert(Seq::<char>::empty() + texts[0] =~= texts[0]);
    } else {
        let ts1 = texts.drop_last();
        lemma_stream_concat(ts1);
        assert(stream_deltas(ts1) =~= ds.drop_last());
        let a = texts[texts.len() - 2];
        let b = texts.last();
        assert(a.is_prefix_of(b));
        assert(concat_texts(ds) == ts1.last() + b.skip(a.len() as int));
        assert(ts1.last() + b.skip(a.len() as int) =~= b);
    }
}

/// The per-call text-generation state.
pub struct GenerationSession {
    /// Prompt ids followed by the generated ids.
    pub tokens: Vec<u32>,
    /// How many of `tokens` are the prompt.
    pub prompt_len: usize,
    /// The step budget.
    pub max_tokens: u32,
    /// How many ids were generated so far.
    pub generated: u32,
    /// The model's end-of-sequence id, if it has one.
    pub eos_token_id: Option<u32>,
    /// The sampler; advances once per step.
    pub sampler: Sampler,
    pub state: DecodeState,
    /// How many characters of the decoded text were already emitted.
    pub emitted: usize,
}

impl View for GenerationSession {
    type V = SessionModel;

    open spec fn view(&self) -> SessionModel {
        SessionModel {
            tokens: self.tokens@,
            prompt_len: self.prompt_len as int,
            max_tokens: self.max_tokens as int,
            generated: self.generated as int,
            eos: self.eos_token_id,
            top_p: self.sampler.spec_top_p_ppm(),
            rng: self.sampler.spec_rng_state(),
            state: self.state,
            emitted: self.emitted as int,
        }
    }
}

impl GenerationSession {
    pub open spec fn wf(&self) -> bool {
        self@.inv()
    }

    /// A fresh session over a tokenized prompt.
    pub fn new(prompt_ids: Vec<u32>, max_tokens: u32, eos_token_id: Option<u32>, sampler: Sampler) -> (s:
        GenerationSession)
        ensures
            s@ == init_model(
                prompt_ids@,
                max_tokens,
                eos_token_id,
                sampler.spec_top_p_ppm(),
                sampler.spec_rng_state(),
            ),
            s.wf(),
    {
        let prompt_len = prompt_ids.len();
        GenerationSession {
            tokens: prompt_ids,
            prompt_len,
            max_tokens,
            generated: 0,
            eos_token_id,
            sampler,
            state: if max_tokens == 0 {
                DecodeState::StoppedLength
            } else {
                DecodeState::Decoding
            },
            emitted: 0,
        }
    }

    /// One decode step over the weight distribution of the last position's
    /// logits. Only a decoding session steps: a stopped or cancelled one
    /// never reaches another forward pass.
    pub fn step(&mut self, probs: &Vec<u64>) -> (t: u32)
        requires
            old(self).wf(),
            old(self)@.state == DecodeState::Decoding,
            probs@.len() >= 1,
            probs@.len() <= u32::MAX as int,
            sum_weights(probs@) <= u64::MAX as int,
        ensures
            final(self).wf(),
            (final(self)@, t) == step_model(old(self)@, probs@),
    {
        let t = self.sampler.sample(probs);
        let is_eos = match self.eos_token_id {
            Some(e) => e == t,
            None => false,
        };
        if is_eos {
            self.state = DecodeState::StoppedEos;
        } else {
            self.tokens.push(t);
            self.generated = self.generated + 1;
            if self.generated == self.max_tokens {
                self.state = DecodeState::StoppedLength;
            }
        }
        t
    }

    /// Record that a streamed send failed because the consumer dropped its
    /// end: the session is cancelled and `step`'s contract admits no further
    /// forward pass.
    pub fn note_send_failure(&mut self)
        ensures
            final(self)@ == (SessionModel { state: DecodeState::Cancelled, ..old(self)@ }),
    {
        self.state = DecodeState::Cancelled;
    }

    /// The generated suffix: the ids after the prompt, for detokenization.
    pub fn generated_ids(&self) -> (ids: Vec<u32>)
        requires
            self.wf(),
        ensures
            ids@ == self@.tokens.skip(self@.prompt_len),
    {
        let mut ids: Vec<u32> = Vec::new();
        let mut i: usize = self.prompt_len;
        while i < self.tokens.len()
            invariant
                self.prompt_len <= i <= self.tokens@.len(),
                ids@ == self@.tokens.subrange(self@.prompt_len, i as int),
            decreases self.tokens@.len() - i,
        {
            ids.push(self.tokens[i]);
            proof {
                assert(self@.tokens.subrange(self@.prompt_len, i + 1) =~= self@.tokens.subrange(
                    self@.prompt_len,
                    i as int,
                ).push(self@.tokens[i as int]));
            }
            i += 1;
        }
        ids
    }

    /// The whole current sequence, prompt included: what the next forward
    /// pass runs over.
    pub fn context_ids(&self) -> (ids: &Vec<u32>)
        ensures
            ids@ == self@.tokens,
    {
        &self.tokens
    }

    /// How many ids were generated.
    pub fn generated_count(&self) -> (n: usize)
        ensures
            n == self@.generated,
    {
        self.generated as usize
    }

    /// The protocol word for how the generation ended: `"stop"` for the
    /// end-of-sequence id, `"length"` for an exhausted budget, nothing while
    /// decoding or after a cancellation.
    pub fn finish_reason(&self) -> (r: Option<String>)
        ensures
            self@.state == DecodeState::StoppedEos ==> (r matches Some(s) && s@ == "stop"@),
            self@.state == DecodeState::StoppedLength ==> (r matches Some(s) && s@ == "length"@),
            self@.state == DecodeState::Decoding || self@.state == DecodeState::Cancelled ==> (r
                is None),
    {
        match self.state {
            DecodeState::StoppedEos => Some(String::from_str("stop")),
            DecodeState::StoppedLength => Some(String::from_str("length")),
            DecodeState::Decoding => None,
            DecodeState::Cancelled => None,
        }
    }

    /// Given the decoded text of the generated suffix, the not-yet-emitted
    /// tail, or nothing when no new characters resolved yet. Bookkeeping
    /// advances so each character is emitted at most once: concatenating
    /// every emitted delta re-forms the decoded text.
    pub fn stream_delta(&mut self, current_text: &String) -> (d: Option<String>)
        ensures
            final(self)@ == (SessionModel {
                emitted: if current_text@.len() > old(self)@.emitted {
                    current_text@.len() as int
                } else {
                    old(self)@.emitted
                },
                ..old(self)@
            }),
            current_text@.len() > old(self)@.emitted ==> (d matches Some(s) && s@
                == current_text@.skip(old(self)@.emitted)),
            current_text@.len() <= old(self)@.emitted ==> (d is None),
    {
        let text_len = current_text.as_str().unicode_len();
        if text_len > self.emitted {
            let tail = current_text.as_str().substring_char(self.emitted, text_len);
            let delta = String::from_str(tail);
            self.emitted = text_len;
            proof {
                assert(delta@ =~= current_text@.skip(old(self)@.emitted));
            }
            Some(delta)
        } else {
            None
        }
    }
}

/// The text-model architectures the decode loop dispatches over: a tagged
/// union matched at the single forward-pass call site.
#[derive(Clone, Copy, Debug, PartialEq, Eq, Structural)]
pub enum TextArch {
    /// Decoder-only models of the Llama family; also the fallback.
    Llama,
    /// The Phi family.
    Phi,
}

/// The architecture a model configuration's type string names: the Phi
/// markers map to Phi, anything else — Llama, Mistral and their kin — to the
/// Llama loader.
pub open spec fn text_arch_of(s: Seq<char>) -> TextArch {
    if s == "phi"@ || s == "phi-msft"@ || s == "phi2"@ {
        TextArch::Phi
    } else {
        TextArch::Llama
    }
}

/// Classify a model configuration's type string.
pub fn classify_text_arch(model_type: &str) -> (a: TextArch)
    ensures
        a == text_arch_of(model_type@),
{
    if crate::strutil::str_eq(model_type, "phi") || crate::strutil::str_eq(model_type, "phi-msft")
        || crate::strutil::str_eq(model_type, "phi2") {
        TextArch::Phi
    } else {
        TextArch::Llama
    }
}

/// The model's end-of-sequence id: the id of the first of the conventional
/// end markers present in the vocabulary. Which id that is depends on the
/// loaded vocabulary; every consumer takes the id as a value of its own.
pub fn get_eos_token_id(tokenizer: &tokenizers::Tokenizer) -> Option<u32> {
    match crate::tokenize::vocab_token_id(tokenizer, "</s>") {
        Some(id) => Some(id),
        None => match crate::tokenize::vocab_token_id(tokenizer, "<|endoftext|>") {
            Some(id) => Some(id),
            None => match crate::tokenize::vocab_token_id(tokenizer, "<eos>") {
                Some(id) => Some(id),
                None => crate::tokenize::vocab_token_id(tokenizer, "<|end|>"),
            },
        },
    }
}

/// The text side of a loaded model: the tokenizer and the end-of-sequence id
/// looked up in its vocabulary. The tensor side — the network that the
/// forward passes run on — lives with the caller; the engine only ever sees
/// the per-step weight distributions.
pub struct TextEngine {
    pub tokenizer: tokenizers::Tokenizer,
    pub eos_token_id: Option<u32>,
}

impl TextEngine {
    /// Wrap a tokenizer, looking the end-of-sequence id up in its vocabulary.
    pub fn new(tokenizer: tokenizers::Tokenizer) -> TextEngine {
        let eos_token_id = get_eos_token_id(&tokenizer);
        TextEngine { tokenizer, eos_token_id }
    }

    /// Tokenize a prompt and open a session over it: nothing generated,
    /// nothing emitted, the budget and sampler in place. Fails exactly when
    /// the tokenizer fails, and then with the tokenization error.
    pub fn start_session(&self, prompt: &str, max_tokens: u32, sampler: Sampler) -> (r: Result<
        GenerationSession,
        crate::api::GenerationError,
    >)
        ensures
            (r matches Ok(s) ==> {
                &&& s@ == init_model(
                    s@.tokens,
                    max_tokens,
                    self.eos_token_id,
                    sampler.spec_top_p_ppm(),
                    sampler.spec_rng_state(),
                )
                &&& s.wf()
            }),
            (r matches Err(e) ==> e matches crate::api::GenerationError::Tokenization(_)),
    {
        match crate::tokenize::encode_ids(&self.tokenizer, prompt) {
            Ok(ids) => Ok(GenerationSession::new(ids, max_tokens, self.eos_token_id, sampler)),
            Err(m) => Err(crate::api::GenerationError::Tokenization(m)),
        }
    }

    /// Decode the generated suffix of a session. Fails exactly when the
    /// tokenizer fails, and then with the backend error of a failed decode.
    pub fn decode_generated(&self, session: &GenerationSession) -> (r: Result<
        String,
        crate::api::GenerationError,
    >)
        requires
            session.wf(),
        ensures
            (r matches Err(e) ==> e matches crate::api::GenerationError::Backend(_)),
    {
        let ids = session.generated_ids();
        match crate::tokenize::decode_text(&self.tokenizer, &ids) {
            Ok(text) => Ok(text),
            Err(m) => Err(crate::api::GenerationError::Backend(m)),
        }
    }

    /// What a finished session amounts to: the decoded text, the count of
    /// generated ids, and the finish reason the stop carries.
    pub fn finish(&self, session: &GenerationSession) -> (r: Result<
        crate::api::GenerationResult,
        crate::api::GenerationError,
    >)
        requires
            session.wf(),
            session@.state == DecodeState::StoppedEos || session@.state
                == DecodeState::StoppedLength,
        ensures
            (r matches Ok(g) ==> {
                &&& g.tokens_generated == session@.generated
                &&& (session@.state == DecodeState::StoppedEos ==> g.finish_reason@ == "stop"@)
                &&& (session@.state == DecodeState::StoppedLength ==> g.finish_reason@
                    == "length"@)
            }),
            (r matches Err(e) ==> e matches crate::api::GenerationError::Backend(_)),
    {
        let text = match self.decode_generated(session) {
            Ok(t) => t,
            Err(e) => {
                return Err(e);
            },
        };
        let reason = match session.finish_reason() {
            Some(s) => s,
            None => unreached(),
        };
        let tokens_generated: usize = session.generated_count();
        Ok(crate::api::GenerationResult { text, tokens_generated, finish_reason: reason })
    }
}

/// The template block one chat message contributes to the prompt,
/// Llama-style: system messages wrapped in a system block, user messages in
/// instruction markers, assistant messages space-padded, anything else
/// verbatim.
pub open spec fn message_block(role: Seq<char>, content: Seq<char>) -> Seq<char> {
    if role == "system"@ {
        "<<SYS>>\n"@ + content + "\n<</SYS>>\n\n"@
    } else if role == "user"@ {
        "[INST] "@ + content + " [/INST]"@
    } else if role == "assistant"@ {
        " "@ + content + " "@
    } else {
        content
    }
}

/// The whole prompt: the messages' template blocks, in order.
pub open spec fn chat_prompt(msgs: Seq<crate::api::ChatMessage>) -> Seq<char>
    decreases msgs.len(),
{
    if msgs.len() == 0 {
        Seq::empty()
    } else {
        chat_prompt(msgs.drop_last()) + message_block(msgs.last().role@, msgs.last().content@)
    }
}

/// Build the prompt a chat request's messages amount to.
pub fn build_chat_prompt(messages: &Vec<crate::api::ChatMessage>) -> (p: String)
    ensures
        p@ == chat_prompt(messages@),
{
    let role_system = String::from_str("system");
    let role_user = String::from_str("user");
    let role_assistant = String::from_str("assistant");
    let mut p = String::new();
    let mut i: usize = 0;
    while i < messages.len()
        invariant
            i <= messages@.len(),
            p@ == chat_prompt(messages@.take(i as int)),
            role_system@ == "system"@,
            role_user@ == "user"@,
            role_assistant@ == "assistant"@,
        decreases messages@.len() - i,
    {
        let m = &messages[i];
        if m.role == role_system {
            p.append("<<SYS>>\n");
            p.append(m.content.as_str());
            p.append("\n<</SYS>>\n\n");
        } else if m.role == role_user {
            p.append("[INST] ");
            p.append(m.content.as_str());
            p.append(" [/INST]");
        } else if m.role == role_assistant {
            p.append(" ");
            p.append(m.content.as_str());
            p.append(" ");
        } else {
            p.append(m.content.as_str());
        }
        proof {
            assert(messages@.take(i + 1).drop_last() =~= messages@.take(i as int));
            assert(messages@.take(i + 1).last() == messages@[i as int]);
        }
        i += 1;
    }
    proof {
        assert(messages@.take(messages@.len() as int) =~= messages@);
    }
    p
}

} // verus!
