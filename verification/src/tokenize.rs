//! Trusted boundary to the `tokenizers` crate.
//!
//! A tokenizer maps text to vocabulary ids and back. What it returns depends
//! on the vocabulary it was built from — a file on disk — so nothing here
//! pins the values down: each wrapper states only what holds of every
//! outcome, and the verified logic takes the returned ids or text as
//! arguments and is proved for every value of them.

use vstd::prelude::*;

verus! {

/// The tokenizer of the `tokenizers` crate, opaque to the library's proofs.
#[verifier::external_type_specification]
#[verifier::external_body]
pub struct ExTokenizer(tokenizers::Tokenizer);

/// Relies on tokenizers::Tokenizer::encode (with special tokens added) and
/// Encoding::get_ids: text in, vocabulary ids out; the error is the crate's
/// boxed error, carried as its message.
#[verifier::external_body]
pub(crate) fn encode_ids(tok: &tokenizers::Tokenizer, text: &str) -> (r: Result<Vec<u32>, String>) {
    match tok.encode(text, true) {
        Ok(enc) => Ok(enc.get_ids().to_vec()),
        Err(e) => Err(e.to_string()),
    }
}

/// Relies on tokenizers::Tokenizer::decode (skipping special tokens):
/// vocabulary ids in, text out; the error is the crate's boxed error, carried
/// as its message.
#[verifier::external_body]
pub(crate) fn decode_text(tok: &tokenizers::Tokenizer, ids: &Vec<u32>) -> (r: Result<
    String,
    String,
>) {
    match tok.decode(ids.as_slice(), true) {
        Ok(s) => Ok(s),
        Err(e) => Err(e.to_string()),
    }
}

/// Relies on tokenizers::Tokenizer::get_vocab (added tokens included): the id
/// under one vocabulary entry, or nothing when the entry is absent.
#[verifier::external_body]
pub(crate) fn vocab_token_id(tok: &tokenizers::Tokenizer, token: &str) -> (r: Option<u32>) {
    let vocab = tok.get_vocab(true);
    vocab.get(token).copied()
}

} // verus!
