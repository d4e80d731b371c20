//! Data model shared by the router components.
//!
//! Fractional wire values are fixed-point integers in thousandths
//! (`*_milli`); instants and durations are integer milliseconds.

use vstd::prelude::*;

verus! {

/// A grammar constraint attached to a request: either a serialized JSON
/// schema or a regular-expression pattern, both carried as text.
#[derive(Clone, Debug)]
pub enum GrammarType {
    Json(String),
    Regex(String),
}

/// How a generation ended.
#[derive(Clone, Copy, Debug, PartialEq, Eq, Structural)]
pub enum FinishReason {
    Length,
    EndOfSequenceToken,
    StopSequence,
}

impl FinishReason {
    /// The wire name of the finish reason.
    pub fn as_str(&self) -> (r: &'static str)
        ensures
            self is Length ==> r@ == "length"@,
            self is EndOfSequenceToken ==> r@ == "eos_token"@,
            self is StopSequence ==> r@ == "stop_sequence"@,
    {
        match self {
            FinishReason::Length => "length",
            FinishReason::EndOfSequenceToken => "eos_token",
            FinishReason::StopSequence => "stop_sequence",
        }
    }
}

/// Sampling and stopping parameters of a generate request.
#[derive(Clone, Debug)]
pub struct GenerateParameters {
    pub best_of: Option<u32>,
    /// Thousandths; must be positive when set.
    pub temperature_milli: Option<i64>,
    /// Thousandths; must be positive when set.
    pub repetition_penalty_milli: Option<i64>,
    /// Thousandths; must lie strictly between -2000 and 2000 when set.
    pub frequency_penalty_milli: Option<i64>,
    pub top_k: Option<i64>,
    /// Thousandths; must lie strictly between 0 and 1000 when set.
    pub top_p_milli: Option<i64>,
    /// Thousandths; must lie strictly between 0 and 1000 when set.
    pub typical_p_milli: Option<i64>,
    pub do_sample: bool,
    pub max_new_tokens: Option<u32>,
    pub return_full_text: Option<bool>,
    pub stop: Vec<String>,
    pub truncate: Option<usize>,
    pub watermark: bool,
    pub details: bool,
    pub decoder_input_details: bool,
    pub seed: Option<u64>,
    pub top_n_tokens: Option<u32>,
    pub grammar: Option<GrammarType>,
}

/// Whether a parameter struct has every field at its default.
pub open spec fn params_default(p: GenerateParameters) -> bool {
    &&& p.best_of is None
    &&& p.temperature_milli is None
    &&& p.repetition_penalty_milli is None
    &&& p.frequency_penalty_milli is None
    &&& p.top_k is None
    &&& p.top_p_milli is None
    &&& p.typical_p_milli is None
    &&& !p.do_sample
    &&& p.max_new_tokens is None
    &&& p.return_full_text is None
    &&& p.stop@.len() == 0
    &&& p.truncate is None
    &&& !p.watermark
    &&& !p.details
    &&& !p.decoder_input_details
    &&& p.seed is None
    &&& p.top_n_tokens is None
    &&& p.grammar is None
}

impl Default for GenerateParameters {
    fn default() -> (r: Self)
        ensures
            params_default(r),
    {
        GenerateParameters {
            best_of: None,
            temperature_milli: None,
            repetition_penalty_milli: None,
            frequency_penalty_milli: None,
            top_k: None,
            top_p_milli: None,
            typical_p_milli: None,
            do_sample: false,
            max_new_tokens: None,
            return_full_text: None,
            stop: Vec::new(),
            truncate: None,
            watermark: false,
            details: false,
            decoder_input_details: false,
            seed: None,
            top_n_tokens: None,
            grammar: None,
        }
    }
}

/// The internal inference primitive every HTTP shape collapses onto.
#[derive(Clone, Debug)]
pub struct GenerateRequest {
    pub inputs: String,
    pub parameters: GenerateParameters,
}

/// One generated token.
#[derive(Clone, Debug)]
pub struct Token {
    pub id: u32,
    pub text: String,
    /// Log-probability in thousandths of a nat.
    pub logprob_milli: i64,
    pub special: bool,
}

/// One prompt token reported back by the prefill pass.
#[derive(Clone, Debug)]
pub struct PrefillToken {
    pub id: u32,
    pub text: String,
    /// Log-probability in thousandths of a nat.
    pub logprob_milli: i64,
}

/// One token of a tokenize-only request, with character offsets into the
/// input.
#[derive(Clone, Debug)]
pub struct SimpleToken {
    pub id: u32,
    pub text: String,
    pub start: usize,
    pub stop: usize,
}

/// The terminal payload of one generation.
#[derive(Clone, Debug)]
pub struct GeneratedText {
    pub text: String,
    pub generated_tokens: u32,
    pub finish_reason: FinishReason,
    pub seed: Option<u64>,
}

/// One item of a per-request event stream.
#[derive(Clone, Debug)]
pub enum InferStreamResponse {
    Prefill(Vec<PrefillToken>),
    Intermediate { token: Token, top_tokens: Vec<Token> },
    End {
        token: Token,
        generated_text: GeneratedText,
        /// Instant the entry was first batched, in milliseconds.
        start_ms: u64,
        /// Instant the entry was queued, in milliseconds.
        queued_ms: u64,
        top_tokens: Vec<Token>,
    },
}

/// The collected result of one non-streaming generation.
#[derive(Clone, Debug)]
pub struct InferResponse {
    pub prefill: Vec<PrefillToken>,
    pub input_length: u32,
    pub tokens: Vec<Token>,
    pub generated_text: GeneratedText,
    pub queued_ms: u64,
    pub start_ms: u64,
    pub top_tokens: Vec<Vec<Token>>,
}

/// Extra token-level detail attached to a non-streaming response.
#[derive(Clone, Debug)]
pub struct Details {
    pub finish_reason: FinishReason,
    pub generated_tokens: u32,
    pub seed: Option<u64>,
    pub prefill: Vec<PrefillToken>,
    pub tokens: Vec<Token>,
    pub best_of_sequences: Option<Vec<BestOfSequence>>,
    pub top_tokens: Vec<Vec<Token>>,
}

/// One of the also-ran generations of a best-of request.
#[derive(Clone, Debug)]
pub struct BestOfSequence {
    pub generated_text: String,
    pub finish_reason: FinishReason,
    pub generated_tokens: u32,
    pub prefill: Vec<PrefillToken>,
    pub tokens: Vec<Token>,
    pub top_tokens: Vec<Vec<Token>>,
    pub seed: Option<u64>,
}

/// The body of a non-streaming generate response.
#[derive(Clone, Debug)]
pub struct GenerateResponse {
    pub generated_text: String,
    pub details: Option<Details>,
}

/// Detail attached to the final event of a streaming response.
#[derive(Clone, Copy, Debug, PartialEq, Eq)]
pub struct StreamDetails {
    pub finish_reason: FinishReason,
    pub generated_tokens: u32,
    pub seed: Option<u64>,
}

/// One server-sent event of a streaming response.
#[derive(Clone, Debug)]
pub struct StreamResponse {
    pub index: u32,
    pub token: Token,
    pub top_tokens: Vec<Token>,
    pub generated_text: Option<String>,
    pub details: Option<StreamDetails>,
}

/// Token accounting of an OpenAI-compatible completion response.
#[derive(Clone, Copy, Debug, PartialEq, Eq)]
pub struct Usage {
    pub prompt_tokens: u32,
    pub completion_tokens: u32,
    pub total_tokens: u32,
}

/// The error body every failing route serializes.
#[derive(Clone, Debug)]
pub struct ErrorResponse {
    pub error: String,
    pub error_type: String,
}

} // verus!
