//! The messages of `runtime.v1` as plain values.
//!
//! A float is the bit pattern of its 64-bit representation.

use vstd::prelude::*;

verus! {

/// Where the prefill server of a disaggregated pair can be reached.
#[derive(Debug, Default)]
pub struct DisaggregatedParams {
    pub bootstrap_host: String,
    pub bootstrap_port: i32,
    pub bootstrap_room: i64,
}

/// The values that a guided choice allows.
#[derive(Debug, Default)]
pub struct ChoiceConstraint {
    pub values: Vec<String>,
}

/// What guided decoding constrains the output to.
#[derive(Debug)]
pub enum Constraint {
    JsonSchema(String),
    Regex(String),
    Ebnf(String),
    StructuralTag(String),
    Choice(ChoiceConstraint),
}

/// Guided decoding.
#[derive(Debug, Default)]
pub struct GuidedDecoding {
    pub constraint: Option<Constraint>,
}

/// Sampling parameters as a client sends them.
#[derive(Debug, Default)]
pub struct SamplingParams {
    pub temperature: Option<u64>,
    pub top_p: Option<u64>,
    pub top_k: Option<i32>,
    pub min_p: Option<u64>,
    pub frequency_penalty: Option<u64>,
    pub presence_penalty: Option<u64>,
    pub repetition_penalty: Option<u64>,
    pub max_new_tokens: Option<i32>,
    pub min_new_tokens: Option<i32>,
    pub stop: Vec<String>,
    pub stop_token_ids: Vec<i32>,
    pub ignore_eos: Option<bool>,
    pub n: Option<i32>,
    pub seed: Option<i64>,
    /// Superseded by `guided_decoding`.
    pub json_schema: Option<String>,
    /// Superseded by `guided_decoding`.
    pub regex: Option<String>,
    pub guided_decoding: Option<GuidedDecoding>,
}

/// A generation request with a text prompt.
#[derive(Debug, Default)]
pub struct TextGenerateRequest {
    pub text: String,
    pub sampling_params: Option<SamplingParams>,
    pub stream: Option<bool>,
    pub return_logprob: Option<bool>,
    pub top_logprobs_num: Option<i32>,
    pub logprob_start_len: Option<i32>,
    pub return_text_in_logprobs: Option<bool>,
    pub rid: Option<String>,
    pub lora_path: Option<String>,
    pub routing_key: Option<String>,
    pub routed_dp_rank: Option<i32>,
    pub trace_headers: Vec<(String, String)>,
    pub session_id: Option<String>,
    pub disaggregated_params: Option<DisaggregatedParams>,
    pub priority: Option<i32>,
    pub require_reasoning: Option<bool>,
    pub max_thinking_tokens: Option<i32>,
}

/// A generation request with prompt tokens.
#[derive(Debug, Default)]
pub struct GenerateRequest {
    pub input_ids: Vec<i32>,
    pub sampling_params: Option<SamplingParams>,
    pub stream: Option<bool>,
    pub return_logprob: Option<bool>,
    pub top_logprobs_num: Option<i32>,
    pub logprob_start_len: Option<i32>,
    pub rid: Option<String>,
    pub lora_path: Option<String>,
    pub routing_key: Option<String>,
    pub routed_dp_rank: Option<i32>,
    pub trace_headers: Vec<(String, String)>,
    pub session_id: Option<String>,
    pub disaggregated_params: Option<DisaggregatedParams>,
    pub priority: Option<i32>,
    pub require_reasoning: Option<bool>,
    pub max_thinking_tokens: Option<i32>,
}

/// An OpenAI request: a JSON document, with tracing headers beside it.
#[derive(Debug, Default)]
pub struct OpenAiRequest {
    pub json_body: Vec<u8>,
    pub trace_headers: Vec<(String, String)>,
}

/// One piece of an OpenAI response.
#[derive(Debug)]
pub struct OpenAiStreamChunk {
    pub json_chunk: Vec<u8>,
    pub finished: bool,
}

/// A model that the server serves.
#[derive(Debug)]
pub struct ModelCard {
    pub id: String,
    pub root: String,
    pub parent: Option<String>,
    pub max_model_len: Option<i32>,
}

} // verus!
