//! The part of the launch configuration that decisions depend on.

use std::collections::BTreeMap;

use vstd::prelude::*;

use crate::json::Json;

verus! {

/// The launch configuration, as far as it is read here.
#[derive(Debug)]
pub struct ServerArgs {
    pub host: String,
    pub port: u16,
    pub grpc_port: Option<u16>,
    pub model_path: String,
    pub served_model_name: String,
    pub tokenizer_path: String,
    pub revision: Option<String>,
    pub chat_template: Option<String>,
    pub model_type: Option<String>,
    /// The preferred sampling parameters, as they were configured.
    pub preferred_sampling_params: Option<Json>,
    pub weight_version: Option<String>,
    pub load_format: Option<String>,
    pub reasoning_parser: Option<String>,
    pub tool_call_parser: Option<String>,
    /// The role of the server in a disaggregated pair, as clients see it.
    pub disaggregation_mode: String,
    pub is_disaggregation: bool,
    /// How many items of each kind of media one request may hold.
    pub limit_mm_data_per_request: BTreeMap<String, usize>,
    pub context_len: u64,
    pub max_total_num_tokens: u64,
    pub version: String,
    pub skip_tokenizer_init: bool,
    pub skip_server_warmup: bool,
    pub incremental_streaming_output: bool,
    pub tokenizer_worker_num: usize,
    pub detokenizer_worker_num: usize,
}

} // verus!
