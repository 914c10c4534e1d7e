use std::collections::BTreeMap;

use sglang_server::api_server;
use sglang_server::config::ServerArgs;
use sglang_server::contract::{FrontendError, HealthStatus};
use sglang_server::frontend::{
    detokenize as detokenize_reply, RequestAdmission, RequestKind, ResponseItem, RuntimeCall,
};
use sglang_server::grpc::openai::{OpenAiInput, OpenAiStream};
use sglang_server::grpc::proto;
use sglang_server::grpc::service::{
    check_served, detokenize, get_server_info, health_check, list_models, max_message_size,
    open_detokenize, openai_policy, text_generate, unimplemented_rpc, AdapterConfig, Rpc,
    DEFAULT_GRPC_MAX_MESSAGE_SIZE, DEFAULT_RESPONSE_TIMEOUT,
};
use sglang_server::grpc::status::GrpcCode;
use sglang_server::json::{parse_bytes, Json};
use sglang_server::openai::{error_payload, frontend_error_status, OpenAiStreamItem};
use sglang_server::metadata::{
    FrontendMetadata, InternalState, MemoryMeasurement, MemoryUsage,
};

fn value(json: &Json) -> serde_json::Value {
    match json {
        Json::Null => serde_json::Value::Null,
        Json::Bool(flag) => serde_json::Value::Bool(*flag),
        Json::Unsigned(number) => serde_json::Value::from(*number),
        Json::Negative(number) => serde_json::Value::from(*number),
        Json::Decimal(text) => serde_json::Value::from(text.parse::<f64>().unwrap()),
        Json::Float(bits) => serde_json::Value::from(f64::from_bits(*bits)),
        Json::Text(text) => serde_json::Value::from(text.as_str()),
        Json::Array(items) => serde_json::Value::Array(items.iter().map(value).collect()),
        Json::Object(entries) => serde_json::Value::Object(
            entries
                .iter()
                .map(|(key, item)| (key.clone(), value(item)))
                .collect(),
        ),
    }
}

fn args() -> ServerArgs {
    ServerArgs {
        host: String::new(),
        port: 0,
        grpc_port: None,
        model_path: "/model".into(),
        served_model_name: "served".into(),
        tokenizer_path: "/tokenizer".into(),
        revision: None,
        chat_template: None,
        model_type: None,
        preferred_sampling_params: None,
        weight_version: Some("weights-v1".into()),
        load_format: Some("safetensors".into()),
        reasoning_parser: Some("reasoner".into()),
        tool_call_parser: Some("tools".into()),
        disaggregation_mode: "prefill".into(),
        is_disaggregation: true,
        limit_mm_data_per_request: Default::default(),
        context_len: 4096,
        max_total_num_tokens: 8192,
        version: "1.2.3".into(),
        skip_tokenizer_init: false,
        skip_server_warmup: false,
        incremental_streaming_output: true,
        tokenizer_worker_num: 1,
        detokenizer_worker_num: 1,
    }
}

#[test]
fn model_info_routes_render_the_typed_frontend_contract() {
    let info = FrontendMetadata::from_args(&args()).model_info();
    let body = value(&info.to_json());
    assert_eq!(body["model_path"], "/model");
    assert_eq!(body["served_model_name"], "served");
    assert_eq!(body["tokenizer_path"], "/tokenizer");
    assert_eq!(body["is_generation"], true);
    assert_eq!(body["weight_version"], "weights-v1");
    assert_eq!(body["load_format"], "safetensors");
    assert_eq!(body["reasoning_parser"], "reasoner");
    assert_eq!(body["tool_call_parser"], "tools");
    assert_eq!(body["disaggregation_mode"], "prefill");
    assert!(body["preferred_sampling_params"].is_null());
    assert_eq!(body.as_object().unwrap().len(), 10);
}

#[test]
fn configured_preferences_are_shown_as_they_are() {
    let configured = parse_bytes(br#"{"temperature":0.2,"stop":["a"],"top_k":-1}"#).unwrap();
    let args = ServerArgs {
        preferred_sampling_params: Some(configured),
        weight_version: None,
        ..args()
    };
    let body = value(&FrontendMetadata::from_args(&args).model_info().to_json());
    assert_eq!(
        body["preferred_sampling_params"].to_string(),
        r#"{"temperature":0.2,"stop":["a"],"top_k":-1}"#
    );
    assert!(body["weight_version"].is_null());
}

#[test]
fn server_info_route_serializes_only_the_typed_public_subset() {
    let state = InternalState {
        last_gen_throughput: Some(1.5_f64.to_bits()),
        memory_usage: Some(MemoryUsage {
            token_capacity: Some(8192),
            ..Default::default()
        }),
        ..Default::default()
    };
    let info = FrontendMetadata::from_args(&args()).server_info(state);
    let body = value(&info.to_json());
    assert_eq!(body["model_path"], "/model");
    assert_eq!(body["served_model_name"], "served");
    assert_eq!(body["tokenizer_path"], "/tokenizer");
    assert_eq!(body["max_context_length"], 4096);
    assert_eq!(body["max_total_num_tokens"], 8192);
    assert_eq!(body["version"], "1.2.3");
    assert_eq!(body["internal_states"][0]["last_gen_throughput"], 1.5);
    assert_eq!(
        body["internal_states"][0]["memory_usage"]["token_capacity"],
        8192
    );
    assert_eq!(
        body["internal_states"].to_string(),
        r#"[{"last_gen_throughput":1.5,"memory_usage":{"token_capacity":8192,"token_capacity_swa":null}}]"#
    );
}

#[test]
fn every_public_metric_has_its_place() {
    let state = InternalState {
        last_gen_throughput: Some(f64::NAN.to_bits()),
        memory_usage: Some(MemoryUsage {
            weight: Some(0.25_f64.to_bits()),
            kvcache: Some(MemoryMeasurement::Text("12.5".into())),
            startup_available: Some(2.0_f64.to_bits()),
            token_capacity: Some(1),
            token_capacity_swa: Some(2),
            graph: Some(vec![
                ("decode".into(), 3.5_f64.to_bits()),
                ("prefill".into(), 4.5_f64.to_bits()),
            ]),
        }),
        effective_max_running_requests_per_dp: Some(7),
        avg_spec_accept_length: Some(1.25_f64.to_bits()),
        step_time_dict: Some(BTreeMap::from([
            (18_446_744_073_709_551_615, vec![1.0_f64.to_bits()]),
            (128, vec![]),
            (16, vec![0.25_f64.to_bits(), 0.75_f64.to_bits()]),
            (1, vec![0.5_f64.to_bits()]),
        ])),
    };
    assert_eq!(state.clone(), state);
    assert_ne!(state, InternalState::default());
    assert_eq!(
        value(&state.to_json()).to_string(),
        concat(&[
            r#"{"last_gen_throughput":null,"memory_usage":{"weight":0.25,"kvcache":"12.5","#,
            r#""startup_available":2.0,"token_capacity":1,"token_capacity_swa":2,"#,
            r#""graph":{"decode":3.5,"prefill":4.5}},"effective_max_running_requests_per_dp":7,"#,
            r#""avg_spec_accept_length":1.25,"step_time_dict":{"1":[0.5],"16":[0.25,0.75],"128":[],"#,
            r#""18446744073709551615":[1.0]}}"#,
        ])
    );
    let numeric = MemoryUsage {
        kvcache: Some(MemoryMeasurement::Number(12.5_f64.to_bits())),
        ..Default::default()
    };
    assert_eq!(
        value(&numeric.to_json()).to_string(),
        r#"{"kvcache":12.5,"token_capacity_swa":null}"#
    );
    assert_eq!(value(&InternalState::default().to_json()).to_string(), "{}");
}

fn concat(parts: &[&str]) -> String {
    parts.concat()
}

#[test]
fn static_metadata_and_model_listing_use_frontend_metadata() {
    let args = ServerArgs {
        served_model_name: "model".into(),
        ..args()
    };
    let metadata = FrontendMetadata::from_args(&args);
    let info = metadata.model_info();
    assert_eq!(info.model_path, "/model");
    let json = value(&info.to_json());
    assert_eq!(json["served_model_name"], "model");
    assert_eq!(json["is_generation"], true);
    let models = list_models(&info, metadata.max_context_length).unwrap();
    assert_eq!(models.len(), 1);
    assert_eq!(models[0].id, "model");
    assert_eq!(models[0].root, "model");
    assert_eq!(models[0].max_model_len, Some(4096));
    assert!(models[0].parent.is_none());
}

#[test]
fn a_context_limit_must_fit_the_schema() {
    let info = FrontendMetadata::from_args(&args()).model_info();
    let models = list_models(&info, 2_147_483_647).unwrap();
    assert_eq!(models[0].max_model_len, Some(i32::MAX));
    let status = list_models(&info, 2_147_483_648).unwrap_err();
    assert_eq!(status.code, GrpcCode::OutOfRange);
    assert_eq!(status.message, "context length exceeds runtime.v1 int32");
}

#[test]
fn detokenize_uses_the_existing_runtime_operation() {
    let kind = RequestKind::Detokenize {
        token_ids: vec![1, 2],
    };
    let mut call = RuntimeCall::submit(&kind, "minted");
    let mut admission = RequestAdmission::pending();
    assert!(admission.try_accept());
    let RequestKind::Detokenize { token_ids } = kind else {
        panic!("expected detokenize request");
    };
    assert_eq!(token_ids, vec![1, 2]);
    let item = ResponseItem::Data(b"decoded".to_vec());
    call.observe(Some(&item));
    assert_eq!(
        detokenize(Some(detokenize_reply(Some(item)))).unwrap(),
        "decoded"
    );
    assert!(call.release(&mut admission).is_none());
}

#[test]
fn operations_that_take_too_long_are_given_up() {
    let status = detokenize(None).unwrap_err();
    assert_eq!(status.code, GrpcCode::DeadlineExceeded);
    assert_eq!(status.message, "detokenization timed out");
    let status = get_server_info::<()>(None).unwrap_err();
    assert_eq!(status.code, GrpcCode::DeadlineExceeded);
    assert_eq!(status.message, "server information timed out");
    let status = get_server_info::<()>(Some(Err(FrontendError::ResponseTruncated))).unwrap_err();
    assert_eq!(status.code, GrpcCode::Internal);
    assert_eq!(get_server_info(Some(Ok(5))).unwrap(), 5);
}

#[test]
fn operations_without_a_tokenizer_are_refused() {
    let status = text_generate(
        proto::TextGenerateRequest {
            text: "Hi".into(),
            ..Default::default()
        },
        true,
        None,
        "m",
    )
    .unwrap_err();
    assert_eq!(status.code, GrpcCode::Unimplemented);
    assert_eq!(status.message, "text generation requires a tokenizer");
    let status = open_detokenize(true).unwrap_err();
    assert_eq!(status.code, GrpcCode::Unimplemented);
    assert_eq!(status.message, "detokenization requires a tokenizer");
    assert!(open_detokenize(false).is_ok());
}

#[test]
fn health_uses_readiness_or_the_existing_activity_probe() {
    let quiet = AdapterConfig::new(&args(), false, 20);
    assert_eq!(quiet.health_probe_timeout, None);
    assert!(health_check(&quiet, None, true));
    assert!(!health_check(&quiet, None, false));

    let probing = AdapterConfig::new(&args(), true, 1);
    assert_eq!(probing.health_probe_timeout, Some(1));
    assert!(health_check(
        &probing,
        Some(Ok(HealthStatus::Healthy)),
        false
    ));
    for probed in [
        None,
        Some(Ok(HealthStatus::Stalled)),
        Some(Ok(HealthStatus::NotReady)),
        Some(Err(FrontendError::Unavailable)),
    ] {
        assert!(!health_check(&probing, probed, true));
    }
}

#[test]
fn the_service_is_configured_by_the_launch() {
    let config = AdapterConfig::new(&args(), true, -5);
    assert_eq!(config.health_probe_timeout, Some(0));
    assert_eq!(config.response_timeout, DEFAULT_RESPONSE_TIMEOUT);
    assert_eq!(config.response_timeout, 300);
    assert!(config.incremental_streaming_output);
    assert!(!config.skip_tokenizer_init);
    let policy = openai_policy(&args(), false);
    assert!(policy.tool_call_parser);
    assert!(!policy.chat_formatter);
    assert!(!policy.skip_tokenizer_init);
}

#[test]
fn unserved_calls_are_never_empty_successes() {
    for (rpc, name) in [
        (Rpc::TextEmbed, "text_embed"),
        (Rpc::Embed, "embed"),
        (Rpc::Classify, "classify"),
        (Rpc::Tokenize, "tokenize"),
        (Rpc::GetLoad, "get_load"),
        (Rpc::Abort, "abort"),
        (Rpc::FlushCache, "flush_cache"),
        (Rpc::PauseGeneration, "pause_generation"),
        (Rpc::GetIsReady, "get_is_ready"),
        (Rpc::ContinueGeneration, "continue_generation"),
        (Rpc::OpenAiEmbed, "open_ai_embed"),
        (Rpc::OpenAiClassify, "open_ai_classify"),
        (Rpc::Score, "score"),
        (Rpc::Rerank, "rerank"),
        (Rpc::StartProfile, "start_profile"),
        (Rpc::StopProfile, "stop_profile"),
        (Rpc::UpdateWeightsFromDisk, "update_weights_from_disk"),
    ] {
        let status = check_served(rpc).unwrap_err();
        assert_eq!(status.code, GrpcCode::Unimplemented);
        assert_eq!(
            status.message,
            format!("{name} is not implemented by the Rust frontend gRPC adapter")
        );
        assert_eq!(unimplemented_rpc(name).message, status.message);
    }
    for rpc in [
        Rpc::TextGenerate,
        Rpc::Generate,
        Rpc::ChatComplete,
        Rpc::Complete,
        Rpc::Detokenize,
        Rpc::HealthCheck,
        Rpc::GetModelInfo,
        Rpc::GetServerInfo,
        Rpc::ListModels,
    ] {
        assert!(check_served(rpc).is_ok(), "{}", rpc.name());
    }
}

#[test]
fn the_message_size_can_be_overridden_by_a_positive_number() {
    assert_eq!(DEFAULT_GRPC_MAX_MESSAGE_SIZE, 67_108_864);
    for (raw, expected) in [
        (None, 67_108_864),
        (Some("1048576"), 1_048_576),
        (Some("+12"), 12),
        (Some("007"), 7),
        (Some("0"), 67_108_864),
        (Some(""), 67_108_864),
        (Some("+"), 67_108_864),
        (Some("-1"), 67_108_864),
        (Some("12 "), 67_108_864),
        (Some("1e6"), 67_108_864),
        (Some("18446744073709551616"), 67_108_864),
        (Some("99999999999999999999999"), 67_108_864),
    ] {
        assert_eq!(max_message_size(raw), expected, "{raw:?}");
        if let Some(raw) = raw {
            let parsed = raw.parse::<usize>().ok().filter(|bytes| *bytes > 0);
            assert_eq!(max_message_size(Some(raw)), parsed.unwrap_or(67_108_864));
        }
    }
}

#[test]
fn http_bodies_survive_failures_to_serialize() {
    assert_eq!(api_server::model_info(Ok(b"{}".to_vec())), b"{}".to_vec());
    assert!(api_server::model_info(Err("nan".into())).is_empty());
    assert_eq!(api_server::server_info(Ok(vec![1])).unwrap(), vec![1]);
    assert!(matches!(
        api_server::server_info(Err("nan".into())),
        Err(api_server::HttpFailure::Plain { status: 500, text })
            if text == "bad server_info response"
    ));
}

#[test]
fn an_error_payload_becomes_the_status_of_its_code() {
    for (code, expected) in [
        (404, GrpcCode::NotFound),
        (429, GrpcCode::ResourceExhausted),
        (500, GrpcCode::Internal),
    ] {
        let payload = value(&error_payload(code, "what went wrong".into())).to_string();
        let mut stream = OpenAiStream::new();
        let status = stream
            .next(OpenAiInput::Item(OpenAiStreamItem::data(payload)))
            .unwrap()
            .unwrap_err();
        assert_eq!(status.code, expected);
        assert_eq!(status.message, "what went wrong");
    }
}

#[test]
fn failures_are_never_answered_as_successes() {
    for error in [
        FrontendError::InvalidArgument("a".into()),
        FrontendError::Unavailable,
        FrontendError::Overloaded("b".into()),
        FrontendError::Cancelled("c".into()),
        FrontendError::ResponseTruncated,
        FrontendError::InvalidResponse("d".into()),
        FrontendError::Internal("e".into()),
    ] {
        let status = frontend_error_status(&error);
        assert!((400..600).contains(&status), "{error:?}");
    }
}
