use sglang_server::api_server::{openai_error as http_error, rejected_body, ErrorReply};
use sglang_server::config::ServerArgs;
use sglang_server::contract::{FrontendError, FrontendErrorKind, FrontendEvent};
use sglang_server::grpc::convert::ConvertError;
use sglang_server::grpc::openai::{
    check_admission, complete, completion_needs_tokenizer, openai_body, openai_rpc,
    operation_timed_out, parsed_frame, reject_unknown_fields, typed_request,
    validate_chat_features, validate_document, validate_request, OpenAiBody, OpenAiInput,
    OpenAiPolicy, OpenAiStream,
};
use sglang_server::grpc::proto;
use sglang_server::grpc::status::GrpcCode;
use sglang_server::json::{parse_text, Json};
use sglang_server::openai::{
    contains_media, error_payload, frontend_openai_error, json_response, load_chat_support,
    openai_error, submission_error, template_model_path, unix_seconds, unix_seconds_u32,
    wants_chat_support, Collection, IndexedEvents, OpenAiError, OpenAiResponse, OpenAiStreamItem,
};
use sglang_server::output::FrontendOutput;

fn document(text: &str) -> Json {
    parse_text(text).unwrap()
}

fn request(body: &str) -> proto::OpenAiRequest {
    proto::OpenAiRequest {
        json_body: body.as_bytes().to_vec(),
        trace_headers: vec![],
    }
}

const EVERYTHING: OpenAiPolicy = OpenAiPolicy {
    chat_formatter: true,
    skip_tokenizer_init: false,
    tool_call_parser: true,
};

const NO_TOOLS: OpenAiPolicy = OpenAiPolicy {
    tool_call_parser: false,
    ..EVERYTHING
};

const NO_TOKENIZER: OpenAiPolicy = OpenAiPolicy {
    skip_tokenizer_init: true,
    ..EVERYTHING
};

#[test]
fn unsupported_openai_features_are_refused_with_statuses() {
    for (body, chat, code) in [
        (
            r#"{"model":"model", "prompt":"Hi", "suffix":"!"}"#,
            false,
            GrpcCode::Unimplemented,
        ),
        (
            r#"{"model":"model", "prompt":"Hi", "best_of":2}"#,
            false,
            GrpcCode::Unimplemented,
        ),
        (
            r#"{"model":"model", "messages":[{"role":"user", "content":[{"type":"image_url","image_url":{"url":"https://unused"}}]}]}"#,
            true,
            GrpcCode::Unimplemented,
        ),
        (
            r#"{"model":"model", "messages":[{"role":"user","content":"Hi"}], "stream_options":{"continuous_usage_stats":true}}"#,
            true,
            GrpcCode::Unimplemented,
        ),
        (
            r#"{"model":"model", "messages":[{"role":"user","content":"Hi"}], "tools":[{"type":"function","function":{"name":"lookup"}}]}"#,
            true,
            GrpcCode::Unimplemented,
        ),
        ("[]", false, GrpcCode::InvalidArgument),
    ] {
        let status = openai_rpc(request(body), chat, NO_TOOLS).unwrap_err();
        assert_eq!(status.code, code, "{body}");
    }
    // What is well-formed but of the wrong type fails when it is read as its type.
    let status = complete(
        request(r#"{"model":"model", "prompt":"Hi", "stream":"yes"}"#),
        NO_TOOLS,
    )
    .unwrap_err();
    assert_eq!(status.code, GrpcCode::InvalidArgument);

    let traced = proto::OpenAiRequest {
        trace_headers: vec![("traceparent".into(), "not-supported".into())],
        ..request(r#"{"model":"model","prompt":"Hi"}"#)
    };
    let status = openai_rpc(traced, false, NO_TOOLS).unwrap_err();
    assert_eq!(status.code, GrpcCode::Unimplemented);
    assert_eq!(
        status.message,
        "trace_headers is not supported by the Rust frontend"
    );
}

#[test]
fn a_completion_is_read_as_its_type() {
    let typed = complete(
        request(r#"{"model":"served","prompt":"Hi","max_tokens":5,"echo":true}"#),
        EVERYTHING,
    )
    .unwrap();
    assert_eq!(typed.model, "served");
    assert_eq!(typed.max_tokens, Some(5));
    assert_eq!(typed.echo, Some(true));
    let missing = complete(request(r#"{"model":"served"}"#), EVERYTHING).unwrap_err();
    assert_eq!(missing.code, GrpcCode::InvalidArgument);
    assert!(missing.message.contains("prompt"));
}

#[test]
fn a_document_is_read_as_the_same_completion_each_time() {
    let body = r#"{"model":"m","prompt":"p","logit_bias":{"1":1,"2":-2.5},"temperature":0.5}"#;
    let first = complete(request(body), EVERYTHING).unwrap();
    let second = complete(request(body), EVERYTHING).unwrap();
    assert_eq!(first, second);
    let biases = first.logit_bias.unwrap();
    assert_eq!(biases.len(), 2);
    assert_eq!(biases["1"], serde_json::Value::from(1));
    assert_eq!(biases["2"], serde_json::Value::from(-2.5));
    assert_eq!(first.temperature, Some(0.5));
}

#[test]
fn openai_operations_that_need_a_tokenizer_say_so() {
    for body in [
        r#"{"model":"model","prompt":"Hi"}"#,
        r#"{"model":"model","prompt":[1],"echo":true}"#,
    ] {
        let status = openai_rpc(request(body), false, NO_TOKENIZER).unwrap_err();
        assert_eq!(status.code, GrpcCode::Unimplemented);
        assert_eq!(
            status.message,
            "the requested operation requires a tokenizer"
        );
    }
    let chat = r#"{"model":"model","messages":[{"role":"user","content":"Hi"}]}"#;
    assert_eq!(
        openai_rpc(request(chat), true, NO_TOKENIZER).unwrap_err().code,
        GrpcCode::Unimplemented
    );
    let tokens = r#"{"model":"model","prompt":[1]}"#;
    assert!(openai_rpc(request(tokens), false, NO_TOKENIZER).is_ok());
}

#[test]
fn missing_chat_template_and_nested_extensions_are_unsupported() {
    for (body, message) in [
        (
            r#"{"model":"model","messages":[{"role":"user","content":"Hi"}],"response_format":{"type":"structural_tag"}}"#,
            "response_format type structural_tag is not supported",
        ),
        (
            r#"{"model":"model","messages":[{"role":"user","content":"Hi"}],"tools":[{"type":"custom"}]}"#,
            "tool type custom is not supported",
        ),
        (
            r#"{"model":"model","messages":[{"role":"assistant","audio":{"id":"audio-id"}}]}"#,
            "messages[].audio is not supported",
        ),
    ] {
        let status = openai_rpc(request(body), true, EVERYTHING).unwrap_err();
        assert_eq!(status.code, GrpcCode::Unimplemented);
        assert_eq!(status.message, message);
    }
    let no_template = OpenAiPolicy {
        chat_formatter: false,
        ..EVERYTHING
    };
    let chat = r#"{"model":"model","messages":[{"role":"user","content":"Hi"}]}"#;
    let status = openai_rpc(request(chat), true, no_template).unwrap_err();
    assert_eq!(status.code, GrpcCode::Unimplemented);
    assert_eq!(status.message, "this model has no usable chat template");
    assert!(openai_rpc(request(r#"{"prompt":"Hi"}"#), false, no_template).is_ok());
}

#[test]
fn request_level_knobs_do_not_follow_from_message_fields() {
    let history = r#"{"model":"model","messages":[
        {"role":"user","content":"Weather in Paris?"},
        {"role":"assistant","content":null,
         "function_call":{"name":"weather","arguments":"{\"city\":\"Paris\"}"}},
        {"role":"function","name":"weather","content":"Sunny"}]"#;
    assert!(openai_rpc(request(&format!("{history}}}")), true, EVERYTHING).is_ok());
    for (key, option) in [
        ("function_call", r#""auto""#),
        ("functions", r#"[{"name":"weather"}]"#),
        ("chat_template_kwargs", r#"{"suffix":"!"}"#),
    ] {
        let body = format!("{history},\"{key}\":{option}}}");
        let status = openai_rpc(request(&body), true, EVERYTHING).unwrap_err();
        assert_eq!(status.code, GrpcCode::Unimplemented);
        assert_eq!(
            status.message,
            format!("{key} is not supported by the Rust frontend")
        );
    }
}

#[test]
fn a_null_field_counts_as_absent() {
    let body = r#"{"model":"m","prompt":"p","suffix":null,"best_of":null,"stream_options":{"other":null}}"#;
    assert!(validate_request(request(body), false).is_ok());
    let chat = r#"{"messages":[{"role":"user","audio":null}],"modalities":null,"functions":null}"#;
    assert!(validate_request(request(chat), true).is_ok());
}

#[test]
fn an_accepted_document_is_unchanged() {
    let body = r#"{"b":null,"model":"m","n":-2,"prompt":["a",1,2.50],"logit_bias":{}}"#;
    let accepted = validate_request(request(body), false).unwrap();
    let Json::Object(entries) = &accepted else {
        panic!("an object");
    };
    let keys: Vec<&str> = entries.iter().map(|(key, _)| key.as_str()).collect();
    assert_eq!(keys, vec!["b", "model", "n", "prompt", "logit_bias"]);
    assert!(matches!(&entries[2].1, Json::Negative(-2)));
    let items = entries[3].1.as_array().unwrap();
    assert!(matches!(&items[0], Json::Text(text) if text == "a"));
    assert!(matches!(&items[1], Json::Unsigned(1)));
    assert!(matches!(&items[2], Json::Decimal(text) if text == "2.5"));
}

#[test]
fn an_unreadable_body_is_an_invalid_argument() {
    let error = validate_request(request("{"), false).unwrap_err();
    let expected = serde_json::from_slice::<serde_json::Value>(b"{")
        .unwrap_err()
        .to_string();
    assert!(matches!(error, ConvertError::InvalidArgument(message) if message == expected));
    assert!(matches!(
        validate_document(Json::Null, true),
        Err(ConvertError::InvalidArgument(message)) if message == "expected a JSON object"
    ));
}

fn refused(body: &str, chat: bool) -> String {
    match validate_document(document(body), chat) {
        Err(ConvertError::Unsupported(message)) => message,
        other => panic!("{other:?}"),
    }
}

#[test]
fn every_refusal_names_what_is_unsupported() {
    assert_eq!(
        refused(r#"{"best_of":1.0}"#, false),
        "best_of values other than 1 are not supported"
    );
    assert!(validate_document(document(r#"{"best_of":1}"#), false).is_ok());
    assert_eq!(
        refused(r#"{"best_of":1}"#, true),
        "best_of is not supported by the Rust frontend"
    );
    assert_eq!(
        refused(r#"{"modalities":["audio"]}"#, true),
        "multimodal chat is not supported by the Rust frontend"
    );
    assert_eq!(
        refused(r#"{"modalities":["text","audio"]}"#, true),
        "multimodal chat is not supported by the Rust frontend"
    );
    assert_eq!(
        refused(r#"{"modalities":"text"}"#, true),
        "multimodal chat is not supported by the Rust frontend"
    );
    assert!(validate_document(document(r#"{"modalities":["text"]}"#), true).is_ok());
    assert_eq!(
        refused(r#"{"stream_options":{"include_usage":true,"x":1}}"#, false),
        "stream_options.x is not supported"
    );
    assert!(validate_document(
        document(r#"{"stream_options":{"continuous_usage_stats":true}}"#),
        false
    )
    .is_ok());
    assert_eq!(
        refused(r#"{"response_format":{"type":"text","strict":true}}"#, true),
        "response_format.strict is not supported"
    );
    assert_eq!(
        refused(r#"{"tools":[{"type":"function","cache":1}]}"#, true),
        "tools[].cache is not supported"
    );
    assert_eq!(
        refused(
            r#"{"tools":[{"type":"function","function":{"name":"f","x":{}}}]}"#,
            true
        ),
        "tools[].function.x is not supported"
    );
    assert_eq!(
        refused(
            r#"{"messages":[{"role":"user"},{"role":"user","weight":1}]}"#,
            true
        ),
        "messages[].weight is not supported"
    );
}

#[test]
fn chat_features_are_checked_in_order() {
    let body = document(
        r#"{"tools":[{"type":"custom"}],"response_format":{"type":"x"},"messages":[{"bad":1}]}"#,
    );
    assert!(matches!(
        validate_chat_features(&body),
        Err(ConvertError::Unsupported(message)) if message == "messages[].bad is not supported"
    ));
    let body = document(r#"{"tools":[{"type":"custom"}],"response_format":{"type":"x"}}"#);
    assert!(matches!(
        validate_chat_features(&body),
        Err(ConvertError::Unsupported(message))
            if message == "response_format type x is not supported"
    ));
    assert!(validate_chat_features(&document(r#"{"messages":7,"tools":{}}"#)).is_ok());
    assert!(reject_unknown_fields(&document("[1]"), &[], "anything").is_ok());
}

#[test]
fn a_prompt_of_tokens_needs_no_tokenizer() {
    for (body, needed) in [
        (r#"{"prompt":"text"}"#, true),
        (r#"{"prompt":["text"]}"#, true),
        (r#"{"prompt":[1,"text"]}"#, true),
        (r#"{"prompt":[1,2]}"#, false),
        (r#"{"prompt":[[1],[2]]}"#, false),
        (r#"{"prompt":[["text"]]}"#, false),
        (r#"{}"#, false),
        (r#"{"prompt":[1],"echo":true}"#, true),
        (r#"{"prompt":[1],"echo":false}"#, false),
        (r#"{"prompt":[1],"echo":"true"}"#, false),
    ] {
        assert_eq!(completion_needs_tokenizer(&document(body)), needed, "{body}");
    }
}

#[test]
fn tools_need_a_parser_unless_declined() {
    let tools = r#"{"tools":[{"type":"function"}]}"#;
    let status = check_admission(&document(tools), true, NO_TOOLS).unwrap_err();
    assert_eq!(status.message, "tool calls require --tool-call-parser");
    for body in [
        r#"{"tools":[{"type":"function"}],"tool_choice":"none"}"#,
        r#"{"tools":[]}"#,
        r#"{"tools":null}"#,
    ] {
        assert!(check_admission(&document(body), true, NO_TOOLS).is_ok(), "{body}");
    }
    assert!(check_admission(&document(tools), true, EVERYTHING).is_ok());
}

#[test]
fn media_is_found_at_any_depth() {
    for (body, found) in [
        (r#"[{"content":[{"type":"text"}]}]"#, false),
        (r#"[{"content":[{"image_url":{}}]}]"#, true),
        (r#"{"a":{"b":[[{"file":null}]]}}"#, true),
        (r#"{"a":"image_url"}"#, false),
        (r#"{"video_url":1}"#, true),
        (r#"{"input_audio":1}"#, true),
        (r#"{"audio_url":1}"#, true),
        (r#"{"audio":1}"#, false),
        (r#""file""#, false),
        ("[]", false),
    ] {
        assert_eq!(contains_media(&document(body)), found, "{body}");
    }
}

#[test]
fn unary_responses_are_one_finished_chunk() {
    let body = openai_body::<()>(OpenAiResponse::Json(b"{}".to_vec())).unwrap();
    assert!(matches!(
        body,
        OpenAiBody::Unary(chunk) if chunk.finished && chunk.json_chunk == b"{}".to_vec()
    ));
    assert!(matches!(
        openai_body(OpenAiResponse::Stream(7)).unwrap(),
        OpenAiBody::Stream(7)
    ));
}

#[test]
fn failures_use_the_category_before_the_status() {
    let by_kind = openai_body::<()>(frontend_openai_error(
        503,
        "full".into(),
        false,
        FrontendErrorKind::ResourceExhausted,
    ))
    .unwrap_err();
    assert_eq!(by_kind.code, GrpcCode::ResourceExhausted);
    assert_eq!(by_kind.message, "full");
    let by_status = openai_body::<()>(openai_error(422, "n must be positive".into(), false));
    assert_eq!(by_status.unwrap_err().code, GrpcCode::InvalidArgument);
    let timeout = operation_timed_out();
    assert_eq!(timeout.code, GrpcCode::DeadlineExceeded);
    assert_eq!(timeout.message, "OpenAI operation timed out");
    let untyped = typed_request::<()>(Err("missing field".into())).unwrap_err();
    assert_eq!(untyped.code, GrpcCode::InvalidArgument);
    assert_eq!(typed_request(Ok(3)).unwrap(), 3);
}

#[test]
fn a_scheduler_rejection_keeps_its_category_over_openai() {
    let error = FrontendError::from_runtime_rejection("upstream unavailable".into(), 502);
    let status = openai_body::<()>(submission_error(error, false)).unwrap_err();
    assert_eq!(status.code, GrpcCode::Unavailable);
    assert_eq!(status.message, "upstream unavailable");
}

#[test]
fn streams_send_json_and_one_terminal_marker() {
    let mut stream = OpenAiStream::new();
    let mut output = vec![];
    for data in [r#"{"text":"Hel"}"#, r#"{"text":"lo é"}"#, "[DONE]"] {
        assert!(stream.wants_input());
        let chunk = stream
            .next(OpenAiInput::Item(OpenAiStreamItem::data(data.into())))
            .unwrap()
            .unwrap();
        output.push((chunk.json_chunk, chunk.finished));
    }
    assert_eq!(
        output,
        vec![
            (br#"{"text":"Hel"}"#.to_vec(), false),
            (r#"{"text":"lo é"}"#.as_bytes().to_vec(), false),
            (vec![], true),
        ]
    );
    assert!(!stream.wants_input());
    assert!(stream.next(OpenAiInput::Closed).is_none());
}

fn failure(input: OpenAiInput) -> (GrpcCode, String) {
    let mut stream = OpenAiStream::new();
    let status = stream.next(input).unwrap().unwrap_err();
    assert!(!stream.wants_input());
    (status.code, status.message)
}

#[test]
fn a_capacity_frame_ends_the_stream_with_its_category() {
    let frame = r#"{"error":{"message":"to_scheduler channel full","code":503}}"#;
    assert_eq!(
        failure(OpenAiInput::Item(OpenAiStreamItem::error(
            frame.into(),
            FrontendErrorKind::ResourceExhausted,
        ))),
        (
            GrpcCode::ResourceExhausted,
            "to_scheduler channel full".to_owned()
        )
    );
}

#[test]
fn error_frames_end_the_stream_with_a_status() {
    let data = |text: &str| OpenAiInput::Item(OpenAiStreamItem::data(text.into()));
    assert_eq!(
        failure(data(r#"{"error":{"message":"slow down","code":429}}"#)),
        (GrpcCode::ResourceExhausted, "slow down".to_owned())
    );
    assert_eq!(
        failure(data(r#"{"error":{"code":70000}}"#)),
        (GrpcCode::Internal, "OpenAI generation failed".to_owned())
    );
    assert_eq!(
        failure(data(r#"{"error":null}"#)),
        (GrpcCode::Internal, "OpenAI generation failed".to_owned())
    );
    assert_eq!(
        failure(data(r#"{"error":{"message":5,"code":"404"}}"#)),
        (GrpcCode::Internal, "OpenAI generation failed".to_owned())
    );
    let (code, message) = failure(data("data: {}"));
    assert_eq!(code, GrpcCode::Internal);
    assert!(message.starts_with("invalid OpenAI response: "));
    assert_eq!(
        failure(OpenAiInput::Closed),
        (
            GrpcCode::Internal,
            "OpenAI response truncated before completion".to_owned()
        )
    );
    assert_eq!(
        failure(OpenAiInput::TimedOut),
        (
            GrpcCode::DeadlineExceeded,
            "OpenAI response chunk timed out".to_owned()
        )
    );
}

#[test]
fn a_frame_is_passed_on_as_it_was_written() {
    let item = OpenAiStreamItem::data("{ \"a\" : 1.0 }".into());
    let step = parsed_frame(item, Ok(document(r#"{"a":1.0}"#)));
    assert!(!step.last);
    assert_eq!(step.item.unwrap().json_chunk, b"{ \"a\" : 1.0 }".to_vec());
    let step = parsed_frame(OpenAiStreamItem::data("x".into()), Err("bad".into()));
    assert!(step.last);
    assert_eq!(
        step.item.unwrap_err().message,
        "invalid OpenAI response: bad"
    );
}

#[test]
fn error_payloads_name_their_type() {
    for (code, kind) in [
        (401, "AuthenticationError"),
        (400, "BadRequestError"),
        (499, "BadRequestError"),
        (500, "InternalServerError"),
        (503, "InternalServerError"),
        (599, "InternalServerError"),
        (600, "BadRequestError"),
    ] {
        let payload = error_payload(code, "m".into());
        let error = payload.get("error").unwrap();
        assert_eq!(error.get("object").unwrap().as_str(), Some("error"));
        assert_eq!(error.get("message").unwrap().as_str(), Some("m"));
        assert_eq!(error.get("type").unwrap().as_str(), Some(kind));
        assert!(error.get("param").unwrap().is_null());
        assert_eq!(error.get("code").unwrap().as_u64(), Some(u64::from(code)));
    }
}

#[test]
fn http_errors_keep_the_promised_framing() {
    let error = |stream| OpenAiError {
        code: 503,
        message: "full".into(),
        stream,
        kind: None,
    };
    assert!(matches!(
        http_error(error(false)),
        ErrorReply::Unary { status: 503, body }
            if body.get("error").unwrap().get("message").unwrap().as_str() == Some("full")
    ));
    assert!(matches!(
        http_error(error(true)),
        ErrorReply::Stream { frame, done }
            if frame.get("error").is_some() && done == "[DONE]"
    ));
    assert!(matches!(
        rejected_body("bad body".into()),
        ErrorReply::Unary { status: 400, .. }
    ));
}

#[test]
fn submission_failures_are_503_only_for_a_closed_intake() {
    let unavailable: OpenAiResponse<()> = submission_error(FrontendError::Unavailable, true);
    assert!(matches!(
        unavailable,
        OpenAiResponse::Error(OpenAiError {
            code: 503,
            stream: true,
            kind: Some(FrontendErrorKind::Unavailable),
            ..
        })
    ));
    let invalid: OpenAiResponse<()> =
        submission_error(FrontendError::InvalidArgument("bad".into()), false);
    assert!(matches!(
        invalid,
        OpenAiResponse::Error(OpenAiError {
            code: 500,
            stream: false,
            kind: Some(FrontendErrorKind::InvalidArgument),
            ..
        })
    ));
    let encoded: OpenAiResponse<()> = json_response(Err("not serializable".into()));
    assert!(matches!(
        encoded,
        OpenAiResponse::Error(OpenAiError { code: 500, message, stream: false, kind: None })
            if message == "not serializable"
    ));
    assert!(matches!(
        json_response::<()>(Ok(vec![1])),
        OpenAiResponse::Json(bytes) if bytes == vec![1]
    ));
}

fn delta(text: &str) -> FrontendOutput {
    FrontendOutput {
        text: text.into(),
        completion_tokens: 1,
        ..Default::default()
    }
}

#[test]
fn a_collection_ends_with_the_fold_or_the_failure() {
    let pending = Collection::new()
        .collect_output(Some(FrontendEvent::Delta(delta("a"))))
        .collect_output(Some(FrontendEvent::Delta(delta("b"))));
    let ended = pending.collect_output(Some(FrontendEvent::Finished(delta("c"))));
    assert!(matches!(
        &ended,
        Collection::Ended(Ok(output)) if output.text == "abc" && output.completion_tokens == 3
    ));
    let still = ended.collect_output(Some(FrontendEvent::Failed(FrontendError::Unavailable)));
    assert!(matches!(still, Collection::Ended(Ok(_))));

    let failed = Collection::new()
        .collect_output(Some(FrontendEvent::Failed(FrontendError::Unavailable)));
    assert!(matches!(
        failed,
        Collection::Ended(Err(FrontendError::Unavailable))
    ));
    let truncated = Collection::new().collect_output(None);
    assert!(matches!(
        truncated,
        Collection::Ended(Err(FrontendError::ResponseTruncated))
    ));
}

#[test]
fn indexed_events_stop_after_the_terminal_one() {
    let mut events = IndexedEvents::new(4);
    assert!(events.wants_event());
    assert!(matches!(
        events.indexed_decode_stream(Some(FrontendEvent::Delta(delta("a")))),
        Some((4, FrontendEvent::Delta(_)))
    ));
    assert!(matches!(
        events.indexed_decode_stream(Some(FrontendEvent::Finished(delta("b")))),
        Some((4, FrontendEvent::Finished(_)))
    ));
    assert!(!events.wants_event());
    assert!(events
        .indexed_decode_stream(Some(FrontendEvent::Delta(delta("c"))))
        .is_none());
    assert!(IndexedEvents::new(0).indexed_decode_stream(None).is_none());
}

fn args(tokenizer_path: &str, skip_tokenizer_init: bool) -> ServerArgs {
    ServerArgs {
        host: String::new(),
        port: 0,
        grpc_port: None,
        model_path: String::new(),
        served_model_name: String::new(),
        tokenizer_path: tokenizer_path.into(),
        revision: None,
        chat_template: None,
        model_type: None,
        preferred_sampling_params: None,
        weight_version: None,
        load_format: None,
        reasoning_parser: None,
        tool_call_parser: None,
        disaggregation_mode: String::new(),
        is_disaggregation: false,
        limit_mm_data_per_request: Default::default(),
        context_len: 0,
        max_total_num_tokens: 0,
        version: String::new(),
        skip_tokenizer_init,
        skip_server_warmup: false,
        incremental_streaming_output: false,
        tokenizer_worker_num: 1,
        detokenizer_worker_num: 1,
    }
}

#[test]
fn chat_needs_a_tokenizer_and_a_template() {
    let ready = args("/tokenizer", false);
    assert!(wants_chat_support(&ready));
    assert_eq!(load_chat_support(&ready, Ok("template")), Some("template"));
    assert_eq!(load_chat_support::<&str>(&ready, Err("none".into())), None);
    for disabled in [args("", false), args("/tokenizer", true)] {
        assert!(!wants_chat_support(&disabled));
        assert_eq!(load_chat_support(&disabled, Ok("template")), None);
    }
    assert_eq!(template_model_path(&ready), None);
    let named = ServerArgs {
        model_path: "/model".into(),
        ..ready
    };
    assert_eq!(template_model_path(&named), Some("/model"));
}

#[test]
fn the_clock_saturates() {
    assert_eq!(unix_seconds(Some(1_700_000_000)), 1_700_000_000);
    assert_eq!(unix_seconds(None), 0);
    assert_eq!(unix_seconds_u32(Some(1_700_000_000)), 1_700_000_000);
    assert_eq!(unix_seconds_u32(Some(u64::from(u32::MAX) + 1)), u32::MAX);
    assert_eq!(unix_seconds_u32(None), 0);
}
