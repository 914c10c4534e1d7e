use sglang_server::grpc::convert::{
    disaggregated_fields, generate, regex_escape_literal, reject_unsupported, request_id,
    text_generate, ConvertError,
};
use sglang_server::grpc::proto;
use sglang_server::grpc::status::GrpcCode;
use sglang_server::request::{
    OneOrMany, PreferredSamplingParams, PreferredValues, SamplingParams, Setting,
};

fn bits(value: f64) -> u64 {
    value.to_bits()
}

#[test]
fn text_request_maps_supported_fields_and_preferred_sampling() {
    let preferred = PreferredSamplingParams::Values(PreferredValues {
        temperature: Some(bits(0.2)),
        top_p: Some(bits(0.7)),
        max_new_tokens: Some(64),
        ..Default::default()
    });
    let request = proto::TextGenerateRequest {
        text: "hello".into(),
        sampling_params: Some(proto::SamplingParams {
            temperature: Some(bits(f64::from(0.8_f32))),
            stop: vec!["END".into()],
            seed: Some(7),
            ..Default::default()
        }),
        stream: Some(true),
        return_logprob: Some(true),
        top_logprobs_num: Some(3),
        logprob_start_len: Some(2),
        return_text_in_logprobs: Some(true),
        rid: Some("client-id".into()),
        routed_dp_rank: Some(4),
        disaggregated_params: Some(proto::DisaggregatedParams {
            bootstrap_host: "10.0.0.1".into(),
            bootstrap_port: 8998,
            bootstrap_room: 12,
        }),
        ..Default::default()
    };

    let request = text_generate(request, Some(&preferred), "minted").unwrap();
    assert_eq!(request.rid.client_facing(), "client-id");
    assert_eq!(request.rid.as_str(), "minted");
    assert_eq!(request.text.as_deref(), Some("hello"));
    assert!(request.input_ids.is_none());
    assert!(request.stream);
    assert!(request.return_logprob);
    assert_eq!(request.top_logprobs_num, 3);
    assert_eq!(request.logprob_start_len, 2);
    assert_eq!(request.return_text_in_logprobs, Some(true));
    assert_eq!(request.routed_dp_rank, Some(4));
    assert_eq!(request.bootstrap_host.as_deref(), Some("10.0.0.1"));
    assert_eq!(request.bootstrap_port, Some(8998));
    assert_eq!(request.bootstrap_room, Some(12));
    assert_eq!(
        request.sampling_params.temperature.value(),
        Some(&bits(f64::from(0.8_f32)))
    );
    assert_eq!(request.sampling_params.top_p.value(), Some(&bits(0.7)));
    assert_eq!(request.sampling_params.max_new_tokens.value(), Some(&64));
    assert_eq!(request.sampling_params.sampling_seed.value(), Some(&7));
    assert!(matches!(
        &request.sampling_params.stop,
        Setting::Explicit(OneOrMany::Many(stop)) if *stop == vec!["END".to_owned()]
    ));
}

#[test]
fn token_request_validates_input_and_rejects_unported_fields() {
    let empty = generate(proto::GenerateRequest::default(), None, "minted")
        .unwrap_err()
        .into_status();
    assert_eq!(empty.code, GrpcCode::InvalidArgument);
    assert_eq!(empty.message, "input_ids cannot be empty");

    let unsupported = generate(
        proto::GenerateRequest {
            input_ids: vec![1],
            routing_key: Some("worker-a".into()),
            priority: Some(1),
            ..Default::default()
        },
        None,
        "minted",
    )
    .unwrap_err()
    .into_status();
    assert_eq!(unsupported.code, GrpcCode::Unimplemented);
    assert!(unsupported.message.contains("routing_key, priority"));
}

#[test]
fn absent_sampling_params_still_uses_preferred_values() {
    let preferred = PreferredSamplingParams::Values(PreferredValues {
        temperature: Some(bits(0.25)),
        max_new_tokens: Some(32),
        ..Default::default()
    });
    let request = generate(
        proto::GenerateRequest {
            input_ids: vec![1],
            ..Default::default()
        },
        Some(&preferred),
        "minted",
    )
    .unwrap();

    assert_eq!(
        request.sampling_params.temperature.value(),
        Some(&bits(0.25))
    );
    assert_eq!(request.sampling_params.max_new_tokens.value(), Some(&32));
}

fn guided(constraint: Option<proto::Constraint>) -> proto::GenerateRequest {
    proto::GenerateRequest {
        input_ids: vec![1],
        sampling_params: Some(proto::SamplingParams {
            guided_decoding: Some(proto::GuidedDecoding { constraint }),
            ..Default::default()
        }),
        ..Default::default()
    }
}

#[test]
fn guided_choice_preserves_existing_runtime_v1_mapping() {
    let request = generate(
        guided(Some(proto::Constraint::Choice(proto::ChoiceConstraint {
            values: vec!["a+b".into(), "x.y".into()],
        }))),
        None,
        "minted",
    )
    .unwrap();
    assert_eq!(
        request.sampling_params.regex.value().map(String::as_str),
        Some("(?:a\\+b|x\\.y)")
    );
}

#[test]
fn guided_and_legacy_constraints_cannot_be_combined() {
    let error = generate(
        proto::GenerateRequest {
            input_ids: vec![1],
            sampling_params: Some(proto::SamplingParams {
                regex: Some("a".into()),
                guided_decoding: Some(proto::GuidedDecoding {
                    constraint: Some(proto::Constraint::Regex("b".into())),
                }),
                ..Default::default()
            }),
            ..Default::default()
        },
        None,
        "minted",
    )
    .unwrap_err()
    .into_status();
    assert_eq!(error.code, GrpcCode::InvalidArgument);
    assert_eq!(
        error.message,
        "legacy json_schema/regex cannot be combined with guided_decoding"
    );
}

#[test]
fn each_guided_constraint_fills_its_own_parameter() {
    let schema = generate(
        guided(Some(proto::Constraint::JsonSchema("{}".into()))),
        None,
        "m",
    )
    .unwrap()
    .sampling_params;
    assert_eq!(schema.json_schema.value().map(String::as_str), Some("{}"));
    assert!(schema.regex.value().is_none());

    let regex = generate(guided(Some(proto::Constraint::Regex("a*".into()))), None, "m")
        .unwrap()
        .sampling_params;
    assert_eq!(regex.regex.value().map(String::as_str), Some("a*"));

    let ebnf = generate(guided(Some(proto::Constraint::Ebnf("r".into()))), None, "m")
        .unwrap()
        .sampling_params;
    assert_eq!(ebnf.ebnf.value().map(String::as_str), Some("r"));

    let tag = generate(
        guided(Some(proto::Constraint::StructuralTag("t".into()))),
        None,
        "m",
    )
    .unwrap()
    .sampling_params;
    assert_eq!(tag.structural_tag.value().map(String::as_str), Some("t"));
}

#[test]
fn empty_constraints_are_refused() {
    for (constraint, message) in [
        (
            Some(proto::Constraint::JsonSchema(String::new())),
            "guided decoding constraint must not be empty",
        ),
        (
            Some(proto::Constraint::Regex(String::new())),
            "guided decoding constraint must not be empty",
        ),
        (
            Some(proto::Constraint::Ebnf(String::new())),
            "guided decoding constraint must not be empty",
        ),
        (
            Some(proto::Constraint::StructuralTag(String::new())),
            "guided decoding constraint must not be empty",
        ),
        (
            Some(proto::Constraint::Choice(proto::ChoiceConstraint {
                values: vec![],
            })),
            "guided choice must contain only non-empty values",
        ),
        (
            Some(proto::Constraint::Choice(proto::ChoiceConstraint {
                values: vec!["a".into(), String::new()],
            })),
            "guided choice must contain only non-empty values",
        ),
        (None, "guided decoding constraint must be specified"),
    ] {
        assert!(matches!(
            generate(guided(constraint), None, "m"),
            Err(ConvertError::InvalidArgument(text)) if text == message
        ));
    }
}

#[test]
fn superseded_constraints_still_work_unless_empty() {
    let with = |json_schema: Option<&str>, regex: Option<&str>| proto::GenerateRequest {
        input_ids: vec![1],
        sampling_params: Some(proto::SamplingParams {
            json_schema: json_schema.map(Into::into),
            regex: regex.map(Into::into),
            ..Default::default()
        }),
        ..Default::default()
    };
    let both = generate(with(Some("{}"), Some("a")), None, "m")
        .unwrap()
        .sampling_params;
    assert_eq!(both.json_schema.value().map(String::as_str), Some("{}"));
    assert_eq!(both.regex.value().map(String::as_str), Some("a"));
    assert!(matches!(
        generate(with(Some(""), Some("")), None, "m"),
        Err(ConvertError::InvalidArgument(text)) if text == "legacy json_schema must not be empty"
    ));
    assert!(matches!(
        generate(with(None, Some("")), None, "m"),
        Err(ConvertError::InvalidArgument(text)) if text == "legacy regex must not be empty"
    ));
}

#[test]
fn explicit_values_come_before_preferred_ones() {
    let preferred = PreferredSamplingParams::Values(PreferredValues {
        top_k: Some(5),
        n: Some(2),
        ignore_eos: Some(true),
        stop: Some(OneOrMany::One("stop".into())),
        stop_token_ids: Some(vec![9]),
        regex: Some("preferred".into()),
        ..Default::default()
    });
    let request = generate(
        proto::GenerateRequest {
            input_ids: vec![1],
            sampling_params: Some(proto::SamplingParams {
                top_k: Some(-1),
                stop_token_ids: vec![3, -4],
                ..Default::default()
            }),
            ..Default::default()
        },
        Some(&preferred),
        "m",
    )
    .unwrap();
    let params = request.sampling_params;
    assert_eq!(params.top_k, Setting::Explicit(-1));
    assert_eq!(params.stop_token_ids, Setting::Explicit(vec![3, -4]));
    assert_eq!(params.n, Setting::Implied(2));
    assert_eq!(params.ignore_eos, Setting::Implied(true));
    assert_eq!(params.regex, Setting::Implied("preferred".to_owned()));
    assert!(matches!(
        params.stop,
        Setting::Implied(OneOrMany::One(stop)) if stop == "stop"
    ));
    assert_eq!(params.temperature, Setting::Unset);
}

#[test]
fn preferences_that_cannot_be_used_are_the_servers_fault() {
    let preferred = PreferredSamplingParams::Invalid("expected an object".into());
    let error = generate(
        proto::GenerateRequest {
            input_ids: vec![1],
            ..Default::default()
        },
        Some(&preferred),
        "m",
    )
    .unwrap_err()
    .into_status();
    assert_eq!(error.code, GrpcCode::Internal);
    assert_eq!(
        error.message,
        "invalid preferred_sampling_params: expected an object"
    );
}

#[test]
fn preferences_are_applied_once_and_for_all() {
    let preferred = PreferredSamplingParams::Values(PreferredValues {
        min_p: Some(bits(0.5)),
        ..Default::default()
    });
    let mut params = SamplingParams::default();
    params.apply_preferred(&preferred).unwrap();
    params.apply_preferred(&preferred).unwrap();
    assert_eq!(params.min_p, Setting::Implied(bits(0.5)));
    assert_eq!(params.top_p, Setting::Unset);
}

#[test]
fn absent_fields_have_their_defaults() {
    let request = generate(
        proto::GenerateRequest {
            input_ids: vec![7],
            ..Default::default()
        },
        None,
        "minted-name",
    )
    .unwrap();
    assert_eq!(request.rid.as_str(), "minted-name");
    assert_eq!(request.rid.client_facing(), "minted-name");
    assert_eq!(request.input_ids, Some(vec![7]));
    assert!(request.text.is_none());
    assert!(!request.stream);
    assert!(!request.return_logprob);
    assert_eq!(request.logprob_start_len, -1);
    assert_eq!(request.top_logprobs_num, 0);
    assert_eq!(request.return_text_in_logprobs, None);
    assert_eq!(request.bootstrap_host, None);
    assert_eq!(request.bootstrap_port, None);
    assert_eq!(request.bootstrap_room, None);
    assert!(!request.skip_special_tokens);
    assert!(request.mm.is_none());
}

#[test]
fn every_unsupported_field_is_named() {
    let request = proto::TextGenerateRequest {
        text: "hello".into(),
        lora_path: Some("l".into()),
        routing_key: Some("r".into()),
        trace_headers: vec![("traceparent".into(), "t".into())],
        session_id: Some("s".into()),
        priority: Some(0),
        require_reasoning: Some(false),
        max_thinking_tokens: Some(0),
        ..Default::default()
    };
    let error = text_generate(request, None, "m").unwrap_err();
    assert!(matches!(
        error,
        ConvertError::Unsupported(message) if message
            == "the Rust frontend does not yet support runtime.v1 field(s): lora_path, \
                routing_key, trace_headers, session_id, priority, require_reasoning, \
                max_thinking_tokens"
    ));
    assert!(reject_unsupported(&[("a", false), ("b", false)]).is_ok());
}

#[test]
fn text_and_token_requests_convert_alike() {
    let text = text_generate(
        proto::TextGenerateRequest {
            text: "x".into(),
            top_logprobs_num: Some(2),
            routed_dp_rank: Some(-1),
            ..Default::default()
        },
        None,
        "m",
    )
    .unwrap();
    let tokens = generate(
        proto::GenerateRequest {
            input_ids: vec![1],
            top_logprobs_num: Some(2),
            routed_dp_rank: Some(-1),
            ..Default::default()
        },
        None,
        "m",
    )
    .unwrap();
    assert_eq!(text.top_logprobs_num, tokens.top_logprobs_num);
    assert_eq!(text.routed_dp_rank, tokens.routed_dp_rank);
    assert_eq!(text.logprob_start_len, tokens.logprob_start_len);
    assert_eq!(text.rid.as_str(), tokens.rid.as_str());
}

#[test]
fn a_client_name_is_shown_and_not_routed() {
    let named = request_id(Some("mine".into()), "minted");
    assert_eq!(named.client_facing(), "mine");
    assert_eq!(named.as_str(), "minted");
    let minted = request_id(None, "minted");
    assert_eq!(minted.client_facing(), "minted");
    assert_eq!(minted.as_str(), "minted");
}

#[test]
fn the_prefill_address_is_whole_or_absent() {
    assert_eq!(disaggregated_fields(None), (None, None, None));
    assert_eq!(
        disaggregated_fields(Some(proto::DisaggregatedParams {
            bootstrap_host: "h".into(),
            bootstrap_port: -1,
            bootstrap_room: i64::MAX,
        })),
        (Some("h".to_owned()), Some(-1), Some(i64::MAX))
    );
}

#[test]
fn every_metacharacter_is_escaped() {
    assert_eq!(
        regex_escape_literal(".+*?^$()[]{}|\\"),
        "\\.\\+\\*\\?\\^\\$\\(\\)\\[\\]\\{\\}\\|\\\\"
    );
    assert_eq!(regex_escape_literal("plain é 中 -#&"), "plain é 中 -#&");
    assert_eq!(regex_escape_literal(""), "");
}

/// Reads the alternatives of a choice back.
fn alternatives(regex: &str) -> Vec<String> {
    let inner = &regex[3..regex.len() - 1];
    let mut found = vec![String::new()];
    let mut characters = inner.chars();
    while let Some(character) = characters.next() {
        match character {
            '\\' => found.last_mut().unwrap().push(characters.next().unwrap()),
            '|' => found.push(String::new()),
            other => found.last_mut().unwrap().push(other),
        }
    }
    found
}

#[test]
fn a_choice_stands_for_exactly_its_values() {
    let values = vec!["a|b".to_owned(), "\\".to_owned(), "(?:x)".to_owned()];
    let request = generate(
        guided(Some(proto::Constraint::Choice(proto::ChoiceConstraint {
            values: values.clone(),
        }))),
        None,
        "m",
    )
    .unwrap();
    let regex = request.sampling_params.regex.value().unwrap().clone();
    assert_eq!(regex, "(?:a\\|b|\\\\|\\(\\?:x\\))");
    assert_eq!(alternatives(&regex), values);
}
