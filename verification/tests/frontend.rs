use sglang_server::contract::{FrontendError, FrontendEvent, HealthStatus};
use sglang_server::error::Error;
use sglang_server::frontend::{
    control, detokenize, generation_event, health_before_probe, internal_state, probe_health,
    probe_request, request_rid, ControlRequest, ExpectedResponse, FrontendCall, GenerateBatch,
    RequestAdmission, RequestKind, ResponseItem, RuntimeCall,
};
use sglang_server::ids::Rid;
use sglang_server::json::{parse_text, Json};
use sglang_server::metadata::InternalState;
use sglang_server::output::{AbortStatus, ChunkEvent, FinishReason};
use sglang_server::request::{FrontendRequest, Setting};

fn chunk(text: &str) -> ChunkEvent {
    ChunkEvent {
        rid: Rid::from_name(""),
        token_ids: vec![],
        finish_reason: None,
        prompt_tokens: 0,
        text: text.into(),
        completion_tokens: 0,
        extras: None,
    }
}

fn aborted(status: u16, message: &str) -> ChunkEvent {
    ChunkEvent {
        finish_reason: Some(FinishReason {
            value: Json::Object(vec![
                ("type".to_owned(), Json::Text("abort".to_owned())),
                ("message".to_owned(), Json::Text(message.to_owned())),
                ("status_code".to_owned(), Json::Unsigned(status.into())),
            ]),
            abort: Some(AbortStatus {
                status,
                message: message.into(),
            }),
        }),
        ..chunk("")
    }
}

fn generate(rid: Rid) -> RequestKind {
    RequestKind::Generate(Box::new(FrontendRequest::plain(rid)))
}

fn generation(name: &str) -> FrontendCall {
    FrontendCall::new(RuntimeCall::submit(&generate(Rid::from_name(name)), "minted"))
}

#[test]
fn cancellation_after_intake_acceptance_aborts_unobserved_handoff() {
    let kind = generate(Rid::from_name("accepted-before-cancel"));
    let mut call = RuntimeCall::submit(&kind, "minted");
    let mut admission = RequestAdmission::pending();
    assert!(admission.try_accept());

    let abort = call.release(&mut admission).expect("accepted cancellation must abort");
    assert_eq!(abort.as_str(), "accepted-before-cancel");
    assert!(call.release(&mut admission).is_none());
}

#[test]
fn cancellation_before_intake_acceptance_suppresses_the_request() {
    let kind = generate(Rid::from_name("cancelled-before-accept"));
    let mut call = RuntimeCall::submit(&kind, "minted");
    let mut admission = RequestAdmission::pending();

    assert!(call.release(&mut admission).is_none());
    assert!(!admission.try_accept());
    assert_eq!(admission, RequestAdmission::Cancelled);
}

#[test]
fn a_request_is_accepted_only_once() {
    let mut admission = RequestAdmission::pending();
    assert!(admission.try_accept());
    assert!(!admission.try_accept());
    assert!(admission.cancel_requires_abort());
    let mut cancelled = RequestAdmission::pending();
    assert!(!cancelled.cancel_requires_abort());
    assert!(!cancelled.cancel_requires_abort());
}

#[test]
fn generation_exposes_public_id_and_semantic_events() {
    let kind = generate(Rid::from_client("public-id", "internal-id"));
    let mut call = FrontendCall::new(RuntimeCall::submit(&kind, "minted"));
    let mut admission = RequestAdmission::pending();
    assert_eq!(call.public_id(), "public-id");
    assert_ne!(call.rid().as_str(), "public-id");
    assert!(admission.try_accept());

    assert!(matches!(
        call.recv(Some(ResponseItem::Frame(chunk("delta")))),
        Some(FrontendEvent::Delta(output)) if output.text == "delta"
    ));
    assert!(matches!(
        call.recv(Some(ResponseItem::Done(chunk("final")))),
        Some(FrontendEvent::Finished(output)) if output.text == "final"
    ));
    assert!(!call.wants_item());
    assert!(call.recv(None).is_none());
    assert!(call.release(&mut admission).is_none());
}

#[test]
fn plain_scheduler_abort_remains_a_terminal_output() {
    let mut call = generation("plain-abort");
    let mut admission = RequestAdmission::pending();
    assert!(admission.try_accept());
    let document =
        r#"{"type":"abort","message":"Aborted","status_code":null,"err_type":null}"#;
    let done = ChunkEvent {
        finish_reason: Some(FinishReason {
            value: parse_text(document).unwrap(),
            abort: None,
        }),
        ..chunk("")
    };
    assert!(matches!(
        call.recv(Some(ResponseItem::Done(done))),
        Some(FrontendEvent::Finished(output)) if output.finish_reason.is_some()
    ));
    assert!(call.recv(None).is_none());
    assert!(call.release(&mut admission).is_none());
}

#[test]
fn an_abort_with_a_status_is_a_failure() {
    let event = generation_event(ResponseItem::Done(aborted(502, "upstream down")));
    assert!(matches!(
        event,
        FrontendEvent::Failed(FrontendError::RuntimeRejected {
            message,
            legacy_http_status: 502,
            ..
        }) if message == "upstream down"
    ));
    // Before the end it is output like any other.
    assert!(matches!(
        generation_event(ResponseItem::Frame(aborted(502, "upstream down"))),
        FrontendEvent::Delta(_)
    ));
}

#[test]
fn generate_batch_failure_aborts_already_accepted_calls() {
    let requests = vec![
        FrontendRequest::plain(Rid::from_name("accepted")),
        FrontendRequest::plain(Rid::from_name("rejected")),
    ];
    let mut batch = GenerateBatch::generate_batch(requests, Ok(())).unwrap();

    let (rid, _) = batch.next_request("first").unwrap();
    assert_eq!(rid.as_str(), "accepted");
    let mut admission = RequestAdmission::pending();
    assert!(admission.try_accept());
    assert!(batch.submitted(true).is_ok());

    let (rid, _) = batch.next_request("second").unwrap();
    assert_eq!(rid.as_str(), "rejected");
    let refusal = batch.submitted(false).unwrap_err();
    assert!(matches!(refusal.error, FrontendError::Unavailable));

    let mut calls = refusal.accepted;
    assert_eq!(calls.len(), 1);
    let (accepted, link) = &mut calls[0];
    assert_eq!(*link, "first");
    let abort = accepted.release(&mut admission).unwrap();
    assert_eq!(abort.as_str(), "accepted");
    assert!(accepted.release(&mut admission).is_none());
    assert!(batch.next_request("third").is_none());
    assert!(batch.take_calls().is_empty());
}

#[test]
fn a_refused_batch_gives_up_all_that_was_accepted_and_nothing_else() {
    let requests = ["a", "b", "c", "d"]
        .into_iter()
        .map(|name| FrontendRequest::plain(Rid::from_name(name)))
        .collect();
    let mut batch = GenerateBatch::generate_batch(requests, Ok(())).unwrap();
    for link in 0..2 {
        assert!(batch.next_request(link).is_some());
        // One request at a time is on its way.
        assert!(batch.next_request(9).is_none());
        assert!(batch.submitted(true).is_ok());
    }
    // Nothing is on its way, so there is nothing to note.
    assert!(batch.submitted(false).is_ok());
    assert!(batch.next_request(2).is_some());
    let refusal = batch.submitted(false).unwrap_err();
    let mut aborted = vec![];
    for (mut call, link) in refusal.accepted {
        let mut admission = RequestAdmission::Accepted;
        let rid = call.release(&mut admission).unwrap();
        aborted.push((rid.as_str().to_owned(), link));
        assert!(call.release(&mut admission).is_none());
    }
    assert_eq!(aborted, vec![("a".to_owned(), 0), ("b".to_owned(), 1)]);
    // The last request was never handed over.
    assert!(batch.next_request(3).is_none());
}

#[test]
fn a_batch_that_goes_away_owns_the_call_on_its_way() {
    let requests = ["a", "b"]
        .into_iter()
        .map(|name| FrontendRequest::plain(Rid::from_name(name)))
        .collect();
    let mut batch = GenerateBatch::generate_batch(requests, Ok(())).unwrap();
    assert!(batch.next_request(0).is_some());
    let mut calls = batch.take_calls();
    assert_eq!(calls.len(), 1);
    let mut accepted = RequestAdmission::Accepted;
    assert_eq!(calls[0].0.release(&mut accepted).unwrap().as_str(), "a");
    assert!(batch.next_request(1).is_none());
}

#[test]
fn failed_preparation_admits_nothing() {
    let batch = GenerateBatch::<()>::generate_batch(
        vec![FrontendRequest::plain(Rid::from_name("a"))],
        Err("Image count 2 exceeds limit 1 per request.".into()),
    );
    assert!(matches!(
        batch,
        Err(FrontendError::InvalidArgument(message))
            if message == "Image count 2 exceeds limit 1 per request."
    ));
}

#[test]
fn a_batch_is_submitted_in_order() {
    let requests = ["a", "b", "c"]
        .into_iter()
        .map(|name| FrontendRequest::plain(Rid::from_name(name)))
        .collect();
    let mut batch = GenerateBatch::generate_batch(requests, Ok(())).unwrap();
    let mut names = vec![];
    while let Some((rid, RequestKind::Generate(request))) = batch.next_request(names.len()) {
        assert_eq!(rid.as_str(), request.rid.as_str());
        names.push(rid.as_str().to_owned());
        assert!(batch.submitted(true).is_ok());
    }
    assert_eq!(names, vec!["a", "b", "c"]);
    let calls = batch.take_calls();
    assert_eq!(calls.len(), 3);
    for (index, (call, link)) in calls.iter().enumerate() {
        assert_eq!(call.rid().as_str(), names[index]);
        assert_eq!(*link, index);
    }
}

#[test]
fn healthy_probe_uses_shared_activity_and_cleans_up() {
    let probe = probe_request(false, "1234");
    assert!(probe.rid.as_str().starts_with("HEALTH_CHECK_"));
    assert_eq!(probe.rid.as_str(), "HEALTH_CHECK_1234");
    assert_eq!(probe.input_ids, Some(vec![0]));
    assert_eq!(probe.sampling_params.max_new_tokens, Setting::Implied(1));
    assert_eq!(
        probe.sampling_params.temperature,
        Setting::Implied(0.0_f64.to_bits())
    );
    assert!(!probe.stream);
    assert_eq!(probe.bootstrap_host, None);
    assert_eq!(probe.bootstrap_room, None);

    let mut call = RuntimeCall::submit(&RequestKind::Generate(Box::new(probe)), "unused");
    let mut admission = RequestAdmission::pending();
    assert!(admission.try_accept());
    assert_eq!(probe_health(5, 6, false), Some(HealthStatus::Healthy));
    let abort = call.release(&mut admission).unwrap();
    assert_eq!(abort.as_str(), "HEALTH_CHECK_1234");
}

#[test]
fn stalled_pd_probe_has_bootstrap_pair_and_cleans_up() {
    let probe = probe_request(true, "1");
    assert_eq!(probe.bootstrap_host.as_deref(), Some("2.2.2.2"));
    assert_eq!(probe.bootstrap_room, Some(0));
    let rid = probe.rid.clone();
    let mut call = RuntimeCall::submit(&RequestKind::Generate(Box::new(probe)), "unused");
    let mut admission = RequestAdmission::pending();
    assert!(admission.try_accept());
    assert_eq!(probe_health(5, 5, true), Some(HealthStatus::Stalled));
    assert_eq!(call.release(&mut admission).unwrap().as_str(), rid.as_str());
    assert_eq!(probe_health(5, 5, false), None);
}

#[test]
fn a_server_that_is_starting_is_not_probed() {
    assert_eq!(health_before_probe(false), Some(HealthStatus::NotReady));
    assert_eq!(health_before_probe(true), None);
    assert_eq!(probe_health(u64::MAX, 0, true), Some(HealthStatus::Healthy));
}

#[test]
fn control_operation_returns_transport_neutral_payload() {
    let kind = RequestKind::Control(ControlRequest::GetInternalState {
        rid: "control-id".into(),
    });
    let mut call = RuntimeCall::submit(&kind, "minted");
    let mut admission = RequestAdmission::pending();
    assert!(admission.try_accept());
    assert_eq!(call.rid().as_str(), "control-id");
    let item = ResponseItem::Control(b"payload".to_vec());
    call.observe(Some(&item));
    assert_eq!(control(Some(item)).unwrap(), b"payload".to_vec());
    assert!(call.release(&mut admission).is_none());
}

#[test]
fn control_failures_are_told_apart() {
    assert!(matches!(control(None), Err(FrontendError::ResponseTruncated)));
    assert!(matches!(
        control(Some(ResponseItem::Error(Error::QueueFull))),
        Err(FrontendError::Overloaded(_))
    ));
    assert!(matches!(
        control(Some(ResponseItem::Done(chunk("x")))),
        Err(FrontendError::InvalidResponse(message))
            if message == "unexpected generation output for control request"
    ));
}

#[test]
fn detokenize_operation_mints_an_internal_rid() {
    let kind = RequestKind::Detokenize {
        token_ids: vec![1, 2],
    };
    let mut call = RuntimeCall::submit(&kind, "minted");
    let mut admission = RequestAdmission::pending();
    assert!(admission.try_accept());
    assert!(!call.rid().as_str().is_empty());
    assert_eq!(call.rid().as_str(), "minted");
    let item = ResponseItem::Data(b"decoded".to_vec());
    call.observe(Some(&item));
    assert_eq!(detokenize(Some(item)).unwrap(), "decoded");
    assert!(call.release(&mut admission).is_none());
}

#[test]
fn detokenize_failures_are_told_apart() {
    assert!(matches!(
        detokenize(Some(ResponseItem::Error(Error::Validation("bad id".into())))),
        Err(FrontendError::InvalidArgument(message)) if message == "bad id"
    ));
    assert!(matches!(
        detokenize(Some(ResponseItem::Error(Error::Internal("bug".into())))),
        Err(FrontendError::Internal(message)) if message == "internal error: bug"
    ));
    assert!(matches!(
        detokenize(Some(ResponseItem::Control(vec![]))),
        Err(FrontendError::InvalidResponse(message))
            if message == "unexpected output for detokenize request"
    ));
    assert!(matches!(
        detokenize(Some(ResponseItem::Data(vec![0xff, 0xfe]))),
        Err(FrontendError::InvalidResponse(message))
            if message == "detokenized prompt is not valid UTF-8"
    ));
    assert!(matches!(
        detokenize(None),
        Err(FrontendError::Internal(message)) if message == "reply channel closed"
    ));
    assert_eq!(
        detokenize(Some(ResponseItem::Data("é中".as_bytes().to_vec()))).unwrap(),
        "é中"
    );
}

#[test]
fn an_undecodable_internal_state_is_an_invalid_response() {
    assert!(matches!(
        internal_state(Err("unexpected end".into())),
        Err(FrontendError::InvalidResponse(message))
            if message == "invalid internal-state response: unexpected end"
    ));
    let state = internal_state(Ok(InternalState {
        last_gen_throughput: Some(1),
        ..Default::default()
    }))
    .unwrap();
    assert_eq!(state.last_gen_throughput, Some(1));
}

#[test]
fn a_truncated_response_is_one_failure_and_still_aborts() {
    let mut call = generation("cut");
    let mut admission = RequestAdmission::pending();
    assert!(admission.try_accept());
    assert!(call.recv(Some(ResponseItem::Frame(chunk("a")))).is_some());
    assert!(matches!(
        call.recv(None),
        Some(FrontendEvent::Failed(FrontendError::Internal(message)))
            if message == "response truncated before completion"
    ));
    assert!(call.recv(None).is_none());
    assert!(call.recv(Some(ResponseItem::Done(chunk("late")))).is_none());
    assert_eq!(call.release(&mut admission).unwrap().as_str(), "cut");
}

#[test]
fn an_answer_of_another_kind_fails_and_still_aborts() {
    let mut call = generation("confused");
    let mut admission = RequestAdmission::pending();
    assert!(admission.try_accept());
    assert!(matches!(
        call.recv(Some(ResponseItem::Data(vec![]))),
        Some(FrontendEvent::Failed(FrontendError::InvalidResponse(message)))
            if message == "unexpected non-generation response"
    ));
    assert!(call.release(&mut admission).is_some());
}

#[test]
fn ready_answers_are_drained_up_to_the_terminal_one() {
    let mut call = generation("drain");
    let mut events = vec![];
    call.drain_ready(
        vec![
            ResponseItem::Frame(chunk("a")),
            ResponseItem::Frame(chunk("b")),
        ],
        &mut events,
    );
    assert_eq!(events.len(), 2);
    assert!(call.wants_item());
    call.drain_ready(
        vec![
            ResponseItem::Done(chunk("c")),
            ResponseItem::Frame(chunk("late")),
        ],
        &mut events,
    );
    assert_eq!(events.len(), 3);
    assert!(events[..2].iter().all(|event| !event.is_terminal()));
    assert!(events[2].is_terminal());
    assert!(!call.wants_item());
    call.drain_ready(vec![ResponseItem::Frame(chunk("later"))], &mut events);
    assert_eq!(events.len(), 3);
}

#[test]
fn each_kind_of_request_ends_with_its_own_answer() {
    let control_kind = RequestKind::Control(ControlRequest::GetInternalState { rid: "c".into() });
    let detokenize_kind = RequestKind::Detokenize { token_ids: vec![] };
    let generate_kind = generate(Rid::from_name("g"));
    for (kind, expected) in [
        (&generate_kind, ExpectedResponse::Generate),
        (&control_kind, ExpectedResponse::Control),
        (&detokenize_kind, ExpectedResponse::Detokenize),
    ] {
        assert_eq!(ExpectedResponse::for_request(kind), expected);
        assert!(expected.is_terminal(&ResponseItem::Error(Error::QueueFull)));
        assert!(!expected.is_terminal(&ResponseItem::Frame(chunk(""))));
        assert_eq!(
            expected.is_terminal(&ResponseItem::Done(chunk(""))),
            expected == ExpectedResponse::Generate
        );
        assert_eq!(
            expected.is_terminal(&ResponseItem::Control(vec![])),
            expected == ExpectedResponse::Control
        );
        assert_eq!(
            expected.is_terminal(&ResponseItem::Data(vec![])),
            expected == ExpectedResponse::Detokenize
        );
    }
    assert_eq!(request_rid(&generate_kind, "m").as_str(), "g");
    assert_eq!(request_rid(&control_kind, "m").as_str(), "c");
    assert_eq!(request_rid(&detokenize_kind, "m").as_str(), "m");
}

#[test]
fn an_observed_error_disarms_the_call() {
    let mut call = generation("failed");
    let mut admission = RequestAdmission::pending();
    assert!(admission.try_accept());
    assert!(call.recv(Some(ResponseItem::Error(Error::Disconnected))).is_some());
    assert!(call.release(&mut admission).is_none());
    assert_eq!(admission, RequestAdmission::Accepted);
}
