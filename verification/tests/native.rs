use sglang_server::contract::{FrontendError, FrontendEvent};
use sglang_server::error::Error;
use sglang_server::frontend::{
    FrontendCall, RequestAdmission, RequestKind, ResponseItem, RuntimeCall,
};
use sglang_server::grpc::response::{GenerationStream, NativeFrame, NativePayload, StreamInput};
use sglang_server::grpc::proto;
use sglang_server::grpc::service::{generate, text_generate};
use sglang_server::grpc::status::GrpcCode;
use sglang_server::ids::Rid;
use sglang_server::json::Json;
use sglang_server::native_generation::{
    hidden_states_rows, logprob_tuples, lp_value, meta_info_value, opt_texts,
    ragged_logprob_tuples, text_slot,
};
use sglang_server::openai::Collection;
use sglang_server::output::{ChunkEvent, ChunkExtras, FinishReason, FrontendOutput};
use sglang_server::request::FrontendRequest;

/// The value as `serde_json` has it.
fn value(json: &Json) -> serde_json::Value {
    match json {
        Json::Null => serde_json::Value::Null,
        Json::Bool(flag) => serde_json::Value::Bool(*flag),
        Json::Unsigned(number) => serde_json::Value::from(*number),
        Json::Negative(number) => serde_json::Value::from(*number),
        Json::Decimal(text) => serde_json::Value::from(text.parse::<f64>().unwrap()),
        Json::Float(bits) => serde_json::Value::from(f64::from_bits(*bits)),
        Json::Text(text) => serde_json::Value::from(text.as_str()),
        Json::Array(items) => serde_json::Value::Array(items.iter().map(value).collect()),
        Json::Object(entries) => serde_json::Value::Object(
            entries
                .iter()
                .map(|(key, item)| (key.clone(), value(item)))
                .collect(),
        ),
    }
}

fn bits(number: f32) -> u64 {
    f64::from(number).to_bits()
}

fn all_bits(numbers: &[f32]) -> Vec<u64> {
    numbers.iter().copied().map(bits).collect()
}

fn strings(texts: &[&str]) -> Vec<String> {
    texts.iter().map(|text| (*text).to_owned()).collect()
}

fn text(json: &Json) -> String {
    value(json).to_string()
}

fn stop_reason() -> FinishReason {
    FinishReason {
        value: Json::Object(vec![("type".to_owned(), Json::Text("stop".to_owned()))]),
        abort: None,
    }
}

fn chunk(rid: &Rid, text: &str, token_id: i32, finished: bool) -> ChunkEvent {
    ChunkEvent {
        rid: rid.clone(),
        token_ids: vec![token_id],
        finish_reason: finished.then(stop_reason),
        prompt_tokens: 3,
        text: text.into(),
        completion_tokens: 1,
        extras: None,
    }
}

#[test]
fn a_logprob_is_a_number_or_null() {
    assert_eq!(text(&lp_value(bits(-0.5))), "-0.5");
    assert_eq!(text(&lp_value(bits(0.0))), "0.0");
    assert_eq!(text(&lp_value(bits(f32::NAN))), "null");
    assert_eq!(text(&lp_value(bits(f32::INFINITY))), "null");
    assert_eq!(text(&lp_value(bits(f32::NEG_INFINITY))), "null");
    assert_eq!(
        value(&lp_value(bits(f32::MAX))).as_f64(),
        Some(f64::from(f32::MAX))
    );
    assert_eq!(
        value(&lp_value(bits(-0.1))).as_f64(),
        Some(f64::from(-0.1_f32))
    );
}

#[test]
fn a_text_slot_needs_a_populated_column() {
    let column = strings(&["a", "b"]);
    assert_eq!(text(&text_slot(Some(&column), 1)), "\"b\"");
    assert_eq!(text(&text_slot(Some(&column), 2)), "null");
    assert_eq!(text(&text_slot(None, 0)), "null");
    assert!(opt_texts(&[]).is_none());
    assert_eq!(opt_texts(&column).unwrap().len(), 2);
}

#[test]
fn flat_logprobs_are_as_long_as_the_shorter_column() {
    let column = strings(&["x"]);
    let list = logprob_tuples(&all_bits(&[-1.0, -2.0, -3.0]), &[7, -8], Some(&column));
    assert_eq!(text(&list), "[[-1.0,7,\"x\"],[-2.0,-8,null]]");
    assert_eq!(text(&logprob_tuples(&[], &[], None)), "[]");
}

#[test]
fn ragged_logprobs_have_one_row_per_position() {
    let values = all_bits(&[-1.0, -2.0, -3.0]);
    let list = ragged_logprob_tuples(&values, &[1, 2, 3], &[2, 0, 1], None);
    assert_eq!(
        text(&list),
        "[[[-1.0,1,null],[-2.0,2,null]],null,[[-3.0,3,null]]]"
    );
}

#[test]
fn malformed_ragged_columns_give_shortened_rows() {
    let values = all_bits(&[-1.0, -2.0]);
    let list = ragged_logprob_tuples(&values, &[1, 2, 3], &[1, 5, 2, u32::MAX, u32::MAX], None);
    assert_eq!(text(&list), "[[[-1.0,1,null]],[[-2.0,2,null]],[],[],[]]");
    assert_eq!(text(&ragged_logprob_tuples(&[], &[], &[1], None)), "[[]]");
}

#[test]
fn ragged_rows_split_the_flat_list() {
    let values = all_bits(&[-1.0, -2.0, -3.0, -4.0]);
    let tokens = [1, 2, 3, 4];
    let column = strings(&["a", "b", "c", "d"]);
    let rows = ragged_logprob_tuples(&values, &tokens, &[1, 0, 3], Some(&column));
    let flat = logprob_tuples(&values, &tokens, Some(&column));
    let mut joined = vec![];
    for row in value(&rows).as_array().unwrap() {
        joined.extend(row.as_array().cloned().unwrap_or_default());
    }
    assert_eq!(serde_json::Value::Array(joined), value(&flat));
}

#[test]
fn hidden_rows_joined_are_the_values() {
    let values = all_bits(&[1.0, 2.5, -3.0, 4.0]);
    let rows = value(&hidden_states_rows(&values, &[1, 0, 2, 1]));
    let joined: Vec<serde_json::Value> = rows
        .as_array()
        .unwrap()
        .iter()
        .flat_map(|row| row.as_array().unwrap().clone())
        .collect();
    let expected: Vec<serde_json::Value> = [1.0, 2.5, -3.0, 4.0]
        .map(|number: f64| serde_json::Value::from(number))
        .to_vec();
    assert_eq!(joined, expected);
}

#[test]
fn hidden_rows_are_whole_or_empty() {
    let values = all_bits(&[1.0, 2.0, 3.0]);
    assert_eq!(
        text(&hidden_states_rows(&values, &[2, 0, 1])),
        "[[1.0,2.0],[],[3.0]]"
    );
    assert_eq!(text(&hidden_states_rows(&values, &[1, 3])), "[[1.0],[]]");
    assert_eq!(
        text(&hidden_states_rows(&values, &[u32::MAX, u32::MAX, 1])),
        "[[],[],[]]"
    );
    assert_eq!(
        text(&hidden_states_rows(&all_bits(&[f32::NAN]), &[1])),
        "[[null]]"
    );
}

fn output(extras: Option<ChunkExtras>) -> FrontendOutput {
    FrontendOutput {
        token_ids: vec![1],
        finish_reason: None,
        prompt_tokens: 3,
        text: "t".into(),
        completion_tokens: 2,
        extras: extras.map(Box::new),
    }
}

#[test]
fn plain_meta_info_has_four_entries() {
    assert_eq!(
        text(&meta_info_value(&output(None), "rid")),
        "{\"id\":\"rid\",\"prompt_tokens\":3,\"completion_tokens\":2,\"finish_reason\":null}"
    );
    let finished = FrontendOutput {
        finish_reason: Some(stop_reason()),
        ..output(Some(ChunkExtras::default()))
    };
    assert_eq!(
        text(&meta_info_value(&finished, "rid")),
        "{\"id\":\"rid\",\"prompt_tokens\":3,\"completion_tokens\":2,\
         \"finish_reason\":{\"type\":\"stop\"}}"
    );
}

#[test]
fn token_logprobs_come_together() {
    let only_output = ChunkExtras {
        out_lp_val: all_bits(&[-1.0]),
        out_lp_idx: vec![5],
        out_lp_txt: strings(&["five"]),
        ..Default::default()
    };
    let meta = value(&meta_info_value(&output(Some(only_output)), "r"));
    assert_eq!(meta["output_token_logprobs"].to_string(), "[[-1.0,5,\"five\"]]");
    assert_eq!(meta["input_token_logprobs"].to_string(), "[]");
    let only_input = ChunkExtras {
        in_lp_val: all_bits(&[f32::NAN]),
        in_lp_idx: vec![6],
        ..Default::default()
    };
    let meta = value(&meta_info_value(&output(Some(only_input)), "r"));
    assert_eq!(meta["output_token_logprobs"].to_string(), "[]");
    assert_eq!(meta["input_token_logprobs"].to_string(), "[[null,6,null]]");
}

#[test]
fn every_column_has_its_entry() {
    let extras = ChunkExtras {
        out_top_val: all_bits(&[-1.0]),
        out_top_idx: vec![1],
        out_top_lens: vec![1],
        in_top_val: all_bits(&[-2.0]),
        in_top_idx: vec![2],
        in_top_lens: vec![0, 1],
        out_tid_val: all_bits(&[-3.0]),
        out_tid_idx: vec![3],
        out_tid_lens: vec![1],
        out_tid_txt: strings(&["three"]),
        in_tid_val: all_bits(&[-4.0]),
        in_tid_idx: vec![4],
        in_tid_lens: vec![1],
        hidden_val: all_bits(&[0.5]),
        hidden_lens: vec![1],
        ..Default::default()
    };
    let meta = value(&meta_info_value(&output(Some(extras)), "r"));
    let keys: Vec<&String> = meta.as_object().unwrap().keys().collect();
    assert_eq!(
        keys,
        vec![
            "id",
            "prompt_tokens",
            "completion_tokens",
            "finish_reason",
            "output_top_logprobs",
            "input_top_logprobs",
            "output_token_ids_logprobs",
            "input_token_ids_logprobs",
            "hidden_states"
        ]
    );
    assert_eq!(meta["output_top_logprobs"].to_string(), "[[[-1.0,1,null]]]");
    assert_eq!(
        meta["input_top_logprobs"].to_string(),
        "[null,[[-2.0,2,null]]]"
    );
    assert_eq!(
        meta["output_token_ids_logprobs"].to_string(),
        "[[[-3.0,3,\"three\"]]]"
    );
    assert_eq!(
        meta["input_token_ids_logprobs"].to_string(),
        "[[[-4.0,4,null]]]"
    );
    assert_eq!(meta["hidden_states"].to_string(), "[[0.5]]");
}

fn extras(value: f32, token: i32, label: &str) -> ChunkExtras {
    ChunkExtras {
        out_lp_val: all_bits(&[value]),
        out_lp_idx: vec![token],
        out_lp_txt: strings(&[label]),
        out_top_val: all_bits(&[value, value]),
        out_top_idx: vec![token, token + 1],
        out_top_lens: vec![2],
        out_top_txt: strings(&[label, label]),
        out_tid_val: all_bits(&[value]),
        out_tid_idx: vec![token],
        out_tid_lens: vec![1],
        out_tid_txt: strings(&[label]),
        in_lp_val: all_bits(&[value]),
        in_lp_idx: vec![token],
        in_lp_txt: strings(&[label]),
        in_top_val: all_bits(&[value]),
        in_top_idx: vec![token],
        in_top_lens: vec![1],
        in_top_txt: strings(&[label]),
        in_tid_val: all_bits(&[value]),
        in_tid_idx: vec![token],
        in_tid_lens: vec![1],
        in_tid_txt: strings(&[label]),
        hidden_val: all_bits(&[value]),
        hidden_lens: vec![1],
    }
}

fn delta(label: &str, token: i32, extras: Option<ChunkExtras>) -> FrontendOutput {
    FrontendOutput {
        token_ids: vec![token],
        finish_reason: None,
        prompt_tokens: token as u32,
        text: label.into(),
        completion_tokens: 1,
        extras: extras.map(Box::new),
    }
}

#[test]
fn increments_add_up_to_the_cumulative_output() {
    let mut cumulative = FrontendOutput::default();
    cumulative.append_delta(&delta("Hel", 1, Some(extras(-1.0, 1, "a"))));
    cumulative.append_delta(&delta("lo", 2, None));
    cumulative.append_delta(&FrontendOutput {
        finish_reason: Some(stop_reason()),
        ..delta("!", 3, Some(extras(-3.0, 3, "c")))
    });
    cumulative.append_delta(&FrontendOutput {
        completion_tokens: 5,
        ..delta("", 4, Some(ChunkExtras::default()))
    });
    let copy = cumulative.clone();
    assert_eq!(
        value(&meta_info_value(&copy, "r")),
        value(&meta_info_value(&cumulative, "r"))
    );
    assert_eq!(copy.token_ids, cumulative.token_ids);
    assert_eq!(copy.text, cumulative.text);
    assert_eq!(cumulative.text, "Hello!");
    assert_eq!(cumulative.token_ids, vec![1, 2, 3, 4]);
    assert_eq!(cumulative.completion_tokens, 8);
    assert_eq!(cumulative.prompt_tokens, 4);
    assert!(cumulative.finish_reason.is_some());
    let columns = cumulative.extras.unwrap();
    assert_eq!(columns.out_lp_val, all_bits(&[-1.0, -3.0]));
    assert_eq!(columns.out_lp_idx, vec![1, 3]);
    assert_eq!(columns.out_lp_txt, strings(&["a", "c"]));
    assert_eq!(columns.out_top_val, all_bits(&[-1.0, -1.0, -3.0, -3.0]));
    assert_eq!(columns.out_top_idx, vec![1, 2, 3, 4]);
    assert_eq!(columns.out_top_lens, vec![2, 2]);
    assert_eq!(columns.out_top_txt, strings(&["a", "a", "c", "c"]));
    assert_eq!(columns.out_tid_val, all_bits(&[-1.0, -3.0]));
    assert_eq!(columns.out_tid_idx, vec![1, 3]);
    assert_eq!(columns.out_tid_lens, vec![1, 1]);
    assert_eq!(columns.out_tid_txt, strings(&["a", "c"]));
    // Prompt columns and hidden states are those of the last that brought any.
    assert_eq!(columns.in_lp_val, all_bits(&[-3.0]));
    assert_eq!(columns.in_lp_idx, vec![3]);
    assert_eq!(columns.in_lp_txt, strings(&["c"]));
    assert_eq!(columns.in_top_val, all_bits(&[-3.0]));
    assert_eq!(columns.in_top_idx, vec![3]);
    assert_eq!(columns.in_top_lens, vec![1]);
    assert_eq!(columns.in_top_txt, strings(&["c"]));
    assert_eq!(columns.in_tid_val, all_bits(&[-3.0]));
    assert_eq!(columns.in_tid_idx, vec![3]);
    assert_eq!(columns.in_tid_lens, vec![1]);
    assert_eq!(columns.in_tid_txt, strings(&["c"]));
    assert_eq!(columns.hidden_val, all_bits(&[-3.0]));
    assert_eq!(columns.hidden_lens, vec![1]);
}

#[test]
fn cumulative_parts_can_be_folded_in_turn() {
    let parts = || {
        [
            delta("a", 1, Some(extras(-1.0, 1, "a"))),
            delta("b", 2, None),
            delta("c", 3, Some(extras(-2.0, 3, "c"))),
        ]
    };
    let [first, second, third] = parts();
    let mut left = first;
    left.append_delta(&second);
    left.append_delta(&third);
    let [mut right, mut tail, last] = parts();
    tail.append_delta(&last);
    right.append_delta(&tail);
    assert_eq!(left.text, right.text);
    assert_eq!(left.token_ids, right.token_ids);
    assert_eq!(left.completion_tokens, right.completion_tokens);
    let (left, right) = (left.extras.unwrap(), right.extras.unwrap());
    assert_eq!(left.out_lp_val, right.out_lp_val);
    assert_eq!(left.in_lp_val, right.in_lp_val);
    assert_eq!(left.hidden_val, right.hidden_val);
}

#[test]
fn cumulative_logprobs_are_those_of_the_increments() {
    let first = extras(-1.0, 1, "a");
    let second = extras(-2.0, 2, "b");
    let list = |columns: &ChunkExtras| {
        value(&logprob_tuples(
            &columns.out_lp_val,
            &columns.out_lp_idx,
            opt_texts(&columns.out_lp_txt),
        ))
    };
    let mut expected = list(&first).as_array().unwrap().clone();
    expected.extend(list(&second).as_array().unwrap().clone());
    let mut both = ChunkExtras::empty();
    both.append(&first);
    both.append(&second);
    assert_eq!(list(&both), serde_json::Value::Array(expected));
}

fn meta<'a>(frame: &'a NativeFrame, key: &str) -> String {
    let entry = frame.meta_info.iter().find(|(name, _)| name == key).unwrap();
    text(&entry.1)
}

fn event(call: &mut FrontendCall, item: ResponseItem) -> StreamInput {
    StreamInput::Event(call.recv(Some(item)).unwrap())
}

fn submitted(rid: &Rid) -> FrontendCall {
    let request = FrontendRequest::plain(rid.clone());
    FrontendCall::new(RuntimeCall::submit(
        &RequestKind::Generate(Box::new(request)),
        "unused",
    ))
}

#[test]
fn text_generate_maps_request_and_streams_cumulative_responses() {
    let request = text_generate(
        proto::TextGenerateRequest {
            text: "prompt".into(),
            stream: Some(true),
            rid: Some("request-1".into()),
            ..Default::default()
        },
        false,
        None,
        "minted",
    )
    .unwrap();
    assert_eq!(request.text.as_deref(), Some("prompt"));
    assert!(request.input_ids.is_none());
    assert!(request.stream);
    assert_eq!(request.rid.client_facing(), "request-1");
    let rid = request.rid.clone();
    let kind = RequestKind::Generate(Box::new(request));
    let mut call = FrontendCall::new(RuntimeCall::submit(&kind, "unused"));
    let mut stream = GenerationStream::text_generate_stream(call.public_id(), false);

    let input = event(&mut call, ResponseItem::Frame(chunk(&rid, "Hel", 1, false)));
    let first = stream.generation_stream(input).unwrap().unwrap();
    assert!(matches!(&first.payload, NativePayload::Text(text) if text == "Hel"));
    assert!(!first.finished);
    assert_eq!(meta(&first, "id"), r#""request-1""#);
    assert_eq!(meta(&first, "prompt_tokens"), "3");
    assert_eq!(meta(&first, "completion_tokens"), "1");
    assert_eq!(meta(&first, "finish_reason"), "null");

    let input = event(&mut call, ResponseItem::Done(chunk(&rid, "lo", 2, true)));
    let finished = stream.generation_stream(input).unwrap().unwrap();
    assert!(matches!(&finished.payload, NativePayload::Text(text) if text == "Hello"));
    assert!(finished.finished);
    assert_eq!(meta(&finished, "completion_tokens"), "2");
    assert!(meta(&finished, "finish_reason").contains(r#""type":"stop""#));
    assert!(!stream.wants_input());
    assert!(stream.generation_stream(StreamInput::Closed).is_none());
    let mut admission = RequestAdmission::Accepted;
    assert!(call.release(&mut admission).is_none());
}

#[test]
fn generate_streams_incremental_token_ids_with_cumulative_count() {
    let request = generate(
        proto::GenerateRequest {
            input_ids: vec![4, 5],
            stream: Some(true),
            rid: Some("tokens".into()),
            ..Default::default()
        },
        None,
        "minted",
    )
    .unwrap();
    assert_eq!(request.input_ids.as_deref(), Some(&[4, 5][..]));
    assert!(request.text.is_none());
    let rid = request.rid.clone();
    let kind = RequestKind::Generate(Box::new(request));
    let mut call = FrontendCall::new(RuntimeCall::submit(&kind, "unused"));
    let mut stream = GenerationStream::generate_stream(call.public_id(), true);
    let input = event(&mut call, ResponseItem::Frame(chunk(&rid, "A", 10, false)));
    let first = stream.generation_stream(input).unwrap().unwrap();
    let input = event(&mut call, ResponseItem::Done(chunk(&rid, "B", 11, true)));
    let finished = stream.generation_stream(input).unwrap().unwrap();
    assert!(matches!(&first.payload, NativePayload::OutputIds(ids) if *ids == vec![10]));
    assert!(matches!(&finished.payload, NativePayload::OutputIds(ids) if *ids == vec![11]));
    assert_eq!(meta(&finished, "completion_tokens"), "2");
    assert!(finished.finished);
    assert_eq!(stream.completion_tokens(), 2);
}

#[test]
fn stream_drop_aborts_admitted_request() {
    let rid = Rid::from_client("cancel-me", "minted");
    let mut call = submitted(&rid);
    let mut admission = RequestAdmission::pending();
    assert!(admission.try_accept());
    let mut stream = GenerationStream::generate_stream(call.public_id(), false);
    let input = event(&mut call, ResponseItem::Frame(chunk(&rid, "partial", 1, false)));
    assert!(stream.generation_stream(input).unwrap().is_ok());
    let abort = call.release(&mut admission).unwrap();
    assert_eq!(abort.client_facing(), "cancel-me");
    assert!(call.release(&mut admission).is_none());
}

#[test]
fn runtime_failure_is_an_in_stream_status_and_disarms_abort() {
    let rid = Rid::from_name("failing");
    let mut call = submitted(&rid);
    let mut admission = RequestAdmission::pending();
    assert!(admission.try_accept());
    let mut stream = GenerationStream::generate_stream(call.public_id(), false);
    let input = event(
        &mut call,
        ResponseItem::Error(Error::Validation("bad sampling".into())),
    );
    let error = stream.generation_stream(input).unwrap().unwrap_err();
    assert_eq!(error.code, GrpcCode::InvalidArgument);
    assert_eq!(error.message, "validation failed: bad sampling");
    assert!(!stream.wants_input());
    assert!(call.release(&mut admission).is_none());
}

#[test]
fn per_chunk_timeout_after_progress_returns_deadline_exceeded_and_aborts() {
    let rid = Rid::from_client("too-slow", "minted");
    let mut call = submitted(&rid);
    let mut admission = RequestAdmission::pending();
    assert!(admission.try_accept());
    let mut stream = GenerationStream::generate_stream(call.public_id(), false);
    let input = event(&mut call, ResponseItem::Frame(chunk(&rid, "partial", 1, false)));
    assert!(stream.generation_stream(input).unwrap().is_ok());

    let error = stream
        .generation_stream(StreamInput::TimedOut)
        .unwrap()
        .unwrap_err();
    assert_eq!(error.code, GrpcCode::DeadlineExceeded);
    assert_eq!(error.message, "Stream chunk timed out");
    assert!(stream
        .generation_stream(StreamInput::Event(FrontendEvent::Failed(
            FrontendError::Unavailable
        )))
        .is_none());
    assert_eq!(
        call.release(&mut admission).unwrap().client_facing(),
        "too-slow"
    );
}

#[test]
fn closed_intake_is_a_top_level_unavailable_status() {
    let request = FrontendRequest::plain(Rid::from_name("r"));
    let mut call = RuntimeCall::submit(&RequestKind::Generate(Box::new(request)), "unused");
    let error = call.handed_over(false).unwrap_err();
    assert_eq!(
        sglang_server::grpc::response::status(error).code,
        GrpcCode::Unavailable
    );
}

#[test]
fn a_stream_without_events_just_ends() {
    let mut stream = GenerationStream::text_generate_stream("r", true);
    assert!(stream.wants_input());
    assert!(stream.generation_stream(StreamInput::Closed).is_none());
    assert!(!stream.wants_input());
}

#[test]
fn the_last_frame_shows_what_is_collected() {
    let rid = Rid::from_name("whole");
    let items = || {
        vec![
            ResponseItem::Frame(chunk(&rid, "a", 1, false)),
            ResponseItem::Frame(chunk(&rid, "b", 2, false)),
            ResponseItem::Done(chunk(&rid, "c", 3, true)),
        ]
    };
    let mut call = submitted(&rid);
    let mut collection = Collection::new();
    for item in items() {
        collection = collection.collect_output(call.recv(Some(item)));
    }
    let Collection::Ended(Ok(collected)) = collection else {
        panic!("the generation ended");
    };
    assert_eq!(collected.text, "abc");
    assert_eq!(collected.token_ids, vec![1, 2, 3]);
    assert_eq!(collected.completion_tokens, 3);

    let mut call = submitted(&rid);
    let mut stream = GenerationStream::text_generate_stream(call.public_id(), false);
    let mut last = None;
    for item in items() {
        last = stream.generation_stream(event(&mut call, item));
    }
    let frame = last.unwrap().unwrap();
    assert!(matches!(&frame.payload, NativePayload::Text(text) if *text == collected.text));
    for (key, expected) in &frame.meta_info {
        let meta = meta_info_value(&collected, "whole");
        assert_eq!(text(expected), text(meta.get(key).unwrap()));
    }
}
