//! The JSON-carrying RPCs: which OpenAI requests are accepted, and how their
//! responses are framed.

use vstd::prelude::*;
use vstd::utf8::{encode_utf8, encode_utf8_decode_utf8};

use crate::contract::{ErrorModel, FrontendErrorKind};
use crate::grpc::convert::{ConvertError, ConvertErrorModel};
use crate::grpc::proto;
use crate::grpc::response::{error_status, kind_code, status_from_kind};
use crate::grpc::status::{GrpcCode, GrpcStatus, StatusModel};
use crate::json::{
    entries_model, items_model, json_document, json_model, json_text_document, lemma_array_model,
    lemma_lookup_push, lemma_object_model, parse_bytes, parse_text, parsed_model, value_from_slice, Json, JsonModel,
};
use crate::openai::{
    contains_media, error_payload_model, media_inside, OpenAiResponse, OpenAiStreamItem,
};
use crate::text::{concat2, concat3, one_of};

verus! {

broadcast use {lemma_array_model, lemma_object_model};

/// The characters of each name.
pub open spec fn names(list: Seq<&str>) -> Seq<Seq<char>> {
    list.map_values(|name: &str| name@)
}

/// The key of the first entry that is not `null` and not allowed.
pub open spec fn first_unknown(
    entries: Seq<(Seq<char>, JsonModel)>,
    allowed: Seq<Seq<char>>,
) -> Option<Seq<char>>
    decreases entries.len(),
{
    if entries.len() == 0 {
        None
    } else if !(entries[0].1 is Null) && !allowed.contains(entries[0].0) {
        Some(entries[0].0)
    } else {
        first_unknown(entries.drop_first(), allowed)
    }
}

/// The text of an optional key.
pub open spec fn opt_key(key: Option<&String>) -> Option<Seq<char>> {
    match key {
        Some(key) => Some(key@),
        None => None,
    }
}

/// Finds the first entry that is not `null` and not allowed.
fn unknown_field<'a>(entries: &'a Vec<(String, Json)>, allowed: &[&str]) -> (key: Option<
    &'a String,
>)
    ensures
        opt_key(key) == first_unknown(entries_model(entries@), names(allowed@)),
{
    assert(entries_model(entries@).skip(0) =~= entries_model(entries@));
    for i in 0..entries.len()
        invariant
            first_unknown(entries_model(entries@), names(allowed@)) == first_unknown(
                entries_model(entries@).skip(i as int),
                names(allowed@),
            ),
    {
        let ghost rest = entries_model(entries@).skip(i as int);
        assert(rest[0] == (entries@[i as int].0@, entries@[i as int].1@));
        let key = &entries[i].0;
        let known = one_of(key.as_str(), allowed);
        proof {
            if known {
                let k = choose|k: int|
                    0 <= k < allowed@.len() && (#[trigger] allowed@[k])@ == key@;
                assert(names(allowed@)[k] == key@);
            } else if names(allowed@).contains(key@) {
                let k = choose|k: int| 0 <= k < allowed@.len() && names(allowed@)[k] == key@;
                assert(allowed@[k]@ == key@);
            }
        }
        if !entries[i].1.is_null() && !known {
            return Some(key);
        }
        assert(rest.drop_first() =~= entries_model(entries@).skip(i + 1));
    }
    None
}

/// What is wrong with the keys of an object, if anything. Only an object has
/// keys.
pub open spec fn unknown_field_error(
    value: JsonModel,
    allowed: Seq<Seq<char>>,
    context: Seq<char>,
) -> Option<ConvertErrorModel> {
    match value {
        JsonModel::Object(entries) => match first_unknown(entries, allowed) {
            Some(key) => Some(
                ConvertErrorModel::Unsupported(context + "."@ + key + " is not supported"@),
            ),
            None => None,
        },
        _ => None,
    }
}

/// What a check found.
pub open spec fn check_model(checked: Result<(), ConvertError>) -> Option<ConvertErrorModel> {
    match checked {
        Ok(_) => None,
        Err(error) => Some(error@),
    }
}

/// Refuses an object with a key that is not allowed. A key with the value `null`
/// counts as absent.
pub fn reject_unknown_fields(value: &Json, allowed: &[&str], context: &str) -> (checked: Result<
    (),
    ConvertError,
>)
    ensures
        check_model(checked) == unknown_field_error(value@, names(allowed@), context@),
{
    if let Some(entries) = value.as_object() {
        if let Some(key) = unknown_field(entries, allowed) {
            let field = concat3(context, ".", key.as_str());
            return Err(
                ConvertError::Unsupported(concat2(field.as_str(), " is not supported")),
            );
        }
    }
    Ok(())
}

/// The keys of a chat message that are understood.
pub open spec fn message_fields() -> Seq<Seq<char>> {
    seq![
        "role"@,
        "content"@,
        "name"@,
        "tool_calls"@,
        "function_call"@,
        "tool_call_id"@,
        "reasoning_content"@,
        "reasoning"@,
        "refusal"@,
    ]
}

/// What is wrong with the first bad message, if there is one.
pub open spec fn messages_error(messages: Seq<JsonModel>) -> Option<ConvertErrorModel>
    decreases messages.len(),
{
    if messages.len() == 0 {
        None
    } else {
        match unknown_field_error(messages[0], message_fields(), "messages[]"@) {
            Some(error) => Some(error),
            None => messages_error(messages.drop_first()),
        }
    }
}

/// Refuses messages with keys that nothing here understands.
fn check_messages(messages: &Vec<Json>) -> (checked: Result<(), ConvertError>)
    ensures
        check_model(checked) == messages_error(items_model(messages@)),
{
    let fields = [
        "role",
        "content",
        "name",
        "tool_calls",
        "function_call",
        "tool_call_id",
        "reasoning_content",
        "reasoning",
        "refusal",
    ];
    assert(names(fields@) =~= message_fields());
    assert(items_model(messages@).skip(0) =~= items_model(messages@));
    for i in 0..messages.len()
        invariant
            names(fields@) == message_fields(),
            messages_error(items_model(messages@)) == messages_error(
                items_model(messages@).skip(i as int),
            ),
    {
        let ghost rest = items_model(messages@).skip(i as int);
        assert(rest[0] == messages@[i as int]@);
        if let Err(error) = reject_unknown_fields(&messages[i], fields.as_slice(), "messages[]") {
            return Err(error);
        }
        assert(rest.drop_first() =~= items_model(messages@).skip(i + 1));
    }
    Ok(())
}

/// What is wrong with a response format, if anything.
pub open spec fn response_format_error(format: JsonModel) -> Option<ConvertErrorModel> {
    match unknown_field_error(format, seq!["type"@, "json_schema"@], "response_format"@) {
        Some(error) => Some(error),
        None => match format.get("type"@) {
            Some(JsonModel::Text(kind)) => if kind == "text"@ || kind == "json_object"@ || kind
                == "json_schema"@ {
                None
            } else {
                Some(
                    ConvertErrorModel::Unsupported(
                        "response_format type "@ + kind + " is not supported"@,
                    ),
                )
            },
            _ => None,
        },
    }
}

/// Refuses a response format that nothing here understands.
fn check_response_format(format: &Json) -> (checked: Result<(), ConvertError>)
    ensures
        check_model(checked) == response_format_error(format@),
{
    let fields = ["type", "json_schema"];
    assert(names(fields@) =~= seq!["type"@, "json_schema"@]);
    if let Err(error) = reject_unknown_fields(format, fields.as_slice(), "response_format") {
        return Err(error);
    }
    if let Some(kind) = format.get("type") {
        if let Some(kind) = kind.as_str() {
            if !kind.eq("text") && !kind.eq("json_object") && !kind.eq("json_schema") {
                return Err(
                    ConvertError::Unsupported(
                        concat3("response_format type ", kind, " is not supported"),
                    ),
                );
            }
        }
    }
    Ok(())
}

/// The keys of a tool's function that are understood.
pub open spec fn function_fields() -> Seq<Seq<char>> {
    seq!["name"@, "description"@, "parameters"@, "strict"@]
}

/// What is wrong with a tool, if anything.
pub open spec fn tool_error(tool: JsonModel) -> Option<ConvertErrorModel> {
    match unknown_field_error(tool, seq!["type"@, "function"@], "tools[]"@) {
        Some(error) => Some(error),
        None => match tool.get("type"@) {
            Some(JsonModel::Text(kind)) if kind != "function"@ => Some(
                ConvertErrorModel::Unsupported("tool type "@ + kind + " is not supported"@),
            ),
            _ => match tool.get("function"@) {
                Some(function) => unknown_field_error(
                    function,
                    function_fields(),
                    "tools[].function"@,
                ),
                None => None,
            },
        },
    }
}

/// Refuses a tool that nothing here understands.
fn check_tool(tool: &Json) -> (checked: Result<(), ConvertError>)
    ensures
        check_model(checked) == tool_error(tool@),
{
    let fields = ["type", "function"];
    assert(names(fields@) =~= seq!["type"@, "function"@]);
    if let Err(error) = reject_unknown_fields(tool, fields.as_slice(), "tools[]") {
        return Err(error);
    }
    if let Some(kind) = tool.get("type") {
        if let Some(kind) = kind.as_str() {
            if !kind.eq("function") {
                return Err(
                    ConvertError::Unsupported(concat3("tool type ", kind, " is not supported")),
                );
            }
        }
    }
    if let Some(function) = tool.get("function") {
        let fields = ["name", "description", "parameters", "strict"];
        assert(names(fields@) =~= function_fields());
        return reject_unknown_fields(function, fields.as_slice(), "tools[].function");
    }
    Ok(())
}

/// What is wrong with the first bad tool, if there is one.
pub open spec fn tools_error(tools: Seq<JsonModel>) -> Option<ConvertErrorModel>
    decreases tools.len(),
{
    if tools.len() == 0 {
        None
    } else {
        match tool_error(tools[0]) {
            Some(error) => Some(error),
            None => tools_error(tools.drop_first()),
        }
    }
}

/// Refuses tools that nothing here understands.
fn check_tools(tools: &Vec<Json>) -> (checked: Result<(), ConvertError>)
    ensures
        check_model(checked) == tools_error(items_model(tools@)),
{
    assert(items_model(tools@).skip(0) =~= items_model(tools@));
    for i in 0..tools.len()
        invariant
            tools_error(items_model(tools@)) == tools_error(items_model(tools@).skip(i as int)),
    {
        let ghost rest = items_model(tools@).skip(i as int);
        assert(rest[0] == tools@[i as int]@);
        if let Err(error) = check_tool(&tools[i]) {
            return Err(error);
        }
        assert(rest.drop_first() =~= items_model(tools@).skip(i + 1));
    }
    Ok(())
}

/// What is wrong with the messages of a request, if anything.
pub open spec fn message_list_error(value: JsonModel) -> Option<ConvertErrorModel> {
    match value.get("messages"@) {
        Some(JsonModel::Array(messages)) => messages_error(messages),
        _ => None,
    }
}

/// What is wrong with the response format of a request, if anything.
pub open spec fn format_error(value: JsonModel) -> Option<ConvertErrorModel> {
    match value.get("response_format"@) {
        Some(format) => response_format_error(format),
        None => None,
    }
}

/// What is wrong with the tools of a request, if anything.
pub open spec fn tool_list_error(value: JsonModel) -> Option<ConvertErrorModel> {
    match value.get("tools"@) {
        Some(JsonModel::Array(tools)) => tools_error(tools),
        _ => None,
    }
}

/// What is wrong with the chat features of a request, if anything: its messages
/// are looked at first, then the response format, then the tools.
pub open spec fn chat_features_error(value: JsonModel) -> Option<ConvertErrorModel> {
    match message_list_error(value) {
        Some(error) => Some(error),
        None => match format_error(value) {
            Some(error) => Some(error),
            None => tool_list_error(value),
        },
    }
}

/// Refuses chat features that nothing here understands, before a lenient reader
/// can drop them.
pub fn validate_chat_features(value: &Json) -> (checked: Result<(), ConvertError>)
    ensures
        check_model(checked) == chat_features_error(value@),
{
    if let Some(messages) = value.get("messages") {
        if let Some(messages) = messages.as_array() {
            if let Err(error) = check_messages(messages) {
                return Err(error);
            }
        }
    }
    if let Some(format) = value.get("response_format") {
        if let Err(error) = check_response_format(format) {
            return Err(error);
        }
    }
    if let Some(tools) = value.get("tools") {
        if let Some(tools) = tools.as_array() {
            return check_tools(tools);
        }
    }
    Ok(())
}

/// The keys of a request that are understood.
pub open spec fn request_fields(chat: bool) -> Seq<Seq<char>> {
    let common = seq![
        "model"@,
        "stream"@,
        "stream_options"@,
        "n"@,
        "max_tokens"@,
        "temperature"@,
        "top_p"@,
        "frequency_penalty"@,
        "presence_penalty"@,
        "stop"@,
        "seed"@,
        "logit_bias"@,
        "logprobs"@,
    ];
    if chat {
        common + seq![
            "messages"@,
            "max_completion_tokens"@,
            "top_logprobs"@,
            "response_format"@,
            "tools"@,
            "tool_choice"@,
            "parallel_tool_calls"@,
            "service_tier"@,
            "modalities"@,
        ]
    } else {
        common + seq!["prompt"@, "echo"@, "best_of"@]
    }
}

/// The stream options that are understood.
pub open spec fn stream_option_fields(chat: bool) -> Seq<Seq<char>> {
    if chat {
        seq!["include_usage"@]
    } else {
        seq!["include_usage"@, "continuous_usage_stats"@]
    }
}

/// Finds the first key of a request that is not understood.
fn unknown_request_field<'a>(entries: &'a Vec<(String, Json)>, chat: bool) -> (key: Option<
    &'a String,
>)
    ensures
        opt_key(key) == first_unknown(entries_model(entries@), request_fields(chat)),
{
    if chat {
        let fields = [
            "model",
            "stream",
            "stream_options",
            "n",
            "max_tokens",
            "temperature",
            "top_p",
            "frequency_penalty",
            "presence_penalty",
            "stop",
            "seed",
            "logit_bias",
            "logprobs",
            "messages",
            "max_completion_tokens",
            "top_logprobs",
            "response_format",
            "tools",
            "tool_choice",
            "parallel_tool_calls",
            "service_tier",
            "modalities",
        ];
        assert(names(fields@) =~= request_fields(chat));
        unknown_field(entries, fields.as_slice())
    } else {
        let fields = [
            "model",
            "stream",
            "stream_options",
            "n",
            "max_tokens",
            "temperature",
            "top_p",
            "frequency_penalty",
            "presence_penalty",
            "stop",
            "seed",
            "logit_bias",
            "logprobs",
            "prompt",
            "echo",
            "best_of",
        ];
        assert(names(fields@) =~= request_fields(chat));
        unknown_field(entries, fields.as_slice())
    }
}

/// Whether more than one candidate is asked for per choice.
pub open spec fn asks_best_of(value: JsonModel) -> bool {
    match value.get("best_of"@) {
        Some(JsonModel::Null) => false,
        Some(best_of) => best_of != JsonModel::Unsigned(1),
        None => false,
    }
}

/// Whether anything but text goes in or comes out.
pub open spec fn asks_media(value: JsonModel) -> bool {
    ||| match value.get("messages"@) {
        Some(messages) => media_inside(messages),
        None => false,
    }
    ||| match value.get("modalities"@) {
        Some(JsonModel::Null) => false,
        Some(modalities) => modalities != JsonModel::Array(seq![JsonModel::Text("text"@)]),
        None => false,
    }
}

/// Whether `modalities` asks for anything but text.
fn other_modalities(modalities: &Json) -> (other: bool)
    ensures
        other == !(modalities@ is Null || modalities@ == JsonModel::Array(
            seq![JsonModel::Text("text"@)],
        )),
{
    if modalities.is_null() {
        return false;
    }
    match modalities.as_array() {
        Some(items) => {
            let ghost model = items_model(items@);
            if items.len() != 1 {
                assert(model.len() != 1);
                return true;
            }
            assert(model[0] == items@[0]@);
            match items[0].as_str() {
                Some(text) => {
                    let only_text = text.eq("text");
                    assert(only_text ==> model =~= seq![JsonModel::Text("text"@)]);
                    !only_text
                },
                None => true,
            }
        },
        None => true,
    }
}

/// What is wrong with the stream options, if anything.
pub open spec fn stream_options_error(value: JsonModel, chat: bool) -> Option<ConvertErrorModel> {
    match value.get("stream_options"@) {
        Some(JsonModel::Object(options)) => match first_unknown(
            options,
            stream_option_fields(chat),
        ) {
            Some(key) => Some(
                ConvertErrorModel::Unsupported("stream_options."@ + key + " is not supported"@),
            ),
            None => None,
        },
        _ => None,
    }
}

/// Refuses stream options that nothing here understands.
fn check_stream_options(value: &Json, chat: bool) -> (checked: Result<(), ConvertError>)
    ensures
        check_model(checked) == stream_options_error(value@, chat),
{
    if let Some(options) = value.get("stream_options") {
        if let Some(options) = options.as_object() {
            let fields = ["include_usage", "continuous_usage_stats"];
            let chat_fields = ["include_usage"];
            assert(names(fields@) =~= stream_option_fields(false));
            assert(names(chat_fields@) =~= stream_option_fields(true));
            let unknown = if chat {
                unknown_field(options, chat_fields.as_slice())
            } else {
                unknown_field(options, fields.as_slice())
            };
            if let Some(key) = unknown {
                return Err(
                    ConvertError::Unsupported(
                        concat3("stream_options.", key.as_str(), " is not supported"),
                    ),
                );
            }
        }
    }
    Ok(())
}

/// What is wrong with a document as an OpenAI request, if anything.
pub open spec fn document_error(value: JsonModel, chat: bool) -> Option<ConvertErrorModel> {
    match value {
        JsonModel::Object(entries) => match first_unknown(entries, request_fields(chat)) {
            Some(key) => Some(
                ConvertErrorModel::Unsupported(key + " is not supported by the Rust frontend"@),
            ),
            None => if !chat && asks_best_of(value) {
                Some(
                    ConvertErrorModel::Unsupported(
                        "best_of values other than 1 are not supported"@,
                    ),
                )
            } else if chat && asks_media(value) {
                Some(
                    ConvertErrorModel::Unsupported(
                        "multimodal chat is not supported by the Rust frontend"@,
                    ),
                )
            } else {
                match stream_options_error(value, chat) {
                    Some(error) => Some(error),
                    None => if chat {
                        chat_features_error(value)
                    } else {
                        None
                    },
                }
            },
        },
        _ => Some(ConvertErrorModel::InvalidArgument("expected a JSON object"@)),
    }
}

/// Accepts a document as an OpenAI request, unchanged, or says why not.
///
/// A lenient reader would drop what it does not know. Here a feature that
/// nothing implements is refused before that can happen.
pub fn validate_document(value: Json, chat: bool) -> (validated: Result<Json, ConvertError>)
    ensures
        match validated {
            Ok(document) => document == value && document_error(value@, chat) is None,
            Err(error) => document_error(value@, chat) == Some(error@),
        },
{
    let entries = match value.as_object() {
        Some(entries) => entries,
        None => {
            return Err(ConvertError::invalid_argument("expected a JSON object"));
        },
    };
    if let Some(key) = unknown_request_field(entries, chat) {
        return Err(
            ConvertError::Unsupported(
                concat2(key.as_str(), " is not supported by the Rust frontend"),
            ),
        );
    }
    if !chat {
        if let Some(best_of) = value.get("best_of") {
            if !best_of.is_null() && best_of.as_u64() != Some(1) {
                return Err(
                    ConvertError::Unsupported(
                        "best_of values other than 1 are not supported".to_owned(),
                    ),
                );
            }
        }
    } else {
        let media = match value.get("messages") {
            Some(messages) => contains_media(messages),
            None => false,
        };
        let modalities = match value.get("modalities") {
            Some(modalities) => other_modalities(modalities),
            None => false,
        };
        if media || modalities {
            return Err(
                ConvertError::Unsupported(
                    "multimodal chat is not supported by the Rust frontend".to_owned(),
                ),
            );
        }
    }
    if let Err(error) = check_stream_options(&value, chat) {
        return Err(error);
    }
    if chat {
        if let Err(error) = validate_chat_features(&value) {
            return Err(error);
        }
    }
    Ok(value)
}

/// What an OpenAI request comes to, given what its body reads as.
pub open spec fn request_model(
    trace_headers: bool,
    parsed: Result<JsonModel, Seq<char>>,
    chat: bool,
) -> Result<JsonModel, ConvertErrorModel> {
    if trace_headers {
        Err(
            ConvertErrorModel::Unsupported(
                "trace_headers is not supported by the Rust frontend"@,
            ),
        )
    } else {
        match parsed {
            Err(error) => Err(ConvertErrorModel::InvalidArgument(error)),
            Ok(value) => match document_error(value, chat) {
                Some(error) => Err(error),
                None => Ok(value),
            },
        }
    }
}

/// What a validated request means.
pub open spec fn validated_model(validated: Result<Json, ConvertError>) -> Result<
    JsonModel,
    ConvertErrorModel,
> {
    match validated {
        Ok(document) => Ok(document@),
        Err(error) => Err(error@),
    }
}

/// Reads and validates an OpenAI request. Tracing headers are refused before the
/// body is read.
pub fn validate_request(request: proto::OpenAiRequest, chat: bool) -> (validated: Result<
    Json,
    ConvertError,
>)
    ensures
        validated_model(validated) == request_model(
            request.trace_headers@.len() > 0,
            json_document(request.json_body@),
            chat,
        ),
{
    if !request.trace_headers.is_empty() {
        return Err(
            ConvertError::Unsupported(
                "trace_headers is not supported by the Rust frontend".to_owned(),
            ),
        );
    }
    match parse_bytes(request.json_body.as_slice()) {
        Ok(value) => validate_document(value, chat),
        Err(error) => Err(ConvertError::InvalidArgument(error)),
    }
}

/// Whether a prompt is text, or a list with some text in it.
pub open spec fn text_prompt(prompt: JsonModel) -> bool {
    match prompt {
        JsonModel::Text(_) => true,
        JsonModel::Array(items) => exists|i: int| 0 <= i < items.len() && #[trigger] items[i] is Text,
        _ => false,
    }
}

/// Whether a completion request cannot be served from tokens alone.
pub open spec fn needs_tokenizer(value: JsonModel) -> bool {
    ||| value.get("echo"@) == Some(JsonModel::Bool(true))
    ||| match value.get("prompt"@) {
        Some(prompt) => text_prompt(prompt),
        None => false,
    }
}

/// Whether one of the items is a text.
fn any_text(items: &Vec<Json>) -> (found: bool)
    ensures
        found == exists|i: int|
            0 <= i < items_model(items@).len() && #[trigger] items_model(items@)[i] is Text,
{
    for i in 0..items.len()
        invariant
            forall|j: int| 0 <= j < i ==> !(#[trigger] items_model(items@)[j] is Text),
    {
        assert(items_model(items@)[i as int] == items@[i as int]@);
        if items[i].is_string() {
            return true;
        }
    }
    false
}

/// Whether a completion request cannot be served from tokens alone: it wants its
/// prompt back, or its prompt is text.
pub fn completion_needs_tokenizer(value: &Json) -> (needed: bool)
    ensures
        needed == needs_tokenizer(value@),
{
    if let Some(echo) = value.get("echo") {
        if let Some(true) = echo.as_bool() {
            return true;
        }
    }
    match value.get("prompt") {
        Some(prompt) => {
            if prompt.is_string() {
                return true;
            }
            match prompt.as_array() {
                Some(items) => any_text(items),
                None => false,
            }
        },
        None => false,
    }
}

/// The gRPC code of an HTTP status.
pub open spec fn http_code(code: u16) -> GrpcCode {
    if code == 400 || code == 422 {
        GrpcCode::InvalidArgument
    } else if code == 401 {
        GrpcCode::Unauthenticated
    } else if code == 403 {
        GrpcCode::PermissionDenied
    } else if code == 404 {
        GrpcCode::NotFound
    } else if code == 409 || code == 412 {
        GrpcCode::FailedPrecondition
    } else if code == 429 {
        GrpcCode::ResourceExhausted
    } else if code == 499 {
        GrpcCode::Cancelled
    } else if code == 501 {
        GrpcCode::Unimplemented
    } else if code == 503 {
        GrpcCode::Unavailable
    } else if code == 408 || code == 504 {
        GrpcCode::DeadlineExceeded
    } else {
        GrpcCode::Internal
    }
}

/// Answers with the gRPC code of an HTTP status.
pub fn status(code: u16, message: String) -> (status: GrpcStatus)
    ensures
        status@ == (StatusModel { code: http_code(code), message: message@ }),
{
    let code = match code {
        400 | 422 => GrpcCode::InvalidArgument,
        401 => GrpcCode::Unauthenticated,
        403 => GrpcCode::PermissionDenied,
        404 => GrpcCode::NotFound,
        409 | 412 => GrpcCode::FailedPrecondition,
        429 => GrpcCode::ResourceExhausted,
        499 => GrpcCode::Cancelled,
        501 => GrpcCode::Unimplemented,
        503 => GrpcCode::Unavailable,
        408 | 504 => GrpcCode::DeadlineExceeded,
        _ => GrpcCode::Internal,
    };
    GrpcStatus { code, message }
}

/// The code of a failure: by its category where the runtime failed, else by the
/// HTTP status.
pub open spec fn failure_code(kind: Option<FrontendErrorKind>, code: u16) -> GrpcCode {
    match kind {
        Some(kind) => kind_code(kind),
        None => http_code(code),
    }
}

/// Answers with the status of a failure.
fn failure_status(kind: Option<FrontendErrorKind>, code: u16, message: String) -> (status:
    GrpcStatus)
    ensures
        status@ == (StatusModel { code: failure_code(kind, code), message: message@ }),
{
    match kind {
        Some(kind) => status_from_kind(kind, message),
        None => self::status(code, message),
    }
}

/// What the launch configuration makes possible.
#[derive(Debug, Clone, Copy)]
pub struct OpenAiPolicy {
    /// A chat template was loaded.
    pub chat_formatter: bool,
    /// There is no tokenizer.
    pub skip_tokenizer_init: bool,
    /// A parser for tool calls is configured.
    pub tool_call_parser: bool,
}

/// Whether a chat request offers tools that the model may call.
pub open spec fn offers_tools(value: JsonModel) -> bool {
    &&& match value.get("tools"@) {
        Some(JsonModel::Array(tools)) => tools.len() > 0,
        _ => false,
    }
    &&& value.get("tool_choice"@) != Some(JsonModel::Text("none"@))
}

/// Why a valid request cannot be served here, if it cannot.
pub open spec fn admission_error(
    value: JsonModel,
    chat: bool,
    policy: OpenAiPolicy,
) -> Option<Seq<char>> {
    if chat && !policy.chat_formatter {
        Some("this model has no usable chat template"@)
    } else if policy.skip_tokenizer_init && (chat || needs_tokenizer(value)) {
        Some("the requested operation requires a tokenizer"@)
    } else if chat && offers_tools(value) && !policy.tool_call_parser {
        Some("tool calls require --tool-call-parser"@)
    } else {
        None
    }
}

/// Whether a chat request offers tools that the model may call.
fn has_tools(value: &Json) -> (offered: bool)
    ensures
        offered == offers_tools(value@),
{
    let listed = match value.get("tools") {
        Some(tools) => match tools.as_array() {
            Some(tools) => {
                assert(items_model(tools@).len() == tools@.len());
                !tools.is_empty()
            },
            None => false,
        },
        None => false,
    };
    let declined = match value.get("tool_choice") {
        Some(choice) => match choice.as_str() {
            Some(choice) => choice.eq("none"),
            None => false,
        },
        None => false,
    };
    listed && !declined
}

/// Decides whether a valid request can be served here.
pub fn check_admission(value: &Json, chat: bool, policy: OpenAiPolicy) -> (admitted: Result<(), GrpcStatus>)
    ensures
        match admitted {
            Ok(_) => admission_error(value@, chat, policy) is None,
            Err(status) => status.code == GrpcCode::Unimplemented && admission_error(
                value@,
                chat,
                policy,
            ) == Some(status.message@),
        },
{
    if chat && !policy.chat_formatter {
        return Err(
            GrpcStatus::new(GrpcCode::Unimplemented, "this model has no usable chat template"),
        );
    }
    if policy.skip_tokenizer_init && (chat || completion_needs_tokenizer(value)) {
        return Err(
            GrpcStatus::new(
                GrpcCode::Unimplemented,
                "the requested operation requires a tokenizer",
            ),
        );
    }
    if chat && has_tools(value) && !policy.tool_call_parser {
        return Err(
            GrpcStatus::new(GrpcCode::Unimplemented, "tool calls require --tool-call-parser"),
        );
    }
    Ok(())
}

/// What becomes of an OpenAI call before anything runs: the document to run it
/// on, or the status that refuses it.
pub open spec fn openai_rpc_model(
    validated: Result<JsonModel, ConvertErrorModel>,
    chat: bool,
    policy: OpenAiPolicy,
) -> Result<JsonModel, StatusModel> {
    match validated {
        Err(error) => Err(error.status()),
        Ok(value) => match admission_error(value, chat, policy) {
            Some(message) => Err(StatusModel { code: GrpcCode::Unimplemented, message }),
            None => Ok(value),
        },
    }
}

/// What an admitted call means.
pub open spec fn rpc_result(result: Result<Json, GrpcStatus>) -> Result<JsonModel, StatusModel> {
    match result {
        Ok(value) => Ok(value@),
        Err(status) => Err(status@),
    }
}

/// Decides about a request that was validated, or refused.
pub fn admit_validated(
    validated: Result<Json, ConvertError>,
    chat: bool,
    policy: OpenAiPolicy,
) -> (result: Result<Json, GrpcStatus>)
    ensures
        rpc_result(result) == openai_rpc_model(validated_model(validated), chat, policy),
{
    let value = match validated {
        Ok(value) => value,
        Err(error) => {
            return Err(error.into_status());
        },
    };
    match check_admission(&value, chat, policy) {
        Ok(_) => Ok(value),
        Err(status) => Err(status),
    }
}

/// Opens an OpenAI call: reads, validates and admits the request.
pub fn openai_rpc(request: proto::OpenAiRequest, chat: bool, policy: OpenAiPolicy) -> (result:
    Result<Json, GrpcStatus>)
    ensures
        rpc_result(result) == openai_rpc_model(
            request_model(
                request.trace_headers@.len() > 0,
                json_document(request.json_body@),
                chat,
            ),
            chat,
            policy,
        ),
{
    admit_validated(validate_request(request, chat), chat, policy)
}

/// Whether this is what becomes of a request that is read as its type.
pub open spec fn typed_as<T>(parsed: Result<T, String>, typed: Result<T, GrpcStatus>) -> bool {
    match parsed {
        Ok(request) => typed == Ok::<T, GrpcStatus>(request),
        Err(error) => typed matches Err(status) && status.code == GrpcCode::InvalidArgument
            && status.message@ == error@,
    }
}

/// Passes on a request that could be read as its type, or refuses it.
pub fn typed_request<T>(parsed: Result<T, String>) -> (typed: Result<T, GrpcStatus>)
    ensures
        match (parsed, typed) {
            (Ok(request), Ok(typed)) => typed == request,
            (Err(error), Err(status)) => status@ == (StatusModel {
                code: GrpcCode::InvalidArgument,
                message: error@,
            }),
            _ => false,
        },
        typed_as(parsed, typed),
{
    match parsed {
        Ok(request) => Ok(request),
        Err(message) => Err(GrpcStatus { code: GrpcCode::InvalidArgument, message }),
    }
}

/// `dynamo_protocols::types::CreateCompletionRequest`, opaque.
#[verifier::external_type_specification]
#[verifier::external_body]
pub struct ExCreateCompletionRequest(dynamo_protocols::types::CreateCompletionRequest);

/// The prompt of a completion request: texts or tokens, one prompt or several.
pub ghost enum PromptModel {
    Text(Seq<char>),
    Texts(Seq<Seq<char>>),
    Tokens(Seq<u32>),
    TokenLists(Seq<Seq<u32>>),
}

/// Where a completion stops: at texts or at tokens.
pub ghost enum StopModel {
    Text(Seq<char>),
    Texts(Seq<Seq<char>>),
    Tokens(Seq<u32>),
}

/// What is asked of a stream of completions.
pub ghost struct StreamOptionsModel {
    pub include_usage: bool,
    pub continuous_usage_stats: bool,
}

/// What a completion request holds, field by field. A number with a fraction is
/// held by the bits of its single-precision form. The biases have no order.
pub ghost struct CompletionModel {
    pub model: Seq<char>,
    pub prompt: PromptModel,
    pub prompt_embeds: Option<Seq<char>>,
    pub suffix: Option<Seq<char>>,
    pub max_tokens: Option<u32>,
    pub temperature: Option<u32>,
    pub top_p: Option<u32>,
    pub n: Option<u8>,
    pub stream: Option<bool>,
    pub stream_options: Option<StreamOptionsModel>,
    pub logprobs: Option<u8>,
    pub echo: Option<bool>,
    pub stop: Option<StopModel>,
    pub presence_penalty: Option<u32>,
    pub frequency_penalty: Option<u32>,
    pub best_of: Option<u8>,
    pub logit_bias: Option<Map<Seq<char>, JsonModel>>,
    pub user: Option<Seq<char>>,
    pub seed: Option<i64>,
}

/// What a `dynamo_protocols::types::CreateCompletionRequest` holds.
pub uninterp spec fn completion_model(
    request: dynamo_protocols::types::CreateCompletionRequest,
) -> CompletionModel;

/// What `serde_json::from_value` makes of a document as a completion request:
/// what the request holds, or the text of the error.
pub uninterp spec fn completion_request(value: JsonModel) -> Result<CompletionModel, Seq<char>>;

/// `serde_json::from_value` into `dynamo_protocols::types::CreateCompletionRequest`.
/// What the request holds, or the text of the error, depends on the document
/// alone. Which documents are read, and as what, is left unsaid, and so is the
/// order in which the request's map of biases is walked.
#[verifier::external_body]
fn completion_from_value(value: serde_json::Value) -> (parsed: Result<
    dynamo_protocols::types::CreateCompletionRequest,
    String,
>)
    ensures
        match parsed {
            Ok(request) => completion_request(json_model(value)) == Ok::<
                CompletionModel,
                Seq<char>,
            >(completion_model(request)),
            Err(error) => completion_request(json_model(value)) == Err::<
                CompletionModel,
                Seq<char>,
            >(error@),
        },
{
    serde_json::from_value(value).map_err(|error: serde_json::Error| error.to_string())
}

/// Opens a completion call: reads, validates and admits the request, and reads
/// it as its type.
pub fn complete(request: proto::OpenAiRequest, policy: OpenAiPolicy) -> (opened: Result<
    dynamo_protocols::types::CreateCompletionRequest,
    GrpcStatus,
>)
    ensures
        match openai_rpc_model(
            request_model(
                request.trace_headers@.len() > 0,
                json_document(request.json_body@),
                false,
            ),
            false,
            policy,
        ) {
            Err(status) => opened matches Err(refused) && refused@ == status,
            Ok(value) => match completion_request(value) {
                Ok(completion) => opened matches Ok(typed) && completion_model(typed) == completion,
                Err(error) => opened matches Err(refused) && refused@ == (StatusModel {
                    code: GrpcCode::InvalidArgument,
                    message: error,
                }),
            },
        },
{
    let body = request.json_body.clone();
    assert(body@ =~= request.json_body@);
    if let Err(status) = openai_rpc(request, false, policy) {
        return Err(status);
    }
    match value_from_slice(body.as_slice()) {
        Ok(value) => typed_request(completion_from_value(value)),
        Err(error) => typed_request(Err(error)),
    }
}

/// How the response of an OpenAI call goes on.
#[derive(Debug)]
pub enum OpenAiBody<S> {
    /// One finished chunk.
    Unary(proto::OpenAiStreamChunk),
    /// Chunks from a source, framed by [`OpenAiStream`].
    Stream(S),
}

/// Whether this is how the result of an OpenAI operation is framed.
pub open spec fn framed_as<S>(
    response: OpenAiResponse<S>,
    body: Result<OpenAiBody<S>, GrpcStatus>,
) -> bool {
    match response {
        OpenAiResponse::Json(bytes) => body matches Ok(OpenAiBody::Unary(chunk)) && chunk.json_chunk
            == bytes && chunk.finished,
        OpenAiResponse::Stream(source) => body matches Ok(OpenAiBody::Stream(framed)) && framed
            == source,
        OpenAiResponse::Error(error) => body matches Err(status) && status.message@
            == error.message@ && status.code == failure_code(error.kind, error.code),
    }
}

/// Frames the result of an OpenAI operation.
pub fn openai_body<S>(response: OpenAiResponse<S>) -> (body: Result<OpenAiBody<S>, GrpcStatus>)
    ensures
        match response {
            OpenAiResponse::Json(bytes) => body == Ok::<OpenAiBody<S>, GrpcStatus>(
                OpenAiBody::Unary(proto::OpenAiStreamChunk { json_chunk: bytes, finished: true }),
            ),
            OpenAiResponse::Stream(source) => body == Ok::<OpenAiBody<S>, GrpcStatus>(
                OpenAiBody::Stream(source),
            ),
            OpenAiResponse::Error(error) => body matches Err(status) && status@ == (StatusModel {
                code: failure_code(error.kind, error.code),
                message: error.message@,
            }),
        },
        framed_as(response, body),
{
    match response {
        OpenAiResponse::Json(bytes) => Ok(
            OpenAiBody::Unary(proto::OpenAiStreamChunk { json_chunk: bytes, finished: true }),
        ),
        OpenAiResponse::Stream(source) => Ok(OpenAiBody::Stream(source)),
        OpenAiResponse::Error(error) => Err(
            failure_status(error.kind, error.code, error.message),
        ),
    }
}

/// The answer to an operation that did not end in time.
pub fn operation_timed_out() -> (status: GrpcStatus)
    ensures
        status@ == (StatusModel {
            code: GrpcCode::DeadlineExceeded,
            message: "OpenAI operation timed out"@,
        }),
{
    GrpcStatus::new(GrpcCode::DeadlineExceeded, "OpenAI operation timed out")
}

/// What one frame of an OpenAI stream becomes.
#[verifier::ext_equal]
pub enum ChunkModel {
    /// A chunk: its bytes, and whether it says that nothing follows.
    Chunk { bytes: Seq<u8>, finished: bool },
    /// The failure at the end.
    Failed(StatusModel),
}

impl ChunkModel {
    /// A piece of output; more follow.
    pub open spec fn data(bytes: Seq<u8>) -> Self {
        ChunkModel::Chunk { bytes, finished: false }
    }

    /// The empty chunk at the end.
    pub open spec fn end() -> Self {
        ChunkModel::Chunk { bytes: seq![], finished: true }
    }
}

/// What an item of an OpenAI stream means.
pub open spec fn chunk_model(item: Result<proto::OpenAiStreamChunk, GrpcStatus>) -> ChunkModel {
    match item {
        Ok(chunk) => ChunkModel::Chunk { bytes: chunk.json_chunk@, finished: chunk.finished },
        Err(status) => ChunkModel::Failed(status@),
    }
}

/// The HTTP status in an error frame, or 500 where there is none.
pub open spec fn frame_error_code(error: JsonModel) -> u16 {
    match error.get("code"@) {
        Some(JsonModel::Unsigned(code)) => if code <= u16::MAX {
            code as u16
        } else {
            500
        },
        _ => 500,
    }
}

/// The message in an error frame.
pub open spec fn frame_error_message(error: JsonModel) -> Seq<char> {
    match error.get("message"@) {
        Some(JsonModel::Text(message)) => message,
        _ => "OpenAI generation failed"@,
    }
}

/// What a frame becomes, given what it reads as.
pub open spec fn parsed_frame_model(
    data: Seq<char>,
    kind: Option<FrontendErrorKind>,
    parsed: Result<JsonModel, Seq<char>>,
) -> ChunkModel {
    match parsed {
        Err(error) => ChunkModel::Failed(
            StatusModel {
                code: GrpcCode::Internal,
                message: "invalid OpenAI response: "@ + error,
            },
        ),
        Ok(value) => match value.get("error"@) {
            Some(error) => ChunkModel::Failed(
                StatusModel {
                    code: failure_code(kind, frame_error_code(error)),
                    message: frame_error_message(error),
                },
            ),
            None => ChunkModel::data(encode_utf8(data)),
        },
    }
}

/// Whether the item is the last one.
pub open spec fn is_last(chunk: ChunkModel) -> bool {
    match chunk {
        ChunkModel::Chunk { finished, .. } => finished,
        ChunkModel::Failed(_) => true,
    }
}

/// Reads the HTTP status in an error frame.
fn error_code(error: &Json) -> (code: u16)
    ensures
        code == frame_error_code(error@),
{
    match error.get("code") {
        Some(code) => match code.as_u64() {
            Some(code) => if code <= u16::MAX as u64 {
                code as u16
            } else {
                500
            },
            None => 500,
        },
        None => 500,
    }
}

/// Reads the message in an error frame.
fn error_message(error: &Json) -> (message: String)
    ensures
        message@ == frame_error_message(error@),
{
    match error.get("message") {
        Some(message) => match message.as_str() {
            Some(message) => message.to_owned(),
            None => "OpenAI generation failed".to_owned(),
        },
        None => "OpenAI generation failed".to_owned(),
    }
}

/// An item of an OpenAI stream, and whether it is the last one.
#[derive(Debug)]
pub struct OpenAiStep {
    pub item: Result<proto::OpenAiStreamChunk, GrpcStatus>,
    pub last: bool,
}

/// Frames a piece of output that was read, or could not be read.
pub fn parsed_frame(item: OpenAiStreamItem, parsed: Result<Json, String>) -> (step: OpenAiStep)
    ensures
        chunk_model(step.item) == parsed_frame_model(
            item.data@,
            item.error_kind,
            parsed_model(parsed),
        ),
        step.last == is_last(chunk_model(step.item)),
        step.item is Ok <==> (parsed matches Ok(value) && value@.get("error"@) is None),
        step.item matches Ok(chunk) ==> !chunk.finished && !step.last && chunk.json_chunk@
            == encode_utf8(item.data@),
        step.item is Err ==> step.last,
{
    let value = match parsed {
        Ok(value) => value,
        Err(error) => {
            let message = concat2("invalid OpenAI response: ", error.as_str());
            return OpenAiStep {
                item: Err(GrpcStatus { code: GrpcCode::Internal, message }),
                last: true,
            };
        },
    };
    if let Some(error) = value.get("error") {
        let status = failure_status(item.error_kind, error_code(error), error_message(error));
        return OpenAiStep { item: Err(status), last: true };
    }
    let json_chunk = item.data.as_str().as_bytes_vec();
    OpenAiStep { item: Ok(proto::OpenAiStreamChunk { json_chunk, finished: false }), last: false }
}

/// What an OpenAI stream waits for, and gets.
#[derive(Debug)]
pub enum OpenAiInput {
    Item(OpenAiStreamItem),
    /// The source ended.
    Closed,
    /// No frame came in time.
    TimedOut,
}

/// What an input of an OpenAI stream becomes.
pub open spec fn step_model(input: OpenAiInput) -> ChunkModel {
    match input {
        OpenAiInput::Item(item) => if item.data@ == "[DONE]"@ {
            ChunkModel::end()
        } else {
            parsed_frame_model(item.data@, item.error_kind, json_text_document(item.data@))
        },
        OpenAiInput::Closed => ChunkModel::Failed(
            StatusModel {
                code: GrpcCode::Internal,
                message: "OpenAI response truncated before completion"@,
            },
        ),
        OpenAiInput::TimedOut => ChunkModel::Failed(
            StatusModel {
                code: GrpcCode::DeadlineExceeded,
                message: "OpenAI response chunk timed out"@,
            },
        ),
    }
}

/// An OpenAI stream: whether its last item has been passed on.
#[derive(Debug)]
pub struct OpenAiStream {
    ended: bool,
}

impl OpenAiStream {
    /// Whether the last item has been passed on.
    pub closed spec fn has_ended(self) -> bool {
        self.ended
    }

    /// A stream that has not started.
    pub fn new() -> (stream: Self)
        ensures
            !stream.has_ended(),
    {
        OpenAiStream { ended: false }
    }

    /// Whether the stream waits for more. Once it does not, its source can be
    /// released.
    pub fn wants_input(&self) -> (wanted: bool)
        ensures
            wanted == !self.has_ended(),
    {
        !self.ended
    }

    /// Takes one input in and passes on the item that it becomes. The marker of
    /// the end becomes an empty finished chunk; anything after the end becomes
    /// nothing.
    pub fn next(&mut self, input: OpenAiInput) -> (item: Option<
        Result<proto::OpenAiStreamChunk, GrpcStatus>,
    >)
        ensures
            old(self).has_ended() ==> item is None && final(self).has_ended(),
            !old(self).has_ended() ==> item is Some && chunk_model(item->0) == step_model(input)
                && final(self).has_ended() == is_last(step_model(input)),
            item matches Some(Ok(chunk)) ==> {
                &&& chunk.finished == final(self).has_ended()
                &&& chunk.finished <==> (input matches OpenAiInput::Item(frame) && frame.data@
                    == "[DONE]"@)
                &&& chunk.finished ==> chunk.json_chunk@.len() == 0
                &&& !chunk.finished ==> (input matches OpenAiInput::Item(frame)
                    && chunk.json_chunk@ == encode_utf8(frame.data@))
            },
            item matches Some(Err(_)) ==> final(self).has_ended(),
    {
        if self.ended {
            return None;
        }
        let step = match input {
            OpenAiInput::Item(item) => {
                if item.data.as_str().eq("[DONE]") {
                    let json_chunk: Vec<u8> = Vec::new();
                    OpenAiStep {
                        item: Ok(proto::OpenAiStreamChunk { json_chunk, finished: true }),
                        last: true,
                    }
                } else {
                    let parsed = parse_text(item.data.as_str());
                    parsed_frame(item, parsed)
                }
            },
            OpenAiInput::Closed => OpenAiStep {
                item: Err(
                    GrpcStatus::new(
                        GrpcCode::Internal,
                        "OpenAI response truncated before completion",
                    ),
                ),
                last: true,
            },
            OpenAiInput::TimedOut => OpenAiStep {
                item: Err(
                    GrpcStatus::new(GrpcCode::DeadlineExceeded, "OpenAI response chunk timed out"),
                ),
                last: true,
            },
        };
        self.ended = step.last;
        Some(step.item)
    }
}

/// All that a stream passes on for a sequence of inputs.
pub open spec fn chunks(inputs: Seq<OpenAiInput>) -> Seq<ChunkModel>
    decreases inputs.len(),
{
    if inputs.len() == 0 {
        seq![]
    } else {
        let before = chunks(inputs.drop_last());
        if before.len() > 0 && is_last(before.last()) {
            before
        } else {
            before.push(step_model(inputs.last()))
        }
    }
}

/// Only the last item of a stream is a finished chunk or a status, and the
/// items up to it are the inputs' own, one each, in order.
pub proof fn law_openai_stream_framing(inputs: Seq<OpenAiInput>)
    ensures
        chunks(inputs).len() <= inputs.len(),
        forall|i: int|
            0 <= i < chunks(inputs).len() - 1 ==> !is_last(#[trigger] chunks(inputs)[i]),
        forall|i: int|
            0 <= i < chunks(inputs).len() ==> (#[trigger] chunks(inputs)[i]) == step_model(
                inputs[i],
            ),
        chunks(inputs).len() < inputs.len() ==> is_last(chunks(inputs).last()),
    decreases inputs.len(),
{
    if inputs.len() > 0 {
        law_openai_stream_framing(inputs.drop_last());
    }
}

/// A stream that ends or stalls without its marker is never taken for complete.
pub proof fn law_truncation_is_a_failure(inputs: Seq<OpenAiInput>)
    requires
        inputs.len() > 0,
        inputs.last() is Closed || inputs.last() is TimedOut,
        forall|i: int|
            0 <= i < inputs.len() - 1 ==> !is_last(step_model(#[trigger] inputs[i])),
    ensures
        chunks(inputs).last() is Failed,
{
    law_openai_stream_framing(inputs);
    law_openai_stream_framing(inputs.drop_last());
    let before = chunks(inputs.drop_last());
    if before.len() > 0 {
        let last = before.len() - 1;
        assert(before[last] == step_model(inputs.drop_last()[last]));
        assert(inputs.drop_last()[last] == inputs[last]);
    }
}

/// No unknown key remains where none was found.
proof fn lemma_no_unknown_field(entries: Seq<(Seq<char>, JsonModel)>, allowed: Seq<Seq<char>>)
    requires
        first_unknown(entries, allowed) is None,
    ensures
        forall|i: int|
            0 <= i < entries.len() ==> (#[trigger] entries[i]).1 is Null || allowed.contains(
                entries[i].0,
            ),
    decreases entries.len(),
{
    if entries.len() > 0 {
        lemma_no_unknown_field(entries.drop_first(), allowed);
        assert forall|i: int| 0 <= i < entries.len() implies (#[trigger] entries[i]).1 is Null
            || allowed.contains(entries[i].0) by {
            if i > 0 {
                assert(entries.drop_first()[i - 1] == entries[i]);
            }
        }
    }
}

/// No bad message remains where none was found.
proof fn lemma_no_bad_message(messages: Seq<JsonModel>)
    requires
        messages_error(messages) is None,
    ensures
        forall|i: int|
            0 <= i < messages.len() ==> unknown_field_error(
                #[trigger] messages[i],
                message_fields(),
                "messages[]"@,
            ) is None,
    decreases messages.len(),
{
    if messages.len() > 0 {
        lemma_no_bad_message(messages.drop_first());
        assert forall|i: int| 0 <= i < messages.len() implies unknown_field_error(
            #[trigger] messages[i],
            message_fields(),
            "messages[]"@,
        ) is None by {
            if i > 0 {
                assert(messages.drop_first()[i - 1] == messages[i]);
            }
        }
    }
}

/// No bad tool remains where none was found.
proof fn lemma_no_bad_tool(tools: Seq<JsonModel>)
    requires
        tools_error(tools) is None,
    ensures
        forall|i: int| 0 <= i < tools.len() ==> tool_error(#[trigger] tools[i]) is None,
    decreases tools.len(),
{
    if tools.len() > 0 {
        lemma_no_bad_tool(tools.drop_first());
        assert forall|i: int| 0 <= i < tools.len() implies tool_error(
            #[trigger] tools[i],
        ) is None by {
            if i > 0 {
                assert(tools.drop_first()[i - 1] == tools[i]);
            }
        }
    }
}

/// Whether every key of an object is known or has the value `null`.
pub open spec fn only_known(value: JsonModel, allowed: Seq<Seq<char>>) -> bool {
    match value {
        JsonModel::Object(entries) => forall|i: int|
            0 <= i < entries.len() ==> (#[trigger] entries[i]).1 is Null || allowed.contains(
                entries[i].0,
            ),
        _ => true,
    }
}

/// An accepted request is an object that holds no key which nothing here
/// implements: not at the top, and not in its stream options.
pub proof fn law_accepted_requests_hold_only_known_fields(value: JsonModel, chat: bool)
    requires
        document_error(value, chat) is None,
    ensures
        value is Object,
        only_known(value, request_fields(chat)),
        value.get("stream_options"@) matches Some(options) ==> only_known(
            options,
            stream_option_fields(chat),
        ),
{
    lemma_no_unknown_field(value->Object_0, request_fields(chat));
    if let Some(JsonModel::Object(options)) = value.get("stream_options"@) {
        lemma_no_unknown_field(options, stream_option_fields(chat));
    }
}

/// An accepted chat request holds no media, and no key which nothing here
/// implements in its messages, its response format, its tools or their
/// functions; every tool that names its type is a function.
pub proof fn law_accepted_chats_hold_only_known_features(value: JsonModel)
    requires
        document_error(value, true) is None,
    ensures
        !asks_media(value),
        value.get("messages"@) matches Some(JsonModel::Array(messages)) ==> forall|i: int|
            0 <= i < messages.len() ==> only_known(#[trigger] messages[i], message_fields()),
        value.get("response_format"@) matches Some(format) ==> only_known(
            format,
            seq!["type"@, "json_schema"@],
        ),
        value.get("tools"@) matches Some(JsonModel::Array(tools)) ==> forall|i: int|
            0 <= i < tools.len() ==> {
                &&& only_known(#[trigger] tools[i], seq!["type"@, "function"@])
                &&& tools[i].get("type"@) matches Some(JsonModel::Text(kind)) ==> kind
                    == "function"@
                &&& tools[i].get("function"@) matches Some(function) ==> only_known(
                    function,
                    function_fields(),
                )
            },
{
    if let Some(JsonModel::Array(messages)) = value.get("messages"@) {
        lemma_no_bad_message(messages);
        assert forall|i: int| 0 <= i < messages.len() implies only_known(
            #[trigger] messages[i],
            message_fields(),
        ) by {
            if let JsonModel::Object(entries) = messages[i] {
                lemma_no_unknown_field(entries, message_fields());
            }
        }
    }
    if let Some(JsonModel::Object(entries)) = value.get("response_format"@) {
        lemma_no_unknown_field(entries, seq!["type"@, "json_schema"@]);
    }
    if let Some(JsonModel::Array(tools)) = value.get("tools"@) {
        lemma_no_bad_tool(tools);
        assert forall|i: int| 0 <= i < tools.len() implies {
            &&& only_known(#[trigger] tools[i], seq!["type"@, "function"@])
            &&& tools[i].get("type"@) matches Some(JsonModel::Text(kind)) ==> kind == "function"@
            &&& tools[i].get("function"@) matches Some(function) ==> only_known(
                function,
                function_fields(),
            )
        } by {
            if let JsonModel::Object(entries) = tools[i] {
                lemma_no_unknown_field(entries, seq!["type"@, "function"@]);
            }
            if let Some(JsonModel::Object(entries)) = tools[i].get("function"@) {
                lemma_no_unknown_field(entries, function_fields());
            }
        }
    }
}

/// What is refused for want of an implementation is answered with
/// `UNIMPLEMENTED`, and what is wrong with `INVALID_ARGUMENT`; a request that is
/// accepted reaches the operation as it was sent.
pub proof fn law_refusals_have_their_codes(
    trace_headers: bool,
    parsed: Result<JsonModel, Seq<char>>,
    chat: bool,
    policy: OpenAiPolicy,
)
    ensures
        match openai_rpc_model(request_model(trace_headers, parsed, chat), chat, policy) {
            Ok(value) => parsed == Ok::<JsonModel, Seq<char>>(value),
            Err(status) => if !trace_headers && (parsed is Err || !(parsed->Ok_0 is Object)) {
                status.code == GrpcCode::InvalidArgument
            } else {
                status.code == GrpcCode::Unimplemented
            },
        },
{
    if let Ok(value) = parsed {
        if value is Object {
            lemma_object_errors_are_unsupported(value, chat);
        }
    }
}

/// Whatever is wrong with an object is something that nothing here implements.
proof fn lemma_object_errors_are_unsupported(value: JsonModel, chat: bool)
    requires
        value is Object,
    ensures
        document_error(value, chat) matches Some(error) ==> error is Unsupported,
{
    if let Some(JsonModel::Array(messages)) = value.get("messages"@) {
        lemma_message_errors_are_unsupported(messages);
    }
    if let Some(JsonModel::Array(tools)) = value.get("tools"@) {
        lemma_tool_errors_are_unsupported(tools);
    }
}

/// Whatever is wrong with messages is something that nothing here implements.
proof fn lemma_message_errors_are_unsupported(messages: Seq<JsonModel>)
    ensures
        messages_error(messages) matches Some(error) ==> error is Unsupported,
    decreases messages.len(),
{
    if messages.len() > 0 {
        lemma_message_errors_are_unsupported(messages.drop_first());
    }
}

/// Whatever is wrong with tools is something that nothing here implements.
proof fn lemma_tool_errors_are_unsupported(tools: Seq<JsonModel>)
    ensures
        tools_error(tools) matches Some(error) ==> error is Unsupported,
    decreases tools.len(),
{
    if tools.len() > 0 {
        lemma_tool_errors_are_unsupported(tools.drop_first());
    }
}

/// The marker of the end is never sent: no piece of output is the marker, and
/// the marker itself becomes the empty finished chunk.
pub proof fn law_end_marker_is_not_sent(input: OpenAiInput)
    ensures
        step_model(input) matches ChunkModel::Chunk { bytes, finished } ==> (!finished ==> bytes
            != encode_utf8("[DONE]"@)),
        input matches OpenAiInput::Item(item) ==> (item.data@ == "[DONE]"@ ==> step_model(input)
            == ChunkModel::end()),
{
    if let OpenAiInput::Item(item) = input {
        encode_utf8_decode_utf8(item.data@);
        encode_utf8_decode_utf8("[DONE]"@);
    }
}

/// An error payload, read back from a stream, becomes the status of its code
/// and keeps its message.
pub proof fn law_error_payloads_become_statuses(
    data: Seq<char>,
    code: u16,
    message: Seq<char>,
    kind: Option<FrontendErrorKind>,
)
    ensures
        parsed_frame_model(data, kind, Ok(error_payload_model(code, message)))
            == ChunkModel::Failed(StatusModel { code: failure_code(kind, code), message }),
{
    broadcast use lemma_lookup_push;

    reveal_strlit("error");
    reveal_strlit("object");
    reveal_strlit("message");
    reveal_strlit("type");
    reveal_strlit("param");
    reveal_strlit("code");
    let payload = error_payload_model(code, message);
    let outer = payload->Object_0;
    let empty: Seq<(Seq<char>, JsonModel)> = seq![];
    assert(outer =~= empty.push(outer[0]));
    let inner = outer[0].1->Object_0;
    assert(inner =~= empty.push(inner[0]).push(inner[1]).push(inner[2]).push(inner[3]).push(
        inner[4],
    ));
    assert("object"@.len() == 6 && "message"@.len() == 7 && "param"@.len() == 5 && "type"@.len()
        == 4 && "code"@.len() == 4);
    assert("type"@[0] == 't' && "code"@[0] == 'c');
}

/// A failure of the runtime has one code, whether it is reported by a native
/// call or through an OpenAI response.
pub proof fn law_runtime_failures_keep_their_code(error: ErrorModel, code: u16)
    ensures
        failure_code(Some(error.kind()), code) == error_status(error).code,
{
}

/// Output goes through as it is: a frame that is not the marker of the end, that
/// reads as a document and that reports no error becomes a chunk with the frame's
/// own bytes, and more may follow.
pub proof fn law_output_frames_are_passed_on(item: OpenAiStreamItem)
    requires
        item.data@ != "[DONE]"@,
        json_text_document(item.data@) matches Ok(value) && value.get("error"@) is None,
    ensures
        step_model(OpenAiInput::Item(item)) == (ChunkModel::Chunk {
            bytes: encode_utf8(item.data@),
            finished: false,
        }),
        !is_last(step_model(OpenAiInput::Item(item))),
{
}

/// Only the marker of the end finishes a stream well, and it finishes it with an
/// empty chunk; whatever is not a chunk is a failure, and ends the stream too.
pub proof fn law_only_the_marker_finishes(input: OpenAiInput)
    ensures
        (step_model(input) matches ChunkModel::Chunk { finished, .. } && finished) <==> (
        input matches OpenAiInput::Item(item) && item.data@ == "[DONE]"@),
        step_model(input) matches ChunkModel::Chunk { bytes, finished } ==> (finished
            ==> bytes.len() == 0),
        step_model(input) is Failed ==> is_last(step_model(input)),
        is_last(step_model(input)) <==> step_model(input) is Failed || (
        input matches OpenAiInput::Item(item) && item.data@ == "[DONE]"@),
{
}

/// A stream of output that ends with its marker reaches the client whole: one
/// unfinished chunk with the bytes of each frame, in order, and then one empty
/// finished chunk.
pub proof fn law_whole_stream_reaches_the_client(inputs: Seq<OpenAiInput>)
    requires
        inputs.len() > 0,
        inputs.last() matches OpenAiInput::Item(item) && item.data@ == "[DONE]"@,
        forall|i: int|
            0 <= i < inputs.len() - 1 ==> ((#[trigger] inputs[i]) matches OpenAiInput::Item(item)
                && item.data@ != "[DONE]"@ && (json_text_document(item.data@) matches Ok(value)
                && value.get("error"@) is None)),
    ensures
        chunks(inputs).len() == inputs.len(),
        forall|i: int|
            0 <= i < inputs.len() - 1 ==> (#[trigger] chunks(inputs)[i]) == (ChunkModel::Chunk {
                bytes: encode_utf8(inputs[i]->Item_0.data@),
                finished: false,
            }),
        chunks(inputs).last() == (ChunkModel::Chunk { bytes: seq![], finished: true }),
{
    law_openai_stream_framing(inputs);
    let last = chunks(inputs).len() - 1;
    if chunks(inputs).len() < inputs.len() {
        assert(chunks(inputs).len() > 0) by {
            if inputs.len() > 1 {
                lemma_first_chunk(inputs);
            }
        }
        assert(chunks(inputs)[last] == step_model(inputs[last]));
        assert(inputs[last] is Item);
    }
    assert(chunks(inputs)[inputs.len() - 1] == step_model(inputs[inputs.len() - 1]));
    assert forall|i: int| 0 <= i < inputs.len() - 1 implies (#[trigger] chunks(inputs)[i]) == (
    ChunkModel::Chunk { bytes: encode_utf8(inputs[i]->Item_0.data@), finished: false }) by {
        assert(inputs[i] is Item);
    }
}

/// A stream that got something passes something on.
proof fn lemma_first_chunk(inputs: Seq<OpenAiInput>)
    requires
        inputs.len() > 0,
    ensures
        chunks(inputs).len() > 0,
    decreases inputs.len(),
{
    if inputs.len() > 1 {
        lemma_first_chunk(inputs.drop_last());
    }
}

/// A frame that reports an error ends the stream with the error's own message, or
/// a general one where it has none that can be read. Its code is that of the
/// runtime's failure where the frame names its category, else that of the HTTP
/// status in it, and a missing or impossible status counts as 500.
pub proof fn law_error_frames_become_statuses(
    item: OpenAiStreamItem,
    value: JsonModel,
    error: JsonModel,
)
    requires
        item.data@ != "[DONE]"@,
        json_text_document(item.data@) == Ok::<JsonModel, Seq<char>>(value),
        value.get("error"@) == Some(error),
    ensures
        step_model(OpenAiInput::Item(item)) matches ChunkModel::Failed(status) && {
            &&& error.get("message"@) matches Some(JsonModel::Text(message)) ==> status.message
                == message
            &&& !(error.get("message"@) matches Some(JsonModel::Text(_))) ==> status.message
                == "OpenAI generation failed"@
            &&& item.error_kind matches Some(kind) ==> status.code == kind_code(kind)
            &&& item.error_kind is None ==> match error.get("code"@) {
                Some(JsonModel::Unsigned(code)) => if code <= 65_535 {
                    status.code == http_code(code as u16)
                } else {
                    status.code == http_code(500)
                },
                _ => status.code == http_code(500),
            }
        },
{
}

/// A frame that cannot be read, a source that ends without its marker and a frame
/// that does not come in time are failures with a status of their own.
pub proof fn law_broken_streams_say_why(item: OpenAiStreamItem, reason: Seq<char>)
    ensures
        item.data@ != "[DONE]"@ && json_text_document(item.data@) == Err::<JsonModel, Seq<char>>(
            reason,
        ) ==> step_model(OpenAiInput::Item(item)) == ChunkModel::Failed(
            StatusModel {
                code: GrpcCode::Internal,
                message: "invalid OpenAI response: "@ + reason,
            },
        ),
        step_model(OpenAiInput::Closed) == ChunkModel::Failed(
            StatusModel {
                code: GrpcCode::Internal,
                message: "OpenAI response truncated before completion"@,
            },
        ),
        step_model(OpenAiInput::TimedOut) == ChunkModel::Failed(
            StatusModel {
                code: GrpcCode::DeadlineExceeded,
                message: "OpenAI response chunk timed out"@,
            },
        ),
{
}

/// Which HTTP statuses have a gRPC code of their own: each of the others counts
/// as an internal failure.
pub proof fn law_http_statuses_have_codes(code: u16)
    ensures
        http_code(code) == GrpcCode::InvalidArgument <==> (code == 400 || code == 422),
        http_code(code) == GrpcCode::Unauthenticated <==> code == 401,
        http_code(code) == GrpcCode::PermissionDenied <==> code == 403,
        http_code(code) == GrpcCode::NotFound <==> code == 404,
        http_code(code) == GrpcCode::FailedPrecondition <==> (code == 409 || code == 412),
        http_code(code) == GrpcCode::ResourceExhausted <==> code == 429,
        http_code(code) == GrpcCode::Cancelled <==> code == 499,
        http_code(code) == GrpcCode::Unimplemented <==> code == 501,
        http_code(code) == GrpcCode::Unavailable <==> code == 503,
        http_code(code) == GrpcCode::DeadlineExceeded <==> (code == 408 || code == 504),
        http_code(code) != GrpcCode::OutOfRange,
        http_code(code) == GrpcCode::Internal <==> !(code == 400 || code == 401 || code == 403
            || code == 404 || code == 408 || code == 409 || code == 412 || code == 422 || code == 429
            || code == 499 || code == 501 || code == 503 || code == 504),
{
}

/// The keys of a chat request.
proof fn lemma_chat_keys(key: Seq<char>)
    ensures
        request_fields(true).contains(key) <==> (key == "model"@
            || key == "stream"@
            || key == "stream_options"@
            || key == "n"@
            || key == "max_tokens"@
            || key == "temperature"@
            || key == "top_p"@
            || key == "frequency_penalty"@
            || key == "presence_penalty"@
            || key == "stop"@
            || key == "seed"@
            || key == "logit_bias"@
            || key == "logprobs"@
            || key == "messages"@
            || key == "max_completion_tokens"@
            || key == "top_logprobs"@
            || key == "response_format"@
            || key == "tools"@
            || key == "tool_choice"@
            || key == "parallel_tool_calls"@
            || key == "service_tier"@
            || key == "modalities"@),
{
    assert(request_fields(true)[0] == "model"@);
    assert(request_fields(true)[1] == "stream"@);
    assert(request_fields(true)[2] == "stream_options"@);
    assert(request_fields(true)[3] == "n"@);
    assert(request_fields(true)[4] == "max_tokens"@);
    assert(request_fields(true)[5] == "temperature"@);
    assert(request_fields(true)[6] == "top_p"@);
    assert(request_fields(true)[7] == "frequency_penalty"@);
    assert(request_fields(true)[8] == "presence_penalty"@);
    assert(request_fields(true)[9] == "stop"@);
    assert(request_fields(true)[10] == "seed"@);
    assert(request_fields(true)[11] == "logit_bias"@);
    assert(request_fields(true)[12] == "logprobs"@);
    assert(request_fields(true)[13] == "messages"@);
    assert(request_fields(true)[14] == "max_completion_tokens"@);
    assert(request_fields(true)[15] == "top_logprobs"@);
    assert(request_fields(true)[16] == "response_format"@);
    assert(request_fields(true)[17] == "tools"@);
    assert(request_fields(true)[18] == "tool_choice"@);
    assert(request_fields(true)[19] == "parallel_tool_calls"@);
    assert(request_fields(true)[20] == "service_tier"@);
    assert(request_fields(true)[21] == "modalities"@);
    if request_fields(true).contains(key) {
        let i = request_fields(true).index_of(key);
        assert(request_fields(true)[i] == key);
    }
}

/// The keys of a completion request.
proof fn lemma_completion_keys(key: Seq<char>)
    ensures
        request_fields(false).contains(key) <==> (key == "model"@
            || key == "stream"@
            || key == "stream_options"@
            || key == "n"@
            || key == "max_tokens"@
            || key == "temperature"@
            || key == "top_p"@
            || key == "frequency_penalty"@
            || key == "presence_penalty"@
            || key == "stop"@
            || key == "seed"@
            || key == "logit_bias"@
            || key == "logprobs"@
            || key == "prompt"@
            || key == "echo"@
            || key == "best_of"@),
{
    assert(request_fields(false)[0] == "model"@);
    assert(request_fields(false)[1] == "stream"@);
    assert(request_fields(false)[2] == "stream_options"@);
    assert(request_fields(false)[3] == "n"@);
    assert(request_fields(false)[4] == "max_tokens"@);
    assert(request_fields(false)[5] == "temperature"@);
    assert(request_fields(false)[6] == "top_p"@);
    assert(request_fields(false)[7] == "frequency_penalty"@);
    assert(request_fields(false)[8] == "presence_penalty"@);
    assert(request_fields(false)[9] == "stop"@);
    assert(request_fields(false)[10] == "seed"@);
    assert(request_fields(false)[11] == "logit_bias"@);
    assert(request_fields(false)[12] == "logprobs"@);
    assert(request_fields(false)[13] == "prompt"@);
    assert(request_fields(false)[14] == "echo"@);
    assert(request_fields(false)[15] == "best_of"@);
    if request_fields(false).contains(key) {
        let i = request_fields(false).index_of(key);
        assert(request_fields(false)[i] == key);
    }
}

/// The keys of a message.
proof fn lemma_message_keys(key: Seq<char>)
    ensures
        message_fields().contains(key) <==> (key == "role"@
            || key == "content"@
            || key == "name"@
            || key == "tool_calls"@
            || key == "function_call"@
            || key == "tool_call_id"@
            || key == "reasoning_content"@
            || key == "reasoning"@
            || key == "refusal"@),
{
    assert(message_fields()[0] == "role"@);
    assert(message_fields()[1] == "content"@);
    assert(message_fields()[2] == "name"@);
    assert(message_fields()[3] == "tool_calls"@);
    assert(message_fields()[4] == "function_call"@);
    assert(message_fields()[5] == "tool_call_id"@);
    assert(message_fields()[6] == "reasoning_content"@);
    assert(message_fields()[7] == "reasoning"@);
    assert(message_fields()[8] == "refusal"@);
    if message_fields().contains(key) {
        let i = message_fields().index_of(key);
        assert(message_fields()[i] == key);
    }
}

/// The keys of a tool's function.
proof fn lemma_function_keys(key: Seq<char>)
    ensures
        function_fields().contains(key) <==> (key == "name"@
            || key == "description"@
            || key == "parameters"@
            || key == "strict"@),
{
    assert(function_fields()[0] == "name"@);
    assert(function_fields()[1] == "description"@);
    assert(function_fields()[2] == "parameters"@);
    assert(function_fields()[3] == "strict"@);
    if function_fields().contains(key) {
        let i = function_fields().index_of(key);
        assert(function_fields()[i] == key);
    }
}

/// The stream options of a chat request.
proof fn lemma_chat_stream_keys(key: Seq<char>)
    ensures
        stream_option_fields(true).contains(key) <==> (key == "include_usage"@),
{
    assert(stream_option_fields(true)[0] == "include_usage"@);
    if stream_option_fields(true).contains(key) {
        let i = stream_option_fields(true).index_of(key);
        assert(stream_option_fields(true)[i] == key);
    }
}

/// The stream options of a completion request.
proof fn lemma_completion_stream_keys(key: Seq<char>)
    ensures
        stream_option_fields(false).contains(key) <==> (key == "include_usage"@
            || key == "continuous_usage_stats"@),
{
    assert(stream_option_fields(false)[0] == "include_usage"@);
    assert(stream_option_fields(false)[1] == "continuous_usage_stats"@);
    if stream_option_fields(false).contains(key) {
        let i = stream_option_fields(false).index_of(key);
        assert(stream_option_fields(false)[i] == key);
    }
}

/// The keys of a response format.
proof fn lemma_format_keys(key: Seq<char>)
    ensures
        seq!["type"@, "json_schema"@].contains(key) <==> (key == "type"@
            || key == "json_schema"@),
{
    assert(seq!["type"@, "json_schema"@][0] == "type"@);
    assert(seq!["type"@, "json_schema"@][1] == "json_schema"@);
    if seq!["type"@, "json_schema"@].contains(key) {
        let i = seq!["type"@, "json_schema"@].index_of(key);
        assert(seq!["type"@, "json_schema"@][i] == key);
    }
}

/// The keys of a tool.
proof fn lemma_tool_keys(key: Seq<char>)
    ensures
        seq!["type"@, "function"@].contains(key) <==> (key == "type"@
            || key == "function"@),
{
    assert(seq!["type"@, "function"@][0] == "type"@);
    assert(seq!["type"@, "function"@][1] == "function"@);
    if seq!["type"@, "function"@].contains(key) {
        let i = seq!["type"@, "function"@].index_of(key);
        assert(seq!["type"@, "function"@][i] == key);
    }
}

/// The key that is named is the first one that is neither absent nor known, and
/// there is none exactly when every key is absent or known.
pub proof fn law_first_unknown_key_is_named(
    entries: Seq<(Seq<char>, JsonModel)>,
    allowed: Seq<Seq<char>>,
)
    ensures
        first_unknown(entries, allowed) is None <==> forall|i: int|
            0 <= i < entries.len() ==> (#[trigger] entries[i]).1 is Null || allowed.contains(
                entries[i].0,
            ),
        first_unknown(entries, allowed) matches Some(key) ==> exists|i: int|
            0 <= i < entries.len() && (#[trigger] entries[i]).0 == key && !(entries[i].1 is Null)
                && !allowed.contains(key) && forall|j: int|
                0 <= j < i ==> (#[trigger] entries[j]).1 is Null || allowed.contains(entries[j].0),
    decreases entries.len(),
{
    if entries.len() > 0 {
        let rest = entries.drop_first();
        law_first_unknown_key_is_named(rest, allowed);
        if !(entries[0].1 is Null) && !allowed.contains(entries[0].0) {
            assert(entries[0].0 == first_unknown(entries, allowed)->0);
        } else {
            assert forall|i: int| 0 <= i < rest.len() implies rest[i] == #[trigger] entries[i + 1] by {
            }
            match first_unknown(rest, allowed) {
                Some(key) => {
                    let i = choose|i: int|
                        0 <= i < rest.len() && (#[trigger] rest[i]).0 == key && !(rest[i].1 is Null)
                            && !allowed.contains(key) && forall|j: int|
                            0 <= j < i ==> (#[trigger] rest[j]).1 is Null || allowed.contains(
                                rest[j].0,
                            );
                    assert(entries[i + 1].0 == key);
                    assert forall|j: int| 0 <= j < i + 1 implies (#[trigger] entries[j]).1 is Null
                        || allowed.contains(entries[j].0) by {
                        if j > 0 {
                            assert(rest[j - 1] == entries[j]);
                        }
                    }
                    assert(!(entries[i + 1].1 is Null || allowed.contains(entries[i + 1].0)));
                },
                None => {
                    assert forall|i: int| 0 <= i < entries.len() implies (
                    #[trigger] entries[i]).1 is Null || allowed.contains(entries[i].0) by {
                        if i > 0 {
                            assert(rest[i - 1] == entries[i]);
                        }
                    }
                },
            }
        }
    }
}

/// No message is at fault exactly when none of them is.
proof fn lemma_messages_without_fault(messages: Seq<JsonModel>)
    ensures
        messages_error(messages) is None <==> forall|i: int|
            0 <= i < messages.len() ==> unknown_field_error(
                #[trigger] messages[i],
                message_fields(),
                "messages[]"@,
            ) is None,
    decreases messages.len(),
{
    if messages.len() > 0 {
        let rest = messages.drop_first();
        lemma_messages_without_fault(rest);
        assert forall|i: int| 0 <= i < rest.len() implies rest[i] == #[trigger] messages[i + 1] by {
        }
        if messages_error(messages) is None {
            lemma_no_bad_message(messages);
        } else if forall|i: int|
            0 <= i < messages.len() ==> unknown_field_error(
                #[trigger] messages[i],
                message_fields(),
                "messages[]"@,
            ) is None {
            assert forall|i: int| 0 <= i < rest.len() implies unknown_field_error(
                #[trigger] rest[i],
                message_fields(),
                "messages[]"@,
            ) is None by {
                assert(rest[i] == messages[i + 1]);
            }
            assert(unknown_field_error(messages[0], message_fields(), "messages[]"@) is None);
        }
    }
}

/// No tool is at fault exactly when none of them is.
proof fn lemma_tools_without_fault(tools: Seq<JsonModel>)
    ensures
        tools_error(tools) is None <==> forall|i: int|
            0 <= i < tools.len() ==> tool_error(#[trigger] tools[i]) is None,
    decreases tools.len(),
{
    if tools.len() > 0 {
        let rest = tools.drop_first();
        lemma_tools_without_fault(rest);
        if tools_error(tools) is None {
            lemma_no_bad_tool(tools);
        } else if forall|i: int| 0 <= i < tools.len() ==> tool_error(#[trigger] tools[i]) is None {
            assert forall|i: int| 0 <= i < rest.len() implies tool_error(
                #[trigger] rest[i],
            ) is None by {
                assert(rest[i] == tools[i + 1]);
            }
            assert(tool_error(tools[0]) is None);
        }
    }
}

/// A document is accepted as a completion request exactly when it is an object,
/// each of its keys is absent, `null` or one of those that are served, at most one
/// candidate is asked for per choice, and its stream options are known ones.
pub proof fn law_accepted_completions(value: JsonModel)
    ensures
        document_error(value, false) is None <==> {
            &&& value is Object
            &&& (value matches JsonModel::Object(
                fields,
            ) ==> forall|i: int|
                0 <= i < fields.len() ==> (#[trigger] fields[i]).1 is Null || fields[i].0 == "model"@
                    || fields[i].0 == "stream"@
                    || fields[i].0 == "stream_options"@
                    || fields[i].0 == "n"@
                    || fields[i].0 == "max_tokens"@
                    || fields[i].0 == "temperature"@
                    || fields[i].0 == "top_p"@
                    || fields[i].0 == "frequency_penalty"@
                    || fields[i].0 == "presence_penalty"@
                    || fields[i].0 == "stop"@
                    || fields[i].0 == "seed"@
                    || fields[i].0 == "logit_bias"@
                    || fields[i].0 == "logprobs"@
                    || fields[i].0 == "prompt"@
                    || fields[i].0 == "echo"@
                    || fields[i].0 == "best_of"@)
            &&& match value.get("best_of"@) {
                None => true,
                Some(JsonModel::Null) => true,
                Some(best_of) => best_of == JsonModel::Unsigned(1),
            }
            &&& (value.get("stream_options"@) matches Some(options) ==> (options matches JsonModel::Object(
                fields,
            ) ==> forall|i: int|
                0 <= i < fields.len() ==> (#[trigger] fields[i]).1 is Null || fields[i].0 == "include_usage"@
                    || fields[i].0 == "continuous_usage_stats"@))
        },
{
    if let JsonModel::Object(entries) = value {
        law_first_unknown_key_is_named(entries, request_fields(false));
        assert forall|key: Seq<char>| #[trigger]
            request_fields(false).contains(key) <==> (key == "model"@
            || key == "stream"@
            || key == "stream_options"@
            || key == "n"@
            || key == "max_tokens"@
            || key == "temperature"@
            || key == "top_p"@
            || key == "frequency_penalty"@
            || key == "presence_penalty"@
            || key == "stop"@
            || key == "seed"@
            || key == "logit_bias"@
            || key == "logprobs"@
            || key == "prompt"@
            || key == "echo"@
            || key == "best_of"@) by {
            lemma_completion_keys(key);
        }
        if let Some(JsonModel::Object(options)) = value.get("stream_options"@) {
            law_first_unknown_key_is_named(options, stream_option_fields(false));
            assert forall|key: Seq<char>| #[trigger]
            stream_option_fields(false).contains(key) <==> (key == "include_usage"@
            || key == "continuous_usage_stats"@) by {
                lemma_completion_stream_keys(key);
            }
        }
    }
}

/// A document is accepted as a chat request exactly when it is an object, each of
/// its keys is absent, `null` or one of those that are served, nothing but text
/// goes in and comes out, and the keys of its stream options, messages, response
/// format, tools and their functions are known ones; the response format and the
/// tools are of a kind that is served.
#[verifier::rlimit(60)]
pub proof fn law_accepted_chats(value: JsonModel)
    ensures
        document_error(value, true) is None <==> {
            &&& value is Object
            &&& (value matches JsonModel::Object(
                fields,
            ) ==> forall|i: int|
                0 <= i < fields.len() ==> (#[trigger] fields[i]).1 is Null || fields[i].0 == "model"@
                    || fields[i].0 == "stream"@
                    || fields[i].0 == "stream_options"@
                    || fields[i].0 == "n"@
                    || fields[i].0 == "max_tokens"@
                    || fields[i].0 == "temperature"@
                    || fields[i].0 == "top_p"@
                    || fields[i].0 == "frequency_penalty"@
                    || fields[i].0 == "presence_penalty"@
                    || fields[i].0 == "stop"@
                    || fields[i].0 == "seed"@
                    || fields[i].0 == "logit_bias"@
                    || fields[i].0 == "logprobs"@
                    || fields[i].0 == "messages"@
                    || fields[i].0 == "max_completion_tokens"@
                    || fields[i].0 == "top_logprobs"@
                    || fields[i].0 == "response_format"@
                    || fields[i].0 == "tools"@
                    || fields[i].0 == "tool_choice"@
                    || fields[i].0 == "parallel_tool_calls"@
                    || fields[i].0 == "service_tier"@
                    || fields[i].0 == "modalities"@)
            &&& (value.get("messages"@) matches Some(messages) ==> !media_inside(messages))
            &&& match value.get("modalities"@) {
                None => true,
                Some(JsonModel::Null) => true,
                Some(modalities) => modalities == JsonModel::Array(
                    seq![JsonModel::Text("text"@)],
                ),
            }
            &&& (value.get("stream_options"@) matches Some(options) ==> (options matches JsonModel::Object(
                fields,
            ) ==> forall|i: int|
                0 <= i < fields.len() ==> (#[trigger] fields[i]).1 is Null || fields[i].0 == "include_usage"@))
            &&& (value.get("messages"@) matches Some(JsonModel::Array(messages)) ==> forall|m: int|
                0 <= m < messages.len() ==> ((#[trigger] messages[m]) matches JsonModel::Object(
                fields,
            ) ==> forall|i: int|
                    0 <= i < fields.len() ==> (#[trigger] fields[i]).1 is Null || fields[i].0 == "role"@
                        || fields[i].0 == "content"@
                        || fields[i].0 == "name"@
                        || fields[i].0 == "tool_calls"@
                        || fields[i].0 == "function_call"@
                        || fields[i].0 == "tool_call_id"@
                        || fields[i].0 == "reasoning_content"@
                        || fields[i].0 == "reasoning"@
                        || fields[i].0 == "refusal"@))
            &&& (value.get("response_format"@) matches Some(format) ==> (format matches JsonModel::Object(
                fields,
            ) ==> forall|i: int|
                0 <= i < fields.len() ==> (#[trigger] fields[i]).1 is Null || fields[i].0 == "type"@
                    || fields[i].0 == "json_schema"@) && (
            format.get("type"@) matches Some(JsonModel::Text(kind)) ==> kind == "text"@ || kind
                == "json_object"@ || kind == "json_schema"@))
            &&& (value.get("tools"@) matches Some(JsonModel::Array(tools)) ==> forall|t: int|
                0 <= t < tools.len() ==> ((#[trigger] tools[t]) matches JsonModel::Object(
                fields,
            ) ==> forall|i: int|
                    0 <= i < fields.len() ==> (#[trigger] fields[i]).1 is Null || fields[i].0 == "type"@
                        || fields[i].0 == "function"@) && (
                tools[t].get("type"@) matches Some(JsonModel::Text(kind)) ==> kind == "function"@)
                    && (tools[t].get("function"@) matches Some(function) ==> (function matches JsonModel::Object(
                fields,
            ) ==> forall|i: int|
                        0 <= i < fields.len() ==> (#[trigger] fields[i]).1 is Null || fields[i].0 == "name"@
                            || fields[i].0 == "description"@
                            || fields[i].0 == "parameters"@
                            || fields[i].0 == "strict"@)))
        },
{
    if let JsonModel::Object(entries) = value {
        law_first_unknown_key_is_named(entries, request_fields(true));
        assert forall|key: Seq<char>| #[trigger]
            request_fields(true).contains(key) <==> (key == "model"@
            || key == "stream"@
            || key == "stream_options"@
            || key == "n"@
            || key == "max_tokens"@
            || key == "temperature"@
            || key == "top_p"@
            || key == "frequency_penalty"@
            || key == "presence_penalty"@
            || key == "stop"@
            || key == "seed"@
            || key == "logit_bias"@
            || key == "logprobs"@
            || key == "messages"@
            || key == "max_completion_tokens"@
            || key == "top_logprobs"@
            || key == "response_format"@
            || key == "tools"@
            || key == "tool_choice"@
            || key == "parallel_tool_calls"@
            || key == "service_tier"@
            || key == "modalities"@) by {
            lemma_chat_keys(key);
        }
        if let Some(JsonModel::Object(options)) = value.get("stream_options"@) {
            law_first_unknown_key_is_named(options, stream_option_fields(true));
            assert forall|key: Seq<char>| #[trigger]
            stream_option_fields(true).contains(key) <==> (key == "include_usage"@) by {
                lemma_chat_stream_keys(key);
            }
        }
        if let Some(JsonModel::Array(messages)) = value.get("messages"@) {
            lemma_messages_without_fault(messages);
            assert forall|m: int| 0 <= m < messages.len() implies (unknown_field_error(
                #[trigger] messages[m],
                message_fields(),
                "messages[]"@,
            ) is None <==> (messages[m] matches JsonModel::Object(
                fields,
            ) ==> forall|i: int|
                0 <= i < fields.len() ==> (#[trigger] fields[i]).1 is Null || fields[i].0 == "role"@
                    || fields[i].0 == "content"@
                    || fields[i].0 == "name"@
                    || fields[i].0 == "tool_calls"@
                    || fields[i].0 == "function_call"@
                    || fields[i].0 == "tool_call_id"@
                    || fields[i].0 == "reasoning_content"@
                    || fields[i].0 == "reasoning"@
                    || fields[i].0 == "refusal"@)) by {
                lemma_message_fault(messages[m]);
            }
        }
        if let Some(format) = value.get("response_format"@) {
            lemma_format_fault(format);
        }
        if let Some(JsonModel::Array(tools)) = value.get("tools"@) {
            lemma_tools_without_fault(tools);
            assert forall|t: int| 0 <= t < tools.len() implies (tool_error(#[trigger] tools[t]) is None
                <==> (tools[t] matches JsonModel::Object(
                fields,
            ) ==> forall|i: int|
                0 <= i < fields.len() ==> (#[trigger] fields[i]).1 is Null || fields[i].0 == "type"@
                    || fields[i].0 == "function"@) && (
                tools[t].get("type"@) matches Some(JsonModel::Text(kind)) ==> kind == "function"@)
                    && (tools[t].get("function"@) matches Some(function) ==> (function matches JsonModel::Object(
                fields,
            ) ==> forall|i: int|
                        0 <= i < fields.len() ==> (#[trigger] fields[i]).1 is Null || fields[i].0 == "name"@
                            || fields[i].0 == "description"@
                            || fields[i].0 == "parameters"@
                            || fields[i].0 == "strict"@))) by {
                lemma_tool_fault(tools[t]);
            }
        }
    }
}

/// What makes a message acceptable.
proof fn lemma_message_fault(message: JsonModel)
    ensures
        unknown_field_error(message, message_fields(), "messages[]"@) is None <==> (message matches JsonModel::Object(
                fields,
            ) ==> forall|i: int|
            0 <= i < fields.len() ==> (#[trigger] fields[i]).1 is Null || fields[i].0 == "role"@
                || fields[i].0 == "content"@
                || fields[i].0 == "name"@
                || fields[i].0 == "tool_calls"@
                || fields[i].0 == "function_call"@
                || fields[i].0 == "tool_call_id"@
                || fields[i].0 == "reasoning_content"@
                || fields[i].0 == "reasoning"@
                || fields[i].0 == "refusal"@),
{
    if let JsonModel::Object(fields) = message {
        law_first_unknown_key_is_named(fields, message_fields());
        assert forall|key: Seq<char>| #[trigger]
            message_fields().contains(key) <==> (key == "role"@
            || key == "content"@
            || key == "name"@
            || key == "tool_calls"@
            || key == "function_call"@
            || key == "tool_call_id"@
            || key == "reasoning_content"@
            || key == "reasoning"@
            || key == "refusal"@) by {
            lemma_message_keys(key);
        }
    }
}

/// What makes a response format acceptable.
proof fn lemma_format_fault(format: JsonModel)
    ensures
        response_format_error(format) is None <==> ((format matches JsonModel::Object(
                fields,
            ) ==> forall|i: int|
            0 <= i < fields.len() ==> (#[trigger] fields[i]).1 is Null || fields[i].0 == "type"@
                || fields[i].0 == "json_schema"@) && (
        format.get("type"@) matches Some(JsonModel::Text(kind)) ==> kind == "text"@ || kind
            == "json_object"@ || kind == "json_schema"@)),
{
    if let JsonModel::Object(fields) = format {
        let known = seq!["type"@, "json_schema"@];
        law_first_unknown_key_is_named(fields, known);
        assert forall|key: Seq<char>| #[trigger]
            known.contains(key) <==> (key == "type"@
            || key == "json_schema"@) by {
            lemma_format_keys(key);
        }
    }
}

/// What makes a tool acceptable.
proof fn lemma_tool_fault(tool: JsonModel)
    ensures
        tool_error(tool) is None <==> ((tool matches JsonModel::Object(
                fields,
            ) ==> forall|i: int|
            0 <= i < fields.len() ==> (#[trigger] fields[i]).1 is Null || fields[i].0 == "type"@
                || fields[i].0 == "function"@) && (
        tool.get("type"@) matches Some(JsonModel::Text(kind)) ==> kind == "function"@) && (
        tool.get("function"@) matches Some(function) ==> (function matches JsonModel::Object(
                fields,
            ) ==> forall|i: int|
            0 <= i < fields.len() ==> (#[trigger] fields[i]).1 is Null || fields[i].0 == "name"@
                || fields[i].0 == "description"@
                || fields[i].0 == "parameters"@
                || fields[i].0 == "strict"@))),
{
    if let JsonModel::Object(fields) = tool {
        let known = seq!["type"@, "function"@];
        law_first_unknown_key_is_named(fields, known);
        assert forall|key: Seq<char>| #[trigger]
            known.contains(key) <==> (key == "type"@
            || key == "function"@) by {
            lemma_tool_keys(key);
        }
    }
    if let Some(JsonModel::Object(fields)) = tool.get("function"@) {
        law_first_unknown_key_is_named(fields, function_fields());
        assert forall|key: Seq<char>| #[trigger]
            function_fields().contains(key) <==> (key == "name"@
            || key == "description"@
            || key == "parameters"@
            || key == "strict"@) by {
            lemma_function_keys(key);
        }
    }
}

/// A document that is refused for one of its keys is told which: the first key
/// that is not served, at the top or inside, under the name of the place it was
/// found in.
pub proof fn law_refused_keys_are_named(
    entries: Seq<(Seq<char>, JsonModel)>,
    allowed: Seq<Seq<char>>,
    context: Seq<char>,
    chat: bool,
)
    ensures
        first_unknown(entries, allowed) matches Some(key) ==> unknown_field_error(
            JsonModel::Object(entries),
            allowed,
            context,
        ) == Some(ConvertErrorModel::Unsupported(context + "."@ + key + " is not supported"@)),
        first_unknown(entries, request_fields(chat)) matches Some(key) ==> document_error(
            JsonModel::Object(entries),
            chat,
        ) == Some(
            ConvertErrorModel::Unsupported(key + " is not supported by the Rust frontend"@),
        ),
        first_unknown(entries, allowed) is None ==> unknown_field_error(
            JsonModel::Object(entries),
            allowed,
            context,
        ) is None,
{
}

/// What else a document is refused with, and in which order its parts are looked
/// at: first what it is, then its keys, then what no key alone can tell.
pub proof fn law_refused_documents_say_why(value: JsonModel, chat: bool)
    ensures
        !(value is Object) ==> document_error(value, chat) == Some(
            ConvertErrorModel::InvalidArgument("expected a JSON object"@),
        ),
        value matches JsonModel::Object(entries) && first_unknown(entries, request_fields(chat)) is None
            ==> {
            let best_of_asked = match value.get("best_of"@) {
                None => false,
                Some(JsonModel::Null) => false,
                Some(best_of) => best_of != JsonModel::Unsigned(1),
            };
            let media_asked = (value.get("messages"@) matches Some(messages) && media_inside(
                messages,
            )) || (match value.get("modalities"@) {
                None => false,
                Some(JsonModel::Null) => false,
                Some(modalities) => modalities != JsonModel::Array(
                    seq![JsonModel::Text("text"@)],
                ),
            });
            &&& !chat && best_of_asked ==> document_error(value, chat) == Some(
                ConvertErrorModel::Unsupported("best_of values other than 1 are not supported"@),
            )
            &&& chat && media_asked ==> document_error(value, chat) == Some(
                ConvertErrorModel::Unsupported(
                    "multimodal chat is not supported by the Rust frontend"@,
                ),
            )
            &&& (if chat {
                !media_asked
            } else {
                !best_of_asked
            }) ==> {
                &&& (value.get("stream_options"@) matches Some(JsonModel::Object(options)) ==> (
                first_unknown(options, stream_option_fields(chat)) matches Some(key)
                    ==> document_error(value, chat) == Some(
                    ConvertErrorModel::Unsupported(
                        "stream_options."@ + key + " is not supported"@,
                    ),
                )))
                &&& (chat && stream_options_error(value, chat) is None ==> document_error(
                    value,
                    chat,
                ) == chat_features_error(value))
            }
        },
{
}

/// A response format or a tool of a kind that is not served is refused by the
/// name of its kind.
pub proof fn law_refused_kinds_are_named(format: JsonModel, tool: JsonModel, kind: Seq<char>)
    ensures
        format.get("type"@) == Some(JsonModel::Text(kind)) && kind != "text"@ && kind
            != "json_object"@ && kind != "json_schema"@ && unknown_field_error(
            format,
            seq!["type"@, "json_schema"@],
            "response_format"@,
        ) is None ==> response_format_error(format) == Some(
            ConvertErrorModel::Unsupported("response_format type "@ + kind + " is not supported"@),
        ),
        tool.get("type"@) == Some(JsonModel::Text(kind)) && kind != "function"@
            && unknown_field_error(tool, seq!["type"@, "function"@], "tools[]"@) is None
            ==> tool_error(tool) == Some(
            ConvertErrorModel::Unsupported("tool type "@ + kind + " is not supported"@),
        ),
{
}

/// A request is refused for its tracing headers before it is read, for a body that
/// cannot be read with the reader's own words, and for what is wrong with its
/// document; otherwise it is passed on as the document that it holds, unchanged.
pub proof fn law_requests_pass_unchanged(
    trace_headers: bool,
    parsed: Result<JsonModel, Seq<char>>,
    chat: bool,
)
    ensures
        trace_headers ==> request_model(trace_headers, parsed, chat) == Err::<
            JsonModel,
            ConvertErrorModel,
        >(
            ConvertErrorModel::Unsupported(
                "trace_headers is not supported by the Rust frontend"@,
            ),
        ),
        !trace_headers ==> match parsed {
            Err(reason) => request_model(trace_headers, parsed, chat) == Err::<
                JsonModel,
                ConvertErrorModel,
            >(ConvertErrorModel::InvalidArgument(reason)),
            Ok(value) => match document_error(value, chat) {
                None => request_model(trace_headers, parsed, chat) == Ok::<
                    JsonModel,
                    ConvertErrorModel,
                >(value),
                Some(error) => request_model(trace_headers, parsed, chat) == Err::<
                    JsonModel,
                    ConvertErrorModel,
                >(error),
            },
        },
{
}

/// A call without a tokenizer is possible only for completions whose prompt is
/// made of tokens and is not wanted back.
pub proof fn law_what_needs_a_tokenizer(value: JsonModel)
    ensures
        needs_tokenizer(value) <==> value.get("echo"@) == Some(JsonModel::Bool(true)) || (match value.get(
            "prompt"@,
        ) {
            Some(JsonModel::Text(_)) => true,
            Some(JsonModel::Array(items)) => exists|i: int|
                0 <= i < items.len() && (#[trigger] items[i]) is Text,
            _ => false,
        }),
{
}

/// Which valid calls a server can serve depends on how it was started: chat needs
/// a template and a tokenizer, a completion needs a tokenizer if text goes in or
/// back, and tools that the model may call need a parser. A call that can be
/// served runs on the document that was validated; any other is unimplemented, and
/// told what is missing.
pub proof fn law_admitted_calls(
    validated: Result<JsonModel, ConvertErrorModel>,
    chat: bool,
    policy: OpenAiPolicy,
)
    ensures
        validated matches Err(error) ==> openai_rpc_model(validated, chat, policy) == Err::<
            JsonModel,
            StatusModel,
        >(
            match error {
                ConvertErrorModel::InvalidArgument(message) => StatusModel {
                    code: GrpcCode::InvalidArgument,
                    message,
                },
                ConvertErrorModel::Unsupported(message) => StatusModel {
                    code: GrpcCode::Unimplemented,
                    message,
                },
                ConvertErrorModel::Internal(message) => StatusModel {
                    code: GrpcCode::Internal,
                    message,
                },
            },
        ),
        validated matches Ok(value) ==> {
            let no_template = chat && !policy.chat_formatter;
            let no_tokenizer = policy.skip_tokenizer_init && (chat || needs_tokenizer(value));
            let tools_offered = (value.get("tools"@) matches Some(JsonModel::Array(tools))
                && tools.len() > 0) && value.get("tool_choice"@) != Some(
                JsonModel::Text("none"@),
            );
            let no_parser = chat && tools_offered && !policy.tool_call_parser;
            let missing = if no_template {
                "this model has no usable chat template"@
            } else if no_tokenizer {
                "the requested operation requires a tokenizer"@
            } else {
                "tool calls require --tool-call-parser"@
            };
            if no_template || no_tokenizer || no_parser {
                openai_rpc_model(validated, chat, policy) == Err::<JsonModel, StatusModel>(
                    StatusModel { code: GrpcCode::Unimplemented, message: missing },
                )
            } else {
                openai_rpc_model(validated, chat, policy) == Ok::<JsonModel, StatusModel>(value)
            }
        },
{
}

/// A document goes to the client whole, as one chunk that says that nothing
/// follows; a stream goes on as the stream that it is, and a failure as a status
/// with the failure's own message, by its category where the runtime failed and by
/// its HTTP status where the request was at fault.
pub proof fn law_framed_responses<S>(
    response: OpenAiResponse<S>,
    body: Result<OpenAiBody<S>, GrpcStatus>,
)
    requires
        framed_as(response, body),
    ensures
        response matches OpenAiResponse::Json(bytes) ==> (body matches Ok(OpenAiBody::Unary(chunk))
            && chunk.json_chunk@ == bytes@ && chunk.finished),
        response matches OpenAiResponse::Stream(source) ==> body == Ok::<OpenAiBody<S>, GrpcStatus>(
            OpenAiBody::Stream(source),
        ),
        response matches OpenAiResponse::Error(error) ==> (body matches Err(status)
            && status.message@ == error.message@ && (error.kind matches Some(kind) ==> status.code
            == kind_code(kind)) && (error.kind is None ==> status.code == http_code(error.code))),
{
}

/// The outcomes of validating, admitting and framing mean what they hold.
pub proof fn law_outcomes_mean_themselves(
    checked: Result<(), ConvertError>,
    validated: Result<Json, ConvertError>,
    admitted: Result<Json, GrpcStatus>,
    chunk: Result<proto::OpenAiStreamChunk, GrpcStatus>,
)
    ensures
        checked is Ok ==> check_model(checked) is None,
        checked matches Err(error) ==> check_model(checked) == Some(error@),
        validated matches Ok(document) ==> validated_model(validated) == Ok::<
            JsonModel,
            ConvertErrorModel,
        >(document@),
        validated matches Err(error) ==> validated_model(validated) == Err::<
            JsonModel,
            ConvertErrorModel,
        >(error@),
        admitted matches Ok(document) ==> rpc_result(admitted) == Ok::<JsonModel, StatusModel>(
            document@,
        ),
        admitted matches Err(status) ==> rpc_result(admitted) == Err::<JsonModel, StatusModel>(
            StatusModel { code: status.code, message: status.message@ },
        ),
        chunk matches Ok(data) ==> chunk_model(chunk) == (ChunkModel::Chunk {
            bytes: data.json_chunk@,
            finished: data.finished,
        }),
        chunk matches Err(status) ==> chunk_model(chunk) == ChunkModel::Failed(
            StatusModel { code: status.code, message: status.message@ },
        ),
{
}

/// A request that reads as its type is passed on as it was read; any other is the
/// caller's fault, in the reader's own words.
pub proof fn law_typed_requests<T>(parsed: Result<T, String>, typed: Result<T, GrpcStatus>)
    requires
        typed_as(parsed, typed),
    ensures
        parsed is Ok <==> typed is Ok,
        parsed matches Ok(request) ==> typed->Ok_0 == request,
        parsed matches Err(error) ==> typed->Err_0.code is InvalidArgument
            && typed->Err_0.message@ == error@,
{
}

} // verus!
