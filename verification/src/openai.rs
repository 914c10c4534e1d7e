//! OpenAI operations, before HTTP or gRPC frames them.

use vstd::prelude::*;

use crate::config::ServerArgs;
use crate::contract::{ErrorModel, EventModel, FrontendError, FrontendErrorKind, FrontendEvent};
use crate::json::{
    entries_model, items_model, lemma_array_model, lemma_object_model, push_entry, Json, JsonModel,
};
use crate::output::{folded, FrontendOutput, OutputModel};

verus! {

/// Whether the key announces media content.
pub open spec fn is_media_key(key: Seq<char>) -> bool {
    key == "image_url"@ || key == "video_url"@ || key == "input_audio"@ || key == "audio_url"@
        || key == "file"@
}

/// Whether media content stands anywhere in the document.
pub open spec fn media_inside(value: JsonModel) -> bool
    decreases value,
{
    match value {
        JsonModel::Array(items) => exists|i: int|
            0 <= i < items.len() && media_inside(#[trigger] items[i]),
        JsonModel::Object(entries) => exists|i: int|
            0 <= i < entries.len() && (is_media_key((#[trigger] entries[i]).0) || media_inside(
                entries[i].1,
            )),
        _ => false,
    }
}

/// Looks for media content anywhere in a document.
pub fn contains_media(value: &Json) -> (found: bool)
    ensures
        found == media_inside(value@),
    decreases value,
{
    match value {
        Json::Array(items) => {
            proof {
                lemma_array_model(*items);
            }
            for i in 0..items.len()
                invariant
                    *value == Json::Array(*items),
                    value@ == JsonModel::Array(items_model(items@)),
                    forall|j: int| 0 <= j < i ==> !media_inside(#[trigger] items_model(items@)[j]),
            {
                assert(decreases_to!(value => value->Array_0));
                assert(decreases_to!(items@ => items@[i as int]));
                assert(value@->Array_0[i as int] == items@[i as int]@);
                if contains_media(&items[i]) {
                    return true;
                }
            }
            false
        },
        Json::Object(entries) => {
            proof {
                lemma_object_model(*entries);
            }
            for i in 0..entries.len()
                invariant
                    *value == Json::Object(*entries),
                    value@ == JsonModel::Object(entries_model(entries@)),
                    forall|j: int|
                        0 <= j < i ==> {
                            let entry = #[trigger] entries_model(entries@)[j];
                            !is_media_key(entry.0) && !media_inside(entry.1)
                        },
            {
                assert(decreases_to!(value => value->Object_0));
                assert(decreases_to!(entries@ => entries@[i as int]));
                assert(decreases_to!(entries@[i as int] => entries@[i as int].1));
                assert(value@->Object_0[i as int] == (
                    entries@[i as int].0@,
                    entries@[i as int].1@,
                ));
                let key = entries[i].0.as_str();
                if key.eq("image_url") || key.eq("video_url") || key.eq("input_audio") || key.eq(
                    "audio_url",
                ) || key.eq("file") || contains_media(&entries[i].1) {
                    return true;
                }
            }
            false
        },
        _ => false,
    }
}

/// `http::StatusCode::from_u16` accepts exactly the numbers from 100 to 999, and
/// `as_u16` gives the number back.
#[verifier::external_body]
fn http_status(number: u16) -> (status: Option<u16>)
    ensures
        status == if 100 <= number <= 999 {
            Some(number)
        } else {
            None
        },
{
    http::StatusCode::from_u16(number).ok().map(|status: http::StatusCode| status.as_u16())
}

/// The HTTP status of a failure category.
pub open spec fn kind_http_status(kind: FrontendErrorKind) -> u16 {
    match kind {
        FrontendErrorKind::InvalidArgument => 400,
        FrontendErrorKind::NotFound => 404,
        FrontendErrorKind::FailedPrecondition => 412,
        FrontendErrorKind::ResourceExhausted => 503,
        FrontendErrorKind::Unavailable => 503,
        FrontendErrorKind::Cancelled => 499,
        FrontendErrorKind::DeadlineExceeded => 504,
        FrontendErrorKind::Internal => 500,
    }
}

/// The HTTP status of a failure: the scheduler's own, where it gave a valid
/// one, else that of the category.
pub open spec fn error_http_status(error: ErrorModel) -> u16 {
    match error {
        ErrorModel::RuntimeRejected { legacy_http_status, .. } => if 100 <= legacy_http_status
            <= 999 {
            legacy_http_status
        } else {
            500
        },
        _ => kind_http_status(error.kind()),
    }
}

/// Chooses the HTTP status of a failure. Exhausted capacity and a closed intake
/// are both answered with 503.
pub fn frontend_error_status(error: &FrontendError) -> (status: u16)
    ensures
        status == error_http_status(error@),
{
    if let FrontendError::RuntimeRejected { legacy_http_status, .. } = error {
        return match http_status(*legacy_http_status) {
            Some(status) => status,
            None => 500,
        };
    }
    match error.kind() {
        FrontendErrorKind::InvalidArgument => 400,
        FrontendErrorKind::NotFound => 404,
        FrontendErrorKind::FailedPrecondition => 412,
        FrontendErrorKind::ResourceExhausted | FrontendErrorKind::Unavailable => 503,
        FrontendErrorKind::Cancelled => 499,
        FrontendErrorKind::DeadlineExceeded => 504,
        FrontendErrorKind::Internal => 500,
    }
}

/// A failed OpenAI operation, before a transport frames it.
#[derive(Debug)]
pub struct OpenAiError {
    /// The HTTP status, which is part of the OpenAI error payload.
    pub code: u16,
    pub message: String,
    /// Whether the client was promised a stream.
    pub stream: bool,
    /// The category, where the runtime failed; absent where the request was
    /// refused before it got there.
    pub kind: Option<FrontendErrorKind>,
}

/// The result of an OpenAI operation, before a transport frames it.
#[derive(Debug)]
pub enum OpenAiResponse<S> {
    /// A document, already serialized.
    Json(Vec<u8>),
    Stream(S),
    Error(OpenAiError),
}

/// One serialized frame of an OpenAI stream, with the category of the failure
/// where it reports one.
#[derive(Debug)]
pub struct OpenAiStreamItem {
    pub data: String,
    pub error_kind: Option<FrontendErrorKind>,
}

impl OpenAiStreamItem {
    /// A frame of output.
    pub fn data(data: String) -> (item: Self)
        ensures
            item == (OpenAiStreamItem { data, error_kind: None }),
    {
        OpenAiStreamItem { data, error_kind: None }
    }

    /// A frame that reports a failure.
    pub fn error(data: String, kind: FrontendErrorKind) -> (item: Self)
        ensures
            item == (OpenAiStreamItem { data, error_kind: Some(kind) }),
    {
        OpenAiStreamItem { data, error_kind: Some(kind) }
    }
}

/// A failure of the request itself.
pub fn openai_error<S>(code: u16, message: String, stream: bool) -> (response: OpenAiResponse<S>)
    ensures
        response == OpenAiResponse::<S>::Error(OpenAiError { code, message, stream, kind: None }),
{
    OpenAiResponse::Error(OpenAiError { code, message, stream, kind: None })
}

/// A failure of the runtime.
pub fn frontend_openai_error<S>(
    code: u16,
    message: String,
    stream: bool,
    kind: FrontendErrorKind,
) -> (response: OpenAiResponse<S>)
    ensures
        response == OpenAiResponse::<S>::Error(
            OpenAiError { code, message, stream, kind: Some(kind) },
        ),
{
    OpenAiResponse::Error(OpenAiError { code, message, stream, kind: Some(kind) })
}

/// The result that a serialized document is, or the failure to serialize it.
pub open spec fn json_result<S>(encoded: Result<Vec<u8>, String>) -> OpenAiResponse<S> {
    match encoded {
        Err(message) => OpenAiResponse::Error(
            OpenAiError { code: 500, message, stream: false, kind: None },
        ),
        Ok(bytes) => OpenAiResponse::Json(bytes),
    }
}

/// Wraps a serialized document, or the failure to serialize it.
pub fn json_response<S>(encoded: Result<Vec<u8>, String>) -> (response: OpenAiResponse<S>)
    ensures
        response == match encoded {
            Ok(bytes) => OpenAiResponse::<S>::Json(bytes),
            Err(message) => OpenAiResponse::<S>::Error(
                OpenAiError { code: 500, message, stream: false, kind: None },
            ),
        },
        response == json_result::<S>(encoded),
{
    match encoded {
        Ok(bytes) => OpenAiResponse::Json(bytes),
        Err(message) => openai_error(500, message, false),
    }
}

/// The name of an error in the OpenAI payload.
pub open spec fn error_type_model(code: u16) -> Seq<char> {
    if code == 401 {
        "AuthenticationError"@
    } else if 500 <= code <= 599 {
        "InternalServerError"@
    } else {
        "BadRequestError"@
    }
}

/// The OpenAI error payload.
pub open spec fn error_payload_model(code: u16, message: Seq<char>) -> JsonModel {
    JsonModel::Object(
        seq![
            (
                "error"@,
                JsonModel::Object(
                    seq![
                        ("object"@, JsonModel::Text("error"@)),
                        ("message"@, JsonModel::Text(message)),
                        ("type"@, JsonModel::Text(error_type_model(code))),
                        ("param"@, JsonModel::Null),
                        ("code"@, JsonModel::Unsigned(code as u64)),
                    ],
                ),
            ),
        ],
    )
}

/// Builds the OpenAI error payload.
pub fn error_payload(code: u16, message: String) -> (payload: Json)
    ensures
        payload@ == error_payload_model(code, message@),
{
    broadcast use lemma_object_model;

    let error_type = if code == 401 {
        "AuthenticationError"
    } else if 500 <= code && code <= 599 {
        "InternalServerError"
    } else {
        "BadRequestError"
    };
    let mut entries: Vec<(String, Json)> = Vec::new();
    push_entry(&mut entries, "object", Json::Text("error".to_owned()));
    push_entry(&mut entries, "message", Json::Text(message));
    push_entry(&mut entries, "type", Json::Text(error_type.to_owned()));
    push_entry(&mut entries, "param", Json::Null);
    push_entry(&mut entries, "code", Json::Unsigned(code as u64));
    let ghost inner = Json::Object(entries)@;
    let mut payload: Vec<(String, Json)> = Vec::new();
    push_entry(&mut payload, "error", Json::Object(entries));
    assert(inner->Object_0 =~= error_payload_model(
        code,
        message@,
    )->Object_0[0].1->Object_0);
    assert(entries_model(payload@) =~= error_payload_model(code, message@)->Object_0);
    Json::Object(payload)
}

/// Whether this is the failure of an OpenAI request that could not be submitted.
pub open spec fn submission_failed(failure: OpenAiError, error: ErrorModel, stream: bool) -> bool {
    &&& failure.code == if error is Unavailable {
        503u16
    } else {
        500
    }
    &&& failure.message@ == error.text()
    &&& failure.stream == stream
    &&& failure.kind == Some(error.kind())
}

/// The answer to an OpenAI request that could not be submitted: 503 where the
/// intake is closed, else 500.
pub fn submission_error<S>(error: FrontendError, stream: bool) -> (response: OpenAiResponse<S>)
    ensures
        response matches OpenAiResponse::Error(failure) && failure.code == (if error@
            is Unavailable {
            503
        } else {
            500u16
        }) && failure.message@ == error@.text() && failure.stream == stream && failure.kind == Some(
            error@.kind(),
        ),
        response matches OpenAiResponse::Error(failure) && submission_failed(
            failure,
            error@,
            stream,
        ),
{
    let code: u16 = match error {
        FrontendError::Unavailable => 503,
        _ => 500,
    };
    frontend_openai_error(code, error.message(), stream, error.kind())
}

/// Without a tokenizer there is no chat.
pub open spec fn chat_possible(args: ServerArgs) -> bool {
    !args.skip_tokenizer_init && args.tokenizer_path@.len() > 0
}

/// Whether a chat template is worth looking for.
pub fn wants_chat_support(args: &ServerArgs) -> (wanted: bool)
    ensures
        wanted == chat_possible(*args),
{
    !args.skip_tokenizer_init && !args.tokenizer_path.as_str().is_empty()
}

/// The model path that a template may be inferred from, unless it is empty.
pub fn template_model_path(args: &ServerArgs) -> (path: Option<&str>)
    ensures
        match path {
            Some(path) => args.model_path@.len() > 0 && path@ == args.model_path@,
            None => args.model_path@.len() == 0,
        },
{
    if args.model_path.as_str().is_empty() {
        None
    } else {
        Some(args.model_path.as_str())
    }
}

/// The chat formatter, where chat is possible and its template could be loaded.
pub open spec fn chat_formatter_model<F>(possible: bool, loaded: Result<F, String>) -> Option<F> {
    match loaded {
        Ok(formatter) => if possible {
            Some(formatter)
        } else {
            None
        },
        Err(_) => None,
    }
}

/// Enables chat exactly when there is a tokenizer and the template could be
/// loaded. A template that cannot be loaded disables chat, nothing more.
pub fn load_chat_support<F>(args: &ServerArgs, loaded: Result<F, String>) -> (formatter: Option<F>)
    ensures
        formatter == if chat_possible(*args) {
            match loaded {
                Ok(formatter) => Some(formatter),
                Err(_) => None,
            }
        } else {
            None
        },
        formatter == chat_formatter_model(chat_possible(*args), loaded),
{
    if !wants_chat_support(args) {
        return None;
    }
    match loaded {
        Ok(formatter) => Some(formatter),
        Err(_) => None,
    }
}

/// The seconds on a clock that reads `elapsed` seconds after the epoch, or zero
/// where it stands before the epoch.
pub fn unix_seconds(elapsed: Option<u64>) -> (seconds: u64)
    ensures
        seconds == match elapsed {
            Some(elapsed) => elapsed,
            None => 0,
        },
{
    match elapsed {
        Some(elapsed) => elapsed,
        None => 0,
    }
}

/// The seconds after the epoch, cut off at what 32 bits hold.
pub open spec fn seconds_model(elapsed: Option<u64>) -> int {
    match elapsed {
        Some(elapsed) => if elapsed > u32::MAX {
            u32::MAX as int
        } else {
            elapsed as int
        },
        None => 0,
    }
}

/// The seconds as 32 bits hold them: at most the largest such number.
pub fn unix_seconds_u32(elapsed: Option<u64>) -> (seconds: u32)
    ensures
        seconds == match elapsed {
            Some(elapsed) => if elapsed <= u32::MAX {
                elapsed as u32
            } else {
                u32::MAX
            },
            None => 0,
        },
        seconds == seconds_model(elapsed),
{
    let seconds = unix_seconds(elapsed);
    if seconds <= u32::MAX as u64 {
        seconds as u32
    } else {
        u32::MAX
    }
}

/// Where the collection of one call's output stands.
#[derive(Debug)]
pub enum Collection {
    /// More events are needed.
    Pending(FrontendOutput),
    /// The call ended.
    Ended(Result<FrontendOutput, FrontendError>),
}

/// What a [`Collection`] means.
#[verifier::ext_equal]
pub enum CollectionModel {
    Pending(OutputModel),
    Ended(Result<OutputModel, ErrorModel>),
}

impl View for Collection {
    type V = CollectionModel;

    open spec fn view(&self) -> CollectionModel {
        match self {
            Collection::Pending(output) => CollectionModel::Pending(output@),
            Collection::Ended(Ok(output)) => CollectionModel::Ended(Ok(output@)),
            Collection::Ended(Err(error)) => CollectionModel::Ended(Err(error@)),
        }
    }
}

/// The optional event's meaning.
pub open spec fn opt_event(event: Option<FrontendEvent>) -> Option<EventModel> {
    match event {
        Some(event) => Some(event@),
        None => None,
    }
}

impl CollectionModel {
    /// The collection after one more event, or after the end of the events.
    pub open spec fn stepped(self, event: Option<EventModel>) -> CollectionModel {
        match self {
            CollectionModel::Ended(_) => self,
            CollectionModel::Pending(output) => match event {
                Some(EventModel::Delta(delta)) => CollectionModel::Pending(output.appended(delta)),
                Some(EventModel::Finished(delta)) => CollectionModel::Ended(
                    Ok(output.appended(delta)),
                ),
                Some(EventModel::Failed(error)) => CollectionModel::Ended(Err(error)),
                None => CollectionModel::Ended(Err(ErrorModel::ResponseTruncated)),
            },
        }
    }
}

impl Collection {
    /// Nothing collected yet.
    pub fn new() -> (collection: Self)
        ensures
            collection@ == CollectionModel::Pending(OutputModel::empty()),
    {
        Collection::Pending(FrontendOutput::default())
    }

    /// Whether the completion count stays in range with one more event.
    pub open spec fn fits(self, event: Option<FrontendEvent>) -> bool {
        match (self, event) {
            (Collection::Pending(output), Some(FrontendEvent::Delta(delta))) =>
                output.completion_tokens + delta.completion_tokens <= u64::MAX,
            (Collection::Pending(output), Some(FrontendEvent::Finished(delta))) =>
                output.completion_tokens + delta.completion_tokens <= u64::MAX,
            _ => true,
        }
    }

    /// Folds one event in. A call whose events end too early has failed.
    pub fn collect_output(self, event: Option<FrontendEvent>) -> (collection: Self)
        requires
            self.fits(event),
        ensures
            collection@ == self@.stepped(opt_event(event)),
    {
        let mut output = match self {
            Collection::Pending(output) => output,
            Collection::Ended(outcome) => {
                return Collection::Ended(outcome);
            },
        };
        match event {
            Some(FrontendEvent::Delta(delta)) => {
                output.append_delta(&delta);
                Collection::Pending(output)
            },
            Some(FrontendEvent::Finished(delta)) => {
                output.append_delta(&delta);
                Collection::Ended(Ok(output))
            },
            Some(FrontendEvent::Failed(error)) => Collection::Ended(Err(error)),
            None => Collection::Ended(Err(FrontendError::ResponseTruncated)),
        }
    }
}

/// The collection after all the events.
pub open spec fn collected(events: Seq<Option<EventModel>>) -> CollectionModel
    decreases events.len(),
{
    if events.len() == 0 {
        CollectionModel::Pending(OutputModel::empty())
    } else {
        collected(events.drop_last()).stepped(events.last())
    }
}

/// The deltas as events.
pub open spec fn delta_events(deltas: Seq<OutputModel>) -> Seq<Option<EventModel>> {
    deltas.map_values(|delta: OutputModel| Some(EventModel::Delta(delta)))
}

/// While a call goes on, what is collected is the fold of its increments.
pub proof fn law_pending_collection_is_the_fold(deltas: Seq<OutputModel>)
    ensures
        collected(delta_events(deltas)) == CollectionModel::Pending(folded(deltas)),
    decreases deltas.len(),
{
    let events = delta_events(deltas);
    if deltas.len() > 0 {
        law_pending_collection_is_the_fold(deltas.drop_last());
        assert(events.drop_last() =~= delta_events(deltas.drop_last()));
    }
}

/// A call that finishes gives the fold of all its increments; one that fails
/// gives the failure, and one that just ends is truncated, whatever came before.
pub proof fn law_collection_outcome(deltas: Seq<OutputModel>, end: Option<EventModel>)
    requires
        end is Some ==> end->0.is_terminal(),
    ensures
        collected(delta_events(deltas).push(end)) == CollectionModel::Ended(
            match end {
                Some(EventModel::Finished(last)) => Ok(folded(deltas.push(last))),
                Some(EventModel::Failed(error)) => Err(error),
                _ => Err(ErrorModel::ResponseTruncated),
            },
        ),
{
    let events = delta_events(deltas).push(end);
    law_pending_collection_is_the_fold(deltas);
    assert(events.drop_last() =~= delta_events(deltas));
    if let Some(EventModel::Finished(last)) = end {
        assert(deltas.push(last).drop_last() =~= deltas);
    }
}

/// The event of a call under its index, unless the call has ended.
pub open spec fn indexed_item(
    index: usize,
    ended: bool,
    event: Option<FrontendEvent>,
) -> Option<(usize, FrontendEvent)> {
    match event {
        Some(event) if !ended => Some((index, event)),
        _ => None,
    }
}

/// The events of one of several calls, each under the index of its call.
#[derive(Debug)]
pub struct IndexedEvents {
    index: usize,
    finished: bool,
}

impl IndexedEvents {
    /// The index of the call.
    pub closed spec fn call(self) -> usize {
        self.index
    }

    /// Whether the terminal event has passed.
    pub closed spec fn ended(self) -> bool {
        self.finished
    }

    /// A call whose events have not started.
    pub fn new(index: usize) -> (events: Self)
        ensures
            events.call() == index,
            !events.ended(),
    {
        IndexedEvents { index, finished: false }
    }

    /// Whether another event is worth waiting for.
    pub fn wants_event(&self) -> (wanted: bool)
        ensures
            wanted == !self.ended(),
    {
        !self.finished
    }

    /// Passes one event on, or ends. Nothing follows a terminal event.
    pub fn indexed_decode_stream(&mut self, event: Option<FrontendEvent>) -> (item: Option<
        (usize, FrontendEvent),
    >)
        ensures
            final(self).call() == old(self).call(),
            match event {
                Some(event) => if old(self).ended() {
                    item is None && final(self).ended()
                } else {
                    item == Some((old(self).call(), event)) && final(self).ended()
                        == event@.is_terminal()
                },
                None => item is None && final(self).ended() == old(self).ended(),
            },
            item == indexed_item(old(self).call(), old(self).ended(), event),
    {
        if self.finished {
            return None;
        }
        match event {
            Some(event) => {
                self.finished = event.is_terminal();
                Some((self.index, event))
            },
            None => None,
        }
    }
}

/// A failure is never answered with a success status, unless the scheduler
/// itself chose one.
pub proof fn law_failures_have_error_statuses(error: ErrorModel)
    requires
        !(error is RuntimeRejected),
    ensures
        400 <= error_http_status(error) <= 599,
{
}

/// A valid scheduler status reaches HTTP clients as it is, also where other
/// surfaces see only its category.
pub proof fn law_scheduler_status_is_preserved(message: Seq<char>, status: u16)
    requires
        100 <= status <= 999,
    ensures
        error_http_status(ErrorModel::rejection(message, status)) == status,
{
}

/// Media is found wherever it stands: under one of its keys, however deep in
/// arrays and objects, and nowhere else.
pub proof fn law_media_is_found_anywhere(value: JsonModel)
    ensures
        media_inside(value) <==> match value {
            JsonModel::Object(entries) => exists|i: int|
                0 <= i < entries.len() && ((#[trigger] entries[i]).0 == "image_url"@ || entries[i].0
                    == "video_url"@ || entries[i].0 == "input_audio"@ || entries[i].0
                    == "audio_url"@ || entries[i].0 == "file"@ || media_inside(entries[i].1)),
            JsonModel::Array(items) => exists|i: int|
                0 <= i < items.len() && media_inside(#[trigger] items[i]),
            _ => false,
        },
{
}

/// Which HTTP status a failure is answered with: the scheduler's own wherever it
/// is one, else one by what went wrong.
pub proof fn law_failures_have_http_statuses(error: ErrorModel)
    ensures
        error_http_status(error) == match error {
            ErrorModel::InvalidArgument(_) => 400u16,
            ErrorModel::Unavailable => 503,
            ErrorModel::Overloaded(_) => 503,
            ErrorModel::Cancelled(_) => 499,
            ErrorModel::ResponseTruncated => 500,
            ErrorModel::InvalidResponse(_) => 500,
            ErrorModel::Internal(_) => 500,
            ErrorModel::RuntimeRejected { legacy_http_status, .. } => if legacy_http_status < 100
                || legacy_http_status > 999 {
                500
            } else {
                legacy_http_status
            },
        },
{
}

/// An OpenAI error payload tells a client what went wrong: the message and the
/// status as they are, and a type that follows from the status.
pub proof fn law_error_payload_by_key(code: u16, message: Seq<char>)
    ensures
        error_payload_model(code, message).get("error"@) matches Some(error) && {
            &&& error.get("message"@) == Some(JsonModel::Text(message))
            &&& error.get("code"@) == Some(JsonModel::Unsigned(code as u64))
            &&& error.get("object"@) == Some(JsonModel::Text("error"@))
            &&& error.get("param"@) == Some(JsonModel::Null)
            &&& code == 401 ==> error.get("type"@) == Some(
                JsonModel::Text("AuthenticationError"@),
            )
            &&& 500 <= code <= 599 ==> error.get("type"@) == Some(
                JsonModel::Text("InternalServerError"@),
            )
            &&& code != 401 && !(500 <= code <= 599) ==> error.get("type"@) == Some(
                JsonModel::Text("BadRequestError"@),
            )
            &&& (error matches JsonModel::Object(entries) && entries.len() == 5)
        },
        error_payload_model(code, message) matches JsonModel::Object(entries) && entries.len() == 1,
{
    reveal_strlit("object");
    reveal_strlit("message");
    reveal_strlit("type");
    reveal_strlit("param");
    reveal_strlit("code");
    assert("object"@.len() == 6);
    assert("message"@.len() == 7);
    assert("type"@.len() == 4 && "type"@[0] == 't');
    assert("param"@.len() == 5);
    assert("code"@.len() == 4 && "code"@[0] == 'c');
    reveal_with_fuel(crate::json::lookup, 6);
    let outer = error_payload_model(code, message)->Object_0;
    let inner = outer[0].1->Object_0;
    assert(inner.drop_first()[0] == inner[1]);
    assert(inner.drop_first().drop_first()[0] == inner[2]);
    assert(inner.drop_first().drop_first().drop_first()[0] == inner[3]);
    assert(inner.drop_first().drop_first().drop_first().drop_first()[0] == inner[4]);
}

/// A call that finishes is collected whole: its text and its tokens are those of
/// all its increments, joined in order, and its completion count is their sum. One
/// that fails gives its failure, and one that just ends counts as truncated.
pub proof fn law_collected_output_is_whole(
    deltas: Seq<OutputModel>,
    last: OutputModel,
    error: ErrorModel,
)
    ensures
        collected(delta_events(deltas).push(Some(EventModel::Finished(last)))) matches
            CollectionModel::Ended(Ok(output)) && {
            let all = deltas.push(last);
            &&& output.text == all.map_values(|part: OutputModel| part.text).flatten()
            &&& output.token_ids == all.map_values(|part: OutputModel| part.token_ids).flatten()
            &&& output.completion_tokens == all.fold_left(
                0nat,
                |sum: nat, part: OutputModel| sum + part.completion_tokens,
            )
            &&& output.prompt_tokens == last.prompt_tokens
            &&& last.finish_reason is Some ==> output.finish_reason == last.finish_reason
        },
        collected(delta_events(deltas).push(Some(EventModel::Failed(error))))
            == CollectionModel::Ended(Err(error)),
        collected(delta_events(deltas).push(None)) == CollectionModel::Ended(
            Err(ErrorModel::ResponseTruncated),
        ),
{
    law_collection_outcome(deltas, Some(EventModel::Finished(last)));
    law_collection_outcome(deltas, Some(EventModel::Failed(error)));
    law_collection_outcome(deltas, None);
    let all = deltas.push(last);
    crate::output::law_cumulative_output_joins_the_increments(all);
    assert(all.drop_last() =~= deltas);
}

/// A collection that has ended stays as it is.
pub proof fn law_ended_collections_stay(
    outcome: Result<OutputModel, ErrorModel>,
    event: Option<EventModel>,
)
    ensures
        CollectionModel::Ended(outcome).stepped(event) == CollectionModel::Ended(outcome),
{
}

/// Chat needs a tokenizer that was not skipped and that has a path.
pub proof fn law_chat_needs_a_tokenizer(args: ServerArgs)
    ensures
        chat_possible(args) <==> !args.skip_tokenizer_init && args.tokenizer_path@.len() != 0,
{
}

/// A request that could not be submitted is told the failure itself, in the framing
/// that it was promised: as unavailable where the intake is closed, else as a fault
/// of the server.
pub proof fn law_failed_submissions(failure: OpenAiError, error: ErrorModel, stream: bool)
    requires
        submission_failed(failure, error, stream),
    ensures
        error is Unavailable ==> failure.code == 503 && failure.message@ == "service unavailable"@,
        !(error is Unavailable) ==> failure.code == 500,
        failure.message@ == error.text(),
        failure.stream == stream,
        failure.kind matches Some(kind) && kind == error.kind(),
{
}

/// Chat is enabled exactly when it is possible and its template could be loaded, and
/// then with that template.
pub proof fn law_chat_formatter<F>(possible: bool, loaded: Result<F, String>)
    ensures
        chat_formatter_model(possible, loaded) is Some <==> possible && loaded is Ok,
        loaded matches Ok(formatter) ==> (possible ==> chat_formatter_model(possible, loaded)
            == Some(formatter)),
{
}

/// The seconds are those of the clock as long as 32 bits hold them, never more than
/// that, and zero for a clock before the epoch.
pub proof fn law_seconds(elapsed: u64)
    ensures
        elapsed <= 4_294_967_295 ==> seconds_model(Some(elapsed)) == elapsed,
        elapsed > 4_294_967_295 ==> seconds_model(Some(elapsed)) == 4_294_967_295,
        seconds_model(None) == 0,
{
}

/// The events of one of several calls are passed on as they are, each under the
/// index of its own call, and none after the call has ended.
pub proof fn law_indexed_events(index: usize, event: FrontendEvent)
    ensures
        indexed_item(index, false, Some(event)) == Some((index, event)),
        indexed_item(index, true, Some(event)) is None,
        indexed_item(index, false, None) is None,
        indexed_item(index, true, None) is None,
{
}

/// A collection means what it holds.
pub proof fn law_collections_mean_themselves(collection: Collection, event: Option<FrontendEvent>)
    ensures
        collection matches Collection::Pending(output) ==> collection@ == CollectionModel::Pending(
            output@,
        ),
        collection matches Collection::Ended(Ok(output)) ==> collection@ == CollectionModel::Ended(
            Ok(output@),
        ),
        collection matches Collection::Ended(Err(error)) ==> collection@ == CollectionModel::Ended(
            Err(error@),
        ),
        event matches Some(event) ==> opt_event(Some(event)) == Some(event@),
        event is None ==> opt_event(event) is None,
{
}

/// A document is passed on byte by byte; one that could not be serialized is a fault
/// of the server, in the serializer's own words, and no stream.
pub proof fn law_serialized_documents<S>(encoded: Result<Vec<u8>, String>)
    ensures
        encoded matches Ok(bytes) ==> (json_result::<S>(encoded) matches OpenAiResponse::Json(sent)
            && sent@ == bytes@),
        encoded matches Err(message) ==> (json_result::<S>(encoded) matches OpenAiResponse::Error(
            error,
        ) && error.code == 500 && error.message@ == message@ && !error.stream
            && error.kind is None),
{
}

} // verus!
