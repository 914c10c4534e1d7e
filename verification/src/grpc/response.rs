//! Generation events as `runtime.v1` stream items and statuses.

use vstd::prelude::*;

use crate::columns::copy_i32;
use crate::contract::{ErrorModel, EventModel, FrontendError, FrontendErrorKind, FrontendEvent};
use crate::grpc::status::{GrpcCode, GrpcStatus, StatusModel};
use crate::json::{entries_model, Json, JsonModel};
use crate::native_generation::{meta_entries, meta_info_entries};
use crate::openai::{collected, delta_events, law_collection_outcome, CollectionModel};
use crate::output::{all_completion_tokens, folded, FrontendOutput, OutputModel};

verus! {

/// The gRPC code of a failure category.
pub open spec fn kind_code(kind: FrontendErrorKind) -> GrpcCode {
    match kind {
        FrontendErrorKind::InvalidArgument => GrpcCode::InvalidArgument,
        FrontendErrorKind::NotFound => GrpcCode::NotFound,
        FrontendErrorKind::FailedPrecondition => GrpcCode::FailedPrecondition,
        FrontendErrorKind::ResourceExhausted => GrpcCode::ResourceExhausted,
        FrontendErrorKind::Cancelled => GrpcCode::Cancelled,
        FrontendErrorKind::DeadlineExceeded => GrpcCode::DeadlineExceeded,
        FrontendErrorKind::Unavailable => GrpcCode::Unavailable,
        FrontendErrorKind::Internal => GrpcCode::Internal,
    }
}

/// The status of a failure.
pub open spec fn error_status(error: ErrorModel) -> StatusModel {
    StatusModel { code: kind_code(error.kind()), message: error.text() }
}

/// Answers with the code of a failure category.
pub fn status_from_kind(kind: FrontendErrorKind, message: String) -> (status: GrpcStatus)
    ensures
        status@ == (StatusModel { code: kind_code(kind), message: message@ }),
{
    let code = match kind {
        FrontendErrorKind::InvalidArgument => GrpcCode::InvalidArgument,
        FrontendErrorKind::NotFound => GrpcCode::NotFound,
        FrontendErrorKind::FailedPrecondition => GrpcCode::FailedPrecondition,
        FrontendErrorKind::ResourceExhausted => GrpcCode::ResourceExhausted,
        FrontendErrorKind::Cancelled => GrpcCode::Cancelled,
        FrontendErrorKind::DeadlineExceeded => GrpcCode::DeadlineExceeded,
        FrontendErrorKind::Unavailable => GrpcCode::Unavailable,
        FrontendErrorKind::Internal => GrpcCode::Internal,
    };
    GrpcStatus { code, message }
}

/// Answers with the status of a failure.
pub fn status(error: FrontendError) -> (status: GrpcStatus)
    ensures
        status@ == error_status(error@),
{
    status_from_kind(error.kind(), error.message())
}

/// What one message of a native stream carries besides its metadata.
#[derive(Debug)]
pub enum NativePayload {
    Text(String),
    OutputIds(Vec<i32>),
}

/// One message of a native stream. Each metadata value is encoded on its own,
/// strings among them.
#[derive(Debug)]
pub struct NativeFrame {
    pub payload: NativePayload,
    pub meta_info: Vec<(String, Json)>,
    pub finished: bool,
}

/// What a [`NativePayload`] means.
#[verifier::ext_equal]
pub enum PayloadModel {
    Text(Seq<char>),
    OutputIds(Seq<i32>),
}

/// What a [`NativeFrame`] means.
#[verifier::ext_equal]
pub struct FrameModel {
    pub payload: PayloadModel,
    pub meta_info: Seq<(Seq<char>, JsonModel)>,
    pub finished: bool,
}

impl View for NativeFrame {
    type V = FrameModel;

    open spec fn view(&self) -> FrameModel {
        FrameModel {
            payload: match self.payload {
                NativePayload::Text(text) => PayloadModel::Text(text@),
                NativePayload::OutputIds(tokens) => PayloadModel::OutputIds(tokens@),
            },
            meta_info: entries_model(self.meta_info@),
            finished: self.finished,
        }
    }
}

/// The frame that shows an output.
pub open spec fn frame_model(
    text_output: bool,
    output: OutputModel,
    public_id: Seq<char>,
    finished: bool,
) -> FrameModel {
    FrameModel {
        payload: if text_output {
            PayloadModel::Text(output.text)
        } else {
            PayloadModel::OutputIds(output.token_ids)
        },
        meta_info: meta_entries(output, public_id),
        finished,
    }
}

/// Lists the metadata of a native response. The values are those of the HTTP
/// surface's `meta_info` object.
pub fn grpc_meta_info(output: &FrontendOutput, public_id: &str) -> (entries: Vec<(String, Json)>)
    ensures
        entries_model(entries@) == meta_entries(output@, public_id@),
{
    meta_info_entries(output, public_id)
}

/// What a native stream waits for, and gets.
#[derive(Debug)]
pub enum StreamInput {
    Event(FrontendEvent),
    /// The call has no more events.
    Closed,
    /// No event came in time.
    TimedOut,
}

/// What a [`StreamInput`] means.
#[verifier::ext_equal]
pub enum InputModel {
    Event(EventModel),
    Closed,
    TimedOut,
}

impl View for StreamInput {
    type V = InputModel;

    open spec fn view(&self) -> InputModel {
        match self {
            StreamInput::Event(event) => InputModel::Event(event@),
            StreamInput::Closed => InputModel::Closed,
            StreamInput::TimedOut => InputModel::TimedOut,
        }
    }
}

/// A native stream: what it has passed on so far.
///
/// The runtime's events are increments. An incremental stream passes each of
/// them on, with the cumulative completion count; any other stream passes on
/// the cumulative output.
#[derive(Debug)]
pub struct GenerationStream {
    public_id: String,
    text_output: bool,
    incremental: bool,
    cumulative: FrontendOutput,
    completion_tokens: u64,
    ended: bool,
}

/// What a [`GenerationStream`] has passed on.
#[verifier::ext_equal]
pub struct StreamModel {
    pub public_id: Seq<char>,
    pub text_output: bool,
    pub incremental: bool,
    pub cumulative: OutputModel,
    pub completion_tokens: nat,
    pub ended: bool,
}

impl View for GenerationStream {
    type V = StreamModel;

    closed spec fn view(&self) -> StreamModel {
        StreamModel {
            public_id: self.public_id@,
            text_output: self.text_output,
            incremental: self.incremental,
            cumulative: self.cumulative@,
            completion_tokens: self.completion_tokens as nat,
            ended: self.ended,
        }
    }
}

impl StreamModel {
    /// A stream that has passed nothing on.
    pub open spec fn fresh(public_id: Seq<char>, text_output: bool, incremental: bool) -> Self {
        StreamModel {
            public_id,
            text_output,
            incremental,
            cumulative: OutputModel::empty(),
            completion_tokens: 0,
            ended: false,
        }
    }

    /// Both modes count completion tokens from the start.
    pub open spec fn well_formed(self) -> bool {
        !self.incremental ==> self.completion_tokens == self.cumulative.completion_tokens
    }

    /// The output that the next frame shows.
    pub open spec fn shown(self, delta: OutputModel) -> OutputModel {
        if self.incremental {
            OutputModel {
                completion_tokens: self.completion_tokens + delta.completion_tokens,
                ..delta
            }
        } else {
            self.cumulative.appended(delta)
        }
    }

    /// The stream after one increment.
    pub open spec fn grown(self, delta: OutputModel, finished: bool) -> Self {
        StreamModel {
            cumulative: if self.incremental {
                self.cumulative
            } else {
                self.cumulative.appended(delta)
            },
            completion_tokens: self.completion_tokens + delta.completion_tokens,
            ended: finished,
            ..self
        }
    }

    /// The stream after one input.
    pub open spec fn next(self, input: InputModel) -> Self {
        if self.ended {
            self
        } else {
            match input {
                InputModel::Event(EventModel::Delta(delta)) => self.grown(delta, false),
                InputModel::Event(EventModel::Finished(delta)) => self.grown(delta, true),
                _ => StreamModel { ended: true, ..self },
            }
        }
    }

    /// What the stream passes on for an input.
    pub open spec fn item(self, input: InputModel) -> Option<Result<FrameModel, StatusModel>> {
        if self.ended {
            None
        } else {
            match input {
                InputModel::Event(EventModel::Delta(delta)) => Some(
                    Ok(frame_model(self.text_output, self.shown(delta), self.public_id, false)),
                ),
                InputModel::Event(EventModel::Finished(delta)) => Some(
                    Ok(frame_model(self.text_output, self.shown(delta), self.public_id, true)),
                ),
                InputModel::Event(EventModel::Failed(error)) => Some(Err(error_status(error))),
                InputModel::Closed => None,
                InputModel::TimedOut => Some(
                    Err(
                        StatusModel {
                            code: GrpcCode::DeadlineExceeded,
                            message: "Stream chunk timed out"@,
                        },
                    ),
                ),
            }
        }
    }

    /// Whether the completion count stays in range.
    pub open spec fn fits(self, input: InputModel) -> bool {
        match input {
            InputModel::Event(EventModel::Delta(delta)) => self.completion_tokens
                + delta.completion_tokens <= u64::MAX,
            InputModel::Event(EventModel::Finished(delta)) => self.completion_tokens
                + delta.completion_tokens <= u64::MAX,
            _ => true,
        }
    }
}

/// What an item that was passed on means.
pub open spec fn item_model(item: Option<Result<NativeFrame, GrpcStatus>>) -> Option<
    Result<FrameModel, StatusModel>,
> {
    match item {
        Some(Ok(frame)) => Some(Ok(frame@)),
        Some(Err(status)) => Some(Err(status@)),
        None => None,
    }
}

impl GenerationStream {
    /// A stream of texts.
    pub fn text_generate_stream(public_id: &str, incremental: bool) -> (stream: Self)
        ensures
            stream@ == StreamModel::fresh(public_id@, true, incremental),
            stream@.well_formed(),
    {
        GenerationStream {
            public_id: public_id.to_owned(),
            text_output: true,
            incremental,
            cumulative: FrontendOutput::default(),
            completion_tokens: 0,
            ended: false,
        }
    }

    /// A stream of tokens.
    pub fn generate_stream(public_id: &str, incremental: bool) -> (stream: Self)
        ensures
            stream@ == StreamModel::fresh(public_id@, false, incremental),
            stream@.well_formed(),
    {
        GenerationStream {
            public_id: public_id.to_owned(),
            text_output: false,
            incremental,
            cumulative: FrontendOutput::default(),
            completion_tokens: 0,
            ended: false,
        }
    }

    /// Whether the stream waits for more.
    pub fn wants_input(&self) -> (wanted: bool)
        ensures
            wanted == !self@.ended,
    {
        !self.ended
    }

    /// The completion tokens counted so far.
    pub fn completion_tokens(&self) -> (count: u64)
        ensures
            count == self@.completion_tokens,
    {
        self.completion_tokens
    }

    /// Shows an output.
    fn frame(&self, output: &FrontendOutput, finished: bool) -> (frame: NativeFrame)
        ensures
            frame@ == frame_model(self@.text_output, output@, self@.public_id, finished),
    {
        let payload = if self.text_output {
            NativePayload::Text(output.text.clone())
        } else {
            NativePayload::OutputIds(copy_i32(&output.token_ids))
        };
        let meta_info = grpc_meta_info(output, self.public_id.as_str());
        NativeFrame { payload, meta_info, finished }
    }

    /// Takes one input in, and passes on what follows from it. A failure and a
    /// timeout end the stream with a status; nothing follows the end.
    pub fn generation_stream(&mut self, input: StreamInput) -> (item: Option<
        Result<NativeFrame, GrpcStatus>,
    >)
        requires
            old(self)@.well_formed(),
            old(self)@.ended || old(self)@.fits(input@),
        ensures
            final(self)@ == old(self)@.next(input@),
            item_model(item) == old(self)@.item(input@),
            final(self)@.well_formed(),
            old(self)@.ended ==> item is None,
            item matches Some(Ok(frame)) ==> {
                &&& frame.finished <==> (input matches StreamInput::Event(
                    FrontendEvent::Finished(_),
                ))
                &&& frame.payload is Text <==> old(self)@.text_output
            },
            !old(self)@.ended && old(self)@.incremental ==> match (input, item) {
                (
                    StreamInput::Event(FrontendEvent::Delta(delta)),
                    Some(Ok(frame)),
                ) => match frame.payload {
                    NativePayload::Text(text) => text@ == delta.text@,
                    NativePayload::OutputIds(tokens) => tokens@ == delta.token_ids@,
                },
                (
                    StreamInput::Event(FrontendEvent::Finished(delta)),
                    Some(Ok(frame)),
                ) => match frame.payload {
                    NativePayload::Text(text) => text@ == delta.text@,
                    NativePayload::OutputIds(tokens) => tokens@ == delta.token_ids@,
                },
                _ => true,
            },
            !old(self)@.ended && !old(self)@.incremental ==> match (input, item) {
                (
                    StreamInput::Event(FrontendEvent::Delta(delta)),
                    Some(Ok(frame)),
                ) => match frame.payload {
                    NativePayload::Text(text) => text@ == old(self)@.cumulative.text + delta.text@,
                    NativePayload::OutputIds(tokens) => tokens@ == old(self)@.cumulative.token_ids
                        + delta.token_ids@,
                },
                (
                    StreamInput::Event(FrontendEvent::Finished(delta)),
                    Some(Ok(frame)),
                ) => match frame.payload {
                    NativePayload::Text(text) => text@ == old(self)@.cumulative.text + delta.text@,
                    NativePayload::OutputIds(tokens) => tokens@ == old(self)@.cumulative.token_ids
                        + delta.token_ids@,
                },
                _ => true,
            },
    {
        if self.ended {
            return None;
        }
        let event = match input {
            StreamInput::Event(event) => event,
            StreamInput::Closed => {
                self.ended = true;
                return None;
            },
            StreamInput::TimedOut => {
                self.ended = true;
                return Some(
                    Err(GrpcStatus::new(GrpcCode::DeadlineExceeded, "Stream chunk timed out")),
                );
            },
        };
        let (delta, finished) = match event {
            FrontendEvent::Delta(output) => (output, false),
            FrontendEvent::Finished(output) => (output, true),
            FrontendEvent::Failed(error) => {
                self.ended = true;
                return Some(Err(status(error)));
            },
        };
        self.completion_tokens = self.completion_tokens + delta.completion_tokens;
        let frame = if self.incremental {
            let mut delta = delta;
            delta.completion_tokens = self.completion_tokens;
            self.frame(&delta, finished)
        } else {
            self.cumulative.append_delta(&delta);
            self.frame(&self.cumulative, finished)
        };
        self.ended = finished;
        Some(Ok(frame))
    }
}

/// The stream after all the inputs.
pub open spec fn stream_after(start: StreamModel, inputs: Seq<InputModel>) -> StreamModel
    decreases inputs.len(),
{
    if inputs.len() == 0 {
        start
    } else {
        stream_after(start, inputs.drop_last()).next(inputs.last())
    }
}

/// The increments as inputs.
pub open spec fn delta_inputs(deltas: Seq<OutputModel>) -> Seq<InputModel> {
    deltas.map_values(|delta: OutputModel| InputModel::Event(EventModel::Delta(delta)))
}

/// While a stream goes on, it holds the fold of the increments, unless it is
/// incremental, and the sum of their completion counts in either mode.
proof fn lemma_stream_after_deltas(
    public_id: Seq<char>,
    text_output: bool,
    incremental: bool,
    deltas: Seq<OutputModel>,
)
    ensures
        ({
            let start = StreamModel::fresh(public_id, text_output, incremental);
            let now = stream_after(start, delta_inputs(deltas));
            &&& !now.ended
            &&& now.public_id == public_id
            &&& now.text_output == text_output
            &&& now.incremental == incremental
            &&& now.completion_tokens == all_completion_tokens(deltas)
            &&& !incremental ==> now.cumulative == folded(deltas)
        }),
    decreases deltas.len(),
{
    if deltas.len() > 0 {
        lemma_stream_after_deltas(public_id, text_output, incremental, deltas.drop_last());
        assert(delta_inputs(deltas).drop_last() =~= delta_inputs(deltas.drop_last()));
    }
}

/// After any increments, the next frame of a cumulative stream shows the fold
/// of them all, and that of an incremental stream shows the last one alone; in
/// either mode it reports the cumulative completion count.
pub proof fn law_stream_frames(
    public_id: Seq<char>,
    text_output: bool,
    incremental: bool,
    deltas: Seq<OutputModel>,
    delta: OutputModel,
    finished: bool,
)
    ensures
        ({
            let start = StreamModel::fresh(public_id, text_output, incremental);
            let now = stream_after(start, delta_inputs(deltas));
            let event = if finished {
                EventModel::Finished(delta)
            } else {
                EventModel::Delta(delta)
            };
            let all = deltas.push(delta);
            let shown = if incremental {
                OutputModel { completion_tokens: all_completion_tokens(all), ..delta }
            } else {
                folded(all)
            };
            &&& now.item(InputModel::Event(event)) == Some(
                Ok::<FrameModel, StatusModel>(
                    frame_model(text_output, shown, public_id, finished),
                ),
            )
            &&& shown.completion_tokens == all_completion_tokens(all)
            &&& now.next(InputModel::Event(event)).ended == finished
        }),
{
    lemma_stream_after_deltas(public_id, text_output, incremental, deltas);
    crate::output::law_cumulative_output(deltas.push(delta));
    assert(deltas.push(delta).drop_last() =~= deltas);
}

/// A stream passes nothing on after its end, whatever comes in.
pub proof fn law_nothing_follows_the_end(stream: StreamModel, input: InputModel)
    requires
        stream.ended,
    ensures
        stream.item(input) is None,
        stream.next(input) == stream,
{
}

/// A finished frame, a status and the end of the stream are the same thing: an
/// item ends the stream exactly when it is a finished frame or a status.
pub proof fn law_terminal_items_end_the_stream(stream: StreamModel, input: InputModel)
    requires
        !stream.ended,
    ensures
        match stream.item(input) {
            Some(Ok(frame)) => frame.finished == stream.next(input).ended,
            Some(Err(_)) => stream.next(input).ended,
            None => stream.next(input).ended,
        },
{
}

/// The metadata of a frame is the `meta_info` object of the HTTP surface, entry
/// by entry.
pub proof fn law_frames_carry_the_native_metadata(
    text_output: bool,
    output: OutputModel,
    public_id: Seq<char>,
    finished: bool,
)
    ensures
        JsonModel::Object(frame_model(text_output, output, public_id, finished).meta_info)
            == JsonModel::Object(meta_entries(output, public_id)),
{
}

/// The last frame of a cumulative stream shows what a caller that waits for the
/// whole output gets.
pub proof fn law_stream_ends_with_the_collected_output(
    public_id: Seq<char>,
    text_output: bool,
    deltas: Seq<OutputModel>,
    last: OutputModel,
)
    ensures
        ({
            let start = StreamModel::fresh(public_id, text_output, false);
            let shown = stream_after(start, delta_inputs(deltas)).shown(last);
            collected(delta_events(deltas).push(Some(EventModel::Finished(last))))
                == CollectionModel::Ended(Ok(shown))
        }),
{
    lemma_stream_after_deltas(public_id, text_output, false, deltas);
    law_collection_outcome(deltas, Some(EventModel::Finished(last)));
    assert(deltas.push(last).drop_last() =~= deltas);
}

/// What a client sees of a generation that is streamed: a cumulative stream shows
/// with each frame everything so far, the texts or the tokens of all increments
/// joined in order; an incremental stream shows the newest increment alone. Every
/// frame names the request, carries the newest prompt count and the sum of all
/// completion counts, and is marked as finished exactly when it is the last.
pub proof fn law_frames_show_the_increments(
    public_id: Seq<char>,
    text_output: bool,
    incremental: bool,
    deltas: Seq<OutputModel>,
    delta: OutputModel,
    finished: bool,
)
    ensures
        ({
            let start = StreamModel::fresh(public_id, text_output, incremental);
            let now = stream_after(start, delta_inputs(deltas));
            let all = deltas.push(delta);
            let event = if finished {
                EventModel::Finished(delta)
            } else {
                EventModel::Delta(delta)
            };
            match now.item(InputModel::Event(event)) {
                Some(Ok(frame)) => {
                    let meta = JsonModel::Object(frame.meta_info);
                    &&& !text_output && !incremental ==> frame.payload == PayloadModel::OutputIds(
                        all.map_values(|part: OutputModel| part.token_ids).flatten(),
                    )
                    &&& !text_output && incremental ==> frame.payload == PayloadModel::OutputIds(
                        delta.token_ids,
                    )
                    &&& text_output && !incremental ==> frame.payload == PayloadModel::Text(
                        all.map_values(|part: OutputModel| part.text).flatten(),
                    )
                    &&& text_output && incremental ==> frame.payload == PayloadModel::Text(
                        delta.text,
                    )
                    &&& frame.finished == finished
                    &&& meta.get("id"@) == Some(JsonModel::Text(public_id))
                    &&& meta.get("prompt_tokens"@) == Some(
                        JsonModel::Unsigned(delta.prompt_tokens as u64),
                    )
                    &&& meta.get("completion_tokens"@) == Some(
                        JsonModel::Unsigned(
                            all.fold_left(
                                0nat,
                                |sum: nat, part: OutputModel| sum + part.completion_tokens,
                            ) as u64,
                        ),
                    )
                    &&& delta.finish_reason matches Some(reason) ==> meta.get("finish_reason"@)
                        == Some(reason.value)
                },
                _ => false,
            }
        }),
{
    let all = deltas.push(delta);
    let start = StreamModel::fresh(public_id, text_output, incremental);
    let now = stream_after(start, delta_inputs(deltas));
    law_stream_frames(public_id, text_output, incremental, deltas, delta, finished);
    crate::output::law_cumulative_output_joins_the_increments(all);
    crate::output::law_cumulative_output(all);
    assert(all.drop_last() =~= deltas);
    let shown = if incremental {
        OutputModel { completion_tokens: all_completion_tokens(all), ..delta }
    } else {
        folded(all)
    };
    crate::native_generation::law_meta_info_by_key(shown, public_id);
}

/// Each frame of a cumulative stream extends the one before it by exactly the
/// newest increment, so a client that keeps the last frame has lost nothing.
pub proof fn law_cumulative_frames_extend_each_other(
    public_id: Seq<char>,
    text_output: bool,
    deltas: Seq<OutputModel>,
    earlier: OutputModel,
    later: OutputModel,
)
    ensures
        ({
            let start = StreamModel::fresh(public_id, text_output, false);
            let now = stream_after(start, delta_inputs(deltas));
            let input = InputModel::Event(EventModel::Delta(earlier));
            match (
                now.item(input),
                now.next(input).item(InputModel::Event(EventModel::Finished(later))),
            ) {
                (Some(Ok(first)), Some(Ok(second))) => !first.finished && second.finished && (
                match (first.payload, second.payload) {
                    (PayloadModel::Text(shorter), PayloadModel::Text(longer)) => text_output
                        && longer == shorter + later.text,
                    (PayloadModel::OutputIds(shorter), PayloadModel::OutputIds(longer)) =>
                        !text_output && longer == shorter + later.token_ids,
                    _ => false,
                }),
                _ => false,
            }
        }),
{
    lemma_stream_after_deltas(public_id, text_output, false, deltas);
}

/// A stream that does not go on well ends in the way a client can tell: a failure
/// with its own code and message, a timeout with a deadline status, and a call
/// that just closes with nothing.
pub proof fn law_streams_that_stop(stream: StreamModel, error: ErrorModel)
    requires
        !stream.ended,
    ensures
        stream.item(InputModel::Event(EventModel::Failed(error))) matches Some(Err(status))
            && status.code == error_status(error).code && status.message == error.text(),
        stream.item(InputModel::TimedOut) == Some(
            Err::<FrameModel, StatusModel>(
                StatusModel {
                    code: GrpcCode::DeadlineExceeded,
                    message: "Stream chunk timed out"@,
                },
            ),
        ),
        stream.item(InputModel::Closed) is None,
        stream.next(InputModel::Event(EventModel::Failed(error))).ended,
        stream.next(InputModel::TimedOut).ended,
        stream.next(InputModel::Closed).ended,
{
}

/// Every failure has one code, by what went wrong, and its own message.
pub proof fn law_failure_codes(error: ErrorModel)
    ensures
        error_status(error).code == match error {
            ErrorModel::InvalidArgument(_) => GrpcCode::InvalidArgument,
            ErrorModel::Unavailable => GrpcCode::Unavailable,
            ErrorModel::Overloaded(_) => GrpcCode::ResourceExhausted,
            ErrorModel::Cancelled(_) => GrpcCode::Cancelled,
            ErrorModel::ResponseTruncated => GrpcCode::Internal,
            ErrorModel::InvalidResponse(_) => GrpcCode::Internal,
            ErrorModel::Internal(_) => GrpcCode::Internal,
            ErrorModel::RuntimeRejected { kind, .. } => match kind {
                FrontendErrorKind::InvalidArgument => GrpcCode::InvalidArgument,
                FrontendErrorKind::NotFound => GrpcCode::NotFound,
                FrontendErrorKind::FailedPrecondition => GrpcCode::FailedPrecondition,
                FrontendErrorKind::ResourceExhausted => GrpcCode::ResourceExhausted,
                FrontendErrorKind::Cancelled => GrpcCode::Cancelled,
                FrontendErrorKind::DeadlineExceeded => GrpcCode::DeadlineExceeded,
                FrontendErrorKind::Unavailable => GrpcCode::Unavailable,
                FrontendErrorKind::Internal => GrpcCode::Internal,
            },
        },
        error_status(error).message == match error {
            ErrorModel::InvalidArgument(message) => message,
            ErrorModel::Unavailable => "service unavailable"@,
            ErrorModel::Overloaded(message) => message,
            ErrorModel::Cancelled(message) => message,
            ErrorModel::ResponseTruncated => "response truncated before completion"@,
            ErrorModel::InvalidResponse(message) => message,
            ErrorModel::Internal(message) => message,
            ErrorModel::RuntimeRejected { message, .. } => message,
        },
{
}

/// A category alone has its code too, and different categories have different
/// codes.
pub proof fn law_categories_keep_apart(first: FrontendErrorKind, second: FrontendErrorKind)
    ensures
        kind_code(first) == kind_code(second) ==> first == second,
        kind_code(FrontendErrorKind::InvalidArgument) == GrpcCode::InvalidArgument,
        kind_code(FrontendErrorKind::NotFound) == GrpcCode::NotFound,
        kind_code(FrontendErrorKind::FailedPrecondition) == GrpcCode::FailedPrecondition,
        kind_code(FrontendErrorKind::ResourceExhausted) == GrpcCode::ResourceExhausted,
        kind_code(FrontendErrorKind::Cancelled) == GrpcCode::Cancelled,
        kind_code(FrontendErrorKind::DeadlineExceeded) == GrpcCode::DeadlineExceeded,
        kind_code(FrontendErrorKind::Unavailable) == GrpcCode::Unavailable,
        kind_code(FrontendErrorKind::Internal) == GrpcCode::Internal,
{
}

/// A frame means its own fields, and its metadata its own entries.
pub proof fn law_frame_means_its_fields(frame: NativeFrame)
    ensures
        frame@.finished == frame.finished,
        frame.payload matches NativePayload::Text(text) ==> frame@.payload == PayloadModel::Text(
            text@,
        ),
        frame.payload matches NativePayload::OutputIds(tokens) ==> frame@.payload
            == PayloadModel::OutputIds(tokens@),
        frame@.meta_info.len() == frame.meta_info@.len(),
        forall|i: int|
            0 <= i < frame.meta_info@.len() ==> (#[trigger] frame@.meta_info[i]) == (
                frame.meta_info@[i].0@,
                frame.meta_info@[i].1@,
            ),
{
}

/// What goes into a stream and what comes out of it mean what they hold.
pub proof fn law_stream_items_mean_themselves(
    input: StreamInput,
    item: Option<Result<NativeFrame, GrpcStatus>>,
)
    ensures
        input matches StreamInput::Event(event) ==> input@ == InputModel::Event(event@),
        input is Closed ==> input@ is Closed,
        input is TimedOut ==> input@ is TimedOut,
        item matches Some(Ok(frame)) ==> item_model(item) == Some(
            Ok::<FrameModel, StatusModel>(frame@),
        ),
        item matches Some(Err(status)) ==> item_model(item) == Some(
            Err::<FrameModel, StatusModel>(
                StatusModel { code: status.code, message: status.message@ },
            ),
        ),
        item is None ==> item_model(item) is None,
{
}

} // verus!
