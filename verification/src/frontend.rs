//! The transport-neutral entry into the runtime: what is submitted, what an
//! answer means, and when an abandoned request must be aborted.
//!
//! Channels and waiting are left to the caller. Everything here is a decision
//! on what was received so far.

use std::collections::BTreeMap;

use vstd::prelude::*;
use vstd::utf8::{
    decode_utf8, decode_utf8_encode_utf8, encode_utf8, encode_utf8_decode_utf8, valid_utf8,
};

use crate::config::ServerArgs;
use crate::contract::{
    ErrorModel, EventModel, FrontendError, FrontendErrorKind, FrontendEvent, HealthStatus,
};
use crate::error::Error;
use crate::ids::{Rid, RidModel};
use crate::metadata::{FrontendMetadata, InternalState};
use crate::openai::{collected, delta_events, law_collection_outcome, CollectionModel};
use crate::output::{chunk_output, folded, ChunkEvent, FrontendOutput, OutputModel};
use crate::request::{FrontendRequest, RequestModel, SamplingModel, Setting};
use crate::text::{concat2, string_from_utf8};

verus! {

/// The host that makes the key-value connector do nothing.
pub open spec fn fake_bootstrap_host() -> Seq<char> {
    "2.2.2.2"@
}

/// How the frontend was set up.
#[derive(Debug)]
pub struct FrontendConfig {
    pub response_capacity: usize,
    /// Whether the server counts as started without a warm-up.
    pub startup_ready: bool,
    pub is_disaggregation: bool,
    /// How many items of each kind of media one request may hold.
    pub mm_limits: BTreeMap<String, usize>,
    pub metadata: FrontendMetadata,
}

impl FrontendConfig {
    /// Whether this is what the launch configuration asks for.
    pub open spec fn configured_by(self, args: ServerArgs) -> bool {
        &&& self.startup_ready == args.skip_server_warmup
        &&& self.is_disaggregation == args.is_disaggregation
        &&& self.mm_limits@ == args.limit_mm_data_per_request@
        &&& self.metadata.kept_from(args)
    }

    /// Sets the frontend up.
    pub fn new(args: &ServerArgs, response_capacity: usize) -> (config: Self)
        ensures
            config.response_capacity == response_capacity,
            config.configured_by(*args),
    {
        FrontendConfig {
            response_capacity,
            startup_ready: args.skip_server_warmup,
            is_disaggregation: args.is_disaggregation,
            mm_limits: args.limit_mm_data_per_request.clone(),
            metadata: FrontendMetadata::from_args(args),
        }
    }
}

/// A request for the scheduler itself.
#[derive(Debug)]
pub enum ControlRequest {
    GetInternalState { rid: String },
}

/// What is asked of the runtime.
#[derive(Debug)]
pub enum RequestKind {
    Generate(Box<FrontendRequest>),
    Control(ControlRequest),
    Detokenize { token_ids: Vec<i32> },
}

/// What the runtime answers.
#[derive(Debug)]
pub enum ResponseItem {
    /// One more piece of output.
    Frame(ChunkEvent),
    /// The last piece of output.
    Done(ChunkEvent),
    Error(Error),
    /// The payload of a control reply.
    Control(Vec<u8>),
    /// The payload of any other reply.
    Data(Vec<u8>),
}

/// The failure that a runtime error becomes.
pub open spec fn translated(error: Error) -> ErrorModel {
    match error {
        Error::Validation(message) => ErrorModel::InvalidArgument(
            "validation failed: "@ + message@,
        ),
        Error::QueueFull => ErrorModel::Overloaded("to_scheduler channel full"@),
        Error::Disconnected => ErrorModel::Cancelled("client disconnected"@),
        _ => ErrorModel::Internal(error.text()),
    }
}

/// Gives a runtime error its category.
pub fn translate_runtime_error(error: Error) -> (failure: FrontendError)
    ensures
        failure@ == translated(error),
{
    match error {
        Error::Validation(message) => FrontendError::InvalidArgument(
            concat2("validation failed: ", message.as_str()),
        ),
        Error::QueueFull => FrontendError::Overloaded("to_scheduler channel full".to_owned()),
        Error::Disconnected => FrontendError::Cancelled("client disconnected".to_owned()),
        error => FrontendError::Internal(error.message()),
    }
}

/// The event that an answer to a generation request means.
pub open spec fn event_of(item: ResponseItem) -> EventModel {
    match item {
        ResponseItem::Frame(chunk) => EventModel::Delta(chunk_output(chunk)@),
        ResponseItem::Done(chunk) => match chunk_output(chunk)@.finish_reason {
            Some(reason) => match reason.abort {
                Some((status, message)) => EventModel::Failed(
                    ErrorModel::rejection(message, status),
                ),
                None => EventModel::Finished(chunk_output(chunk)@),
            },
            None => EventModel::Finished(chunk_output(chunk)@),
        },
        ResponseItem::Error(error) => EventModel::Failed(translated(error)),
        ResponseItem::Control(_) | ResponseItem::Data(_) => EventModel::Failed(
            ErrorModel::InvalidResponse("unexpected non-generation response"@),
        ),
    }
}

/// Reads an answer to a generation request. An abort that carries an error
/// status is a failure; a plain abort is an output like any other.
pub fn generation_event(item: ResponseItem) -> (event: FrontendEvent)
    ensures
        event@ == event_of(item),
{
    match item {
        ResponseItem::Frame(chunk) => FrontendEvent::Delta(FrontendOutput::from(chunk)),
        ResponseItem::Done(chunk) => {
            if let Some(reason) = &chunk.finish_reason {
                if let Some((status, message)) = reason.abort_status() {
                    return FrontendEvent::Failed(
                        FrontendError::from_runtime_rejection(message.clone(), status),
                    );
                }
            }
            FrontendEvent::Finished(FrontendOutput::from(chunk))
        },
        ResponseItem::Error(error) => FrontendEvent::Failed(translate_runtime_error(error)),
        ResponseItem::Control(_) | ResponseItem::Data(_) => FrontendEvent::Failed(
            FrontendError::InvalidResponse("unexpected non-generation response".to_owned()),
        ),
    }
}

/// The kind of answer that ends a request.
#[derive(Clone, Copy, Debug, PartialEq, Eq, Structural)]
pub enum ExpectedResponse {
    Generate,
    Control,
    Detokenize,
}

impl ExpectedResponse {
    /// The kind of answer that ends a request.
    pub open spec fn of(kind: RequestKind) -> Self {
        match kind {
            RequestKind::Generate(_) => ExpectedResponse::Generate,
            RequestKind::Control(_) => ExpectedResponse::Control,
            RequestKind::Detokenize { .. } => ExpectedResponse::Detokenize,
        }
    }

    /// Whether the answer ends the request for the runtime: an error always
    /// does, and so does the last answer of the expected kind.
    pub open spec fn ends_with(self, item: ResponseItem) -> bool {
        match item {
            ResponseItem::Error(_) => true,
            ResponseItem::Done(_) => self == ExpectedResponse::Generate,
            ResponseItem::Control(_) => self == ExpectedResponse::Control,
            ResponseItem::Data(_) => self == ExpectedResponse::Detokenize,
            ResponseItem::Frame(_) => false,
        }
    }

    /// The kind of answer that ends a request.
    pub fn for_request(kind: &RequestKind) -> (expected: Self)
        ensures
            expected == ExpectedResponse::of(*kind),
    {
        match kind {
            RequestKind::Generate(_) => ExpectedResponse::Generate,
            RequestKind::Control(_) => ExpectedResponse::Control,
            RequestKind::Detokenize { .. } => ExpectedResponse::Detokenize,
        }
    }

    /// Whether the answer ends the request for the runtime.
    pub fn is_terminal(self, item: &ResponseItem) -> (terminal: bool)
        ensures
            terminal == self.ends_with(*item),
    {
        match (self, item) {
            (_, ResponseItem::Error(_)) => true,
            (ExpectedResponse::Generate, ResponseItem::Done(_)) => true,
            (ExpectedResponse::Control, ResponseItem::Control(_)) => true,
            (ExpectedResponse::Detokenize, ResponseItem::Data(_)) => true,
            _ => false,
        }
    }
}

/// The identity under which a request is routed.
pub open spec fn request_rid_model(kind: RequestKind, minted: Seq<char>) -> RidModel {
    match kind {
        RequestKind::Generate(request) => request.rid@,
        RequestKind::Control(ControlRequest::GetInternalState { rid }) => RidModel::same(rid@),
        RequestKind::Detokenize { .. } => RidModel::same(minted),
    }
}

/// Finds the identity under which a request is routed. Generation and control
/// requests bring theirs; a detokenization gets the minted one, since no client
/// can name it.
pub fn request_rid(kind: &RequestKind, minted: &str) -> (rid: Rid)
    ensures
        rid@ == request_rid_model(*kind, minted@),
{
    match kind {
        RequestKind::Generate(request) => request.rid.clone(),
        RequestKind::Control(ControlRequest::GetInternalState { rid }) => Rid::from_name(
            rid.as_str(),
        ),
        RequestKind::Detokenize { .. } => Rid::from_name(minted),
    }
}

/// Whether the intake has taken a request on. Either side may be first: the
/// intake to accept it, or its owner to cancel it.
#[derive(Clone, Copy, Debug, PartialEq, Eq, Structural)]
pub enum RequestAdmission {
    Pending,
    Accepted,
    Cancelled,
}

impl RequestAdmission {
    /// Whether the intake may still take the request on.
    pub open spec fn acceptable(self) -> bool {
        self is Pending
    }

    /// The admission after the intake tried to take the request on.
    pub open spec fn after_acceptance(self) -> Self {
        if self.acceptable() {
            RequestAdmission::Accepted
        } else {
            self
        }
    }

    /// Whether giving the request up takes an abort.
    pub open spec fn must_be_aborted(self) -> bool {
        self is Accepted
    }

    /// The admission after the owner gave the request up.
    pub open spec fn after_cancellation(self) -> Self {
        if self.must_be_aborted() {
            self
        } else {
            RequestAdmission::Cancelled
        }
    }

    /// A request that nobody has decided on.
    pub fn pending() -> (admission: Self)
        ensures
            admission == RequestAdmission::Pending,
    {
        RequestAdmission::Pending
    }

    /// The intake takes the request on, unless it was decided on already.
    pub fn try_accept(&mut self) -> (accepted: bool)
        ensures
            accepted == (*old(self) == RequestAdmission::Pending),
            accepted == old(self).acceptable(),
            *final(self) == old(self).after_acceptance(),
            *final(self) == if accepted {
                RequestAdmission::Accepted
            } else {
                *old(self)
            },
    {
        match self {
            RequestAdmission::Pending => {
                *self = RequestAdmission::Accepted;
                true
            },
            _ => false,
        }
    }

    /// The owner gives the request up. Only one that the intake has accepted
    /// needs an abort; a pending one is never started.
    pub fn cancel_requires_abort(&mut self) -> (abort: bool)
        ensures
            abort == (*old(self) == RequestAdmission::Accepted),
            abort == old(self).must_be_aborted(),
            *final(self) == old(self).after_cancellation(),
            *final(self) == if abort {
                RequestAdmission::Accepted
            } else {
                RequestAdmission::Cancelled
            },
    {
        match self {
            RequestAdmission::Accepted => true,
            _ => {
                *self = RequestAdmission::Cancelled;
                false
            },
        }
    }
}

/// One request in the runtime, from its owner's side.
#[derive(Debug)]
pub struct RuntimeCall {
    rid: Rid,
    expected_response: ExpectedResponse,
    in_flight: bool,
}

/// What a [`RuntimeCall`] knows.
#[verifier::ext_equal]
pub struct CallModel {
    pub rid: RidModel,
    pub expected_response: ExpectedResponse,
    pub in_flight: bool,
}

impl View for RuntimeCall {
    type V = CallModel;

    closed spec fn view(&self) -> CallModel {
        CallModel {
            rid: self.rid@,
            expected_response: self.expected_response,
            in_flight: self.in_flight,
        }
    }
}

impl CallModel {
    /// The call before it is handed over.
    pub open spec fn armed(kind: RequestKind, minted: Seq<char>) -> Self {
        CallModel {
            rid: request_rid_model(kind, minted),
            expected_response: ExpectedResponse::of(kind),
            in_flight: true,
        }
    }

    /// The call after the intake got its request, or did not.
    pub open spec fn handed(self, delivered: bool) -> Self {
        CallModel { in_flight: self.in_flight && delivered, ..self }
    }

    /// The call after one more answer, or after the end of the answers.
    pub open spec fn observed(self, item: Option<ResponseItem>) -> Self {
        match item {
            Some(item) => CallModel {
                in_flight: self.in_flight && !self.expected_response.ends_with(item),
                ..self
            },
            None => self,
        }
    }

    /// The call after it was given up.
    pub open spec fn released(self) -> Self {
        CallModel { in_flight: false, ..self }
    }

    /// The request that must be aborted when the call is given up: one that the
    /// intake has accepted and that the runtime has not ended.
    pub open spec fn abort_on_release(self, admission: RequestAdmission) -> Option<RidModel> {
        if self.in_flight && admission == RequestAdmission::Accepted {
            Some(self.rid)
        } else {
            None
        }
    }

    /// The admission after the call was given up: a pending request is
    /// cancelled.
    pub open spec fn released_admission(self, admission: RequestAdmission) -> RequestAdmission {
        if self.in_flight && admission == RequestAdmission::Pending {
            RequestAdmission::Cancelled
        } else {
            admission
        }
    }
}

/// What an optional identity means.
pub open spec fn opt_rid(rid: Option<Rid>) -> Option<RidModel> {
    match rid {
        Some(rid) => Some(rid@),
        None => None,
    }
}

impl RuntimeCall {
    /// Takes ownership of a request, before it is handed over: an owner that
    /// goes away while the request is on its way still cancels it.
    pub fn submit(kind: &RequestKind, minted: &str) -> (call: Self)
        ensures
            call@ == CallModel::armed(*kind, minted@),
    {
        RuntimeCall {
            rid: request_rid(kind, minted),
            expected_response: ExpectedResponse::for_request(kind),
            in_flight: true,
        }
    }

    /// Notes whether the intake got the request. One that came back was never
    /// taken on, and needs no abort.
    pub fn handed_over(&mut self, delivered: bool) -> (outcome: Result<(), FrontendError>)
        ensures
            final(self)@ == (CallModel {
                in_flight: old(self)@.in_flight && delivered,
                ..old(self)@
            }),
            match outcome {
                Ok(_) => delivered,
                Err(error) => !delivered && error@ == ErrorModel::Unavailable,
            },
            final(self)@ == old(self)@.handed(delivered),
    {
        if delivered {
            Ok(())
        } else {
            self.in_flight = false;
            Err(FrontendError::Unavailable)
        }
    }

    /// The identity under which the request is routed.
    pub fn rid(&self) -> (rid: &Rid)
        ensures
            rid@ == self@.rid,
    {
        &self.rid
    }

    /// Notes an answer. The one that ends the request disarms the call.
    pub fn observe(&mut self, item: Option<&ResponseItem>)
        ensures
            final(self)@ == old(self)@.observed(
                match item {
                    Some(item) => Some(*item),
                    None => None,
                },
            ),
    {
        if let Some(item) = item {
            if self.expected_response.is_terminal(item) {
                self.in_flight = false;
            }
        }
    }

    /// Gives the call up, and says which request must be aborted, if any.
    pub fn release(&mut self, admission: &mut RequestAdmission) -> (abort: Option<Rid>)
        ensures
            final(self)@ == old(self)@.released(),
            opt_rid(abort) == old(self)@.abort_on_release(*old(admission)),
            *final(admission) == old(self)@.released_admission(*old(admission)),
    {
        if self.in_flight {
            self.in_flight = false;
            if admission.cancel_requires_abort() {
                return Some(self.rid.clone());
            }
        }
        None
    }
}

/// A generation request in the runtime, and its events.
#[derive(Debug)]
pub struct FrontendCall {
    runtime: RuntimeCall,
    events_finished: bool,
}

/// What a [`FrontendCall`] knows.
#[verifier::ext_equal]
pub struct FrontendCallModel {
    pub runtime: CallModel,
    pub events_finished: bool,
}

impl View for FrontendCall {
    type V = FrontendCallModel;

    closed spec fn view(&self) -> FrontendCallModel {
        FrontendCallModel { runtime: self.runtime@, events_finished: self.events_finished }
    }
}

/// The event that an answer, or the end of the answers, means.
pub open spec fn received_event(item: Option<ResponseItem>) -> EventModel {
    match item {
        Some(item) => event_of(item),
        None => EventModel::Failed(ErrorModel::Internal("response truncated before completion"@)),
    }
}

impl FrontendCallModel {
    /// The call after one more answer, or after the end of the answers.
    pub open spec fn received(self, item: Option<ResponseItem>) -> Self {
        if self.events_finished {
            self
        } else {
            FrontendCallModel {
                runtime: self.runtime.observed(item),
                events_finished: received_event(item).is_terminal(),
            }
        }
    }

    /// The event that an answer gives rise to.
    pub open spec fn event(self, item: Option<ResponseItem>) -> Option<EventModel> {
        if self.events_finished {
            None
        } else {
            Some(received_event(item))
        }
    }
}

/// The call after all the answers.
pub open spec fn call_after(call: FrontendCallModel, items: Seq<ResponseItem>) -> FrontendCallModel
    decreases items.len(),
{
    if items.len() == 0 {
        call
    } else {
        call_after(call, items.drop_last()).received(Some(items.last()))
    }
}

/// All the events that the answers give rise to.
pub open spec fn events_of(call: FrontendCallModel, items: Seq<ResponseItem>) -> Seq<EventModel>
    decreases items.len(),
{
    if items.len() == 0 {
        seq![]
    } else {
        match call_after(call, items.drop_last()).event(Some(items.last())) {
            Some(event) => events_of(call, items.drop_last()).push(event),
            None => events_of(call, items.drop_last()),
        }
    }
}

/// What the events mean.
pub open spec fn events_model(events: Seq<FrontendEvent>) -> Seq<EventModel> {
    events.map_values(|event: FrontendEvent| event@)
}

impl FrontendCall {
    /// A call whose events have not started.
    pub fn new(runtime: RuntimeCall) -> (call: Self)
        ensures
            call@ == (FrontendCallModel { runtime: runtime@, events_finished: false }),
    {
        FrontendCall { runtime, events_finished: false }
    }

    /// The name that the client sees.
    pub fn public_id(&self) -> (id: &str)
        ensures
            id@ == self@.runtime.rid.public,
    {
        self.runtime.rid.client_facing()
    }

    /// The identity under which the request is routed.
    pub fn rid(&self) -> (rid: &Rid)
        ensures
            rid@ == self@.runtime.rid,
    {
        self.runtime.rid()
    }

    /// Whether another answer is worth waiting for.
    pub fn wants_item(&self) -> (wanted: bool)
        ensures
            wanted == !self@.events_finished,
    {
        !self.events_finished
    }

    /// Takes one answer in, or the end of the answers. An end before the
    /// terminal event is a failure, reported once; nothing follows the terminal
    /// event.
    pub fn recv(&mut self, item: Option<ResponseItem>) -> (event: Option<FrontendEvent>)
        ensures
            final(self)@ == old(self)@.received(item),
            match event {
                Some(event) => old(self)@.event(item) == Some(event@),
                None => old(self)@.event(item) is None,
            },
    {
        if self.events_finished {
            return None;
        }
        let event = match item {
            Some(item) => {
                self.runtime.observe(Some(&item));
                generation_event(item)
            },
            None => FrontendEvent::Failed(
                FrontendError::Internal("response truncated before completion".to_owned()),
            ),
        };
        self.events_finished = event.is_terminal();
        Some(event)
    }

    /// Takes in every answer that is ready, in order, up to the terminal one.
    /// The end of the answers is left to the next [`FrontendCall::recv`], so
    /// that no ready answer is lost to it.
    pub fn drain_ready(&mut self, ready: Vec<ResponseItem>, events: &mut Vec<FrontendEvent>)
        ensures
            final(self)@ == call_after(old(self)@, ready@),
            events_model(final(events)@) == events_model(old(events)@) + events_of(
                old(self)@,
                ready@,
            ),
    {
        let ghost start = self@;
        let ghost before = events_model(events@);
        let ghost all = ready@;
        let mut ready = ready;
        let mut taken: Ghost<int> = Ghost(0);
        assert(all.take(0) =~= seq![]);
        assert(before + events_of(start, all.take(0)) =~= before);
        while !ready.is_empty()
            invariant
                0 <= taken@ <= all.len(),
                ready@ == all.skip(taken@),
                self@ == call_after(start, all.take(taken@)),
                events_model(events@) == before + events_of(start, all.take(taken@)),
            decreases ready@.len(),
        {
            assert(all.take(taken@ + 1).drop_last() =~= all.take(taken@));
            let item = ready.remove(0);
            assert(item == all[taken@]);
            assert(ready@ =~= all.skip(taken@ + 1));
            let ghost shown = events_model(events@);
            if let Some(event) = self.recv(Some(item)) {
                events.push(event);
                assert(events_model(events@) =~= shown.push(event@));
            }
            proof {
                assert(all.take(taken@ + 1).last() == item);
                assert(events_model(events@) =~= before + events_of(start, all.take(taken@ + 1)));
                taken@ = taken@ + 1;
            }
        }
        assert(all.take(taken@) =~= all);
    }

    /// Gives the call up, and says which request must be aborted, if any.
    pub fn release(&mut self, admission: &mut RequestAdmission) -> (abort: Option<Rid>)
        ensures
            final(self)@ == (FrontendCallModel {
                runtime: old(self)@.runtime.released(),
                ..old(self)@
            }),
            opt_rid(abort) == old(self)@.runtime.abort_on_release(*old(admission)),
            *final(admission) == old(self)@.runtime.released_admission(*old(admission)),
    {
        self.runtime.release(admission)
    }
}

/// What a control request returned.
pub open spec fn control_model(item: Option<ResponseItem>) -> Result<Seq<u8>, ErrorModel> {
    match item {
        Some(ResponseItem::Control(bytes)) => Ok(bytes@),
        Some(ResponseItem::Error(error)) => Err(translated(error)),
        Some(_) => Err(
            ErrorModel::InvalidResponse("unexpected generation output for control request"@),
        ),
        None => Err(ErrorModel::ResponseTruncated),
    }
}

/// Reads the answer to a control request.
pub fn control(item: Option<ResponseItem>) -> (reply: Result<Vec<u8>, FrontendError>)
    ensures
        match reply {
            Ok(bytes) => control_model(item) == Ok::<Seq<u8>, ErrorModel>(bytes@),
            Err(error) => control_model(item) == Err::<Seq<u8>, ErrorModel>(error@),
        },
{
    match item {
        Some(ResponseItem::Control(bytes)) => Ok(bytes),
        Some(ResponseItem::Error(error)) => Err(translate_runtime_error(error)),
        Some(_) => Err(
            FrontendError::InvalidResponse(
                "unexpected generation output for control request".to_owned(),
            ),
        ),
        None => Err(FrontendError::ResponseTruncated),
    }
}

/// Why the scheduler's state could not be decoded, if it could not.
pub open spec fn undecoded(decoded: Result<InternalState, String>) -> Option<ErrorModel> {
    match decoded {
        Ok(_) => None,
        Err(reason) => Some(
            ErrorModel::InvalidResponse("invalid internal-state response: "@ + reason@),
        ),
    }
}

/// The scheduler's state, as far as it could be decoded.
pub fn internal_state(decoded: Result<InternalState, String>) -> (state: Result<
    InternalState,
    FrontendError,
>)
    ensures
        match decoded {
            Ok(decoded) => state == Ok::<InternalState, FrontendError>(decoded),
            Err(reason) => state matches Err(error) && error@ == ErrorModel::InvalidResponse(
                "invalid internal-state response: "@ + reason@,
            ),
        },
        state matches Err(error) ==> undecoded(decoded) == Some(error@),
        state is Ok ==> undecoded(decoded) is None,
{
    match decoded {
        Ok(decoded) => Ok(decoded),
        Err(reason) => Err(
            FrontendError::InvalidResponse(
                concat2("invalid internal-state response: ", reason.as_str()),
            ),
        ),
    }
}

/// What a detokenization returned.
pub open spec fn detokenize_model(item: Option<ResponseItem>) -> Result<Seq<char>, ErrorModel> {
    match item {
        Some(ResponseItem::Data(bytes)) => if valid_utf8(bytes@) {
            Ok(decode_utf8(bytes@))
        } else {
            Err(ErrorModel::InvalidResponse("detokenized prompt is not valid UTF-8"@))
        },
        Some(ResponseItem::Error(Error::Validation(message))) => Err(
            ErrorModel::InvalidArgument(message@),
        ),
        Some(ResponseItem::Error(error)) => Err(translated(error)),
        Some(_) => Err(ErrorModel::InvalidResponse("unexpected output for detokenize request"@)),
        None => Err(ErrorModel::Internal("reply channel closed"@)),
    }
}

/// Reads the answer to a detokenization. A validation message is passed on as
/// it is.
pub fn detokenize(item: Option<ResponseItem>) -> (reply: Result<String, FrontendError>)
    ensures
        match reply {
            Ok(text) => detokenize_model(item) == Ok::<Seq<char>, ErrorModel>(text@),
            Err(error) => detokenize_model(item) == Err::<Seq<char>, ErrorModel>(error@),
        },
        reply matches Ok(text) ==> (item matches Some(ResponseItem::Data(bytes)) && encode_utf8(
            text@,
        ) == bytes@),
        item matches Some(ResponseItem::Data(bytes)) ==> (reply is Ok <==> valid_utf8(bytes@)),
{
    let bytes = match item {
        Some(ResponseItem::Data(bytes)) => bytes,
        Some(ResponseItem::Error(Error::Validation(message))) => {
            return Err(FrontendError::InvalidArgument(message));
        },
        Some(ResponseItem::Error(error)) => {
            return Err(translate_runtime_error(error));
        },
        Some(_) => {
            return Err(
                FrontendError::InvalidResponse(
                    "unexpected output for detokenize request".to_owned(),
                ),
            );
        },
        None => {
            return Err(FrontendError::Internal("reply channel closed".to_owned()));
        },
    };
    proof {
        if valid_utf8(bytes@) {
            decode_utf8_encode_utf8(bytes@);
        }
    }
    match string_from_utf8(bytes) {
        Some(text) => Ok(text),
        None => Err(
            FrontendError::InvalidResponse("detokenized prompt is not valid UTF-8".to_owned()),
        ),
    }
}

/// The request that a health check sends: one token from one token, without any
/// randomness.
pub open spec fn probe_model(is_disaggregation: bool, minted: Seq<char>) -> RequestModel {
    RequestModel {
        input_ids: Some(seq![0i32]),
        sampling_params: SamplingModel {
            max_new_tokens: Setting::Implied(1),
            temperature: Setting::Implied(0),
            ..SamplingModel::unset()
        },
        bootstrap_host: if is_disaggregation {
            Some(fake_bootstrap_host())
        } else {
            None
        },
        bootstrap_room: if is_disaggregation {
            Some(0)
        } else {
            None
        },
        ..RequestModel::plain(RidModel::health_check(minted))
    }
}

/// Builds the request that a health check sends. On a disaggregated server it
/// names a bootstrap host and room that stand for nothing.
pub fn probe_request(is_disaggregation: bool, minted: &str) -> (request: FrontendRequest)
    ensures
        request@ == probe_model(is_disaggregation, minted@),
{
    let mut request = FrontendRequest::plain(Rid::new_health_check(minted));
    let mut input_ids: Vec<i32> = Vec::new();
    input_ids.push(0);
    assert(input_ids@ =~= seq![0i32]);
    request.input_ids = Some(input_ids);
    request.sampling_params.max_new_tokens = Setting::Implied(1);
    request.sampling_params.temperature = Setting::Implied(0);
    if is_disaggregation {
        request.bootstrap_host = Some("2.2.2.2".to_owned());
        request.bootstrap_room = Some(0);
    }
    request
}

/// The health of a server that is not probed.
pub open spec fn before_probe_model(is_ready: bool) -> Option<HealthStatus> {
    match is_ready {
        true => None,
        false => Some(HealthStatus::NotReady),
    }
}

/// The health of a server whose probe is out, once it is known.
pub open spec fn probe_status_model(
    baseline: u64,
    activity: u64,
    deadline_passed: bool,
) -> Option<HealthStatus> {
    match (activity == baseline, deadline_passed) {
        (false, _) => Some(HealthStatus::Healthy),
        (true, true) => Some(HealthStatus::Stalled),
        (true, false) => None,
    }
}

/// Decides on a health check before anything is sent: a server that is still
/// starting is not probed.
pub fn health_before_probe(is_ready: bool) -> (status: Option<HealthStatus>)
    ensures
        status == if is_ready {
            None
        } else {
            Some(HealthStatus::NotReady)
        },
        status == before_probe_model(is_ready),
{
    if is_ready {
        None
    } else {
        Some(HealthStatus::NotReady)
    }
}

/// Decides on a health check while its probe is out. Any output of the
/// scheduler since the probe was sent counts, not only the probe's own.
pub fn probe_health(baseline: u64, activity: u64, deadline_passed: bool) -> (status: Option<
    HealthStatus,
>)
    ensures
        status == if activity != baseline {
            Some(HealthStatus::Healthy)
        } else if deadline_passed {
            Some(HealthStatus::Stalled)
        } else {
            None
        },
        status == probe_status_model(baseline, activity, deadline_passed),
{
    if activity != baseline {
        Some(HealthStatus::Healthy)
    } else if deadline_passed {
        Some(HealthStatus::Stalled)
    } else {
        None
    }
}

/// Why requests could not be prepared, if they could not.
pub open spec fn unprepared(prefetched: Result<(), String>) -> Option<ErrorModel> {
    match prefetched {
        Ok(_) => None,
        Err(reason) => Some(ErrorModel::InvalidArgument(reason@)),
    }
}

/// The outcome of preparing requests: a reason why not is the caller's fault.
pub fn prepare_generations(prefetched: Result<(), String>) -> (prepared: Result<
    (),
    FrontendError,
>)
    ensures
        match prefetched {
            Ok(_) => prepared is Ok,
            Err(reason) => prepared matches Err(error) && error@ == ErrorModel::InvalidArgument(
                reason@,
            ),
        },
        prepared matches Err(error) ==> unprepared(prefetched) == Some(error@),
        prepared is Ok ==> unprepared(prefetched) is None,
{
    match prefetched {
        Ok(_) => Ok(()),
        Err(reason) => Err(FrontendError::InvalidArgument(reason)),
    }
}

/// Requests that are admitted as a group. With each request that was handed over
/// it owns the call, and the caller's link to it.
#[derive(Debug)]
pub struct GenerateBatch<L> {
    waiting: Vec<FrontendRequest>,
    underway: Option<(RuntimeCall, L)>,
    accepted: Vec<(RuntimeCall, L)>,
}

/// What a [`GenerateBatch`] knows: the requests that wait, the call that is being
/// handed over, and the calls that the intake took, in their order.
#[verifier::ext_equal]
pub struct BatchModel<L> {
    pub waiting: Seq<RequestModel>,
    pub underway: Option<(CallModel, L)>,
    pub accepted: Seq<(CallModel, L)>,
}

/// A group that a request was refused from: why, and the calls that the intake
/// had taken, to be given up.
#[derive(Debug)]
pub struct BatchRefusal<L> {
    pub error: FrontendError,
    pub accepted: Vec<(RuntimeCall, L)>,
}

/// What the requests mean.
pub open spec fn requests_model(requests: Seq<FrontendRequest>) -> Seq<RequestModel> {
    requests.map_values(|request: FrontendRequest| request@)
}

/// What an owned call means.
pub open spec fn owned_call<L>(owned: (RuntimeCall, L)) -> (CallModel, L) {
    (owned.0@, owned.1)
}

/// What owned calls mean.
pub open spec fn owned_calls<L>(calls: Seq<(RuntimeCall, L)>) -> Seq<(CallModel, L)> {
    calls.map_values(|owned: (RuntimeCall, L)| owned_call(owned))
}

/// The call of a generation, from before it is handed over.
pub open spec fn generation_call(request: RequestModel) -> CallModel {
    CallModel { rid: request.rid, expected_response: ExpectedResponse::Generate, in_flight: true }
}

impl<L> View for GenerateBatch<L> {
    type V = BatchModel<L>;

    closed spec fn view(&self) -> BatchModel<L> {
        BatchModel {
            waiting: requests_model(self.waiting@),
            underway: match self.underway {
                Some(owned) => Some(owned_call(owned)),
                None => None,
            },
            accepted: owned_calls(self.accepted@),
        }
    }
}

impl<L> BatchModel<L> {
    /// A group of which nothing was handed over.
    pub open spec fn opened(requests: Seq<RequestModel>) -> Self {
        BatchModel { waiting: requests, underway: None, accepted: seq![] }
    }

    /// Whether there is a request to hand over next.
    pub open spec fn has_next(self) -> bool {
        self.waiting.len() > 0 && self.underway is None
    }

    /// The group with its next request on the way.
    pub open spec fn handing(self, link: L) -> Self {
        BatchModel {
            waiting: self.waiting.drop_first(),
            underway: Some((generation_call(self.waiting[0]), link)),
            accepted: self.accepted,
        }
    }

    /// The group after the intake took the request that was on its way.
    pub open spec fn delivered(self) -> Self {
        match self.underway {
            Some(owned) => BatchModel {
                waiting: self.waiting,
                underway: None,
                accepted: self.accepted.push(owned),
            },
            None => self,
        }
    }

    /// The group that nothing is left of.
    pub open spec fn spent() -> Self {
        BatchModel { waiting: seq![], underway: None, accepted: seq![] }
    }

    /// Every call of the group, in order.
    pub open spec fn calls(self) -> Seq<(CallModel, L)> {
        match self.underway {
            Some(owned) => self.accepted.push(owned),
            None => self.accepted,
        }
    }
}

impl<L> GenerateBatch<L> {
    /// Opens a group for submission, once all of it is prepared. Where the
    /// preparation of any request failed, none is submitted.
    pub fn generate_batch(
        requests: Vec<FrontendRequest>,
        prefetched: Result<(), String>,
    ) -> (batch: Result<Self, FrontendError>)
        ensures
            match (prefetched, batch) {
                (Ok(_), Ok(batch)) => batch@ == BatchModel::<L>::opened(requests_model(requests@)),
                (Err(reason), Err(error)) => error@ == ErrorModel::InvalidArgument(reason@),
                _ => false,
            },
            batch matches Err(error) ==> unprepared(prefetched) == Some(error@),
    {
        match prepare_generations(prefetched) {
            Ok(_) => {
                let batch = GenerateBatch {
                    waiting: requests,
                    underway: None,
                    accepted: Vec::new(),
                };
                assert(batch@ =~= BatchModel::<L>::opened(requests_model(requests@)));
                Ok(batch)
            },
            Err(error) => Err(error),
        }
    }

    /// The next request to hand over, in the order in which they were given, and
    /// the identity it is routed by. Its call is owned from now on: a group that
    /// goes away while the request is on its way still cancels it.
    pub fn next_request(&mut self, link: L) -> (next: Option<(Rid, RequestKind)>)
        ensures
            match next {
                Some((rid, RequestKind::Generate(request))) => {
                    &&& old(self)@.has_next()
                    &&& (*request)@ == old(self)@.waiting[0]
                    &&& rid@ == old(self)@.waiting[0].rid
                    &&& final(self)@ == old(self)@.handing(link)
                },
                Some(_) => false,
                None => !old(self)@.has_next() && final(self)@ == old(self)@,
            },
    {
        if self.waiting.is_empty() || self.underway.is_some() {
            return None;
        }
        let ghost before = self.waiting@;
        let request = self.waiting.remove(0);
        assert(requests_model(self.waiting@) =~= requests_model(before).drop_first());
        let kind = RequestKind::Generate(Box::new(request));
        let call = RuntimeCall::submit(&kind, "");
        let rid = call.rid().clone();
        self.underway = Some((call, link));
        Some((rid, kind))
    }

    /// Notes whether the intake got the request that was on its way. One that it
    /// took is kept behind those before it. One that came back ends the group:
    /// nothing more of it is handed over, and exactly the calls that were taken
    /// before are handed out, to be given up.
    pub fn submitted(&mut self, delivered: bool) -> (outcome: Result<(), BatchRefusal<L>>)
        ensures
            match outcome {
                Ok(_) => (delivered || old(self)@.underway is None) && final(self)@ == old(
                    self,
                )@.delivered(),
                Err(refusal) => {
                    &&& !delivered && old(self)@.underway is Some
                    &&& refusal.error@ == ErrorModel::Unavailable
                    &&& owned_calls(refusal.accepted@) == old(self)@.accepted
                    &&& final(self)@ == BatchModel::<L>::spent()
                },
            },
    {
        let (mut call, link) = match self.underway.take() {
            Some(owned) => owned,
            None => {
                return Ok(());
            },
        };
        match call.handed_over(delivered) {
            Ok(_) => {
                let ghost before = self.accepted@;
                self.accepted.push((call, link));
                assert(owned_calls(self.accepted@) =~= owned_calls(before).push(
                    owned_call((call, link)),
                ));
                Ok(())
            },
            Err(error) => {
                self.waiting = Vec::new();
                let mut accepted: Vec<(RuntimeCall, L)> = Vec::new();
                std::mem::swap(&mut accepted, &mut self.accepted);
                assert(self@ =~= BatchModel::<L>::spent());
                Err(BatchRefusal { error, accepted })
            },
        }
    }

    /// Hands out every call of the group, in order: the whole group once all of
    /// it was taken, and what there is of it where the group goes away early.
    pub fn take_calls(&mut self) -> (calls: Vec<(RuntimeCall, L)>)
        ensures
            owned_calls(calls@) == old(self)@.calls(),
            final(self)@ == BatchModel::<L>::spent(),
    {
        self.waiting = Vec::new();
        let mut calls: Vec<(RuntimeCall, L)> = Vec::new();
        std::mem::swap(&mut calls, &mut self.accepted);
        if let Some(owned) = self.underway.take() {
            let ghost before = calls@;
            calls.push(owned);
            assert(owned_calls(calls@) =~= owned_calls(before).push(owned_call(owned)));
        }
        assert(self@ =~= BatchModel::<L>::spent());
        calls
    }
}

/// Each answer gives rise to at most one event, in order. Only the last event
/// can be terminal, and nothing follows it.
pub proof fn law_events_end_with_the_terminal_one(
    call: FrontendCallModel,
    items: Seq<ResponseItem>,
)
    requires
        !call.events_finished,
    ensures
        events_of(call, items).len() <= items.len(),
        forall|i: int|
            0 <= i < events_of(call, items).len() ==> #[trigger] events_of(call, items)[i]
                == event_of(items[i]),
        forall|i: int|
            0 <= i < events_of(call, items).len() - 1 ==> !(#[trigger] events_of(
                call,
                items,
            )[i]).is_terminal(),
        call_after(call, items).events_finished <==> (events_of(call, items).len() > 0
            && events_of(call, items).last().is_terminal()),
        events_of(call, items).len() < items.len() ==> call_after(call, items).events_finished,
    decreases items.len(),
{
    if items.len() > 0 {
        law_events_end_with_the_terminal_one(call, items.drop_last());
    }
}

/// A call whose answers end too early reports exactly one failure, and then
/// nothing more.
pub proof fn law_truncation_is_reported_once(call: FrontendCallModel, item: Option<ResponseItem>)
    requires
        !call.events_finished,
    ensures
        call.event(None) matches Some(EventModel::Failed(_)),
        call.received(None).events_finished,
        call.received(None).event(item) is None,
        call.received(None).received(item) == call.received(None),
{
}

/// Whether one of the answers ends the request for the runtime.
pub open spec fn ended_by(expected: ExpectedResponse, items: Seq<ResponseItem>) -> bool {
    exists|i: int| 0 <= i < items.len() && expected.ends_with(#[trigger] items[i])
}

/// The call after all the answers, whatever it is for.
pub open spec fn observed_all(call: CallModel, items: Seq<ResponseItem>) -> CallModel
    decreases items.len(),
{
    if items.len() == 0 {
        call
    } else {
        observed_all(call, items.drop_last()).observed(Some(items.last()))
    }
}

/// A call stays armed exactly until an answer ends its request for the runtime.
/// So an abandoned request is aborted if and only if the intake accepted it and
/// the runtime has not ended it.
pub proof fn law_call_is_armed_until_its_request_ends(call: CallModel, items: Seq<ResponseItem>)
    ensures
        observed_all(call, items).in_flight == (call.in_flight && !ended_by(
            call.expected_response,
            items,
        )),
        observed_all(call, items).rid == call.rid,
        observed_all(call, items).expected_response == call.expected_response,
    decreases items.len(),
{
    if items.len() > 0 {
        let rest = items.drop_last();
        law_call_is_armed_until_its_request_ends(call, rest);
        let expected = call.expected_response;
        if ended_by(expected, rest) {
            let i = choose|i: int| 0 <= i < rest.len() && expected.ends_with(#[trigger] rest[i]);
            assert(expected.ends_with(items[i]));
        }
        if ended_by(expected, items) && !expected.ends_with(items.last()) {
            let i = choose|i: int| 0 <= i < items.len() && expected.ends_with(#[trigger] items[i]);
            assert(rest[i] == items[i]);
        }
    }
}

/// Every answer that ends a generation for the runtime is also its terminal
/// event. An answer of another kind is terminal for the client alone: its
/// request is still running, and is aborted when the call is given up.
pub proof fn law_runtime_end_is_terminal(item: ResponseItem)
    ensures
        ExpectedResponse::Generate.ends_with(item) ==> event_of(item).is_terminal(),
        event_of(item).is_terminal() && !ExpectedResponse::Generate.ends_with(item) ==> event_of(
            item,
        ) == EventModel::Failed(
            ErrorModel::InvalidResponse("unexpected non-generation response"@),
        ),
{
}

/// After any answers, a generation call is disarmed exactly when the last answer
/// that it looked at ended its request for the runtime.
pub proof fn law_generation_call_is_armed_until_its_request_ends(
    call: FrontendCallModel,
    items: Seq<ResponseItem>,
)
    requires
        !call.events_finished,
        call.runtime.expected_response == ExpectedResponse::Generate,
    ensures
        ({
            let seen = events_of(call, items).len() as int;
            call_after(call, items).runtime == (CallModel {
                in_flight: call.runtime.in_flight && !(seen > 0
                    && ExpectedResponse::Generate.ends_with(items[seen - 1])),
                ..call.runtime
            })
        }),
    decreases items.len(),
{
    law_events_end_with_the_terminal_one(call, items);
    if items.len() > 0 {
        let rest = items.drop_last();
        law_generation_call_is_armed_until_its_request_ends(call, rest);
        law_events_end_with_the_terminal_one(call, rest);
        let seen = events_of(call, rest).len() as int;
        if seen > 0 {
            law_runtime_end_is_terminal(rest[seen - 1]);
            assert(events_of(call, rest)[seen - 1] == event_of(rest[seen - 1]));
            assert(rest[seen - 1] == items[seen - 1]);
        }
    }
}

/// A request is aborted at most once, and one that was given up before the
/// intake accepted it is neither started nor aborted.
pub proof fn law_abandoned_requests(call: CallModel, admission: RequestAdmission)
    ensures
        call.released().abort_on_release(call.released_admission(admission)) is None,
        call.in_flight && admission == RequestAdmission::Pending ==> {
            &&& call.abort_on_release(admission) is None
            &&& call.released_admission(admission) == RequestAdmission::Cancelled
        },
        call.abort_on_release(admission) is Some <==> call.in_flight && admission
            == RequestAdmission::Accepted,
{
}

/// The group after its first `count` requests were handed over and taken, each
/// with its link.
pub open spec fn batch_after<L>(
    requests: Seq<RequestModel>,
    links: Seq<L>,
    count: nat,
) -> BatchModel<L>
    decreases count,
{
    if count == 0 {
        BatchModel::opened(requests)
    } else {
        batch_after(requests, links, (count - 1) as nat).handing(links[count - 1]).delivered()
    }
}

/// The calls of the first `count` requests, each with its link.
pub open spec fn calls_of<L>(requests: Seq<RequestModel>, links: Seq<L>, count: nat) -> Seq<
    (CallModel, L),
> {
    Seq::new(count, |i: int| (generation_call(requests[i]), links[i]))
}

/// The calls of a group are those of its requests, in their order: after any
/// number of requests was taken the group owns exactly their calls, the next
/// request is the one behind them, and once all were taken there is no next one.
pub proof fn law_batch_calls_follow_the_requests<L>(
    requests: Seq<RequestModel>,
    links: Seq<L>,
    count: nat,
)
    requires
        count <= requests.len(),
    ensures
        batch_after(requests, links, count).calls() == calls_of(requests, links, count),
        batch_after(requests, links, count).accepted == calls_of(requests, links, count),
        batch_after(requests, links, count).waiting == requests.skip(count as int),
        batch_after(requests, links, count).underway is None,
        batch_after(requests, links, count).has_next() <==> count < requests.len(),
    decreases count,
{
    let batch = batch_after(requests, links, count);
    if count == 0 {
        assert(batch.waiting =~= requests.skip(0));
        assert(batch.accepted =~= calls_of(requests, links, 0));
    } else {
        law_batch_calls_follow_the_requests(requests, links, (count - 1) as nat);
        assert(batch.waiting =~= requests.skip(count as int));
        assert(batch.accepted =~= calls_of(requests, links, count));
    }
}

/// The requests that must be aborted when the calls are given up, each under its
/// admission, in order.
pub open spec fn aborts<L>(calls: Seq<(CallModel, L)>, admissions: Seq<RequestAdmission>) -> Seq<
    RidModel,
>
    decreases calls.len(),
{
    if calls.len() == 0 {
        seq![]
    } else {
        let before = aborts(calls.drop_last(), admissions);
        match calls.last().0.abort_on_release(admissions[calls.len() - 1]) {
            Some(rid) => before.push(rid),
            None => before,
        }
    }
}

/// The calls after they were given up.
pub open spec fn released_calls<L>(calls: Seq<(CallModel, L)>) -> Seq<(CallModel, L)> {
    calls.map_values(|owned: (CallModel, L)| (owned.0.released(), owned.1))
}

/// Calls that were given up have nothing more to abort.
proof fn lemma_released_calls_abort_nothing<L>(
    calls: Seq<(CallModel, L)>,
    admissions: Seq<RequestAdmission>,
)
    ensures
        aborts(released_calls(calls), admissions) == Seq::<RidModel>::empty(),
    decreases calls.len(),
{
    if calls.len() > 0 {
        lemma_released_calls_abort_nothing(calls.drop_last(), admissions);
        assert(released_calls(calls).drop_last() =~= released_calls(calls.drop_last()));
    }
}

/// Calls of requests that the intake accepted abort each of them.
proof fn lemma_accepted_calls_are_aborted<L>(
    requests: Seq<RequestModel>,
    links: Seq<L>,
    count: nat,
    admissions: Seq<RequestAdmission>,
)
    requires
        count <= requests.len(),
        forall|i: int| 0 <= i < count ==> admissions[i] == RequestAdmission::Accepted,
    ensures
        aborts(calls_of(requests, links, count), admissions) == Seq::new(
            count,
            |i: int| requests[i].rid,
        ),
    decreases count,
{
    let calls = calls_of(requests, links, count);
    if count > 0 {
        let fewer = (count - 1) as nat;
        lemma_accepted_calls_are_aborted(requests, links, fewer, admissions);
        assert(calls.drop_last() =~= calls_of(requests, links, fewer));
        assert(admissions[count - 1] == RequestAdmission::Accepted);
    }
    assert(aborts(calls, admissions) =~= Seq::new(count, |i: int| requests[i].rid));
}

/// Where the intake refuses a request of a group part-way, giving up the calls
/// that are handed out aborts exactly the requests that it had accepted, in their
/// order and once each: giving them up again aborts nothing.
pub proof fn law_refused_batch_aborts_each_accepted_request_once<L>(
    requests: Seq<RequestModel>,
    links: Seq<L>,
    count: nat,
    admissions: Seq<RequestAdmission>,
    later: Seq<RequestAdmission>,
)
    requires
        count < requests.len(),
        forall|i: int| 0 <= i < count ==> admissions[i] == RequestAdmission::Accepted,
    ensures
        ({
            let refused = batch_after(requests, links, count).handing(links[count as int]);
            &&& aborts(refused.accepted, admissions) == Seq::new(count, |i: int| requests[i].rid)
            &&& aborts(released_calls(refused.accepted), later) == Seq::<RidModel>::empty()
        }),
{
    law_batch_calls_follow_the_requests(requests, links, count);
    lemma_accepted_calls_are_aborted(requests, links, count, admissions);
    lemma_released_calls_abort_nothing(calls_of(requests, links, count), later);
}

/// A probe names a bootstrap host and a bootstrap room together or not at all.
pub proof fn law_probe_bootstrap_pair(is_disaggregation: bool, minted: Seq<char>)
    ensures
        probe_model(is_disaggregation, minted).bootstrap_host is Some <==> is_disaggregation,
        probe_model(is_disaggregation, minted).bootstrap_room is Some <==> is_disaggregation,
{
}

/// Defects of the server, and nothing else, become internal failures.
pub proof fn law_server_faults_are_internal(error: Error)
    ensures
        translated(error) is Internal <==> error.server_fault(),
        translated(error).kind() == FrontendErrorKind::Internal <==> error.server_fault(),
{
}

/// The pieces of output that come before the last, as answers.
pub open spec fn frames(chunks: Seq<ChunkEvent>) -> Seq<ResponseItem> {
    chunks.map_values(|chunk: ChunkEvent| ResponseItem::Frame(chunk))
}

/// What the pieces of output hold.
pub open spec fn outputs(chunks: Seq<ChunkEvent>) -> Seq<OutputModel> {
    chunks.map_values(|chunk: ChunkEvent| chunk_output(chunk)@)
}

/// Pieces of output become deltas, one each.
proof fn lemma_frames_become_deltas(call: FrontendCallModel, chunks: Seq<ChunkEvent>)
    requires
        !call.events_finished,
    ensures
        events_of(call, frames(chunks)) == outputs(chunks).map_values(
            |output: OutputModel| EventModel::Delta(output),
        ),
        !call_after(call, frames(chunks)).events_finished,
    decreases chunks.len(),
{
    if chunks.len() > 0 {
        lemma_frames_become_deltas(call, chunks.drop_last());
        assert(frames(chunks).drop_last() =~= frames(chunks.drop_last()));
        assert(events_of(call, frames(chunks)) =~= outputs(chunks).map_values(
            |output: OutputModel| EventModel::Delta(output),
        ));
    } else {
        assert(events_of(call, frames(chunks)) =~= outputs(chunks).map_values(
            |output: OutputModel| EventModel::Delta(output),
        ));
    }
}

/// A generation that runs to its end gives exactly the pieces of output that the
/// runtime sent, added up; nothing is lost on the way from the scheduler to a
/// caller that waits for the whole.
pub proof fn law_whole_generation_is_collected(
    call: FrontendCallModel,
    chunks: Seq<ChunkEvent>,
    last: ChunkEvent,
)
    requires
        !call.events_finished,
        chunk_output(last)@.finish_reason matches Some(reason) ==> reason.abort is None,
    ensures
        collected(
            events_of(call, frames(chunks).push(ResponseItem::Done(last))).map_values(
                |event: EventModel| Some(event),
            ),
        ) == CollectionModel::Ended(Ok(folded(outputs(chunks.push(last))))),
{
    let items = frames(chunks).push(ResponseItem::Done(last));
    let events = events_of(call, items);
    let deltas = outputs(chunks);
    let output = chunk_output(last)@;
    lemma_frames_become_deltas(call, chunks);
    assert(items.drop_last() =~= frames(chunks));
    assert(events.map_values(|event: EventModel| Some(event)) =~= delta_events(deltas).push(
        Some(EventModel::Finished(output)),
    ));
    law_collection_outcome(deltas, Some(EventModel::Finished(output)));
    assert(outputs(chunks.push(last)) =~= deltas.push(output));
}

/// The text of a detokenization stands for exactly the bytes that the runtime
/// sent: encoded again it gives them back, every valid encoding of a text is
/// answered with that text, and bytes that encode no text are refused.
pub proof fn law_detokenized_text_is_the_bytes(bytes: Vec<u8>, text: Seq<char>)
    ensures
        detokenize_model(Some(ResponseItem::Data(bytes))) matches Ok(reply) ==> encode_utf8(reply)
            == bytes@,
        bytes@ == encode_utf8(text) ==> detokenize_model(Some(ResponseItem::Data(bytes))) == Ok::<
            Seq<char>,
            ErrorModel,
        >(text),
        !valid_utf8(bytes@) ==> detokenize_model(Some(ResponseItem::Data(bytes))) == Err::<
            Seq<char>,
            ErrorModel,
        >(ErrorModel::InvalidResponse("detokenized prompt is not valid UTF-8"@)),
{
    if valid_utf8(bytes@) {
        decode_utf8_encode_utf8(bytes@);
    }
    encode_utf8_decode_utf8(text);
    vstd::utf8::encode_utf8_valid_utf8(text);
}

/// Different texts never come from the same bytes, nor one text from different
/// bytes.
pub proof fn law_detokenization_is_one_to_one(first: Vec<u8>, second: Vec<u8>)
    requires
        valid_utf8(first@),
        valid_utf8(second@),
    ensures
        detokenize_model(Some(ResponseItem::Data(first))) == detokenize_model(
            Some(ResponseItem::Data(second)),
        ) <==> first@ == second@,
{
    decode_utf8_encode_utf8(first@);
    decode_utf8_encode_utf8(second@);
}

/// What else a detokenization can come to: the runtime's own words for a request
/// that is wrong, its failure by category, and a failure of the server where the
/// answer is of another kind or does not come.
pub proof fn law_failed_detokenizations_say_why(item: Option<ResponseItem>)
    ensures
        match item {
            None => detokenize_model(item) == Err::<Seq<char>, ErrorModel>(
                ErrorModel::Internal("reply channel closed"@),
            ),
            Some(ResponseItem::Error(Error::Validation(message))) => detokenize_model(item)
                == Err::<Seq<char>, ErrorModel>(ErrorModel::InvalidArgument(message@)),
            Some(ResponseItem::Error(error)) => detokenize_model(item) == Err::<
                Seq<char>,
                ErrorModel,
            >(translated(error)),
            Some(ResponseItem::Data(_)) => true,
            Some(_) => detokenize_model(item) == Err::<Seq<char>, ErrorModel>(
                ErrorModel::InvalidResponse("unexpected output for detokenize request"@),
            ),
        },
{
}

/// What a control request comes to: the payload of its reply as it is, the
/// runtime's failure by category, a failure of the server where the answer is of
/// another kind, and a truncation where none comes.
pub proof fn law_control_replies(item: Option<ResponseItem>)
    ensures
        match item {
            None => control_model(item) == Err::<Seq<u8>, ErrorModel>(
                ErrorModel::ResponseTruncated,
            ),
            Some(ResponseItem::Control(bytes)) => control_model(item) == Ok::<Seq<u8>, ErrorModel>(
                bytes@,
            ),
            Some(ResponseItem::Error(error)) => control_model(item) == Err::<Seq<u8>, ErrorModel>(
                translated(error),
            ),
            Some(_) => control_model(item) == Err::<Seq<u8>, ErrorModel>(
                ErrorModel::InvalidResponse("unexpected generation output for control request"@),
            ),
        },
{
}

/// What a failure of the runtime is to a client: its own fault where the request
/// is wrong, a full queue, its own disconnection, or a fault of the server; the
/// reason is always told.
pub proof fn law_runtime_failures_have_categories(error: Error)
    ensures
        match error {
            Error::Validation(reason) => translated(error) == ErrorModel::InvalidArgument(
                "validation failed: "@ + reason@,
            ),
            Error::QueueFull => translated(error) == ErrorModel::Overloaded(
                "to_scheduler channel full"@,
            ),
            Error::Disconnected => translated(error) == ErrorModel::Cancelled(
                "client disconnected"@,
            ),
            Error::Tokenize(reason) => translated(error) == ErrorModel::Internal(
                "tokenize failed: "@ + reason@,
            ),
            Error::Encode(reason) => translated(error) == ErrorModel::Internal(
                "encode failed: "@ + reason@,
            ),
            Error::Detokenize(reason) => translated(error) == ErrorModel::Internal(
                "detokenize failed: "@ + reason@,
            ),
            Error::Codec(reason) => translated(error) == ErrorModel::Internal(
                "serialization error: "@ + reason@,
            ),
            Error::Internal(reason) => translated(error) == ErrorModel::Internal(
                "internal error: "@ + reason@,
            ),
        },
{
}

/// What an answer to a generation means: a piece of output is passed on with all
/// that it holds, and so is the last one, unless the scheduler aborted it with a
/// status, which makes it a rejection with that status and message; a failure is
/// passed on by category, and any other answer is a fault of the server.
pub proof fn law_generation_events(item: ResponseItem)
    ensures
        match item {
            ResponseItem::Frame(chunk) => event_of(item) matches EventModel::Delta(output)
                && output.text == chunk.text@ && output.token_ids == chunk.token_ids@
                && output.prompt_tokens == chunk.prompt_tokens && output.completion_tokens
                == chunk.completion_tokens && (output.finish_reason is Some
                <==> chunk.finish_reason is Some) && (output.extras is Some
                <==> chunk.extras is Some) && (chunk.extras matches Some(extras)
                ==> output.extras->0 == (*extras)@) && (chunk.finish_reason matches Some(reason)
                ==> output.finish_reason->0 == reason@),
            ResponseItem::Done(chunk) => match chunk.finish_reason {
                Some(reason) if reason.abort is Some => event_of(item) matches EventModel::Failed(
                    ErrorModel::RuntimeRejected { message, legacy_http_status, .. },
                ) && message == reason.abort->0.message@ && legacy_http_status
                    == reason.abort->0.status,
                _ => event_of(item) matches EventModel::Finished(output) && output.text
                    == chunk.text@ && output.token_ids == chunk.token_ids@ && output.prompt_tokens
                    == chunk.prompt_tokens && output.completion_tokens == chunk.completion_tokens
                    && (output.finish_reason is Some <==> chunk.finish_reason is Some) && (
                output.extras is Some <==> chunk.extras is Some) && (chunk.extras matches Some(
                    extras,
                ) ==> output.extras->0 == (*extras)@) && (chunk.finish_reason matches Some(reason)
                    ==> output.finish_reason->0 == reason@),
            },
            ResponseItem::Error(error) => event_of(item) == EventModel::Failed(translated(error)),
            _ => event_of(item) == EventModel::Failed(
                ErrorModel::InvalidResponse("unexpected non-generation response"@),
            ),
        },
        received_event(Some(item)) == event_of(item),
        received_event(None) == EventModel::Failed(
            ErrorModel::Internal("response truncated before completion"@),
        ),
{
}

/// Every request is routed by its own name: a generation by the one it brought, a
/// control request by the one it was given, and a detokenization by a fresh one.
pub proof fn law_requests_are_routed_by_name(kind: RequestKind, minted: Seq<char>)
    ensures
        kind matches RequestKind::Generate(request) ==> request_rid_model(kind, minted)
            == request.rid@,
        kind matches RequestKind::Control(ControlRequest::GetInternalState { rid })
            ==> request_rid_model(kind, minted).internal == rid@ && request_rid_model(
            kind,
            minted,
        ).public == rid@,
        kind is Detokenize ==> request_rid_model(kind, minted).internal == minted
            && request_rid_model(kind, minted).public == minted,
        CallModel::armed(kind, minted).rid == request_rid_model(kind, minted),
        CallModel::armed(kind, minted).in_flight,
{
}

/// A health probe is one token in and one token out, chosen without randomness,
/// under a name that marks it as a probe, and asks for nothing else.
pub proof fn law_probe_request(is_disaggregation: bool, minted: Seq<char>)
    ensures
        ({
            let probe = probe_model(is_disaggregation, minted);
            &&& probe.input_ids == Some(seq![0i32])
            &&& probe.text is None
            &&& probe.rid.internal == "HEALTH_CHECK_"@ + minted
            &&& probe.rid.public == "HEALTH_CHECK_"@ + minted
            &&& probe.sampling_params.max_new_tokens.given() == Some(1i64)
            &&& probe.sampling_params.temperature.given() == Some(0u64)
            &&& probe.sampling_params.top_p is Unset && probe.sampling_params.stop is Unset
                && probe.sampling_params.regex is Unset && probe.sampling_params.n is Unset
            &&& !probe.stream && !probe.return_logprob && probe.images is None
            &&& is_disaggregation ==> probe.bootstrap_host == Some("2.2.2.2"@)
                && probe.bootstrap_room == Some(0int)
            &&& !is_disaggregation ==> probe.bootstrap_host is None && probe.bootstrap_room is None
            &&& probe.bootstrap_port is None && probe.routed_dp_rank is None
        }),
{
}

/// Which answer ends a request for the runtime: an error always, and else the last
/// answer of the kind that was asked for. Output in between ends nothing.
pub proof fn law_what_ends_a_request(expected: ExpectedResponse, item: ResponseItem)
    ensures
        item is Error ==> expected.ends_with(item),
        item is Frame ==> !expected.ends_with(item),
        item is Done ==> (expected.ends_with(item) <==> expected is Generate),
        item is Control ==> (expected.ends_with(item) <==> expected is Control),
        item is Data ==> (expected.ends_with(item) <==> expected is Detokenize),
{
}

/// A call that is given up aborts its request exactly when the intake has accepted
/// it and the runtime has not ended it, under the name that it is routed by; one
/// that the intake has not yet looked at is cancelled instead.
pub proof fn law_given_up_calls(call: CallModel, admission: RequestAdmission)
    ensures
        call.in_flight && admission is Accepted ==> call.abort_on_release(admission) == Some(
            call.rid,
        ) && call.released_admission(admission) is Accepted,
        call.in_flight && admission is Pending ==> call.abort_on_release(admission) is None
            && call.released_admission(admission) is Cancelled,
        admission is Cancelled ==> call.abort_on_release(admission) is None
            && call.released_admission(admission) is Cancelled,
        !call.in_flight ==> call.abort_on_release(admission) is None && call.released_admission(
            admission,
        ) == admission,
        !call.released().in_flight,
        call.released().rid == call.rid,
{
}

/// What the frontend keeps of its launch configuration is what was configured.
pub proof fn law_frontend_configuration(config: FrontendConfig, args: ServerArgs)
    requires
        config.configured_by(args),
    ensures
        config.startup_ready == args.skip_server_warmup,
        config.is_disaggregation == args.is_disaggregation,
        config.mm_limits@ == args.limit_mm_data_per_request@,
        config.metadata.model_path@ == args.model_path@,
        config.metadata.served_model_name@ == args.served_model_name@,
        config.metadata.tokenizer_path@ == args.tokenizer_path@,
        config.metadata.disaggregation_mode@ == args.disaggregation_mode@,
        config.metadata.max_context_length == args.context_len,
        config.metadata.max_total_num_tokens == args.max_total_num_tokens,
        config.metadata.version@ == args.version@,
        config.metadata.weight_version is Some <==> args.weight_version is Some,
        args.weight_version matches Some(text) ==> config.metadata.weight_version->0@ == text@,
        config.metadata.load_format is Some <==> args.load_format is Some,
        args.load_format matches Some(text) ==> config.metadata.load_format->0@ == text@,
        config.metadata.reasoning_parser is Some <==> args.reasoning_parser is Some,
        args.reasoning_parser matches Some(text) ==> config.metadata.reasoning_parser->0@ == text@,
        config.metadata.tool_call_parser is Some <==> args.tool_call_parser is Some,
        args.tool_call_parser matches Some(text) ==> config.metadata.tool_call_parser->0@ == text@,
        config.metadata.preferred_sampling_params is Some
            <==> args.preferred_sampling_params is Some,
        args.preferred_sampling_params matches Some(document)
            ==> config.metadata.preferred_sampling_params->0@ == document@,
{
}

/// A request is decided on once: whoever is first, the intake that takes it on or
/// the owner that gives it up, the other finds it decided. Only one that was taken
/// on needs an abort, and one that was given up is never taken on.
pub proof fn law_admission_is_decided_once(admission: RequestAdmission)
    ensures
        admission is Pending ==> admission.acceptable() && admission.after_acceptance() is Accepted
            && !admission.must_be_aborted() && admission.after_cancellation() is Cancelled,
        admission is Accepted ==> !admission.acceptable() && admission.after_acceptance() is Accepted
            && admission.must_be_aborted() && admission.after_cancellation() is Accepted,
        admission is Cancelled ==> !admission.acceptable()
            && admission.after_acceptance() is Cancelled && !admission.must_be_aborted()
            && admission.after_cancellation() is Cancelled,
        !admission.after_cancellation().acceptable(),
        !admission.after_acceptance().acceptable(),
{
}

/// A request that came back from the intake is out of its owner's hands without an
/// abort; one that was delivered stays in flight, under the same name.
pub proof fn law_handed_over_calls(call: CallModel, admission: RequestAdmission)
    ensures
        call.handed(true) == call,
        !call.handed(false).in_flight,
        call.handed(false).rid == call.rid,
        call.handed(false).expected_response == call.expected_response,
        call.handed(false).abort_on_release(admission) is None,
{
}

/// What an owner sees of its request: it stays in flight until an answer ends it,
/// under the same name throughout, and the end of the answers alone does not end
/// the request.
pub proof fn law_observed_calls(call: CallModel, item: ResponseItem)
    ensures
        call.observed(Some(item)).rid == call.rid,
        call.observed(Some(item)).expected_response == call.expected_response,
        item is Error ==> !call.observed(Some(item)).in_flight,
        item is Frame ==> call.observed(Some(item)).in_flight == call.in_flight,
        item is Done && call.expected_response is Generate ==> !call.observed(
            Some(item),
        ).in_flight,
        call.observed(None) == call,
{
}

/// Preparation that fails is the caller's fault, in the words of what failed, and a
/// reply of the scheduler that cannot be decoded is the server's, with the reason.
pub proof fn law_preparation_and_decoding_failures(
    prefetched: Result<(), String>,
    decoded: Result<InternalState, String>,
)
    ensures
        prefetched is Ok ==> unprepared(prefetched) is None,
        prefetched matches Err(reason) ==> unprepared(prefetched) == Some(
            ErrorModel::InvalidArgument(reason@),
        ),
        decoded is Ok ==> undecoded(decoded) is None,
        decoded matches Err(reason) ==> undecoded(decoded) == Some(
            ErrorModel::InvalidResponse("invalid internal-state response: "@ + reason@),
        ),
{
}

/// A server that has not started is not ready, and is not probed; one that is probed
/// is healthy as soon as anything came out of the scheduler, stalled once the deadline
/// has passed without that, and else still to be waited for.
pub proof fn law_probed_health(baseline: u64, activity: u64)
    ensures
        before_probe_model(false) == Some(HealthStatus::NotReady),
        before_probe_model(true) is None,
        activity != baseline ==> probe_status_model(baseline, activity, false) == Some(
            HealthStatus::Healthy,
        ) && probe_status_model(baseline, activity, true) == Some(HealthStatus::Healthy),
        activity == baseline ==> probe_status_model(baseline, activity, true) == Some(
            HealthStatus::Stalled,
        ) && probe_status_model(baseline, activity, false) is None,
{
}

/// A generation that is received event by event gives exactly the output that the
/// runtime sent, piece by piece and in order, and ends with its last piece.
pub proof fn law_received_output(call: FrontendCallModel, chunks: Seq<ChunkEvent>, last: ChunkEvent)
    requires
        !call.events_finished,
        last.finish_reason matches Some(reason) ==> reason.abort is None,
    ensures
        ({
            let items = frames(chunks).push(ResponseItem::Done(last));
            let events = events_of(call, items);
            &&& events.len() == chunks.len() + 1
            &&& forall|i: int|
                0 <= i < chunks.len() ==> ((#[trigger] events[i]) matches EventModel::Delta(output)
                    && output.text == chunks[i].text@ && output.token_ids == chunks[i].token_ids@
                    && output.completion_tokens == chunks[i].completion_tokens)
            &&& events.last() matches EventModel::Finished(output) && output.text == last.text@
                && output.token_ids == last.token_ids@
            &&& call_after(call, items).events_finished
        }),
{
    let items = frames(chunks).push(ResponseItem::Done(last));
    let events = events_of(call, items);
    law_events_end_with_the_terminal_one(call, items);
    assert forall|i: int| 0 <= i < chunks.len() implies (#[trigger] items[i])
        == ResponseItem::Frame(chunks[i]) by {
    }
    if events.len() < items.len() {
        lemma_events_of_something(call, items);
        let end = events.len() - 1;
        assert(events[end] == event_of(items[end]));
        assert(items[end] == ResponseItem::Frame(chunks[end]));
    }
    assert(items[chunks.len() as int] == ResponseItem::Done(last));
    assert(events[chunks.len() as int] == event_of(items[chunks.len() as int]));
    assert forall|i: int| 0 <= i < chunks.len() implies ((#[trigger] events[i]) matches
        EventModel::Delta(output) && output.text == chunks[i].text@ && output.token_ids
        == chunks[i].token_ids@ && output.completion_tokens == chunks[i].completion_tokens) by {
        assert(events[i] == event_of(items[i]));
        assert(items[i] == ResponseItem::Frame(chunks[i]));
    }
}

/// Answers to a call that goes on give rise to some event.
proof fn lemma_events_of_something(call: FrontendCallModel, items: Seq<ResponseItem>)
    requires
        !call.events_finished,
        items.len() > 0,
    ensures
        events_of(call, items).len() > 0,
    decreases items.len(),
{
    if items.len() > 1 {
        lemma_events_of_something(call, items.drop_last());
    }
}

/// Requests, calls, events and names mean what they hold, each in its place.
pub proof fn law_batches_mean_themselves<L>(
    requests: Seq<FrontendRequest>,
    calls: Seq<(RuntimeCall, L)>,
    events: Seq<FrontendEvent>,
    rid: Option<Rid>,
)
    ensures
        requests_model(requests).len() == requests.len(),
        forall|i: int|
            0 <= i < requests.len() ==> (#[trigger] requests_model(requests)[i]) == requests[i]@,
        owned_calls(calls).len() == calls.len(),
        forall|i: int|
            0 <= i < calls.len() ==> (#[trigger] owned_calls(calls)[i]) == (
                calls[i].0@,
                calls[i].1,
            ),
        events_model(events).len() == events.len(),
        forall|i: int|
            0 <= i < events.len() ==> (#[trigger] events_model(events)[i]) == events[i]@,
        rid matches Some(name) ==> opt_rid(Some(name)) == Some(name@),
        rid is None ==> opt_rid(rid) is None,
{
}

} // verus!
