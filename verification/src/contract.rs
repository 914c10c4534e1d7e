//! Transport-neutral results that the wire surfaces share.
//!
//! These types say what an inference operation came to, before any surface
//! frames it. They know nothing of HTTP, gRPC or the scheduler's encodings.

use vstd::prelude::*;

use crate::output::{FrontendOutput, OutputModel};

verus! {

/// The result of a deep health check. Expected states of a server's life are
/// values, not errors.
#[derive(Clone, Copy, Debug, PartialEq, Eq, Structural)]
pub enum HealthStatus {
    Healthy,
    NotReady,
    Stalled,
}

/// The category of a failure, by what went wrong with the operation.
#[derive(Clone, Copy, Debug, PartialEq, Eq, Structural)]
pub enum FrontendErrorKind {
    InvalidArgument,
    NotFound,
    FailedPrecondition,
    ResourceExhausted,
    Cancelled,
    DeadlineExceeded,
    Unavailable,
    Internal,
}

/// A failure, before any surface maps it to a status of its own.
#[derive(Debug)]
pub enum FrontendError {
    InvalidArgument(String),
    /// The intake loop has shut down. A caller may retry elsewhere.
    Unavailable,
    /// Capacity was exhausted before the request could make progress.
    Overloaded(String),
    Cancelled(String),
    /// The producer disappeared before a terminal result: a failure of the
    /// server, no evidence that the caller cancelled.
    ResponseTruncated,
    /// A scheduler-side abort that carried an HTTP-style status. The status is
    /// kept so that the HTTP surface can answer with it.
    RuntimeRejected { kind: FrontendErrorKind, message: String, legacy_http_status: u16 },
    /// The runtime replied with an unexpected or malformed result.
    InvalidResponse(String),
    Internal(String),
}

/// What a [`FrontendError`] means.
#[verifier::ext_equal]
pub enum ErrorModel {
    InvalidArgument(Seq<char>),
    Unavailable,
    Overloaded(Seq<char>),
    Cancelled(Seq<char>),
    ResponseTruncated,
    RuntimeRejected { kind: FrontendErrorKind, message: Seq<char>, legacy_http_status: u16 },
    InvalidResponse(Seq<char>),
    Internal(Seq<char>),
}

impl View for FrontendError {
    type V = ErrorModel;

    open spec fn view(&self) -> ErrorModel {
        match self {
            FrontendError::InvalidArgument(message) => ErrorModel::InvalidArgument(message@),
            FrontendError::Unavailable => ErrorModel::Unavailable,
            FrontendError::Overloaded(message) => ErrorModel::Overloaded(message@),
            FrontendError::Cancelled(message) => ErrorModel::Cancelled(message@),
            FrontendError::ResponseTruncated => ErrorModel::ResponseTruncated,
            FrontendError::RuntimeRejected { kind, message, legacy_http_status } =>
                ErrorModel::RuntimeRejected {
                kind: *kind,
                message: message@,
                legacy_http_status: *legacy_http_status,
            },
            FrontendError::InvalidResponse(message) => ErrorModel::InvalidResponse(message@),
            FrontendError::Internal(message) => ErrorModel::Internal(message@),
        }
    }
}

/// The category of a scheduler's HTTP-style status.
pub open spec fn status_kind(status: u16) -> FrontendErrorKind {
    if status == 404 {
        FrontendErrorKind::NotFound
    } else if status == 408 || status == 504 {
        FrontendErrorKind::DeadlineExceeded
    } else if status == 412 {
        FrontendErrorKind::FailedPrecondition
    } else if status == 413 || status == 429 {
        FrontendErrorKind::ResourceExhausted
    } else if status == 499 {
        FrontendErrorKind::Cancelled
    } else if status == 502 || status == 503 {
        FrontendErrorKind::Unavailable
    } else if 400 <= status <= 499 {
        FrontendErrorKind::InvalidArgument
    } else {
        FrontendErrorKind::Internal
    }
}

impl ErrorModel {
    /// The category of the failure.
    pub open spec fn kind(self) -> FrontendErrorKind {
        match self {
            ErrorModel::InvalidArgument(_) => FrontendErrorKind::InvalidArgument,
            ErrorModel::Unavailable => FrontendErrorKind::Unavailable,
            ErrorModel::Overloaded(_) => FrontendErrorKind::ResourceExhausted,
            ErrorModel::Cancelled(_) => FrontendErrorKind::Cancelled,
            ErrorModel::ResponseTruncated => FrontendErrorKind::Internal,
            ErrorModel::RuntimeRejected { kind, .. } => kind,
            ErrorModel::InvalidResponse(_) => FrontendErrorKind::Internal,
            ErrorModel::Internal(_) => FrontendErrorKind::Internal,
        }
    }

    /// The text that describes the failure.
    pub open spec fn text(self) -> Seq<char> {
        match self {
            ErrorModel::InvalidArgument(message) => message,
            ErrorModel::Unavailable => "service unavailable"@,
            ErrorModel::Overloaded(message) => message,
            ErrorModel::Cancelled(message) => message,
            ErrorModel::ResponseTruncated => "response truncated before completion"@,
            ErrorModel::RuntimeRejected { message, .. } => message,
            ErrorModel::InvalidResponse(message) => message,
            ErrorModel::Internal(message) => message,
        }
    }

    /// A scheduler's rejection with its HTTP-style status.
    pub open spec fn rejection(message: Seq<char>, status: u16) -> Self {
        ErrorModel::RuntimeRejected {
            kind: status_kind(status),
            message,
            legacy_http_status: status,
        }
    }
}

impl FrontendError {
    /// The category of the failure, for surfaces that do not answer with the
    /// scheduler's HTTP-style status.
    pub fn kind(&self) -> (kind: FrontendErrorKind)
        ensures
            kind == self@.kind(),
    {
        match self {
            FrontendError::InvalidArgument(_) => FrontendErrorKind::InvalidArgument,
            FrontendError::Unavailable => FrontendErrorKind::Unavailable,
            FrontendError::Overloaded(_) => FrontendErrorKind::ResourceExhausted,
            FrontendError::Cancelled(_) => FrontendErrorKind::Cancelled,
            FrontendError::ResponseTruncated => FrontendErrorKind::Internal,
            FrontendError::RuntimeRejected { kind, .. } => *kind,
            FrontendError::InvalidResponse(_) | FrontendError::Internal(_) =>
                FrontendErrorKind::Internal,
        }
    }

    /// Describes the failure.
    pub fn message(&self) -> (message: String)
        ensures
            message@ == self@.text(),
    {
        match self {
            FrontendError::InvalidArgument(message) => message.clone(),
            FrontendError::Unavailable => "service unavailable".to_owned(),
            FrontendError::Overloaded(message) => message.clone(),
            FrontendError::Cancelled(message) => message.clone(),
            FrontendError::ResponseTruncated => "response truncated before completion".to_owned(),
            FrontendError::RuntimeRejected { message, .. } => message.clone(),
            FrontendError::InvalidResponse(message) => message.clone(),
            FrontendError::Internal(message) => message.clone(),
        }
    }

    /// Gives a scheduler's HTTP-coded failure its category, once, where it
    /// enters the frontend. The status itself is kept.
    pub fn from_runtime_rejection(message: String, legacy_http_status: u16) -> (error: Self)
        ensures
            error@ == ErrorModel::rejection(message@, legacy_http_status),
    {
        let kind = match legacy_http_status {
            404 => FrontendErrorKind::NotFound,
            408 | 504 => FrontendErrorKind::DeadlineExceeded,
            412 => FrontendErrorKind::FailedPrecondition,
            413 | 429 => FrontendErrorKind::ResourceExhausted,
            499 => FrontendErrorKind::Cancelled,
            502 | 503 => FrontendErrorKind::Unavailable,
            400..=499 => FrontendErrorKind::InvalidArgument,
            _ => FrontendErrorKind::Internal,
        };
        FrontendError::RuntimeRejected { kind, message, legacy_http_status }
    }
}

impl Clone for FrontendError {
    fn clone(&self) -> (copy: Self)
        ensures
            copy@ == self@,
    {
        match self {
            FrontendError::InvalidArgument(message) => FrontendError::InvalidArgument(
                message.clone(),
            ),
            FrontendError::Unavailable => FrontendError::Unavailable,
            FrontendError::Overloaded(message) => FrontendError::Overloaded(message.clone()),
            FrontendError::Cancelled(message) => FrontendError::Cancelled(message.clone()),
            FrontendError::ResponseTruncated => FrontendError::ResponseTruncated,
            FrontendError::RuntimeRejected { kind, message, legacy_http_status } =>
                FrontendError::RuntimeRejected {
                kind: *kind,
                message: message.clone(),
                legacy_http_status: *legacy_http_status,
            },
            FrontendError::InvalidResponse(message) => FrontendError::InvalidResponse(
                message.clone(),
            ),
            FrontendError::Internal(message) => FrontendError::Internal(message.clone()),
        }
    }
}

/// One event of a generation, before any framing.
#[derive(Debug)]
pub enum FrontendEvent {
    /// One more piece of output.
    Delta(FrontendOutput),
    /// The last piece of output.
    Finished(FrontendOutput),
    /// The request failed. Others of its batch may go on.
    Failed(FrontendError),
}

/// What a [`FrontendEvent`] means.
#[verifier::ext_equal]
pub enum EventModel {
    Delta(OutputModel),
    Finished(OutputModel),
    Failed(ErrorModel),
}

impl View for FrontendEvent {
    type V = EventModel;

    open spec fn view(&self) -> EventModel {
        match self {
            FrontendEvent::Delta(output) => EventModel::Delta(output@),
            FrontendEvent::Finished(output) => EventModel::Finished(output@),
            FrontendEvent::Failed(error) => EventModel::Failed(error@),
        }
    }
}

impl EventModel {
    /// Whether nothing follows the event.
    pub open spec fn is_terminal(self) -> bool {
        !(self is Delta)
    }
}

impl FrontendEvent {
    /// Whether nothing follows this event.
    pub fn is_terminal(&self) -> (terminal: bool)
        ensures
            terminal == self@.is_terminal(),
    {
        match self {
            FrontendEvent::Delta(_) => false,
            FrontendEvent::Finished(_) | FrontendEvent::Failed(_) => true,
        }
    }
}

/// A rejection keeps the scheduler's status and message, whatever its category.
pub proof fn law_rejection_keeps_status(message: Seq<char>, status: u16)
    ensures
        ErrorModel::rejection(message, status)->legacy_http_status == status,
        ErrorModel::rejection(message, status).text() == message,
        ErrorModel::rejection(message, status).kind() == status_kind(status),
{
}

/// No client error status counts as an internal failure, a server error status
/// counts as internal, unavailable or timed out, and a status outside both
/// ranges counts as internal.
pub proof fn law_status_kinds(status: u16)
    ensures
        status_kind(status) == FrontendErrorKind::Internal ==> !(400 <= status <= 499),
        500 <= status <= 599 ==> status_kind(status) == FrontendErrorKind::Internal || status_kind(
            status,
        ) == FrontendErrorKind::Unavailable || status_kind(status)
            == FrontendErrorKind::DeadlineExceeded,
        status < 400 || status >= 600 ==> status_kind(status) == FrontendErrorKind::Internal,
{
}

/// What a failure is and says, by what went wrong: each has one category, and tells
/// the reason that it carries.
pub proof fn law_failures_say_what_went_wrong(error: ErrorModel)
    ensures
        match error {
            ErrorModel::InvalidArgument(message) => error.kind() is InvalidArgument && error.text()
                == message,
            ErrorModel::Unavailable => error.kind() is Unavailable && error.text()
                == "service unavailable"@,
            ErrorModel::Overloaded(message) => error.kind() is ResourceExhausted && error.text()
                == message,
            ErrorModel::Cancelled(message) => error.kind() is Cancelled && error.text() == message,
            ErrorModel::ResponseTruncated => error.kind() is Internal && error.text()
                == "response truncated before completion"@,
            ErrorModel::RuntimeRejected { kind, message, .. } => error.kind() == kind
                && error.text() == message,
            ErrorModel::InvalidResponse(message) => error.kind() is Internal && error.text()
                == message,
            ErrorModel::Internal(message) => error.kind() is Internal && error.text() == message,
        },
{
}

/// Which of the scheduler's statuses mean what.
pub proof fn law_scheduler_statuses_have_categories(status: u16)
    ensures
        status_kind(status) is NotFound <==> status == 404,
        status_kind(status) is DeadlineExceeded <==> (status == 408 || status == 504),
        status_kind(status) is FailedPrecondition <==> status == 412,
        status_kind(status) is ResourceExhausted <==> (status == 413 || status == 429),
        status_kind(status) is Cancelled <==> status == 499,
        status_kind(status) is Unavailable <==> (status == 502 || status == 503),
        status_kind(status) is InvalidArgument <==> (400 <= status < 500 && status != 404 && status
            != 408 && status != 412 && status != 413 && status != 429 && status != 499),
        status_kind(status) is Internal <==> ((status < 400 || status >= 500) && status != 502
            && status != 503 && status != 504),
{
}

/// Output that goes on is the only event that something can follow.
pub proof fn law_terminal_events(output: OutputModel, error: ErrorModel)
    ensures
        !EventModel::Delta(output).is_terminal(),
        EventModel::Finished(output).is_terminal(),
        EventModel::Failed(error).is_terminal(),
{
}

/// A failure and an event mean what they hold.
pub proof fn law_results_mean_what_they_hold(error: FrontendError, event: FrontendEvent)
    ensures
        match error {
            FrontendError::InvalidArgument(message) => error@ == ErrorModel::InvalidArgument(
                message@,
            ),
            FrontendError::Unavailable => error@ == ErrorModel::Unavailable,
            FrontendError::Overloaded(message) => error@ == ErrorModel::Overloaded(message@),
            FrontendError::Cancelled(message) => error@ == ErrorModel::Cancelled(message@),
            FrontendError::ResponseTruncated => error@ == ErrorModel::ResponseTruncated,
            FrontendError::RuntimeRejected { kind, message, legacy_http_status } => error@ == (
            ErrorModel::RuntimeRejected { kind, message: message@, legacy_http_status }),
            FrontendError::InvalidResponse(message) => error@ == ErrorModel::InvalidResponse(
                message@,
            ),
            FrontendError::Internal(message) => error@ == ErrorModel::Internal(message@),
        },
        match event {
            FrontendEvent::Delta(output) => event@ == EventModel::Delta(output@),
            FrontendEvent::Finished(output) => event@ == EventModel::Finished(output@),
            FrontendEvent::Failed(failure) => event@ == EventModel::Failed(failure@),
        },
{
}

} // verus!
