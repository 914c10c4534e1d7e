//! The error type that the stages of the runtime share.

use vstd::prelude::*;

use crate::text::concat2;

verus! {

/// A failure of one stage. Some variants belong to stages that report nothing
/// yet; they are part of the stable error surface.
#[derive(Debug)]
pub enum Error {
    Validation(String),
    Tokenize(String),
    Encode(String),
    Detokenize(String),
    /// The channel to the scheduler is full. Surfaced as backpressure.
    QueueFull,
    /// The client went away in the middle of a stream.
    Disconnected,
    Codec(String),
    Internal(String),
}

/// What a stage returns.
pub type Result<T> = std::result::Result<T, Error>;

impl Clone for Error {
    fn clone(&self) -> (copy: Self)
        ensures
            copy == *self,
    {
        match self {
            Error::Validation(reason) => Error::Validation(reason.clone()),
            Error::Tokenize(reason) => Error::Tokenize(reason.clone()),
            Error::Encode(reason) => Error::Encode(reason.clone()),
            Error::Detokenize(reason) => Error::Detokenize(reason.clone()),
            Error::QueueFull => Error::QueueFull,
            Error::Disconnected => Error::Disconnected,
            Error::Codec(reason) => Error::Codec(reason.clone()),
            Error::Internal(reason) => Error::Internal(reason.clone()),
        }
    }
}

impl Error {
    /// The text that describes the failure.
    pub open spec fn text(self) -> Seq<char> {
        match self {
            Error::Validation(reason) => "validation failed: "@ + reason@,
            Error::Tokenize(reason) => "tokenize failed: "@ + reason@,
            Error::Encode(reason) => "encode failed: "@ + reason@,
            Error::Detokenize(reason) => "detokenize failed: "@ + reason@,
            Error::QueueFull => "to_scheduler channel full"@,
            Error::Disconnected => "client disconnected"@,
            Error::Codec(reason) => "serialization error: "@ + reason@,
            Error::Internal(reason) => "internal error: "@ + reason@,
        }
    }

    /// Describes the failure.
    pub fn message(&self) -> (message: String)
        ensures
            message@ == self.text(),
    {
        match self {
            Error::Validation(reason) => concat2("validation failed: ", reason.as_str()),
            Error::Tokenize(reason) => concat2("tokenize failed: ", reason.as_str()),
            Error::Encode(reason) => concat2("encode failed: ", reason.as_str()),
            Error::Detokenize(reason) => concat2("detokenize failed: ", reason.as_str()),
            Error::QueueFull => "to_scheduler channel full".to_owned(),
            Error::Disconnected => "client disconnected".to_owned(),
            Error::Codec(reason) => concat2("serialization error: ", reason.as_str()),
            Error::Internal(reason) => concat2("internal error: ", reason.as_str()),
        }
    }

    /// Whether the failure is no expected outcome of the request, of capacity or
    /// of cancellation.
    pub open spec fn server_fault(self) -> bool {
        !(self is Validation || self is QueueFull || self is Disconnected)
    }

    /// Whether this failure is a defect of the server, rather than an expected
    /// outcome of the request, of capacity or of cancellation.
    pub fn is_server_fault(&self) -> (fault: bool)
        ensures
            fault == self.server_fault(),
    {
        match self {
            Error::Tokenize(_)
            | Error::Encode(_)
            | Error::Detokenize(_)
            | Error::Codec(_)
            | Error::Internal(_) => true,
            Error::Validation(_) | Error::QueueFull | Error::Disconnected => false,
        }
    }
}

/// A failure of a stage says which stage and why, and counts as a fault of the
/// server unless it is an expected outcome.
pub proof fn law_stage_failures_say_why(error: Error)
    ensures
        match error {
            Error::Validation(reason) => error.text() == "validation failed: "@ + reason@
                && !error.server_fault(),
            Error::Tokenize(reason) => error.text() == "tokenize failed: "@ + reason@
                && error.server_fault(),
            Error::Encode(reason) => error.text() == "encode failed: "@ + reason@
                && error.server_fault(),
            Error::Detokenize(reason) => error.text() == "detokenize failed: "@ + reason@
                && error.server_fault(),
            Error::QueueFull => error.text() == "to_scheduler channel full"@
                && !error.server_fault(),
            Error::Disconnected => error.text() == "client disconnected"@ && !error.server_fault(),
            Error::Codec(reason) => error.text() == "serialization error: "@ + reason@
                && error.server_fault(),
            Error::Internal(reason) => error.text() == "internal error: "@ + reason@
                && error.server_fault(),
        },
{
}

} // verus!
