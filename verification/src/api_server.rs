//! What the HTTP surface answers, without its transport.

use vstd::prelude::*;

use crate::contract::{ErrorModel, FrontendError};
use crate::json::{Json, JsonModel};
use crate::metadata::ServerInfo;
use crate::openai::{
    error_http_status, error_payload, error_payload_model, frontend_error_status, OpenAiError,
};

verus! {

/// A failed control request.
#[derive(Debug)]
pub enum HttpFailure {
    /// In the error shape of the native API.
    Native { status: u16, message: String },
    /// As plain text.
    Plain { status: u16, text: String },
}

/// What an [`HttpFailure`] means.
#[verifier::ext_equal]
pub enum HttpFailureModel {
    Native { status: u16, message: Seq<char> },
    Plain { status: u16, text: Seq<char> },
}

impl View for HttpFailure {
    type V = HttpFailureModel;

    open spec fn view(&self) -> HttpFailureModel {
        match self {
            HttpFailure::Native { status, message } => HttpFailureModel::Native {
                status: *status,
                message: message@,
            },
            HttpFailure::Plain { status, text } => HttpFailureModel::Plain {
                status: *status,
                text: text@,
            },
        }
    }
}

/// The answer to a server-info request that failed. A reply that was cut short
/// is answered with 499, although it counts as internal elsewhere; what was
/// wrong with a reply is not shown.
pub open spec fn server_info_failure(error: ErrorModel) -> HttpFailureModel {
    match error {
        ErrorModel::Unavailable => HttpFailureModel::Native {
            status: 503,
            message: "service unavailable"@,
        },
        ErrorModel::ResponseTruncated => HttpFailureModel::Plain {
            status: 499,
            text: "request aborted"@,
        },
        ErrorModel::InvalidResponse(_) => HttpFailureModel::Plain {
            status: 500,
            text: "bad server_info response"@,
        },
        _ => HttpFailureModel::Plain { status: error_http_status(error), text: error.text() },
    }
}

/// Passes the server metadata on, or answers with the failure.
pub fn await_server_info(info: Result<ServerInfo, FrontendError>) -> (reply: Result<
    ServerInfo,
    HttpFailure,
>)
    ensures
        match info {
            Ok(info) => reply == Ok::<ServerInfo, HttpFailure>(info),
            Err(error) => reply matches Err(failure) && failure@ == server_info_failure(error@),
        },
        info matches Ok(info) ==> (reply matches Ok(passed) && passed == info),
{
    match info {
        Ok(info) => Ok(info),
        Err(FrontendError::Unavailable) => Err(
            HttpFailure::Native { status: 503, message: "service unavailable".to_owned() },
        ),
        Err(FrontendError::ResponseTruncated) => Err(
            HttpFailure::Plain { status: 499, text: "request aborted".to_owned() },
        ),
        Err(FrontendError::InvalidResponse(_)) => Err(
            HttpFailure::Plain { status: 500, text: "bad server_info response".to_owned() },
        ),
        Err(error) => Err(
            HttpFailure::Plain { status: frontend_error_status(&error), text: error.message() },
        ),
    }
}

/// The body of a server-info response, or the failure to serialize it.
pub open spec fn encoded_info(encoded: Result<Vec<u8>, String>) -> Result<
    Seq<u8>,
    HttpFailureModel,
> {
    match encoded {
        Err(_) => Err(
            HttpFailureModel::Plain { status: 500, text: "bad server_info response"@ },
        ),
        Ok(bytes) => Ok(bytes@),
    }
}

/// The body of a model-info response.
pub open spec fn encoded_model(encoded: Result<Vec<u8>, String>) -> Seq<u8> {
    match encoded {
        Err(_) => seq![],
        Ok(bytes) => bytes@,
    }
}

/// The body of a server-info response, or the failure to serialize it.
pub fn server_info(encoded: Result<Vec<u8>, String>) -> (body: Result<Vec<u8>, HttpFailure>)
    ensures
        match encoded {
            Ok(bytes) => body == Ok::<Vec<u8>, HttpFailure>(bytes),
            Err(_) => body matches Err(failure) && failure@ == (HttpFailureModel::Plain {
                status: 500,
                text: "bad server_info response"@,
            }),
        },
        body matches Ok(bytes) ==> encoded_info(encoded) == Ok::<Seq<u8>, HttpFailureModel>(bytes@),
        body matches Err(failure) ==> encoded_info(encoded) == Err::<Seq<u8>, HttpFailureModel>(
            failure@,
        ),
{
    match encoded {
        Ok(bytes) => Ok(bytes),
        Err(_) => Err(
            HttpFailure::Plain { status: 500, text: "bad server_info response".to_owned() },
        ),
    }
}

/// The body of a model-info response; empty where it cannot be serialized.
pub fn model_info(encoded: Result<Vec<u8>, String>) -> (body: Vec<u8>)
    ensures
        match encoded {
            Ok(bytes) => body == bytes,
            Err(_) => body@.len() == 0,
        },
        body@ == encoded_model(encoded),
{
    match encoded {
        Ok(bytes) => bytes,
        Err(_) => Vec::new(),
    }
}

/// How an error is sent.
#[derive(Debug)]
pub enum ErrorReply {
    /// A status with a JSON body.
    Unary { status: u16, body: Json },
    /// A stream that was promised: status 200, one frame with the error, and the
    /// marker of the end.
    Stream { frame: Json, done: String },
}

/// What an error reply means.
#[verifier::ext_equal]
pub enum ErrorReplyModel {
    Unary { status: u16, body: JsonModel },
    Stream { frame: JsonModel, done: Seq<char> },
}

impl View for ErrorReply {
    type V = ErrorReplyModel;

    open spec fn view(&self) -> ErrorReplyModel {
        match self {
            ErrorReply::Unary { status, body } => ErrorReplyModel::Unary {
                status: *status,
                body: body@,
            },
            ErrorReply::Stream { frame, done } => ErrorReplyModel::Stream {
                frame: frame@,
                done: done@,
            },
        }
    }
}

/// The reply to a failed OpenAI request.
pub open spec fn openai_error_model(
    code: u16,
    message: Seq<char>,
    stream: bool,
) -> ErrorReplyModel {
    let payload = error_payload_model(code, message);
    if stream {
        ErrorReplyModel::Stream { frame: payload, done: "[DONE]"@ }
    } else {
        ErrorReplyModel::Unary { status: code, body: payload }
    }
}

/// Answers a failed OpenAI request in the framing that the client was promised.
pub fn openai_error(error: OpenAiError) -> (reply: ErrorReply)
    ensures
        reply@ == openai_error_model(error.code, error.message@, error.stream),
{
    let payload = error_payload(error.code, error.message);
    if error.stream {
        ErrorReply::Stream { frame: payload, done: "[DONE]".to_owned() }
    } else {
        ErrorReply::Unary { status: error.code, body: payload }
    }
}

/// Answers an OpenAI request whose body could not be read.
pub fn rejected_body(reason: String) -> (reply: ErrorReply)
    ensures
        reply@ == openai_error_model(400, reason@, false),
{
    openai_error(OpenAiError { code: 400, message: reason, stream: false, kind: None })
}

/// What was wrong with a runtime's reply is never shown to an HTTP client.
pub proof fn law_invalid_replies_are_not_shown(first: Seq<char>, second: Seq<char>)
    ensures
        server_info_failure(ErrorModel::InvalidResponse(first)) == server_info_failure(
            ErrorModel::InvalidResponse(second),
        ),
{
}

/// What a client of the HTTP surface is told when the server metadata cannot be
/// had: that the server is closed, that the request was aborted, that the reply
/// made no sense, or the failure itself under its status.
pub proof fn law_server_info_failures(error: ErrorModel)
    ensures
        match error {
            ErrorModel::Unavailable => server_info_failure(error) == (HttpFailureModel::Native {
                status: 503,
                message: "service unavailable"@,
            }),
            ErrorModel::ResponseTruncated => server_info_failure(error) == (
            HttpFailureModel::Plain { status: 499, text: "request aborted"@ }),
            ErrorModel::InvalidResponse(_) => server_info_failure(error) == (
            HttpFailureModel::Plain { status: 500, text: "bad server_info response"@ }),
            ErrorModel::InvalidArgument(message) => server_info_failure(error) == (
            HttpFailureModel::Plain { status: 400, text: message }),
            ErrorModel::Overloaded(message) => server_info_failure(error) == (
            HttpFailureModel::Plain { status: 503, text: message }),
            ErrorModel::Cancelled(message) => server_info_failure(error) == (
            HttpFailureModel::Plain { status: 499, text: message }),
            ErrorModel::Internal(message) => server_info_failure(error) == (
            HttpFailureModel::Plain { status: 500, text: message }),
            ErrorModel::RuntimeRejected { message, legacy_http_status, .. } => server_info_failure(
                error,
            ) matches HttpFailureModel::Plain { status, text } && text == message && (100
                <= legacy_http_status <= 999 ==> status == legacy_http_status),
        },
{
}

/// A failed OpenAI request is answered in the framing that was promised: a stream
/// gets one frame with the error and then the marker of the end, any other request
/// gets the error's own status; both carry the same payload.
pub proof fn law_openai_errors_keep_their_framing(code: u16, message: Seq<char>)
    ensures
        openai_error_model(code, message, false) == (ErrorReplyModel::Unary {
            status: code,
            body: error_payload_model(code, message),
        }),
        openai_error_model(code, message, true) == (ErrorReplyModel::Stream {
            frame: error_payload_model(code, message),
            done: "[DONE]"@,
        }),
{
}

/// A failure and an error reply mean what they hold.
pub proof fn law_replies_mean_themselves(failure: HttpFailure, reply: ErrorReply)
    ensures
        failure matches HttpFailure::Native { status, message } ==> failure@ == (
        HttpFailureModel::Native { status, message: message@ }),
        failure matches HttpFailure::Plain { status, text } ==> failure@ == (
        HttpFailureModel::Plain { status, text: text@ }),
        reply matches ErrorReply::Unary { status, body } ==> reply@ == (ErrorReplyModel::Unary {
            status,
            body: body@,
        }),
        reply matches ErrorReply::Stream { frame, done } ==> reply@ == (ErrorReplyModel::Stream {
            frame: frame@,
            done: done@,
        }),
{
}

/// Metadata that was serialized is sent byte by byte; what could not be serialized
/// is a fault of the server for server metadata, without the reason, and an empty
/// body for model metadata.
pub proof fn law_serialized_metadata(encoded: Result<Vec<u8>, String>)
    ensures
        encoded matches Ok(bytes) ==> encoded_info(encoded) == Ok::<Seq<u8>, HttpFailureModel>(
            bytes@,
        ) && encoded_model(encoded) == bytes@,
        encoded is Err ==> encoded_info(encoded) == Err::<Seq<u8>, HttpFailureModel>(
            HttpFailureModel::Plain { status: 500, text: "bad server_info response"@ },
        ) && encoded_model(encoded).len() == 0,
{
}

} // verus!
