use sglang_server::api_server::{await_server_info, HttpFailure};
use sglang_server::contract::{FrontendError, FrontendErrorKind};
use sglang_server::error::Error;
use sglang_server::frontend::{
    control, translate_runtime_error, ControlRequest, RequestAdmission, RequestKind, RuntimeCall,
};
use sglang_server::grpc::openai as grpc_openai;
use sglang_server::grpc::response::{status, status_from_kind};
use sglang_server::grpc::status::GrpcCode;
use sglang_server::openai::frontend_error_status;

#[test]
fn runtime_errors_become_transport_neutral_categories() {
    assert!(matches!(
        translate_runtime_error(Error::Validation("bad input".into())),
        FrontendError::InvalidArgument(message)
            if message == "validation failed: bad input"
    ));
    assert!(matches!(
        translate_runtime_error(Error::QueueFull),
        FrontendError::Overloaded(message) if message == "to_scheduler channel full"
    ));
    assert!(matches!(
        translate_runtime_error(Error::Disconnected),
        FrontendError::Cancelled(message) if message == "client disconnected"
    ));

    assert!(matches!(
        translate_runtime_error(Error::Internal("bug".into())),
        FrontendError::Internal(message) if message == "internal error: bug"
    ));
}

#[test]
fn every_other_runtime_error_is_internal() {
    for (error, text) in [
        (Error::Tokenize("t".into()), "tokenize failed: t"),
        (Error::Encode("e".into()), "encode failed: e"),
        (Error::Detokenize("d".into()), "detokenize failed: d"),
        (Error::Codec("c".into()), "serialization error: c"),
        (Error::Internal("i".into()), "internal error: i"),
    ] {
        assert_eq!(error.message(), text);
        assert!(error.is_server_fault());
        assert!(matches!(
            translate_runtime_error(error),
            FrontendError::Internal(message) if message == text
        ));
    }
}

#[test]
fn expected_outcomes_are_no_server_faults() {
    assert!(!Error::Validation("v".into()).is_server_fault());
    assert!(!Error::QueueFull.is_server_fault());
    assert!(!Error::Disconnected.is_server_fault());
    assert_eq!(Error::Validation("v".into()).message(), "validation failed: v");
    assert_eq!(Error::QueueFull.message(), "to_scheduler channel full");
    assert_eq!(Error::Disconnected.message(), "client disconnected");
}

#[test]
fn scheduler_status_is_classified_once_for_non_http_adapters() {
    for (status, expected) in [
        (400, FrontendErrorKind::InvalidArgument),
        (404, FrontendErrorKind::NotFound),
        (408, FrontendErrorKind::DeadlineExceeded),
        (412, FrontendErrorKind::FailedPrecondition),
        (413, FrontendErrorKind::ResourceExhausted),
        (429, FrontendErrorKind::ResourceExhausted),
        (432, FrontendErrorKind::InvalidArgument),
        (499, FrontendErrorKind::Cancelled),
        (500, FrontendErrorKind::Internal),
        (503, FrontendErrorKind::Unavailable),
        (504, FrontendErrorKind::DeadlineExceeded),
    ] {
        let error = FrontendError::from_runtime_rejection("rejected".into(), status);
        assert_eq!(error.kind(), expected, "legacy status {status}");
        assert!(matches!(
            error,
            FrontendError::RuntimeRejected {
                legacy_http_status,
                ..
            } if legacy_http_status == status
        ));
    }
}

#[test]
fn statuses_outside_the_error_ranges_are_internal() {
    for status in [0, 200, 399, 501, 505, 600, 999, 65535] {
        let error = FrontendError::from_runtime_rejection("odd".into(), status);
        assert_eq!(error.kind(), FrontendErrorKind::Internal, "status {status}");
        assert_eq!(error.message(), "odd");
    }
    for (status, kind) in [
        (401, FrontendErrorKind::InvalidArgument),
        (502, FrontendErrorKind::Unavailable),
    ] {
        assert_eq!(
            FrontendError::from_runtime_rejection("m".into(), status).kind(),
            kind
        );
    }
}

#[test]
fn frontend_error_categories_map_at_the_http_boundary() {
    assert_eq!(
        frontend_error_status(&FrontendError::InvalidArgument("bad".into())),
        http::StatusCode::BAD_REQUEST.as_u16()
    );
    assert_eq!(
        frontend_error_status(&FrontendError::Unavailable),
        http::StatusCode::SERVICE_UNAVAILABLE.as_u16()
    );
    assert_eq!(
        frontend_error_status(&FrontendError::Overloaded("full".into())),
        http::StatusCode::SERVICE_UNAVAILABLE.as_u16()
    );
    assert_eq!(
        frontend_error_status(&FrontendError::Cancelled("gone".into())),
        499
    );
    assert_eq!(
        frontend_error_status(&FrontendError::RuntimeRejected {
            kind: FrontendErrorKind::InvalidArgument,
            message: "runtime rejected request".into(),
            legacy_http_status: 432,
        }),
        432
    );
    assert_eq!(
        frontend_error_status(&FrontendError::InvalidResponse("bad reply".into())),
        http::StatusCode::INTERNAL_SERVER_ERROR.as_u16()
    );
    assert_eq!(
        frontend_error_status(&FrontendError::Internal("bug".into())),
        http::StatusCode::INTERNAL_SERVER_ERROR.as_u16()
    );
}

#[test]
fn scheduler_statuses_reach_http_only_where_http_has_them() {
    for (status, expected) in [(100, 100), (999, 999), (99, 500), (0, 500), (1000, 500)] {
        let error = FrontendError::from_runtime_rejection("m".into(), status);
        assert_eq!(frontend_error_status(&error), expected);
    }
}

#[test]
fn semantic_errors_map_to_canonical_grpc_codes() {
    let cases = [
        (
            FrontendError::InvalidArgument("bad".into()),
            GrpcCode::InvalidArgument,
        ),
        (
            FrontendError::RuntimeRejected {
                kind: FrontendErrorKind::NotFound,
                message: "missing".into(),
                legacy_http_status: 404,
            },
            GrpcCode::NotFound,
        ),
        (
            FrontendError::RuntimeRejected {
                kind: FrontendErrorKind::FailedPrecondition,
                message: "not ready".into(),
                legacy_http_status: 412,
            },
            GrpcCode::FailedPrecondition,
        ),
        (
            FrontendError::Overloaded("full".into()),
            GrpcCode::ResourceExhausted,
        ),
        (FrontendError::Cancelled("gone".into()), GrpcCode::Cancelled),
        (
            FrontendError::RuntimeRejected {
                kind: FrontendErrorKind::DeadlineExceeded,
                message: "late".into(),
                legacy_http_status: 504,
            },
            GrpcCode::DeadlineExceeded,
        ),
        (FrontendError::Unavailable, GrpcCode::Unavailable),
        (FrontendError::Internal("bug".into()), GrpcCode::Internal),
    ];

    for (error, expected) in cases {
        assert_eq!(status(error).code, expected);
    }
}

#[test]
fn statuses_say_what_the_error_says() {
    assert_eq!(status(FrontendError::Unavailable).message, "service unavailable");
    assert_eq!(
        status(FrontendError::ResponseTruncated).message,
        "response truncated before completion"
    );
    assert_eq!(status(FrontendError::ResponseTruncated).code, GrpcCode::Internal);
    assert_eq!(status(FrontendError::Cancelled("gone".into())).message, "gone");
    let named = status_from_kind(FrontendErrorKind::NotFound, "no such model".into());
    assert_eq!(named.code, GrpcCode::NotFound);
    assert_eq!(named.message, "no such model");
}

#[test]
fn http_statuses_map_to_grpc_codes() {
    for (code, expected) in [
        (400, GrpcCode::InvalidArgument),
        (422, GrpcCode::InvalidArgument),
        (401, GrpcCode::Unauthenticated),
        (403, GrpcCode::PermissionDenied),
        (404, GrpcCode::NotFound),
        (409, GrpcCode::FailedPrecondition),
        (412, GrpcCode::FailedPrecondition),
        (429, GrpcCode::ResourceExhausted),
        (499, GrpcCode::Cancelled),
        (501, GrpcCode::Unimplemented),
        (503, GrpcCode::Unavailable),
        (408, GrpcCode::DeadlineExceeded),
        (504, GrpcCode::DeadlineExceeded),
        (500, GrpcCode::Internal),
        (200, GrpcCode::Internal),
    ] {
        let status = grpc_openai::status(code, "m".into());
        assert_eq!(status.code, expected, "status {code}");
        assert_eq!(status.message, "m");
    }
}

#[test]
fn both_surfaces_agree_on_the_category_of_a_failure() {
    for error in [
        FrontendError::InvalidArgument("a".into()),
        FrontendError::Unavailable,
        FrontendError::Cancelled("b".into()),
        FrontendError::ResponseTruncated,
        FrontendError::InvalidResponse("c".into()),
        FrontendError::Internal("d".into()),
    ] {
        let http = frontend_error_status(&error);
        let over_http = grpc_openai::status(http, error.message()).code;
        assert_eq!(status(error).code, over_http);
    }
}

#[test]
fn server_info_preserves_legacy_499_for_a_truncated_control_response() {
    let kind = RequestKind::Control(ControlRequest::GetInternalState {
        rid: "info".into(),
    });
    let mut call = RuntimeCall::submit(&kind, "unused");
    let mut admission = RequestAdmission::pending();
    assert!(admission.try_accept());
    call.observe(None);
    let reply = await_server_info(match control(None) {
        Ok(_) => panic!("nothing was received"),
        Err(error) => Err(error),
    });
    assert_eq!(call.release(&mut admission).unwrap().as_str(), "info");
    assert!(matches!(
        reply,
        Err(HttpFailure::Plain { status: 499, text }) if text == "request aborted"
    ));
}

#[test]
fn server_info_failures_have_their_own_answers() {
    assert!(matches!(
        await_server_info(Err(FrontendError::Unavailable)),
        Err(HttpFailure::Native { status: 503, message }) if message == "service unavailable"
    ));
    assert!(matches!(
        await_server_info(Err(FrontendError::InvalidResponse("secret".into()))),
        Err(HttpFailure::Plain { status: 500, text }) if text == "bad server_info response"
    ));
    assert!(matches!(
        await_server_info(Err(FrontendError::Overloaded("full".into()))),
        Err(HttpFailure::Plain { status: 503, text }) if text == "full"
    ));
    assert!(matches!(
        await_server_info(Err(FrontendError::from_runtime_rejection("teapot".into(), 418))),
        Err(HttpFailure::Plain { status: 418, text }) if text == "teapot"
    ));
}

#[test]
fn a_cloned_error_is_the_same_error() {
    let error = FrontendError::from_runtime_rejection("slow down".into(), 429);
    let copy = error.clone();
    assert_eq!(copy.kind(), FrontendErrorKind::ResourceExhausted);
    assert_eq!(copy.message(), "slow down");
    assert_eq!(frontend_error_status(&copy), 429);
}
