//! gRPC statuses as plain values.

use vstd::prelude::*;

verus! {

/// The status codes that this surface answers with.
#[derive(Clone, Copy, Debug, PartialEq, Eq, Structural)]
pub enum GrpcCode {
    Cancelled,
    InvalidArgument,
    DeadlineExceeded,
    NotFound,
    PermissionDenied,
    ResourceExhausted,
    FailedPrecondition,
    OutOfRange,
    Unimplemented,
    Internal,
    Unavailable,
    Unauthenticated,
}

/// A failed call: its code and what it says.
#[derive(Debug)]
pub struct GrpcStatus {
    pub code: GrpcCode,
    pub message: String,
}

/// What a [`GrpcStatus`] means.
#[verifier::ext_equal]
pub struct StatusModel {
    pub code: GrpcCode,
    pub message: Seq<char>,
}

impl View for GrpcStatus {
    type V = StatusModel;

    open spec fn view(&self) -> StatusModel {
        StatusModel { code: self.code, message: self.message@ }
    }
}

impl GrpcStatus {
    /// A status with a fixed text.
    pub fn new(code: GrpcCode, message: &str) -> (status: Self)
        ensures
            status@ == (StatusModel { code, message: message@ }),
    {
        GrpcStatus { code, message: message.to_owned() }
    }
}

} // verus!
