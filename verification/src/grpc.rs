//! The `runtime.v1` gRPC surface, without its transport.
//!
//! Requests and responses are plain values here. The transport around this
//! module only decodes, awaits and encodes.

pub mod convert;
pub mod openai;
pub mod proto;
pub mod response;
pub mod service;
pub mod status;
