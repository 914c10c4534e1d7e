//! Verified core of an inference-server frontend.

pub mod api_server;
pub mod columns;
pub mod config;
pub mod contract;
pub mod error;
pub mod frontend;
pub mod grpc;
pub mod ids;
pub mod json;
pub mod metadata;
pub mod native_generation;
pub mod openai;
pub mod output;
pub mod request;
pub mod runtime;
pub mod startup;
pub mod text;
