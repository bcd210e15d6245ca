//! Verified core of an instrumented HTTP service: the observability pipeline
//! (tracing, structured logging, continuous profiling) with its lifecycle and
//! per-request instrumentation, plus the request validation rules the service
//! applies before touching its store.

pub mod config;
pub mod dto;
pub mod error;
pub mod filter;
pub mod instrument;
pub mod logger;
pub mod profiling;
pub mod record;
pub mod response;
pub mod sink;
pub mod span;
pub mod telemetry;
pub mod text;
pub mod tracer;
pub mod users;
