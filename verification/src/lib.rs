//! Composition and lifecycle control for the instrumentation of a service:
//! structured log export, distributed tracing, metrics and continuous
//! profiling, configured from one declarative value.
//!
//! The crate holds the decisions: defaults, validation, credential headers,
//! endpoint normalisation, the order in which subsystems are brought up and
//! torn down. Exporters and providers are built by the caller from the plans
//! that these functions return.

pub mod auth;
pub mod config;
pub mod duration;
pub mod endpoint;
pub mod logger;
pub mod meter;
pub mod profiler;
pub mod string_map;
pub mod telemetry;
pub mod text;
pub mod trace_context;
pub mod tracer;

pub use auth::Credentials;
pub use config::{Config, ResourceConfig};
pub use duration::Duration;
pub use string_map::StringMap;
pub use telemetry::Telemetry;
pub use trace_context::{current_trace_context, TraceContextInfo};
