//! A hello-world HTTP service instrumented with tracing and profiling: its
//! configuration, its routes, its telemetry bootstrap and the decisions of its
//! process lifecycle.
pub mod config;
pub mod routes;
pub mod lifecycle;
pub mod telemetry;
