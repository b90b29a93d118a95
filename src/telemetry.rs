//! Bootstrap of the telemetry: the OTLP span pipeline, and what the profiling
//! agent is started with.
use vstd::prelude::*;
use opentelemetry::KeyValue;
use opentelemetry_otlp::{ExporterBuildError, SpanExporter, WithExportConfig};
use opentelemetry_sdk::error::OTelSdkError;
use opentelemetry_sdk::propagation::TraceContextPropagator;
use opentelemetry_sdk::trace::SdkTracerProvider;
use opentelemetry_sdk::Resource;
use crate::config::Settings;

verus! {

#[verifier::external_type_specification]
#[verifier::external_body]
pub struct ExSdkTracerProvider(SdkTracerProvider);

#[verifier::external_type_specification]
#[verifier::external_body]
pub struct ExResource(Resource);

#[verifier::external_type_specification]
#[verifier::external_body]
pub struct ExSpanExporter(SpanExporter);

#[verifier::external_type_specification]
#[verifier::external_body]
pub struct ExExporterBuildError(ExporterBuildError);

#[verifier::external_type_specification]
#[verifier::external_body]
pub struct ExOTelSdkError(OTelSdkError);

/// Stack samples per second taken by the profiler.
pub const PROFILER_SAMPLE_RATE: u32 = 100;

/// Why a part of the telemetry could not be set up or torn down.
#[derive(Debug, Clone, Copy, PartialEq, Eq, Structural)]
pub enum TelemetryError {
    /// The span exporter could not be built (a malformed endpoint, say).
    ExporterBuild,
    /// Shutting the tracer provider down failed, or had already been done.
    Shutdown,
}

/// What the span pipeline is built from.
#[derive(Debug)]
pub struct TracingConfig {
    pub service_name: String,
    /// The collector's OTLP/gRPC endpoint.
    pub endpoint: String,
    /// The deployment environment, attached to every span when known.
    pub environment: Option<String>,
}

/// What the profiling agent is built from.
#[derive(Debug)]
pub struct ProfilingConfig {
    pub service_name: String,
    /// Where the profiles are uploaded.
    pub endpoint: String,
    /// The deployment environment, sent as the `env` tag.
    pub environment: String,
}

impl TracingConfig {
    pub fn from_settings(s: &Settings) -> (r: TracingConfig)
        ensures
            r.service_name@ == s.service_name@,
            r.endpoint@ == s.otel_endpoint@,
            r.environment matches Some(e) && e@ == s.environment@,
    {
        TracingConfig {
            service_name: s.service_name.clone(),
            endpoint: s.otel_endpoint.clone(),
            environment: Some(s.environment.clone()),
        }
    }

    /// The fixed setup of the variant that reads no environment: service
    /// `actix_server`, a collector on the local host, no environment tag.
    pub fn local() -> (r: TracingConfig)
        ensures
            r.service_name@ == "actix_server"@,
            r.endpoint@ == "http://127.0.0.1:4317"@,
            r.environment is None,
    {
        TracingConfig {
            service_name: "actix_server".to_owned(),
            endpoint: "http://127.0.0.1:4317".to_owned(),
            environment: None,
        }
    }
}

impl ProfilingConfig {
    pub fn from_settings(s: &Settings) -> (r: ProfilingConfig)
        ensures
            r.service_name@ == s.service_name@,
            r.endpoint@ == s.pyroscope_endpoint@,
            r.environment@ == s.environment@,
    {
        ProfilingConfig {
            service_name: s.service_name.clone(),
            endpoint: s.pyroscope_endpoint.clone(),
            environment: s.environment.clone(),
        }
    }
}

/// The attributes describing the service on every exported span, as
/// (key, value) pairs.
pub open spec fn spec_resource_attributes(cfg: TracingConfig) -> Seq<(Seq<char>, Seq<char>)> {
    match cfg.environment {
        Some(e) => seq![("service.name"@, cfg.service_name@), ("env"@, e@)],
        None => seq![("service.name"@, cfg.service_name@)],
    }
}

pub fn resource_attributes(cfg: &TracingConfig) -> (r: Vec<(String, String)>)
    ensures
        r@.len() == spec_resource_attributes(*cfg).len(),
        forall|i: int|
            0 <= i < r@.len() ==> (r@[i].0@, r@[i].1@) == #[trigger] spec_resource_attributes(
                *cfg,
            )[i],
{
    let mut r: Vec<(String, String)> = Vec::new();
    r.push(("service.name".to_owned(), cfg.service_name.clone()));
    match &cfg.environment {
        Some(e) => r.push(("env".to_owned(), e.clone())),
        None => {},
    }
    r
}

/// Relies on opentelemetry::global::set_text_map_propagator: installs the
/// W3C trace-context propagator process-wide.
#[verifier::external_body]
fn install_trace_context_propagator() {
    opentelemetry::global::set_text_map_propagator(TraceContextPropagator::new());
}

/// Relies on opentelemetry_sdk's `Resource::builder_empty`, `with_attributes`
/// and `build`: a resource holding exactly the given attributes.
#[verifier::external_body]
fn build_resource(attributes: &Vec<(String, String)>) -> (r: Resource) {
    Resource::builder_empty().with_attributes(
        attributes.iter().map(|(k, v)| KeyValue::new(k.clone(), v.clone())),
    ).build()
}

/// Relies on opentelemetry_otlp's `SpanExporter::builder().with_tonic()
/// .with_endpoint(..).build()`. Whether it succeeds also depends on the
/// `OTEL_EXPORTER_OTLP_*` variables that it reads, so nothing is promised.
/// The gRPC channel it opens needs a running Tokio runtime.
#[verifier::external_body]
fn build_span_exporter(endpoint: &str) -> (r: Result<SpanExporter, ExporterBuildError>) {
    SpanExporter::builder().with_tonic().with_endpoint(endpoint).build()
}

/// Relies on opentelemetry_sdk's `SdkTracerProvider::builder()`,
/// `with_batch_exporter` and `with_resource`: a provider that batches spans
/// to `exporter`, describing them with `resource`.
#[verifier::external_body]
fn build_tracer_provider(exporter: SpanExporter, resource: Resource) -> (r: SdkTracerProvider) {
    SdkTracerProvider::builder().with_batch_exporter(exporter).with_resource(resource).build()
}

/// Relies on opentelemetry::global::set_tracer_provider: the given provider
/// replaces whichever one was installed before.
#[verifier::external_body]
fn install_tracer_provider(provider: &SdkTracerProvider) {
    opentelemetry::global::set_tracer_provider(provider.clone());
}

/// Relies on `SdkTracerProvider::shutdown`: flushes the buffered spans and
/// stops the processors; a second call returns `AlreadyShutdown`.
#[verifier::external_body]
fn shutdown_provider(provider: &SdkTracerProvider) -> (r: Result<(), OTelSdkError>) {
    provider.shutdown()
}

/// Finishes the span pipeline from the outcome of building the exporter:
/// with an exporter, builds a provider that batches spans to it described by
/// `resource`, installs that provider process-wide (replacing any earlier
/// one) and returns it; with a build error, reports it and installs nothing.
pub fn install_pipeline(
    exporter: Result<SpanExporter, ExporterBuildError>,
    resource: Resource,
) -> (r: Result<SdkTracerProvider, TelemetryError>)
    ensures
        r is Ok <==> exporter is Ok,
        r matches Err(e) ==> e == TelemetryError::ExporterBuild,
{
    match exporter {
        Ok(exporter) => {
            let provider = build_tracer_provider(exporter, resource);
            install_tracer_provider(&provider);
            Ok(provider)
        },
        Err(_) => Err(TelemetryError::ExporterBuild),
    }
}

/// Sets up the span pipeline: installs the trace-context propagator, builds
/// a batching OTLP exporter for `cfg.endpoint` and a resource holding
/// [`resource_attributes`], then finishes with [`install_pipeline`]. Fails
/// only when the exporter cannot be built.
pub fn start_tracing(cfg: &TracingConfig) -> (r: Result<SdkTracerProvider, TelemetryError>)
    ensures
        r matches Err(e) ==> e == TelemetryError::ExporterBuild,
{
    install_trace_context_propagator();
    let attributes = resource_attributes(cfg);
    let resource = build_resource(&attributes);
    install_pipeline(build_span_exporter(cfg.endpoint.as_str()), resource)
}

/// What a shutdown of the provider amounts to: success, or
/// [`TelemetryError::Shutdown`] for any error it reported.
pub fn shutdown_outcome(r: Result<(), OTelSdkError>) -> (o: Result<(), TelemetryError>)
    ensures
        o is Ok <==> r is Ok,
        o matches Err(e) ==> e == TelemetryError::Shutdown,
{
    match r {
        Ok(()) => Ok(()),
        Err(_) => Err(TelemetryError::Shutdown),
    }
}

/// Shuts the provider down, flushing the spans it still holds.
pub fn shutdown_tracing(provider: &SdkTracerProvider) -> (r: Result<(), TelemetryError>)
    ensures
        r matches Err(e) ==> e == TelemetryError::Shutdown,
{
    shutdown_outcome(shutdown_provider(provider))
}

} // verus!
