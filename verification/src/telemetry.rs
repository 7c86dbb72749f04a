//! The telemetry and metrics initializer.
//!
//! The tracing pipeline is configured from the environment by a collaborator
//! of the surrounding process, so its outcome arrives here as a value. The
//! metrics pipeline is built here: a fresh pull-style registry is bound to a
//! prometheus exporter, and a process-wide meter provider tagged with the
//! service identifier is installed. The registry is returned so the served
//! process can expose a metrics-scrape endpoint.

use vstd::prelude::*;
use crate::errors::{Error, ErrorModel};

verus! {

#[verifier::external_type_specification]
#[verifier::external_body]
pub struct ExPrometheusRegistry(prometheus::Registry);

#[verifier::external_type_specification]
#[verifier::external_body]
pub struct ExPrometheusExporter(opentelemetry_prometheus::PrometheusExporter);

#[verifier::external_type_specification]
#[verifier::external_body]
pub struct ExSdkMeterProvider(opentelemetry_sdk::metrics::SdkMeterProvider);

/// Relies on prometheus::Registry::new: a fresh, empty metrics registry.
#[verifier::external_body]
fn new_registry() -> prometheus::Registry {
    prometheus::Registry::new()
}

/// Relies on opentelemetry_prometheus::exporter: binds a pull-style exporter
/// to a clone of the registry; a metrics error is rendered to its display
/// text.
#[verifier::external_body]
fn build_prometheus_exporter(registry: &prometheus::Registry) -> Result<
    opentelemetry_prometheus::PrometheusExporter,
    String,
> {
    match opentelemetry_prometheus::exporter().with_registry(registry.clone()).build() {
        Ok(exporter) => Ok(exporter),
        Err(error) => Err(format!("{}", error)),
    }
}

/// Relies on SdkMeterProvider::builder: a meter provider that reads from the
/// exporter, whose resource carries the given service name.
#[verifier::external_body]
fn build_meter_provider(
    exporter: opentelemetry_prometheus::PrometheusExporter,
    service_name: &str,
) -> opentelemetry_sdk::metrics::SdkMeterProvider {
    opentelemetry_sdk::metrics::SdkMeterProvider::builder().with_reader(exporter).with_resource(
        opentelemetry_sdk::Resource::new(
            [opentelemetry::KeyValue::new("service.name", service_name.to_owned())],
        ),
    ).build()
}

/// Relies on opentelemetry::global::set_meter_provider: installs the
/// process-wide meter provider.
#[verifier::external_body]
fn install_meter_provider(provider: opentelemetry_sdk::metrics::SdkMeterProvider) {
    opentelemetry::global::set_meter_provider(provider);
}

/// Relies on opentelemetry::global::shutdown_tracer_provider: tears the
/// process-wide tracer provider down, flushing in-flight data. The
/// orchestrator's closing action invokes this exactly once per run.
#[verifier::external_body]
pub fn shutdown_telemetry() {
    opentelemetry::global::shutdown_tracer_provider();
}

/// The service identifier under which the metrics pipeline registers.
fn service_name() -> (r: &'static str)
    ensures
        r@ == "apiserver"@,
{
    "apiserver"
}

/// Builds the metrics pipeline: a fresh registry, a prometheus exporter
/// bound to it, and a process-wide meter provider tagged with the service
/// identifier. A failure to bind the exporter is `MetricsRegistryInit`.
pub fn init_metrics() -> (r: Result<prometheus::Registry, Error>)
    ensures
        r matches Err(e) ==> e@ matches ErrorModel::MetricsRegistryInit { .. },
{
    let registry = new_registry();
    match build_prometheus_exporter(&registry) {
        Ok(exporter) => {
            let provider = build_meter_provider(exporter, service_name());
            install_meter_provider(provider);
            Ok(registry)
        },
        Err(cause) => Err(Error::MetricsRegistryInit { cause }),
    }
}

/// Runs the telemetry step: a failed tracing initialization becomes
/// `StartTelemetry` and the metrics pipeline is not touched; otherwise the
/// metrics pipeline is built and its registry returned.
pub fn start_telemetry(tracing_init: Result<(), String>) -> (r: Result<
    prometheus::Registry,
    Error,
>)
    ensures
        tracing_init matches Err(cause) ==> (r matches Err(e) && e@ == (ErrorModel::StartTelemetry {
            cause: cause@,
        })),
        tracing_init is Ok ==> (r matches Err(e) ==> e@ matches ErrorModel::MetricsRegistryInit {
            ..
        }),
{
    match tracing_init {
        Err(cause) => Err(Error::StartTelemetry { cause }),
        Ok(()) => init_metrics(),
    }
}

} // verus!
