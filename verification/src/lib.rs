//! Startup orchestration for the API server of a Kubernetes node-update
//! controller: a closed taxonomy of startup errors with their rendered
//! messages, verified parsing of the server port, assembly of the immutable
//! server settings, adapters for the Kubernetes client and the metrics
//! pipeline, and a model of the bootstrap sequence proving that it stops at
//! the first failing step, reports exactly one error, and tears telemetry
//! down exactly once.

pub mod bootstrap;
pub mod errors;
pub mod kube_access;
pub mod ports;
pub mod settings;
pub mod telemetry;
