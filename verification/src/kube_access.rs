//! The Kubernetes client resolver.
//!
//! Discovery of the in-cluster connection configuration reads the standard
//! discovery inputs of the surrounding process, so its outcome arrives here
//! as a value: the configuration beside the default namespace it carries, or
//! the rendered cause of the discovery failure. This module turns that
//! outcome into a client handle and the current namespace, or into the
//! taxonomy error owed to the failing step.

use vstd::prelude::*;
use crate::errors::{Error, ErrorModel};

verus! {

#[verifier::external_type_specification]
#[verifier::external_body]
pub struct ExKubeConfig(kube::Config);

#[verifier::external_type_specification]
#[verifier::external_body]
pub struct ExKubeClient(kube::Client);

/// In-cluster connection configuration as the bootstrap reads it: the
/// connection parameters themselves, opaque, beside the default namespace
/// they carry, as plain text.
pub struct ClusterConfig {
    pub default_namespace: String,
    pub connection: kube::Config,
}

/// Relies on kube::Client::try_from(kube::Config): constructs a client
/// handle from the configuration; a kube::Error is rendered to its display
/// text.
#[verifier::external_body]
fn client_try_from(config: kube::Config) -> Result<kube::Client, String> {
    match kube::Client::try_from(config) {
        Ok(client) => Ok(client),
        Err(error) => Err(format!("{}", error)),
    }
}

/// Relies on kube::Client::clone: another handle to the same client.
#[verifier::external_body]
pub(crate) fn clone_client(client: &kube::Client) -> kube::Client {
    client.clone()
}

/// Runs the client-resolver step. A failed configuration discovery becomes
/// `K8sClientConfig`; with a configuration in hand, the namespace is the one
/// the configuration carries, and a failed client construction becomes
/// `K8sClientCreate`.
pub fn resolve_client(config: Result<ClusterConfig, String>) -> (r: Result<
    (kube::Client, String),
    Error,
>)
    ensures
        config matches Err(cause) ==> (r matches Err(e) && e@ == (ErrorModel::K8sClientConfig {
            cause: cause@,
        })),
        config matches Ok(cluster) ==> match r {
            Result::Ok(resolved) => resolved.1@ == cluster.default_namespace@,
            Result::Err(e) => e@ matches ErrorModel::K8sClientCreate { .. },
        },
{
    match config {
        Err(cause) => Err(Error::K8sClientConfig { cause }),
        Ok(cluster) => {
            let namespace = cluster.default_namespace;
            match client_try_from(cluster.connection) {
                Ok(client) => Ok((client, namespace)),
                Err(cause) => Err(Error::K8sClientCreate { cause }),
            }
        },
    }
}

} // verus!
