//! The closed taxonomy of startup failures.
//!
//! Every fallible bootstrap step maps its failure into exactly one of these
//! variants before propagating; nothing leaves the bootstrap as an untyped
//! error. Each variant carries the text of its underlying cause, and
//! `describe` renders the one-line message that the termination reporter
//! writes.

use vstd::prelude::*;
use vstd::string::*;

verus! {

/// One startup failure: which step failed, and the rendered cause.
pub enum Error {
    /// Installing the process-wide TLS cryptography backend failed.
    CryptoConfigure,
    /// A required environment variable could not be read.
    MissingEnvVariable { variable: String, cause: String },
    /// The in-cluster Kubernetes client configuration could not be derived.
    K8sClientConfig { cause: String },
    /// The Kubernetes client could not be constructed from its configuration.
    K8sClientCreate { cause: String },
    /// The port environment variable held no valid port number.
    ParsePort { cause: String },
    /// The tracing pipeline could not be initialized from the environment.
    StartTelemetry { cause: String },
    /// The server entry point returned a failure.
    StartServer { cause: String },
    /// The metrics exporter could not be bound to the metrics registry.
    MetricsRegistryInit { cause: String },
}

/// The mathematical shape of a startup error: the same variants, with every
/// text as a sequence of characters.
pub enum ErrorModel {
    CryptoConfigure,
    MissingEnvVariable { variable: Seq<char>, cause: Seq<char> },
    K8sClientConfig { cause: Seq<char> },
    K8sClientCreate { cause: Seq<char> },
    ParsePort { cause: Seq<char> },
    StartTelemetry { cause: Seq<char> },
    StartServer { cause: Seq<char> },
    MetricsRegistryInit { cause: Seq<char> },
}

impl View for Error {
    type V = ErrorModel;

    open spec fn view(&self) -> ErrorModel {
        match self {
            Error::CryptoConfigure => ErrorModel::CryptoConfigure,
            Error::MissingEnvVariable { variable, cause } => ErrorModel::MissingEnvVariable {
                variable: variable@,
                cause: cause@,
            },
            Error::K8sClientConfig { cause } => ErrorModel::K8sClientConfig { cause: cause@ },
            Error::K8sClientCreate { cause } => ErrorModel::K8sClientCreate { cause: cause@ },
            Error::ParsePort { cause } => ErrorModel::ParsePort { cause: cause@ },
            Error::StartTelemetry { cause } => ErrorModel::StartTelemetry { cause: cause@ },
            Error::StartServer { cause } => ErrorModel::StartServer { cause: cause@ },
            Error::MetricsRegistryInit { cause } => ErrorModel::MetricsRegistryInit {
                cause: cause@,
            },
        }
    }
}

/// The one-line message owed to each error.
pub open spec fn render(e: ErrorModel) -> Seq<char> {
    match e {
        ErrorModel::CryptoConfigure => "Failed to configure tls to use aws_lc for crypto."@,
        ErrorModel::MissingEnvVariable { variable, cause } => "Unable to get environment variable '"@
            + variable + "' for API server due to : '"@ + cause + "'"@,
        ErrorModel::K8sClientConfig { cause } => "Unable to create kubernetes client config: '"@
            + cause + "'"@,
        ErrorModel::K8sClientCreate { cause } => "Unable to create client: '"@ + cause + "'"@,
        ErrorModel::ParsePort { cause } => "Unable to parse internal port: '"@ + cause + "'"@,
        ErrorModel::StartTelemetry { cause } => "Unable to start API server telemetry: '"@ + cause
            + "'"@,
        ErrorModel::StartServer { cause } => "Unable to start API server: '"@ + cause + "'"@,
        ErrorModel::MetricsRegistryInit { cause } => "Error creating prometheus registry: '"@
            + cause + "'"@,
    }
}

fn quote_cause(prefix: &str, cause: &String) -> (r: String)
    ensures
        r@ == prefix@ + cause@ + "'"@,
{
    let mut message = String::from_str(prefix);
    message.append(cause.as_str());
    message.append("'");
    message
}

impl Error {
    /// The one-line, human-readable description of the failure, embedding the
    /// originating cause; this is the text the termination reporter writes.
    pub fn describe(&self) -> (r: String)
        ensures
            r@ == render(self@),
    {
        match self {
            Error::CryptoConfigure => String::from_str(
                "Failed to configure tls to use aws_lc for crypto.",
            ),
            Error::MissingEnvVariable { variable, cause } => {
                let mut message = String::from_str("Unable to get environment variable '");
                message.append(variable.as_str());
                message.append("' for API server due to : '");
                message.append(cause.as_str());
                message.append("'");
                proof {
                    assert(message@ =~= render(self@));
                }
                message
            },
            Error::K8sClientConfig { cause } => quote_cause(
                "Unable to create kubernetes client config: '",
                cause,
            ),
            Error::K8sClientCreate { cause } => quote_cause("Unable to create client: '", cause),
            Error::ParsePort { cause } => quote_cause("Unable to parse internal port: '", cause),
            Error::StartTelemetry { cause } => quote_cause(
                "Unable to start API server telemetry: '",
                cause,
            ),
            Error::StartServer { cause } => quote_cause("Unable to start API server: '", cause),
            Error::MetricsRegistryInit { cause } => quote_cause(
                "Error creating prometheus registry: '",
                cause,
            ),
        }
    }
}

} // verus!
