//! The settings assembler.
//!
//! The port arrives as the outcome of reading its environment variable; with
//! it, the client handle and the namespace are combined into the immutable
//! `Settings` value that the server launcher receives. An absent variable is
//! `MissingEnvVariable`, a text that is no valid port is `ParsePort`.

use vstd::prelude::*;
use vstd::string::*;
use crate::errors::{Error, ErrorModel};
use crate::kube_access::clone_client;
use crate::ports::{decimal_value, is_port_text, parse_port, port_parse_cause};

verus! {

/// The typed client for the node-shadow resource: the underlying client
/// handle, bound to a namespace.
pub struct NodeClient {
    pub client: kube::Client,
    pub namespace: String,
}

impl NodeClient {
    /// Binds a client handle to a namespace.
    pub fn new(client: kube::Client, namespace: &str) -> (r: NodeClient)
        ensures
            r.client == client,
            r.namespace@ == namespace@,
    {
        NodeClient { client, namespace: namespace.to_owned() }
    }
}

/// The immutable settings of the server: constructed exactly once per
/// process, handed to the server launcher, never mutated afterward.
pub struct Settings {
    pub node_client: NodeClient,
    pub server_port: u16,
    pub namespace: String,
}

/// The environment variable that carries the server's internal port.
pub fn port_env_var_name() -> (r: &'static str)
    ensures
        r@ == "APISERVER_INTERNAL_PORT"@,
{
    "APISERVER_INTERNAL_PORT"
}

/// Runs the settings-assembler step. A missing port variable names that
/// variable in `MissingEnvVariable`; a text that is no valid port becomes
/// `ParsePort` with the cause of the parse failure; otherwise the settings
/// hold the parsed port, the resolved namespace, and a node client bound to
/// that namespace, and the client handle is passed along for the launcher.
pub fn assemble_settings(
    client: kube::Client,
    namespace: String,
    port_text: Result<String, String>,
) -> (r: Result<(Settings, kube::Client), Error>)
    ensures
        port_text matches Err(cause) ==> (r matches Err(e) && e@
            == (ErrorModel::MissingEnvVariable {
            variable: "APISERVER_INTERNAL_PORT"@,
            cause: cause@,
        })),
        port_text matches Ok(text) ==> (if is_port_text(text@) {
            r matches Ok(assembled) && assembled.0.server_port == decimal_value(text@) as u16
                && assembled.0.namespace@ == namespace@ && assembled.0.node_client.namespace@
                == namespace@ && assembled.1 == client
        } else {
            r matches Err(e) && e@ == (ErrorModel::ParsePort { cause: port_parse_cause(text@) })
        }),
{
    match port_text {
        Err(cause) => Err(
            Error::MissingEnvVariable { variable: port_env_var_name().to_owned(), cause },
        ),
        Ok(text) => match parse_port(text.as_str()) {
            Err(cause) => Err(Error::ParsePort { cause }),
            Ok(port) => {
                let node_client = NodeClient::new(clone_client(&client), namespace.as_str());
                Ok((Settings { node_client, server_port: port, namespace }, client))
            },
        },
    }
}

} // verus!
