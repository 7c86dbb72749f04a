use apiserver_bootstrap::bootstrap::{
    default_termination_log_path, install_crypto, server_outcome, termination_log_env_var_name,
};
use apiserver_bootstrap::errors::Error;
use apiserver_bootstrap::kube_access::{resolve_client, ClusterConfig};
use apiserver_bootstrap::settings::{assemble_settings, port_env_var_name};
use apiserver_bootstrap::telemetry::start_telemetry;

fn describe_err<T>(r: Result<T, Error>) -> String {
    match r {
        Ok(_) => panic!("expected a startup error"),
        Err(error) => error.describe(),
    }
}

/// Installs the TLS backend and resolves a client from a fixed
/// configuration, the way the process would from discovered in-cluster
/// inputs.
fn resolved_client() -> (kube::Client, String) {
    rustls::crypto::ring::default_provider().install_default().ok();
    // The client's service stack expects a running reactor, as the served
    // process provides one.
    actix_web::rt::System::new().block_on(async {
        let connection = kube::Config::new("http://10.96.0.1/".parse::<http::Uri>().unwrap());
        let cluster = ClusterConfig {
            default_namespace: connection.default_namespace.clone(),
            connection,
        };
        match resolve_client(Ok(cluster)) {
            Ok(resolved) => resolved,
            Err(error) => panic!("{}", error.describe()),
        }
    })
}

#[test]
fn crypto_failure_is_fatal_and_typed() {
    assert!(install_crypto(Ok(())).is_ok());
    let message = describe_err(install_crypto(Err(())));
    assert_eq!(message, "Failed to configure tls to use aws_lc for crypto.");
}

#[test]
fn telemetry_failure_keeps_its_cause() {
    let message = describe_err(start_telemetry(Err(String::from("bad tracing filter"))));
    assert_eq!(message, "Unable to start API server telemetry: 'bad tracing filter'");
}

#[test]
fn metrics_pipeline_builds_on_healthy_telemetry() {
    let registry = match start_telemetry(Ok(())) {
        Ok(registry) => registry,
        Err(error) => panic!("{}", error.describe()),
    };
    // The exporter is bound to the returned registry: its collector already
    // reports the target-info family for the scrape endpoint.
    assert_eq!(registry.gather().len(), 1);
}

#[test]
fn config_discovery_failure_keeps_its_cause() {
    let message = describe_err(resolve_client(Err(String::from("missing environment variables"))));
    assert_eq!(
        message,
        "Unable to create kubernetes client config: 'missing environment variables'"
    );
}

#[test]
fn client_resolution_yields_default_namespace() {
    let (_client, namespace) = resolved_client();
    assert_eq!(namespace, "default");
}

#[test]
fn settings_hold_port_and_namespace() {
    let (client, namespace) = resolved_client();
    let assembled = assemble_settings(client, namespace, Ok(String::from("8080")));
    let (settings, _launch_client) = match assembled {
        Ok(pair) => pair,
        Err(error) => panic!("{}", error.describe()),
    };
    assert_eq!(settings.server_port, 8080);
    assert_eq!(settings.namespace, "default");
    assert_eq!(settings.node_client.namespace, "default");
}

#[test]
fn missing_port_variable_is_named_and_no_node_client_is_built() {
    let (client, namespace) = resolved_client();
    let assembled = assemble_settings(
        client,
        namespace,
        Err(String::from("environment variable not found")),
    );
    let message = describe_err(assembled);
    assert_eq!(
        message,
        "Unable to get environment variable 'APISERVER_INTERNAL_PORT' for API server due to : \
         'environment variable not found'"
    );
}

#[test]
fn unparsable_port_fails_before_the_server_starts() {
    let (client, namespace) = resolved_client();
    let assembled = assemble_settings(client, namespace, Ok(String::from("not-a-number")));
    let message = describe_err(assembled);
    assert_eq!(message, "Unable to parse internal port: 'invalid digit found in string'");
}

#[test]
fn server_failure_becomes_start_server() {
    assert!(server_outcome(Ok(())).is_ok());
    let message = describe_err(server_outcome(Err(String::from("address already in use"))));
    assert_eq!(message, "Unable to start API server: 'address already in use'");
}

#[test]
fn well_known_names_are_fixed() {
    assert_eq!(port_env_var_name(), "APISERVER_INTERNAL_PORT");
    assert_eq!(termination_log_env_var_name(), "TERMINATION_LOG");
    assert_eq!(default_termination_log_path(), "/dev/termination-log");
}
