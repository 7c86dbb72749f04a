use apiserver_bootstrap::errors::Error;

#[test]
fn describes_crypto_failure() {
    assert_eq!(
        Error::CryptoConfigure.describe(),
        "Failed to configure tls to use aws_lc for crypto."
    );
}

#[test]
fn describes_missing_env_variable_naming_it() {
    let error = Error::MissingEnvVariable {
        variable: String::from("APISERVER_INTERNAL_PORT"),
        cause: String::from("environment variable not found"),
    };
    assert_eq!(
        error.describe(),
        "Unable to get environment variable 'APISERVER_INTERNAL_PORT' for API server due to : \
         'environment variable not found'"
    );
}

#[test]
fn describes_client_config_failure() {
    let error = Error::K8sClientConfig { cause: String::from("missing environment variables") };
    assert_eq!(
        error.describe(),
        "Unable to create kubernetes client config: 'missing environment variables'"
    );
}

#[test]
fn describes_client_create_failure() {
    let error = Error::K8sClientCreate { cause: String::from("invalid native roots") };
    assert_eq!(error.describe(), "Unable to create client: 'invalid native roots'");
}

#[test]
fn describes_port_parse_failure() {
    let error = Error::ParsePort { cause: String::from("invalid digit found in string") };
    assert_eq!(
        error.describe(),
        "Unable to parse internal port: 'invalid digit found in string'"
    );
}

#[test]
fn describes_telemetry_failure() {
    let error = Error::StartTelemetry { cause: String::from("bad tracing filter") };
    assert_eq!(
        error.describe(),
        "Unable to start API server telemetry: 'bad tracing filter'"
    );
}

#[test]
fn describes_server_failure() {
    let error = Error::StartServer { cause: String::from("address already in use") };
    assert_eq!(error.describe(), "Unable to start API server: 'address already in use'");
}

#[test]
fn describes_metrics_registry_failure() {
    let error = Error::MetricsRegistryInit { cause: String::from("duplicate collector") };
    assert_eq!(
        error.describe(),
        "Error creating prometheus registry: 'duplicate collector'"
    );
}
