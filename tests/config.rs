use rust_app::config::{load_settings, ConfigError, EnvVar};

fn some(s: &str) -> Option<String> {
    Some(s.to_string())
}

#[test]
fn all_variables_set_gives_settings() {
    let s = load_settings(
        some("svc"),
        some("http://collector:4317"),
        some("http://pyroscope:4040"),
        some("production"),
    )
    .unwrap();
    assert_eq!(s.service_name, "svc");
    assert_eq!(s.otel_endpoint, "http://collector:4317");
    assert_eq!(s.pyroscope_endpoint, "http://pyroscope:4040");
    assert_eq!(s.environment, "production");
}

#[test]
fn each_variable_unset_individually_is_named() {
    let cases = [
        (None, some("o"), some("p"), some("e"), EnvVar::ServiceName),
        (some("s"), None, some("p"), some("e"), EnvVar::OtelEndpoint),
        (some("s"), some("o"), None, some("e"), EnvVar::PyroscopeEndpoint),
        (some("s"), some("o"), some("p"), None, EnvVar::RustEnv),
    ];
    for (s, o, p, e, var) in cases {
        assert_eq!(load_settings(s, o, p, e).unwrap_err(), ConfigError::Missing(var));
    }
}

#[test]
fn first_missing_variable_in_lookup_order() {
    assert_eq!(
        load_settings(None, None, None, None).unwrap_err(),
        ConfigError::Missing(EnvVar::ServiceName)
    );
    assert_eq!(
        load_settings(some("s"), None, None, None).unwrap_err(),
        ConfigError::Missing(EnvVar::PyroscopeEndpoint)
    );
    assert_eq!(
        load_settings(some("s"), None, some("p"), None).unwrap_err(),
        ConfigError::Missing(EnvVar::RustEnv)
    );
}

#[test]
fn empty_value_counts_as_set() {
    assert!(load_settings(some(""), some(""), some(""), some("")).is_ok());
}

#[test]
fn variable_keys() {
    assert_eq!(EnvVar::ServiceName.key(), "OTEL_SERVICE_NAME");
    assert_eq!(EnvVar::OtelEndpoint.key(), "OTEL_ENDPOINT");
    assert_eq!(EnvVar::PyroscopeEndpoint.key(), "PYROSCOPE_ENDPOINT");
    assert_eq!(EnvVar::RustEnv.key(), "RUST_ENV");
}

#[test]
fn missing_message_names_the_variable() {
    assert_eq!(
        ConfigError::Missing(EnvVar::RustEnv).message(),
        "RUST_ENV is not defined"
    );
    assert_eq!(
        ConfigError::Missing(EnvVar::OtelEndpoint).message(),
        "OTEL_ENDPOINT is not defined"
    );
}
