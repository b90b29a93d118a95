//! Startup configuration read from the process environment.
//!
//! The environment itself is read by the caller; this module decides, from
//! the values found, whether the service may start and with which settings.
use vstd::prelude::*;
use vstd::string::StringExecFns;

verus! {

/// The environment variables that the service requires at startup.
#[derive(Debug, Clone, Copy, PartialEq, Eq, Structural)]
pub enum EnvVar {
    ServiceName,
    OtelEndpoint,
    PyroscopeEndpoint,
    RustEnv,
}

impl EnvVar {
    /// The name under which the variable is looked up.
    pub open spec fn spec_key(self) -> Seq<char> {
        match self {
            EnvVar::ServiceName => "OTEL_SERVICE_NAME"@,
            EnvVar::OtelEndpoint => "OTEL_ENDPOINT"@,
            EnvVar::PyroscopeEndpoint => "PYROSCOPE_ENDPOINT"@,
            EnvVar::RustEnv => "RUST_ENV"@,
        }
    }

    pub fn key(&self) -> (r: &'static str)
        ensures
            r@ == self.spec_key(),
    {
        match self {
            EnvVar::ServiceName => "OTEL_SERVICE_NAME",
            EnvVar::OtelEndpoint => "OTEL_ENDPOINT",
            EnvVar::PyroscopeEndpoint => "PYROSCOPE_ENDPOINT",
            EnvVar::RustEnv => "RUST_ENV",
        }
    }
}

/// Why the service refuses to start.
#[derive(Debug, Clone, Copy, PartialEq, Eq, Structural)]
pub enum ConfigError {
    /// A required variable is not set.
    Missing(EnvVar),
}

impl ConfigError {
    pub open spec fn spec_message(self) -> Seq<char> {
        match self {
            ConfigError::Missing(v) => v.spec_key() + " is not defined"@,
        }
    }

    /// A description naming the missing variable.
    pub fn message(&self) -> (r: String)
        ensures
            r@ == self.spec_message(),
    {
        match self {
            ConfigError::Missing(v) => {
                let mut s = String::from_str(v.key());
                s.append(" is not defined");
                s
            },
        }
    }
}

/// Everything the service reads from its environment.
#[derive(Debug)]
pub struct Settings {
    pub service_name: String,
    pub otel_endpoint: String,
    pub pyroscope_endpoint: String,
    pub environment: String,
}

/// The first required variable, in lookup order, that has no value: the
/// profiler's variables are looked up before the collector's endpoint.
pub open spec fn first_unset(
    service_name: Option<String>,
    otel_endpoint: Option<String>,
    pyroscope_endpoint: Option<String>,
    rust_env: Option<String>,
) -> Option<EnvVar> {
    if service_name is None {
        Some(EnvVar::ServiceName)
    } else if pyroscope_endpoint is None {
        Some(EnvVar::PyroscopeEndpoint)
    } else if rust_env is None {
        Some(EnvVar::RustEnv)
    } else if otel_endpoint is None {
        Some(EnvVar::OtelEndpoint)
    } else {
        None
    }
}

/// Builds the settings from the values found for each variable (`None` when
/// unset). Succeeds exactly when every variable is set, keeping each value as
/// it is; otherwise names the first variable that is missing.
pub fn load_settings(
    service_name: Option<String>,
    otel_endpoint: Option<String>,
    pyroscope_endpoint: Option<String>,
    rust_env: Option<String>,
) -> (r: Result<Settings, ConfigError>)
    ensures
        r is Ok <==> first_unset(service_name, otel_endpoint, pyroscope_endpoint, rust_env) is None,
        r matches Err(ConfigError::Missing(v)) ==> first_unset(
            service_name,
            otel_endpoint,
            pyroscope_endpoint,
            rust_env,
        ) == Some(v),
        r matches Ok(s) ==> {
            &&& s.service_name@ == service_name->0@
            &&& s.otel_endpoint@ == otel_endpoint->0@
            &&& s.pyroscope_endpoint@ == pyroscope_endpoint->0@
            &&& s.environment@ == rust_env->0@
        },
{
    let service_name = match service_name {
        Some(v) => v,
        None => return Err(ConfigError::Missing(EnvVar::ServiceName)),
    };
    let pyroscope_endpoint = match pyroscope_endpoint {
        Some(v) => v,
        None => return Err(ConfigError::Missing(EnvVar::PyroscopeEndpoint)),
    };
    let environment = match rust_env {
        Some(v) => v,
        None => return Err(ConfigError::Missing(EnvVar::RustEnv)),
    };
    let otel_endpoint = match otel_endpoint {
        Some(v) => v,
        None => return Err(ConfigError::Missing(EnvVar::OtelEndpoint)),
    };
    Ok(Settings { service_name, otel_endpoint, pyroscope_endpoint, environment })
}

/// Leaving any one required variable unset keeps the service from starting,
/// and the error names that variable.
pub proof fn lemma_each_variable_required(
    var: EnvVar,
    service_name: Option<String>,
    otel_endpoint: Option<String>,
    pyroscope_endpoint: Option<String>,
    rust_env: Option<String>,
)
    requires
        service_name is Some || var == EnvVar::ServiceName,
        otel_endpoint is Some || var == EnvVar::OtelEndpoint,
        pyroscope_endpoint is Some || var == EnvVar::PyroscopeEndpoint,
        rust_env is Some || var == EnvVar::RustEnv,
        match var {
            EnvVar::ServiceName => service_name is None,
            EnvVar::OtelEndpoint => otel_endpoint is None,
            EnvVar::PyroscopeEndpoint => pyroscope_endpoint is None,
            EnvVar::RustEnv => rust_env is None,
        },
    ensures
        first_unset(service_name, otel_endpoint, pyroscope_endpoint, rust_env) == Some(var),
{
}

} // verus!
