use o11y::auth::Credentials;
use o11y::duration::Duration;
use o11y::logger::{normalize_endpoint, setup, LoggerConfig, LoggerError};

#[test]
fn test_logger_config_disabled_passes_validation() {
    let config = LoggerConfig::new("test").enabled(false);
    assert!(config.validate().is_ok());
}

#[test]
fn test_logger_config_enabled_requires_endpoint() {
    let config = LoggerConfig::new("test");
    assert!(matches!(
        config.validate(),
        Err(LoggerError::EndpointRequired)
    ));
}

#[test]
fn test_logger_config_builder() {
    let config = LoggerConfig::new("my-service")
        .with_endpoint("http://localhost:3100")
        .with_environment("production");

    assert!(config.enabled);
    assert_eq!(config.endpoint.unwrap(), "http://localhost:3100");
    assert_eq!(config.environment, "production");
}

#[test]
fn test_enabled_logger_requires_endpoint() {
    let mut config = LoggerConfig::new("test-service");
    config.enabled = true;

    let result = setup(&config);
    assert!(result.is_err());
}

#[test]
fn logger_defaults_of_new() {
    let config = LoggerConfig::new("svc");
    assert!(config.enabled);
    assert!(config.endpoint.is_none());
    assert_eq!(config.service_name, "svc");
    assert_eq!(config.environment, "development");
    assert_eq!(config.timeout, Duration::from_secs(5));
    assert!(config.credentials.is_empty());
}

#[test]
fn logger_disabled_is_valid_whatever_else_it_holds() {
    let config = LoggerConfig::new("").enabled(false);
    assert!(config.validate().is_ok());
    assert!(setup(&config).unwrap().is_none());
}

#[test]
fn logger_enabled_needs_a_service_name_first() {
    let config = LoggerConfig::new("");
    assert_eq!(config.validate(), Err(LoggerError::ServiceNameRequired));
    let config = LoggerConfig::new("").with_endpoint("http://localhost:3100");
    assert_eq!(config.validate(), Err(LoggerError::ServiceNameRequired));
    let config = LoggerConfig::new("svc").with_endpoint("http://localhost:3100");
    assert_eq!(config.validate(), Ok(()));
}

#[test]
fn logger_error_messages() {
    assert_eq!(
        LoggerError::ServiceNameRequired.to_string(),
        "logger service_name is required"
    );
    assert_eq!(
        LoggerError::EndpointRequired.to_string(),
        "logger endpoint is required when enabled"
    );
}

#[test]
fn logger_apply_defaults_fills_zero_and_empty() {
    let mut config = LoggerConfig::new("svc")
        .with_timeout(Duration::from_secs(0))
        .with_environment("");
    config.apply_defaults();
    assert_eq!(config.timeout, Duration::from_secs(5));
    assert_eq!(config.environment, "development");

    let mut kept = LoggerConfig::new("svc")
        .with_timeout(Duration::new(0, 500_000_000).unwrap())
        .with_environment("staging");
    kept.apply_defaults();
    assert_eq!(kept.timeout, Duration::new(0, 500_000_000).unwrap());
    assert_eq!(kept.environment, "staging");
}

#[test]
fn logger_apply_defaults_twice_is_once() {
    let mut once = LoggerConfig::new("svc")
        .with_timeout(Duration::from_secs(0))
        .with_environment("");
    once.apply_defaults();
    let mut twice = once.clone();
    twice.apply_defaults();
    assert_eq!(twice.timeout, once.timeout);
    assert_eq!(twice.environment, once.environment);
    assert_eq!(twice.enabled, once.enabled);
    assert_eq!(twice.endpoint, once.endpoint);
    assert_eq!(twice.service_name, once.service_name);
}

#[test]
fn logger_endpoint_normalization() {
    assert_eq!(
        normalize_endpoint("http://localhost:3100"),
        "http://localhost:3100/v1/logs"
    );
    assert_eq!(
        normalize_endpoint("http://localhost:3100/"),
        "http://localhost:3100/v1/logs"
    );
    assert_eq!(
        normalize_endpoint("http://localhost:3100///"),
        "http://localhost:3100/v1/logs"
    );
    assert_eq!(
        normalize_endpoint("http://localhost:3100/v1/logs"),
        "http://localhost:3100/v1/logs"
    );
    assert_eq!(
        normalize_endpoint("http://localhost:3100/otlp"),
        "http://localhost:3100/otlp/v1/logs"
    );
    assert_eq!(normalize_endpoint(""), "/v1/logs");
}

#[test]
fn logger_endpoint_normalization_is_idempotent() {
    for endpoint in [
        "http://localhost:3100",
        "http://localhost:3100/",
        "http://localhost:3100/v1/logs",
        "http://localhost:3100/v1/logs/",
        "",
        "/",
    ] {
        let once = normalize_endpoint(endpoint);
        let twice = normalize_endpoint(&once);
        assert_eq!(twice, once);
        assert!(once.ends_with("/v1/logs"));
    }
}

#[test]
fn logger_setup_says_what_to_build() {
    let config = LoggerConfig::new("svc")
        .with_endpoint("http://localhost:3100/")
        .with_timeout(Duration::from_secs(7))
        .with_credentials(Credentials::new().with_basic("user", "pass").with_api_key("k"));
    let plan = setup(&config).unwrap().unwrap();
    assert_eq!(plan.endpoint, "http://localhost:3100/v1/logs");
    assert_eq!(plan.timeout, Duration::from_secs(7));
    assert_eq!(plan.headers.len(), 2);
    assert_eq!(plan.headers.get("Authorization").unwrap(), "Basic dXNlcjpwYXNz");
    assert_eq!(plan.headers.get("X-API-Key").unwrap(), "k");
}

#[test]
fn logger_setup_error_is_the_missing_endpoint() {
    let config = LoggerConfig::new("svc");
    assert!(matches!(setup(&config), Err(LoggerError::EndpointRequired)));
    let nameless = LoggerConfig::new("");
    assert!(matches!(setup(&nameless), Err(LoggerError::EndpointRequired)));
}
