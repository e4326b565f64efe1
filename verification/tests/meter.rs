use o11y::auth::Credentials;
use o11y::duration::Duration;
use o11y::meter::{init, normalize_endpoint, setup, MeterConfig, MeterError, RuntimeConfig};

#[test]
fn test_meter_config_disabled_passes_validation() {
    let config = MeterConfig::new("test").enabled(false);
    assert!(config.validate().is_ok());
}

#[test]
fn test_meter_config_enabled_requires_endpoint() {
    let config = MeterConfig::new("test");
    assert!(matches!(
        config.validate(),
        Err(MeterError::EndpointRequired)
    ));
}

#[test]
fn test_meter_config_applies_defaults() {
    let mut config = MeterConfig::new("test");
    config.export_interval = Duration::from_secs(0);

    config.apply_defaults();

    assert_eq!(config.export_interval, Duration::from_secs(10));
}

#[test]
fn test_meter_config_builder() {
    let config = MeterConfig::new("my-service")
        .with_endpoint("http://localhost:9009")
        .with_export_interval(Duration::from_secs(30));

    assert!(config.enabled);
    assert_eq!(config.endpoint.unwrap(), "http://localhost:9009");
    assert_eq!(config.export_interval, Duration::from_secs(30));
}

#[test]
fn test_runtime_config_builder() {
    let runtime = RuntimeConfig::default();
    assert!(!runtime.enabled);

    let runtime = RuntimeConfig::default().enabled(true);
    assert!(runtime.enabled);
}

#[test]
fn test_enabled_meter_requires_endpoint() {
    let mut config = MeterConfig::new("test-service");
    config.enabled = true;

    let result = setup(&config);
    assert!(result.is_err());
}

#[test]
fn test_endpoint_normalization() {
    let config = MeterConfig::new("test-service")
        .enabled(true)
        .with_endpoint("http://localhost:9009");

    assert!(config.endpoint.unwrap().contains("9009"));
}

#[test]
fn meter_defaults_of_new() {
    let config = MeterConfig::new("svc");
    assert!(config.enabled);
    assert!(config.endpoint.is_none());
    assert_eq!(config.service_name, "svc");
    assert_eq!(config.export_interval, Duration::from_secs(10));
    assert!(!config.runtime.enabled);
    assert!(!config.use_global);
}

#[test]
fn meter_apply_defaults_twice_is_once() {
    let mut once = MeterConfig::new("svc").with_export_interval(Duration::from_secs(0));
    once.apply_defaults();
    let mut twice = once.clone();
    twice.apply_defaults();
    assert_eq!(once.export_interval, Duration::from_secs(10));
    assert_eq!(twice.export_interval, once.export_interval);

    let mut kept = MeterConfig::new("svc").with_export_interval(Duration::from_secs(30));
    kept.apply_defaults();
    assert_eq!(kept.export_interval, Duration::from_secs(30));
}

#[test]
fn meter_validation_order_and_messages() {
    assert_eq!(
        MeterConfig::new("").validate(),
        Err(MeterError::ServiceNameRequired)
    );
    assert!(MeterConfig::new("").enabled(false).validate().is_ok());
    assert!(MeterConfig::new("svc")
        .with_endpoint("http://localhost:9009")
        .validate()
        .is_ok());
    assert_eq!(
        MeterError::ServiceNameRequired.to_string(),
        "meter service_name is required"
    );
    assert_eq!(
        MeterError::EndpointRequired.to_string(),
        "meter endpoint is required when enabled"
    );
}

#[test]
fn meter_endpoint_normalization() {
    assert_eq!(
        normalize_endpoint("http://localhost:9009"),
        "http://localhost:9009/v1/metrics"
    );
    assert_eq!(
        normalize_endpoint("http://localhost:9009/otlp/"),
        "http://localhost:9009/otlp/v1/metrics"
    );
    assert_eq!(
        normalize_endpoint("http://localhost:9009/v1/metrics"),
        "http://localhost:9009/v1/metrics"
    );
    let once = normalize_endpoint("http://localhost:9009//");
    assert_eq!(normalize_endpoint(&once), once);
}

#[test]
fn meter_setup_and_init_differ_in_registration_only() {
    let config = MeterConfig::new("svc")
        .with_endpoint("http://localhost:9009/")
        .with_export_interval(Duration::from_secs(30))
        .with_credentials(Credentials::new().with_api_key("k"))
        .with_runtime(RuntimeConfig::default().enabled(true))
        .use_global(true);
    let plan = setup(&config).unwrap().unwrap();
    assert_eq!(plan.endpoint, "http://localhost:9009/v1/metrics");
    assert_eq!(plan.export_interval, Duration::from_secs(30));
    assert_eq!(plan.headers.get("X-API-Key").unwrap(), "k");
    assert!(!plan.register_globally);
    assert!(init(&config).unwrap().unwrap().register_globally);
    assert!(!init(&config.use_global(false)).unwrap().unwrap().register_globally);
}

#[test]
fn meter_setup_of_a_disabled_configuration_is_nothing() {
    let config = MeterConfig::new("svc").enabled(false);
    assert!(setup(&config).unwrap().is_none());
    assert!(init(&config).unwrap().is_none());
    assert!(matches!(
        init(&MeterConfig::new("svc")),
        Err(MeterError::EndpointRequired)
    ));
}
