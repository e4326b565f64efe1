use o11y::auth::Credentials;
use o11y::profiler::{setup, ProfilerConfig, ProfilerError};

#[test]
fn test_profiler_config_disabled_passes_validation() {
    let config = ProfilerConfig::new("test").enabled(false);
    assert!(config.validate().is_ok());
}

#[test]
fn test_profiler_config_enabled_requires_server_url() {
    let config = ProfilerConfig::new("test");
    assert!(matches!(
        config.validate(),
        Err(ProfilerError::ServerUrlRequired)
    ));
}

#[test]
fn test_profiler_config_default_tags() {
    let config = ProfilerConfig::new("my-service");
    assert_eq!(config.tags.get("service").unwrap(), "my-service");
    assert_eq!(config.tags.get("service_name").unwrap(), "my-service");
}

#[test]
fn test_profiler_config_builder() {
    let config = ProfilerConfig::new("my-service")
        .with_server_url("http://localhost:4040")
        .with_tag("environment", "production")
        .with_tenant_id("my-tenant");

    assert!(config.enabled);
    assert_eq!(config.server_url.unwrap(), "http://localhost:4040");
    assert_eq!(config.tags.get("environment").unwrap(), "production");
    assert_eq!(config.tenant_id.unwrap(), "my-tenant");
}

#[test]
fn test_enabled_profiler_requires_server_url() {
    let mut config = ProfilerConfig::new("test-service");
    config.enabled = true;
    let result = setup(&config);
    assert!(result.is_err());
}

#[test]
fn profiler_defaults_of_new() {
    let config = ProfilerConfig::new("svc");
    assert!(config.enabled);
    assert!(config.server_url.is_none());
    assert_eq!(config.service_name, "svc");
    assert_eq!(config.tenant_id.as_deref(), Some("anonymous"));
    assert_eq!(config.tags.len(), 2);
}

#[test]
fn profiler_apply_defaults_fills_what_is_missing() {
    let mut config = ProfilerConfig::new("svc");
    config.tenant_id = None;
    config.tags = o11y::string_map::StringMap::new();
    config.tags.insert("service".to_string(), "mine".to_string());
    config.apply_defaults();
    assert_eq!(config.tenant_id.as_deref(), Some("anonymous"));
    assert_eq!(config.tags.get("service").unwrap(), "mine");
    assert_eq!(config.tags.get("service_name").unwrap(), "svc");
    assert_eq!(config.tags.len(), 2);
}

#[test]
fn profiler_apply_defaults_twice_is_once() {
    let mut once = ProfilerConfig::new("svc").with_tag("team", "core");
    once.tenant_id = None;
    once.apply_defaults();
    let mut twice = once.clone();
    twice.apply_defaults();
    assert_eq!(twice.tenant_id, once.tenant_id);
    assert_eq!(twice.tags.entries(), once.tags.entries());
    assert_eq!(twice.service_name, once.service_name);
}

#[test]
fn profiler_validation_order_and_messages() {
    assert_eq!(
        ProfilerConfig::new("").validate(),
        Err(ProfilerError::ServiceNameRequired)
    );
    assert!(ProfilerConfig::new("").enabled(false).validate().is_ok());
    assert!(ProfilerConfig::new("svc")
        .with_server_url("http://localhost:4040")
        .validate()
        .is_ok());
    assert_eq!(
        ProfilerError::ServiceNameRequired.to_string(),
        "profiler service_name is required"
    );
    assert_eq!(
        ProfilerError::ServerUrlRequired.to_string(),
        "profiler server_url is required when enabled"
    );
}

#[test]
fn profiler_setup_says_what_to_start() {
    let config = ProfilerConfig::new("svc")
        .with_server_url("http://localhost:4040")
        .with_tag("environment", "production")
        .with_tenant_id("tenant")
        .with_credentials(Credentials::new().with_basic("user", "pass"));
    let plan = setup(&config).unwrap().unwrap();
    assert_eq!(plan.server_url, "http://localhost:4040");
    assert_eq!(plan.application_name, "svc");
    assert_eq!(plan.tenant_id.as_deref(), Some("tenant"));
    assert_eq!(
        plan.basic_auth,
        Some(("user".to_string(), "pass".to_string()))
    );
    assert_eq!(plan.tags.len(), 3);
    assert_eq!(plan.tags.get("service").unwrap(), "svc");
    assert_eq!(plan.tags.get("service_name").unwrap(), "svc");
    assert_eq!(plan.tags.get("environment").unwrap(), "production");
}

#[test]
fn profiler_setup_of_a_disabled_configuration_is_nothing() {
    let config = ProfilerConfig::new("svc").enabled(false);
    assert!(setup(&config).unwrap().is_none());
    assert!(matches!(
        setup(&ProfilerConfig::new("svc")),
        Err(ProfilerError::ServerUrlRequired)
    ));
    let bearer_only = ProfilerConfig::new("svc")
        .with_server_url("http://localhost:4040")
        .with_credentials(Credentials::new().with_bearer("tok"));
    assert!(setup(&bearer_only).unwrap().unwrap().basic_auth.is_none());
}
