use o11y::auth::Credentials;
use o11y::duration::Duration;
use o11y::tracer::{
    init, sampler_from_ratio, setup, SampleRatio, Sampler, TracerConfig, TracerError,
};

fn ratio(value: f64) -> SampleRatio {
    SampleRatio::from_bits(value.to_bits())
}

fn value(ratio: SampleRatio) -> f64 {
    f64::from_bits(ratio.to_bits())
}

#[test]
fn test_tracer_config_disabled_passes_validation() {
    let config = TracerConfig::new("test").enabled(false);
    assert!(config.validate().is_ok());
}

#[test]
fn test_tracer_config_enabled_requires_endpoint() {
    let config = TracerConfig::new("test");
    assert!(matches!(
        config.validate(),
        Err(TracerError::EndpointRequired)
    ));
}

#[test]
fn test_tracer_config_applies_defaults() {
    let mut config = TracerConfig::new("test");
    config.sample_ratio = ratio(0.0);
    config.export_timeout = Duration::from_secs(0);

    config.apply_defaults();

    assert_eq!(value(config.sample_ratio), 1.0);
    assert_eq!(config.export_timeout, Duration::from_secs(10));
}

#[test]
fn test_tracer_config_builder() {
    let config = TracerConfig::new("my-service")
        .with_endpoint("http://localhost:4317")
        .with_sample_ratio(ratio(0.5));

    assert!(config.enabled);
    assert_eq!(config.endpoint.unwrap(), "http://localhost:4317");
    assert_eq!(value(config.sample_ratio), 0.5);
}

#[test]
fn test_sampler_ratios() {
    assert!(matches!(sampler_from_ratio(ratio(-1.0)), Sampler::AlwaysOff));
    assert!(matches!(sampler_from_ratio(ratio(0.0)), Sampler::AlwaysOff));
    assert!(matches!(sampler_from_ratio(ratio(1.0)), Sampler::AlwaysOn));
    assert!(matches!(sampler_from_ratio(ratio(2.0)), Sampler::AlwaysOn));

    match sampler_from_ratio(ratio(0.5)) {
        Sampler::TraceIdRatioBased(r) => assert_eq!(value(r), 0.5),
        _ => panic!("expected TraceIdRatioBased sampler"),
    }
}

#[test]
fn test_enabled_tracer_requires_endpoint() {
    let mut config = TracerConfig::new("test-service");
    config.enabled = true;

    let result = setup(&config);
    assert!(result.is_err());
}

#[test]
fn sampler_of_the_ratios_between_and_beyond() {
    assert_eq!(
        sampler_from_ratio(ratio(0.5)),
        Sampler::TraceIdRatioBased(ratio(0.5))
    );
    assert_eq!(sampler_from_ratio(ratio(1.5)), Sampler::AlwaysOn);
    assert_eq!(sampler_from_ratio(ratio(-1.0)), Sampler::AlwaysOff);
    assert_eq!(sampler_from_ratio(ratio(-0.0)), Sampler::AlwaysOff);
    assert_eq!(sampler_from_ratio(ratio(f64::INFINITY)), Sampler::AlwaysOn);
    assert_eq!(sampler_from_ratio(ratio(f64::NEG_INFINITY)), Sampler::AlwaysOff);
    assert_eq!(
        sampler_from_ratio(ratio(f64::MIN_POSITIVE)),
        Sampler::TraceIdRatioBased(ratio(f64::MIN_POSITIVE))
    );
    assert_eq!(
        sampler_from_ratio(ratio(0.999_999_999)),
        Sampler::TraceIdRatioBased(ratio(0.999_999_999))
    );
    assert_eq!(
        sampler_from_ratio(ratio(f64::NAN)),
        Sampler::TraceIdRatioBased(ratio(f64::NAN))
    );
}

#[test]
fn ratio_comparisons_agree_with_the_doubles() {
    let samples = [
        -2.0,
        -1.0,
        -f64::MIN_POSITIVE,
        -0.0,
        0.0,
        f64::MIN_POSITIVE,
        0.25,
        0.5,
        0.999,
        1.0,
        1.000_000_1,
        2.0,
        1e300,
        f64::INFINITY,
        f64::NEG_INFINITY,
        f64::NAN,
        -f64::NAN,
    ];
    for x in samples {
        assert_eq!(ratio(x).at_most_zero(), x <= 0.0, "{x} <= 0");
        assert_eq!(ratio(x).at_least_one(), x >= 1.0, "{x} >= 1");
    }
}

#[test]
fn tracer_defaults_of_new() {
    let config = TracerConfig::new("svc");
    assert!(config.enabled);
    assert!(config.endpoint.is_none());
    assert_eq!(config.service_name, "svc");
    assert_eq!(value(config.sample_ratio), 1.0);
    assert_eq!(config.export_timeout, Duration::from_secs(10));
    assert!(!config.use_global);
    assert!(config.credentials.is_empty());
}

#[test]
fn tracer_apply_defaults_keeps_what_is_set() {
    let mut config = TracerConfig::new("svc")
        .with_sample_ratio(ratio(0.25))
        .with_export_timeout(Duration::from_secs(3));
    config.apply_defaults();
    assert_eq!(value(config.sample_ratio), 0.25);
    assert_eq!(config.export_timeout, Duration::from_secs(3));

    let mut negative = TracerConfig::new("svc").with_sample_ratio(ratio(-3.0));
    negative.apply_defaults();
    assert_eq!(value(negative.sample_ratio), 1.0);

    let mut above = TracerConfig::new("svc").with_sample_ratio(ratio(1.5));
    above.apply_defaults();
    assert_eq!(value(above.sample_ratio), 1.5);
}

#[test]
fn tracer_apply_defaults_twice_is_once() {
    let mut once = TracerConfig::new("svc")
        .with_sample_ratio(ratio(0.0))
        .with_export_timeout(Duration::from_secs(0));
    once.apply_defaults();
    let mut twice = once.clone();
    twice.apply_defaults();
    assert_eq!(twice.sample_ratio, once.sample_ratio);
    assert_eq!(twice.export_timeout, once.export_timeout);
}

#[test]
fn tracer_validation_order_and_messages() {
    assert_eq!(
        TracerConfig::new("").validate(),
        Err(TracerError::ServiceNameRequired)
    );
    assert!(TracerConfig::new("").enabled(false).validate().is_ok());
    assert!(TracerConfig::new("svc")
        .with_endpoint("http://localhost:4317")
        .validate()
        .is_ok());
    assert_eq!(
        TracerError::ServiceNameRequired.to_string(),
        "tracer service_name is required"
    );
    assert_eq!(
        TracerError::EndpointRequired.to_string(),
        "tracer endpoint is required when enabled"
    );
}

#[test]
fn tracer_setup_and_init_differ_in_registration_only() {
    let config = TracerConfig::new("svc")
        .with_endpoint("http://localhost:4317/")
        .with_sample_ratio(ratio(0.5))
        .with_export_timeout(Duration::from_secs(4))
        .with_credentials(Credentials::new().with_bearer("tok"))
        .use_global(true);
    let plan = setup(&config).unwrap().unwrap();
    assert_eq!(plan.endpoint, "http://localhost:4317/");
    assert_eq!(plan.sampler, Sampler::TraceIdRatioBased(ratio(0.5)));
    assert_eq!(plan.export_timeout, Duration::from_secs(4));
    assert_eq!(plan.headers.get("Authorization").unwrap(), "Bearer tok");
    assert!(!plan.register_globally);

    let global = init(&config).unwrap().unwrap();
    assert!(global.register_globally);
    assert_eq!(global.endpoint, "http://localhost:4317/");

    let local = init(&config.use_global(false)).unwrap().unwrap();
    assert!(!local.register_globally);
}

#[test]
fn tracer_setup_of_a_disabled_configuration_is_nothing() {
    let config = TracerConfig::new("svc").enabled(false).use_global(true);
    assert!(setup(&config).unwrap().is_none());
    assert!(init(&config).unwrap().is_none());
    assert!(matches!(
        init(&TracerConfig::new("svc")),
        Err(TracerError::EndpointRequired)
    ));
}
