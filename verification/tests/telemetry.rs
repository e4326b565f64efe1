use o11y::auth::Credentials;
use o11y::config::{Config, ConfigError};
use o11y::logger::LoggerConfig;
use o11y::meter::{MeterConfig, RuntimeConfig};
use o11y::profiler::ProfilerConfig;
use o11y::telemetry::{fallback_log_filter, Action, Outcome, Stage, Subsystem, Telemetry};
use o11y::tracer::TracerConfig;

fn all_enabled(service: &str) -> Config {
    Config::new(service)
        .with_logger(LoggerConfig::new(service).with_endpoint("http://localhost:3100"))
        .with_tracer(TracerConfig::new(service).with_endpoint("http://localhost:4317"))
        .with_meter(MeterConfig::new(service).with_endpoint("http://localhost:9009"))
        .with_profiler(ProfilerConfig::new(service).with_server_url("http://localhost:4040"))
}

fn all_disabled(service: &str) -> Config {
    Config::new(service)
        .with_logger(LoggerConfig::new(service).enabled(false))
        .with_tracer(TracerConfig::new(service).enabled(false))
        .with_meter(MeterConfig::new(service).enabled(false))
        .with_profiler(ProfilerConfig::new(service).enabled(false))
}

fn name(action: &Action) -> String {
    match action {
        Action::SetupLogger(_) => "setup logger".to_string(),
        Action::SetupTracer(_) => "setup tracer".to_string(),
        Action::SetupMeter(_) => "setup meter".to_string(),
        Action::RegisterRuntimeMetrics { meter_name } => format!("runtime metrics {meter_name}"),
        Action::SetupProfiler(_) => "setup profiler".to_string(),
        Action::InstallSubscriber(_) => "subscriber".to_string(),
        Action::Shutdown(s) => format!("shutdown {}", s.as_str()),
        Action::Ready => "ready".to_string(),
        Action::Failed(_) => "failed".to_string(),
        Action::Finished => "finished".to_string(),
    }
}

/// Performs every action with success, until none is due.
fn bring_up(mut tele: Telemetry) -> (Telemetry, Vec<String>) {
    let mut trace = Vec::new();
    loop {
        let action = tele.next_action();
        trace.push(name(&action));
        match action {
            Action::Ready | Action::Failed(_) | Action::Finished => return (tele, trace),
            _ => tele = tele.record(Outcome::Succeeded),
        }
    }
}

#[test]
fn test_telemetry_all_disabled() {
    let service = "test-service";
    let config = Config::new(service)
        .with_logger(LoggerConfig::new(service).enabled(false))
        .with_tracer(TracerConfig::new(service).enabled(false))
        .with_meter(MeterConfig::new(service).enabled(false))
        .with_profiler(ProfilerConfig::new(service).enabled(false));
    let tele = Telemetry::new(config).unwrap();

    assert!(!tele.has_logger());
    assert!(!tele.has_tracer());
    assert!(!tele.has_meter());
    assert!(!tele.has_profiler());
}

#[test]
fn test_telemetry_validation() {
    let config = Config::new("");
    let result = Telemetry::new(config);
    assert!(result.is_err());
}

#[test]
fn all_disabled_sets_nothing_up() {
    let tele = Telemetry::new(all_disabled("svc")).unwrap();
    assert_eq!(tele.stage(), Stage::Subscriber);
    let (tele, trace) = bring_up(tele);
    assert_eq!(trace, vec!["subscriber", "ready"]);
    assert_eq!(tele.stage(), Stage::Active);
    assert!(!tele.has_logger());
    assert!(!tele.has_tracer());
    assert!(!tele.has_meter());
    assert!(!tele.has_profiler());

    let tele = tele.shutdown();
    assert_eq!(tele.stage(), Stage::ShutDown);
    assert!(matches!(tele.next_action(), Action::Finished));
}

#[test]
fn new_with_defaults_left_fails_on_the_logger_endpoint() {
    match Telemetry::new(Config::new("svc")) {
        Err(ConfigError::Logger(message)) => {
            assert_eq!(message, "logger endpoint is required when enabled")
        }
        other => panic!("expected the logger to refuse, got {other:?}"),
    }
    assert!(matches!(
        Telemetry::new(Config::new("")),
        Err(ConfigError::ServiceNameRequired)
    ));
}

#[test]
fn new_fills_in_the_defaults_before_it_validates() {
    let config = all_enabled("svc").with_logger(
        LoggerConfig::new("")
            .with_endpoint("http://localhost:3100")
            .with_environment(""),
    );
    let tele = Telemetry::new(config).unwrap();
    assert_eq!(tele.config().logger.service_name, "svc");
    assert_eq!(tele.config().logger.environment, "development");
}

#[test]
fn subsystems_come_up_in_their_order() {
    let tele = Telemetry::new(all_enabled("svc")).unwrap();
    let (tele, trace) = bring_up(tele);
    assert_eq!(
        trace,
        vec![
            "setup logger",
            "setup tracer",
            "setup meter",
            "setup profiler",
            "subscriber",
            "ready"
        ]
    );
    assert!(tele.has_logger() && tele.has_tracer() && tele.has_meter() && tele.has_profiler());
    assert!(tele.reports().is_empty());
}

#[test]
fn runtime_metrics_need_the_switch_and_the_global_meter() {
    let with = |runtime: bool, global: bool| {
        all_enabled("svc").with_meter(
            MeterConfig::new("svc")
                .with_endpoint("http://localhost:9009")
                .with_runtime(RuntimeConfig::default().enabled(runtime))
                .use_global(global),
        )
    };
    let (_, trace) = bring_up(Telemetry::new(with(true, true)).unwrap());
    assert_eq!(
        trace,
        vec![
            "setup logger",
            "setup tracer",
            "setup meter",
            "runtime metrics svc",
            "setup profiler",
            "subscriber",
            "ready"
        ]
    );
    for (runtime, global) in [(true, false), (false, true), (false, false)] {
        let (_, trace) = bring_up(Telemetry::new(with(runtime, global)).unwrap());
        assert!(!trace.iter().any(|a| a.starts_with("runtime metrics")));
    }
}

#[test]
fn runtime_metrics_are_not_registered_without_a_meter() {
    let config = all_enabled("svc").with_meter(
        MeterConfig::new("svc")
            .with_endpoint("http://localhost:9009")
            .with_runtime(RuntimeConfig::default().enabled(true))
            .use_global(true),
    );
    let tele = Telemetry::new(config).unwrap();
    let tele = tele.record(Outcome::Succeeded).record(Outcome::Succeeded);
    assert_eq!(tele.stage(), Stage::Meter);
    let tele = tele.record(Outcome::Unavailable);
    assert_eq!(tele.stage(), Stage::Profiler);
    assert!(!tele.has_meter());
}

#[test]
fn global_registration_follows_the_configuration() {
    let config = all_enabled("svc")
        .with_tracer(
            TracerConfig::new("svc")
                .with_endpoint("http://localhost:4317")
                .use_global(true),
        )
        .with_meter(MeterConfig::new("svc").with_endpoint("http://localhost:9009"));
    let tele = Telemetry::new(config).unwrap().record(Outcome::Succeeded);
    match tele.next_action() {
        Action::SetupTracer(plan) => {
            assert!(plan.register_globally);
            assert_eq!(plan.endpoint, "http://localhost:4317");
        }
        other => panic!("expected the tracer setup, got {other:?}"),
    }
    let tele = tele.record(Outcome::Succeeded);
    match tele.next_action() {
        Action::SetupMeter(plan) => {
            assert!(!plan.register_globally);
            assert_eq!(plan.endpoint, "http://localhost:9009/v1/metrics");
        }
        other => panic!("expected the meter setup, got {other:?}"),
    }
}

#[test]
fn setup_actions_carry_the_derived_headers() {
    let config = all_enabled("svc").with_logger(
        LoggerConfig::new("svc")
            .with_endpoint("http://localhost:3100/")
            .with_credentials(Credentials::new().with_basic("user", "pass")),
    );
    let tele = Telemetry::new(config).unwrap();
    match tele.next_action() {
        Action::SetupLogger(plan) => {
            assert_eq!(plan.endpoint, "http://localhost:3100/v1/logs");
            assert_eq!(
                plan.headers.get("Authorization").unwrap(),
                "Basic dXNlcjpwYXNz"
            );
        }
        other => panic!("expected the logger setup, got {other:?}"),
    }
}

#[test]
fn a_failed_trace_setup_shuts_the_logger_down_and_reports_the_trace_error() {
    let config = all_enabled("svc")
        .with_tracer(TracerConfig::new("svc").with_endpoint("not a url"));
    let tele = Telemetry::new(config).unwrap();
    assert!(matches!(tele.next_action(), Action::SetupLogger(_)));
    let tele = tele.record(Outcome::Succeeded);
    assert!(tele.has_logger());
    assert!(matches!(tele.next_action(), Action::SetupTracer(_)));

    let tele = tele.record(Outcome::Failed("malformed endpoint".to_string()));
    assert_eq!(tele.stage(), Stage::RollingBack);
    assert!(tele.has_logger());
    assert!(matches!(
        tele.next_action(),
        Action::Shutdown(Subsystem::Logger)
    ));

    let tele = tele.record(Outcome::Succeeded);
    assert_eq!(tele.stage(), Stage::Failed);
    assert!(!tele.has_logger());
    assert!(!tele.has_tracer());
    match tele.next_action() {
        Action::Failed(failure) => {
            assert_eq!(failure.subsystem, Subsystem::Tracer);
            assert_eq!(failure.endpoint, "not a url");
            assert_eq!(failure.message, "malformed endpoint");
            assert_eq!(
                failure.to_string(),
                "failed to set up tracer for not a url: malformed endpoint"
            );
        }
        other => panic!("expected the trace error, got {other:?}"),
    }
    // Nothing was set up after the failure.
    let tele = tele.record(Outcome::Succeeded);
    assert_eq!(tele.stage(), Stage::Failed);
    let tele = tele.shutdown();
    assert_eq!(tele.stage(), Stage::Failed);
}

#[test]
fn a_failed_first_setup_fails_at_once() {
    let tele = Telemetry::new(all_enabled("svc")).unwrap();
    let (tele, action) = tele.step(Outcome::Failed("refused".to_string()));
    assert_eq!(tele.stage(), Stage::Failed);
    match action {
        Action::Failed(failure) => assert_eq!(
            failure.to_string(),
            "failed to set up logger for http://localhost:3100: refused"
        ),
        other => panic!("expected the logger error, got {other:?}"),
    }
}

#[test]
fn a_failed_last_setup_rolls_back_every_handle_once() {
    let tele = Telemetry::new(all_enabled("svc")).unwrap();
    let tele = tele
        .record(Outcome::Succeeded)
        .record(Outcome::Succeeded)
        .record(Outcome::Succeeded);
    assert_eq!(tele.stage(), Stage::Profiler);
    let mut tele = tele.record(Outcome::Failed("no agent".to_string()));
    let mut shut = Vec::new();
    loop {
        match tele.next_action() {
            Action::Shutdown(s) => {
                shut.push(s);
                // A shutdown that fails does not stop the others.
                tele = tele.record(Outcome::Failed(format!("{} stuck", s.as_str())));
            }
            Action::Failed(failure) => {
                assert_eq!(failure.subsystem, Subsystem::Profiler);
                assert_eq!(failure.endpoint, "http://localhost:4040");
                break;
            }
            other => panic!("unexpected action {other:?}"),
        }
    }
    assert_eq!(
        shut,
        vec![Subsystem::Logger, Subsystem::Tracer, Subsystem::Meter]
    );
    assert_eq!(
        tele.reports(),
        &vec![
            "failed to shut down logger provider: logger stuck".to_string(),
            "failed to shut down tracer provider: tracer stuck".to_string(),
            "failed to shut down meter provider: meter stuck".to_string(),
        ]
    );
    assert!(!tele.has_logger() && !tele.has_tracer() && !tele.has_meter() && !tele.has_profiler());
}

#[test]
fn an_unavailable_subsystem_is_as_if_disabled() {
    let tele = Telemetry::new(all_enabled("svc")).unwrap();
    let tele = tele
        .record(Outcome::Succeeded)
        .record(Outcome::Succeeded)
        .record(Outcome::Succeeded)
        .record(Outcome::Unavailable);
    assert_eq!(tele.stage(), Stage::Subscriber);
    assert!(!tele.has_profiler());
    let tele = tele.record(Outcome::Succeeded);
    assert!(matches!(tele.next_action(), Action::Ready));
}

#[test]
fn best_effort_failures_are_reported_and_go_no_further() {
    let config = all_enabled("svc").with_meter(
        MeterConfig::new("svc")
            .with_endpoint("http://localhost:9009")
            .with_runtime(RuntimeConfig::default().enabled(true))
            .use_global(true),
    );
    let tele = Telemetry::new(config).unwrap();
    let tele = tele
        .record(Outcome::Succeeded)
        .record(Outcome::Succeeded)
        .record(Outcome::Succeeded);
    assert_eq!(tele.stage(), Stage::RuntimeMetrics);
    let tele = tele.record(Outcome::Failed("no runtime".to_string()));
    assert_eq!(tele.stage(), Stage::Profiler);
    let tele = tele.record(Outcome::Succeeded);
    assert_eq!(tele.stage(), Stage::Subscriber);
    let tele = tele.record(Outcome::Failed("already set".to_string()));
    assert_eq!(tele.stage(), Stage::Active);
    assert_eq!(
        tele.reports(),
        &vec![
            "failed to register runtime metrics: no runtime".to_string(),
            "failed to install tracing subscriber: already set".to_string(),
        ]
    );
    assert!(tele.has_logger() && tele.has_tracer() && tele.has_meter() && tele.has_profiler());
}

#[test]
fn the_subscriber_is_told_what_stands() {
    let config = all_enabled("svc").with_tracer(
        TracerConfig::new("tracer-name").with_endpoint("http://localhost:4317"),
    );
    let tele = Telemetry::new(config).unwrap();
    let tele = tele
        .record(Outcome::Succeeded)
        .record(Outcome::Succeeded)
        .record(Outcome::Succeeded)
        .record(Outcome::Succeeded);
    match tele.next_action() {
        Action::InstallSubscriber(setup) => {
            assert_eq!(
                setup.filter,
                "info,svc=debug,otel::tracing=trace,axum_tracing_opentelemetry=trace"
            );
            assert_eq!(setup.tracer_name.as_deref(), Some("tracer-name"));
            assert!(setup.bridge_logs);
        }
        other => panic!("expected the subscriber, got {other:?}"),
    }

    let tele = Telemetry::new(all_disabled("svc")).unwrap();
    match tele.next_action() {
        Action::InstallSubscriber(setup) => {
            assert!(setup.tracer_name.is_none());
            assert!(!setup.bridge_logs);
        }
        other => panic!("expected the subscriber, got {other:?}"),
    }
}

#[test]
fn fallback_filter_names_the_service() {
    assert_eq!(
        fallback_log_filter("my_service"),
        "info,my_service=debug,otel::tracing=trace,axum_tracing_opentelemetry=trace"
    );
}

#[test]
fn shutdown_visits_every_handle_once() {
    let config = all_enabled("svc").with_tracer(TracerConfig::new("svc").enabled(false));
    let (tele, _) = bring_up(Telemetry::new(config).unwrap());
    assert!(tele.has_logger() && !tele.has_tracer() && tele.has_meter() && tele.has_profiler());

    let mut tele = tele.shutdown();
    assert_eq!(tele.stage(), Stage::ShuttingDown);
    let mut shut = Vec::new();
    loop {
        match tele.next_action() {
            Action::Shutdown(s) => {
                shut.push(s);
                let outcome = if s == Subsystem::Meter {
                    Outcome::Failed("timeout".to_string())
                } else {
                    Outcome::Succeeded
                };
                tele = tele.record(outcome);
            }
            Action::Finished => break,
            other => panic!("unexpected action {other:?}"),
        }
    }
    assert_eq!(
        shut,
        vec![Subsystem::Logger, Subsystem::Meter, Subsystem::Profiler]
    );
    assert_eq!(tele.stage(), Stage::ShutDown);
    assert!(!tele.has_logger() && !tele.has_tracer() && !tele.has_meter() && !tele.has_profiler());
    assert_eq!(
        tele.reports(),
        &vec!["failed to shut down meter provider: timeout".to_string()]
    );
}

#[test]
fn shutdown_is_final() {
    let (tele, _) = bring_up(Telemetry::new(all_enabled("svc")).unwrap());
    let mut tele = tele.shutdown();
    while let Action::Shutdown(_) = tele.next_action() {
        tele = tele.record(Outcome::Succeeded);
    }
    assert_eq!(tele.stage(), Stage::ShutDown);
    let tele = tele.record(Outcome::Succeeded);
    assert_eq!(tele.stage(), Stage::ShutDown);
    let tele = tele.shutdown();
    assert_eq!(tele.stage(), Stage::ShutDown);
    assert!(matches!(tele.next_action(), Action::Finished));
    assert!(!tele.has_logger());
}

#[test]
fn shutdown_before_the_instrumentation_stands_changes_nothing() {
    let tele = Telemetry::new(all_enabled("svc")).unwrap();
    let tele = tele.record(Outcome::Succeeded);
    let tele = tele.shutdown();
    assert_eq!(tele.stage(), Stage::Tracer);
    assert!(tele.has_logger());
}

#[test]
fn an_outcome_without_an_action_changes_nothing() {
    let (tele, _) = bring_up(Telemetry::new(all_enabled("svc")).unwrap());
    let tele = tele.record(Outcome::Failed("stray".to_string()));
    assert_eq!(tele.stage(), Stage::Active);
    assert!(tele.reports().is_empty());
    assert!(tele.has_logger());
}

#[test]
fn subsystem_names() {
    assert_eq!(Subsystem::Logger.as_str(), "logger");
    assert_eq!(Subsystem::Tracer.as_str(), "tracer");
    assert_eq!(Subsystem::Meter.as_str(), "meter");
    assert_eq!(Subsystem::Profiler.as_str(), "profiler");
    assert_eq!(Subsystem::Profiler.handle_str(), "pyroscope agent");
    assert_eq!(Subsystem::Logger.handle_str(), "logger provider");
}
