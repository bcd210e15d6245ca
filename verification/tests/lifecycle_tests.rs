use axum_otel_demo::config::AppConfig;
use axum_otel_demo::error::TelemetryError;
use axum_otel_demo::filter::Severity;
use axum_otel_demo::profiling::AgentState;
use axum_otel_demo::profiling::init_pyroscope;
use axum_otel_demo::record::LogRecord;
use axum_otel_demo::sink::SinkSlot;
use axum_otel_demo::telemetry::init_telemetry;

fn demo_config() -> AppConfig {
    AppConfig::from_values(None, None, None, None)
}

#[test]
fn agent_full_lifecycle_succeeds_in_order() {
    let mut agent = init_pyroscope("http://localhost:4040", "0.1.0");
    assert_eq!(agent.state, AgentState::Ready);
    assert_eq!(agent.sample_rate_hz, 100);
    assert_eq!(agent.version_tag, "0.1.0");
    assert_eq!(agent.env_tag, "development");

    assert_eq!(agent.start(), Ok(()));
    assert_eq!(agent.state, AgentState::Running);
    assert_eq!(agent.stop(), Ok(()));
    assert_eq!(agent.state, AgentState::Ready);
    assert_eq!(agent.shutdown(), Ok(()));
    assert_eq!(agent.state, AgentState::Terminated);
}

#[test]
fn agent_shutdown_straight_from_running_is_rejected() {
    let mut agent = init_pyroscope("http://localhost:4040", "0.1.0");
    agent.start().unwrap();
    assert_eq!(agent.shutdown(), Err(TelemetryError::AgentNotStopped));
    // the rejection changed nothing: the ordered teardown still works
    assert_eq!(agent.state, AgentState::Running);
    agent.stop().unwrap();
    assert_eq!(agent.shutdown(), Ok(()));
}

#[test]
fn agent_rejects_every_other_out_of_order_call() {
    let mut agent = init_pyroscope("http://localhost:4040", "0.1.0");
    // never started, never stopped: terminal shutdown is not yet allowed
    assert_eq!(agent.shutdown(), Err(TelemetryError::AgentNotStopped));
    assert_eq!(agent.stop(), Err(TelemetryError::AgentNotRunning));
    agent.start().unwrap();
    assert_eq!(agent.start(), Err(TelemetryError::AgentNotReady));
    agent.stop().unwrap();
    agent.shutdown().unwrap();
    assert_eq!(agent.start(), Err(TelemetryError::AgentNotReady));
    assert_eq!(agent.stop(), Err(TelemetryError::AgentNotRunning));
    assert_eq!(agent.shutdown(), Err(TelemetryError::AgentNotStopped));
}

#[test]
fn init_telemetry_builds_the_whole_pipeline_once() {
    let config = demo_config();
    let mut slot = SinkSlot::new();
    let (sink, guard) = init_telemetry(&config, "axum-otel-demo", "0.1.0", &mut slot).unwrap();

    // both pipelines share one resource identity and one collector endpoint
    assert_eq!(sink.tracer.resource.service_name, "axum-otel-demo");
    assert_eq!(sink.tracer.resource.service_version, "0.1.0");
    assert_eq!(
        sink.tracer.resource.service_name,
        sink.logger.resource.service_name
    );
    assert_eq!(
        sink.tracer.resource.service_version,
        sink.logger.resource.service_version
    );
    assert_eq!(sink.tracer.endpoint, "http://localhost:4317");
    assert_eq!(sink.logger.endpoint, "http://localhost:4317");
    assert!(sink.tracer.pending.is_empty());
    assert!(sink.logger.pending.is_empty());

    // the profiler is already running against the profiling endpoint
    assert_eq!(guard.pyroscope_agent.state, AgentState::Running);
    assert_eq!(guard.pyroscope_agent.endpoint, "http://localhost:4040");
    assert!(!guard.used);

    // a second installation in the same process is rejected
    let second = init_telemetry(&config, "axum-otel-demo", "0.1.0", &mut slot);
    assert!(matches!(second, Err(TelemetryError::SinkAlreadyInstalled)));
}

#[test]
fn guard_shutdown_twice_is_detected_and_releases_nothing_twice() {
    let config = demo_config();
    let mut slot = SinkSlot::new();
    let (mut sink, mut guard) =
        init_telemetry(&config, "axum-otel-demo", "0.1.0", &mut slot).unwrap();

    // queue one record so the shutdown flush is observable
    let rec = LogRecord::event(1, Severity::Info, "axum_otel_demo".to_owned(), "up".to_owned());
    assert!(sink.emit_log(rec, None));
    assert_eq!(sink.logger.pending.len(), 1);

    assert_eq!(guard.shutdown(&mut sink), Ok(()));
    assert!(guard.used);
    assert_eq!(guard.pyroscope_agent.state, AgentState::Terminated);
    assert!(sink.logger.shut_down);
    assert!(sink.logger.pending.is_empty());
    assert_eq!(sink.logger.flushed.len(), 1);
    assert_eq!(sink.logger.flushed[0].message, "up");

    // the second call is rejected as misuse and releases nothing again
    assert_eq!(
        guard.shutdown(&mut sink),
        Err(TelemetryError::GuardAlreadyShutDown)
    );
    assert_eq!(guard.pyroscope_agent.state, AgentState::Terminated);
    assert_eq!(sink.logger.flushed.len(), 1);
}

#[test]
fn records_after_logger_shutdown_are_dropped_silently() {
    let config = demo_config();
    let mut slot = SinkSlot::new();
    let (mut sink, mut guard) =
        init_telemetry(&config, "axum-otel-demo", "0.1.0", &mut slot).unwrap();
    guard.shutdown(&mut sink).unwrap();

    let rec = LogRecord::event(2, Severity::Info, "axum_otel_demo".to_owned(), "late".to_owned());
    // the filter still accepts it and the console still prints it,
    // but the released log pipeline gets nothing
    assert!(sink.emit_log(rec, None));
    assert!(sink.logger.pending.is_empty());
    assert_eq!(sink.logger.flushed.len(), 0);
    assert_eq!(sink.console.len(), 1);
}

#[test]
fn logger_handle_shuts_down_at_most_once() {
    let config = demo_config();
    let mut slot = SinkSlot::new();
    let (mut sink, _guard) =
        init_telemetry(&config, "axum-otel-demo", "0.1.0", &mut slot).unwrap();
    assert_eq!(sink.logger.shutdown(), Ok(()));
    assert_eq!(
        sink.logger.shutdown(),
        Err(TelemetryError::LoggerAlreadyShutDown)
    );
}
