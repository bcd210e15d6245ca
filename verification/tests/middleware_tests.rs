use axum_otel_demo::config::AppConfig;
use axum_otel_demo::filter::Severity;
use axum_otel_demo::instrument::open_request_span;
use axum_otel_demo::instrument::request_phase;
use axum_otel_demo::instrument::response_phase;
use axum_otel_demo::sink::SinkSlot;
use axum_otel_demo::span::TraceContext;
use axum_otel_demo::telemetry::init_telemetry;

const BODY: &str = "{\"username\":\"alice\",\"email\":\"a@example.com\"}";

fn fresh_sink() -> axum_otel_demo::sink::TelemetrySink {
    let config = AppConfig::from_values(None, None, None, None);
    let mut slot = SinkSlot::new();
    let (sink, _guard) = init_telemetry(&config, "axum-otel-demo", "0.1.0", &mut slot).unwrap();
    sink
}

#[test]
fn post_users_scenario() {
    let mut sink = fresh_sink();

    // entry: span named after method and path, ids filled from a valid context
    let mut span = open_request_span("POST", "/users", "/users");
    assert_eq!(span.name, "POST /users");
    span.record_context(TraceContext { trace_id: 0xabc, span_id: 0x17 });
    assert_eq!(span.trace_id, Some(0xabc));
    assert_eq!(span.span_id, Some(0x17));

    // request phase: the body reaches the handler byte-identical and the
    // debug record carries the literal JSON text
    let (forwarded, entry_rec) = request_phase("POST", "/users", Some(BODY.as_bytes().to_vec()), 5);
    assert_eq!(forwarded, BODY.as_bytes());
    let entry_rec = entry_rec.expect("non-empty body must be logged");
    assert_eq!(entry_rec.body.as_deref(), Some(BODY));
    assert_eq!(entry_rec.method.as_deref(), Some("POST"));
    assert_eq!(entry_rec.uri.as_deref(), Some("/users"));
    assert!(matches!(entry_rec.severity, Severity::Debug));
    assert!(sink.emit_log(entry_rec, Some(&span)));

    // response phase: 201 with a measured, non-negative latency
    let (_resp_bytes, exit_rec) =
        response_phase("POST", "/users", 201, 100, 130, Some(b"created".to_vec()), 6);
    assert_eq!(exit_rec.status, Some(201));
    assert_eq!(exit_rec.latency_ms, Some(30));
    assert!(exit_rec.latency_ms.unwrap() < u64::MAX); // u64: never negative
    assert!(sink.emit_log(exit_rec, Some(&span)));

    // entry- and exit-phase records carry identical correlation ids
    let entry_logged = &sink.logger.pending[0];
    let exit_logged = &sink.logger.pending[1];
    assert_eq!(entry_logged.correlated_trace_id, Some(0xabc));
    assert_eq!(entry_logged.correlated_span_id, Some(0x17));
    assert_eq!(
        entry_logged.correlated_trace_id,
        exit_logged.correlated_trace_id
    );
    assert_eq!(entry_logged.correlated_span_id, exit_logged.correlated_span_id);

    // exactly one span named "POST /users" is opened, closed once, exported
    span.close();
    assert!(span.closed);
    assert!(sink.emit_span_close(span, "axum_otel_demo::instrument", Severity::Info));
    assert_eq!(sink.tracer.pending.len(), 1);
    assert_eq!(sink.tracer.pending[0].name, "POST /users");
    assert!(sink.tracer.pending[0].closed);
}

#[test]
fn empty_body_get_produces_no_request_log_and_a_reduced_response_log() {
    let (forwarded, entry_rec) = request_phase("GET", "/", Some(Vec::new()), 1);
    assert!(forwarded.is_empty());
    assert!(entry_rec.is_none());

    let (resp_bytes, exit_rec) = response_phase("GET", "/", 200, 10, 12, Some(Vec::new()), 2);
    assert!(resp_bytes.is_empty());
    assert_eq!(exit_rec.status, Some(200));
    assert_eq!(exit_rec.latency_ms, Some(2));
    // reduced field set: no body, and no method or uri either
    assert!(exit_rec.body.is_none());
    assert!(exit_rec.method.is_none());
    assert!(exit_rec.uri.is_none());
}

#[test]
fn failed_body_read_counts_as_empty_and_never_aborts() {
    let (forwarded, entry_rec) = request_phase("PUT", "/users/1", None, 3);
    assert!(forwarded.is_empty());
    assert!(entry_rec.is_none());

    let (resp_bytes, exit_rec) = response_phase("PUT", "/users/1", 500, 7, 7, None, 4);
    assert!(resp_bytes.is_empty());
    assert_eq!(exit_rec.status, Some(500));
    assert_eq!(exit_rec.latency_ms, Some(0));
}

#[test]
fn invalid_context_leaves_identifier_fields_unset() {
    let mut span = open_request_span("GET", "/", "/");
    span.record_context(TraceContext { trace_id: 0, span_id: 9 });
    assert_eq!(span.trace_id, None);
    assert_eq!(span.span_id, None);

    // a record emitted in a span with no recorded context stays uncorrelated
    let mut sink = fresh_sink();
    let (_b, rec) = request_phase("GET", "/", Some(b"x".to_vec()), 8);
    assert!(sink.emit_log(rec.unwrap(), Some(&span)));
    assert_eq!(sink.logger.pending[0].correlated_trace_id, None);
    assert_eq!(sink.logger.pending[0].correlated_span_id, None);
}

#[test]
fn non_utf8_body_is_logged_with_replacement_characters() {
    let (forwarded, rec) = request_phase("POST", "/raw", Some(vec![0xff, 0xfe]), 9);
    // the bytes still reach the handler unchanged
    assert_eq!(forwarded, vec![0xff, 0xfe]);
    // the logged text is the lossy decoding, not the raw bytes
    assert_eq!(rec.unwrap().body.as_deref(), Some("\u{FFFD}\u{FFFD}"));
}

#[test]
fn console_line_holds_timestamp_severity_component_and_message() {
    let mut sink = fresh_sink();
    let (_b, rec) = request_phase("POST", "/users", Some(b"hi".to_vec()), 407);
    assert!(sink.emit_log(rec.unwrap(), None));
    assert_eq!(
        sink.console[0],
        "407 DEBUG axum_otel_demo::instrument: request body"
    );
}

#[test]
fn rejected_record_reaches_no_observer() {
    let mut sink = fresh_sink();
    // "pyroscope" is fully silenced by the service filter
    let rec = axum_otel_demo::record::LogRecord::event(
        1,
        Severity::Error,
        "pyroscope".to_owned(),
        "upload failed".to_owned(),
    );
    assert!(!sink.emit_log(rec, None));
    assert!(sink.logger.pending.is_empty());
    assert!(sink.console.is_empty());
}
