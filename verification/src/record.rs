use vstd::prelude::*;
use vstd::string::StringExecFns;

use crate::filter::Severity;
use crate::span::HttpSpan;
use crate::text::spec_decimal;
use crate::text::u64_to_string;

verus! {

/// One structured log record: timestamp, severity, the emitting component,
/// a message, the typed fields this service ever attaches, and the two
/// correlation fields that link the record to the span it was emitted in.
pub struct LogRecord {
    pub timestamp_ms: u64,
    pub severity: Severity,
    pub component: String,
    pub message: String,
    pub location: Option<String>,
    pub method: Option<String>,
    pub uri: Option<String>,
    pub body: Option<String>,
    pub status: Option<u16>,
    pub latency_ms: Option<u64>,
    pub username: Option<String>,
    pub user_id: Option<i32>,
    pub correlated_trace_id: Option<u128>,
    pub correlated_span_id: Option<u64>,
}

/// The record as the logging bridge forwards it: when the current span is
/// open and carries a valid recorded context, its identifiers are copied
/// onto the record; otherwise the record passes through unchanged.
pub open spec fn spec_correlate(rec: LogRecord, span: HttpSpan) -> LogRecord {
    if !span.closed && span.trace_id is Some && span.span_id is Some {
        LogRecord { correlated_trace_id: span.trace_id, correlated_span_id: span.span_id, ..rec }
    } else {
        rec
    }
}

impl LogRecord {
    /// A plain event record: everything optional is absent.
    pub fn event(timestamp_ms: u64, severity: Severity, component: String, message: String) -> (r:
        LogRecord)
        ensures
            r.timestamp_ms == timestamp_ms,
            r.severity == severity,
            r.component == component,
            r.message == message,
            r.location is None,
            r.method is None,
            r.uri is None,
            r.body is None,
            r.status is None,
            r.latency_ms is None,
            r.username is None,
            r.user_id is None,
            r.correlated_trace_id is None,
            r.correlated_span_id is None,
    {
        LogRecord {
            timestamp_ms,
            severity,
            component,
            message,
            location: None,
            method: None,
            uri: None,
            body: None,
            status: None,
            latency_ms: None,
            username: None,
            user_id: None,
            correlated_trace_id: None,
            correlated_span_id: None,
        }
    }

    /// Copies the span's identifiers onto the record when the span is open
    /// and its context was recorded; otherwise returns the record unchanged.
    pub fn correlate(self, span: &HttpSpan) -> (r: LogRecord)
        ensures
            r == spec_correlate(self, *span),
    {
        if !span.closed {
            match (span.trace_id, span.span_id) {
                (Some(t), Some(s)) => LogRecord {
                    correlated_trace_id: Some(t),
                    correlated_span_id: Some(s),
                    ..self
                },
                _ => self,
            }
        } else {
            self
        }
    }
}

/// For any two records emitted inside one open span with a recorded context
/// — such as the entry-phase and exit-phase logs of a single request — the
/// bridge stamps identical trace and span identifiers on both, and they are
/// exactly the span's own.
pub proof fn lemma_correlation_consistent(span: HttpSpan, entry: LogRecord, exit: LogRecord)
    requires
        !span.closed,
        span.trace_id is Some,
        span.span_id is Some,
    ensures
        spec_correlate(entry, span).correlated_trace_id == spec_correlate(
            exit,
            span,
        ).correlated_trace_id,
        spec_correlate(entry, span).correlated_span_id == spec_correlate(
            exit,
            span,
        ).correlated_span_id,
        spec_correlate(entry, span).correlated_trace_id == span.trace_id,
        spec_correlate(entry, span).correlated_span_id == span.span_id,
{
}

/// The severity's display name.
pub open spec fn spec_severity_name(s: Severity) -> Seq<char> {
    match s {
        Severity::Trace => "TRACE"@,
        Severity::Debug => "DEBUG"@,
        Severity::Info => "INFO"@,
        Severity::Warn => "WARN"@,
        Severity::Error => "ERROR"@,
    }
}

pub fn severity_name(s: Severity) -> (r: &'static str)
    ensures
        r@ == spec_severity_name(s),
{
    match s {
        Severity::Trace => "TRACE",
        Severity::Debug => "DEBUG",
        Severity::Info => "INFO",
        Severity::Warn => "WARN",
        Severity::Error => "ERROR",
    }
}

/// The one human-readable console line for a record: timestamp, severity,
/// source location when known, component and message. For operators' eyes,
/// not for machine parsing.
pub open spec fn spec_console_line(rec: LogRecord) -> Seq<char> {
    spec_decimal(rec.timestamp_ms as nat) + " "@ + spec_severity_name(rec.severity) + " "@ + (
    match rec.location {
        Some(l) => l@ + " "@,
        None => Seq::<char>::empty(),
    }) + rec.component@ + ": "@ + rec.message@
}

/// Formats the console line for `rec`.
pub fn format_console_line(rec: &LogRecord) -> (r: String)
    ensures
        r@ == spec_console_line(*rec),
{
    let mut line = u64_to_string(rec.timestamp_ms);
    line.append(" ");
    line.append(severity_name(rec.severity));
    line.append(" ");
    match &rec.location {
        Some(l) => {
            line.append(l.as_str());
            line.append(" ");
        },
        None => {},
    }
    line.append(rec.component.as_str());
    line.append(": ");
    line.append(rec.message.as_str());
    line
}

} // verus!
