use vstd::prelude::*;
use vstd::string::StringExecFns;

use crate::filter::Severity;
use crate::record::LogRecord;
use crate::span::HttpSpan;
use crate::text::bytes_to_text;
use crate::text::lossy_text_of;

verus! {

/// The component name stamped on the records this middleware emits.
pub open spec fn spec_middleware_component() -> Seq<char> {
    "axum_otel_demo::instrument"@
}

fn middleware_component() -> (r: String)
    ensures
        r@ == spec_middleware_component(),
{
    "axum_otel_demo::instrument".to_owned()
}

/// The bytes a drain of the body yields: what was read, or the empty
/// sequence when the read failed mid-stream — a body-read failure is
/// absorbed, never an error.
pub open spec fn spec_recovered_body(read: Option<Vec<u8>>) -> Seq<u8> {
    match read {
        Some(b) => b@,
        None => Seq::<u8>::empty(),
    }
}

/// Step one of the request sequence: open a span named "<METHOD> <path>"
/// carrying the method, uri and route attributes, with the two identifier
/// fields still empty.
pub fn open_request_span(method: &str, uri: &str, path: &str) -> (span: HttpSpan)
    ensures
        span.name@ == method@ + " "@ + path@,
        span.method@ == method@,
        span.uri@ == uri@,
        span.route@ == path@,
        span.trace_id is None,
        span.span_id is None,
        !span.closed,
{
    let mut name = method.to_owned();
    name.append(" ");
    name.append(path);
    HttpSpan {
        name,
        method: method.to_owned(),
        uri: uri.to_owned(),
        route: path.to_owned(),
        trace_id: None,
        span_id: None,
        closed: false,
    }
}

/// What the request-phase debug record must hold: method, uri, and the raw
/// body text, and nothing else.
pub open spec fn spec_request_body_record(
    rec: LogRecord,
    method: Seq<char>,
    uri: Seq<char>,
    body: Seq<u8>,
    timestamp_ms: u64,
) -> bool {
    &&& rec.timestamp_ms == timestamp_ms
    &&& rec.severity == Severity::Debug
    &&& rec.component@ == spec_middleware_component()
    &&& rec.message@ == "request body"@
    &&& rec.method matches Some(m) && m@ == method
    &&& rec.uri matches Some(u) && u@ == uri
    &&& rec.body matches Some(b) && b@ == lossy_text_of(body)
    &&& rec.location is None
    &&& rec.status is None
    &&& rec.latency_ms is None
    &&& rec.username is None
    &&& rec.user_id is None
    &&& rec.correlated_trace_id is None
    &&& rec.correlated_span_id is None
}

/// Step three of the request sequence: the drained request body, read once,
/// is handed onward byte-identical, and a debug record carrying the body
/// text exists exactly when the body is non-empty. A failed read counts as
/// an empty body and is logged as absent.
pub fn request_phase(method: &str, uri: &str, read: Option<Vec<u8>>, timestamp_ms: u64) -> (r: (
    Vec<u8>,
    Option<LogRecord>,
))
    ensures
        r.0@ == spec_recovered_body(read),
        r.1 is Some <==> spec_recovered_body(read).len() > 0,
        r.1 matches Some(rec) ==> spec_request_body_record(
            rec,
            method@,
            uri@,
            spec_recovered_body(read),
            timestamp_ms,
        ),
{
    let bytes: Vec<u8> = match read {
        Some(b) => b,
        None => Vec::new(),
    };
    if bytes.len() == 0 {
        (bytes, None)
    } else {
        let text = bytes_to_text(&bytes);
        let rec = LogRecord {
            timestamp_ms,
            severity: Severity::Debug,
            component: middleware_component(),
            message: "request body".to_owned(),
            location: None,
            method: Some(method.to_owned()),
            uri: Some(uri.to_owned()),
            body: Some(text),
            status: None,
            latency_ms: None,
            username: None,
            user_id: None,
            correlated_trace_id: None,
            correlated_span_id: None,
        };
        (bytes, Some(rec))
    }
}

/// What the response-phase debug record must hold: always the status and
/// the measured latency; method, uri and body text exactly when the
/// response body is non-empty, and the reduced field set without them when
/// it is empty.
pub open spec fn spec_response_record(
    rec: LogRecord,
    method: Seq<char>,
    uri: Seq<char>,
    status: u16,
    latency_ms: u64,
    body: Seq<u8>,
    timestamp_ms: u64,
) -> bool {
    &&& rec.timestamp_ms == timestamp_ms
    &&& rec.severity == Severity::Debug
    &&& rec.component@ == spec_middleware_component()
    &&& rec.message@ == "response body"@
    &&& rec.status == Some(status)
    &&& rec.latency_ms == Some(latency_ms)
    &&& body.len() > 0 ==> {
        &&& rec.method matches Some(m) && m@ == method
        &&& rec.uri matches Some(u) && u@ == uri
        &&& rec.body matches Some(b) && b@ == lossy_text_of(body)
    }
    &&& body.len() == 0 ==> rec.method is None && rec.uri is None && rec.body is None
    &&& rec.location is None
    &&& rec.username is None
    &&& rec.user_id is None
    &&& rec.correlated_trace_id is None
    &&& rec.correlated_span_id is None
}

/// Step five of the request sequence: drain the response body symmetrically
/// and build the one response-phase debug record. The latency is the span
/// between the two clock readings taken around the downstream call, so it
/// is never negative; the returned bytes are exactly the drained ones.
pub fn response_phase(
    method: &str,
    uri: &str,
    status: u16,
    start_ms: u64,
    end_ms: u64,
    read: Option<Vec<u8>>,
    timestamp_ms: u64,
) -> (r: (Vec<u8>, LogRecord))
    requires
        start_ms <= end_ms,
    ensures
        r.0@ == spec_recovered_body(read),
        spec_response_record(
            r.1,
            method@,
            uri@,
            status,
            (end_ms - start_ms) as u64,
            spec_recovered_body(read),
            timestamp_ms,
        ),
{
    let latency_ms: u64 = end_ms - start_ms;
    let bytes: Vec<u8> = match read {
        Some(b) => b,
        None => Vec::new(),
    };
    let rec = if bytes.len() == 0 {
        LogRecord {
            timestamp_ms,
            severity: Severity::Debug,
            component: middleware_component(),
            message: "response body".to_owned(),
            location: None,
            method: None,
            uri: None,
            body: None,
            status: Some(status),
            latency_ms: Some(latency_ms),
            username: None,
            user_id: None,
            correlated_trace_id: None,
            correlated_span_id: None,
        }
    } else {
        let text = bytes_to_text(&bytes);
        LogRecord {
            timestamp_ms,
            severity: Severity::Debug,
            component: middleware_component(),
            message: "response body".to_owned(),
            location: None,
            method: Some(method.to_owned()),
            uri: Some(uri.to_owned()),
            body: Some(text),
            status: Some(status),
            latency_ms: Some(latency_ms),
            username: None,
            user_id: None,
            correlated_trace_id: None,
            correlated_span_id: None,
        }
    };
    (bytes, rec)
}

} // verus!
