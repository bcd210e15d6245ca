use vstd::prelude::*;

use crate::error::TelemetryError;
use crate::filter::FilterRules;
use crate::filter::Severity;
use crate::filter::spec_enabled;
use crate::logger::LoggerHandle;
use crate::record::LogRecord;
use crate::record::format_console_line;
use crate::record::spec_console_line;
use crate::record::spec_correlate;
use crate::span::HttpSpan;
use crate::tracer::Tracer;

verus! {

/// The process's one event sink: the severity filter in front of the
/// tracing bridge, the logging bridge and the console formatter, built
/// explicitly once at startup and handed by reference to everything that
/// emits.
pub struct TelemetrySink {
    pub filter: FilterRules,
    pub tracer: Tracer,
    pub logger: LoggerHandle,
    pub console: Vec<String>,
}

/// The single place a sink may be installed into. One per process; a
/// second installation is rejected.
pub struct SinkSlot {
    pub installed: bool,
}

impl SinkSlot {
    pub fn new() -> (r: SinkSlot)
        ensures
            !r.installed,
    {
        SinkSlot { installed: false }
    }
}

impl TelemetrySink {
    /// Composes the sink from its four observers' pieces and installs it
    /// into the slot. Exactly one installation per slot ever succeeds.
    pub fn install(slot: &mut SinkSlot, filter: FilterRules, tracer: Tracer, logger: LoggerHandle)
        -> (r: Result<TelemetrySink, TelemetryError>)
        ensures
            old(slot).installed ==> {
                &&& r matches Err(e) && e == TelemetryError::SinkAlreadyInstalled
                &&& *final(slot) == *old(slot)
            },
            !old(slot).installed ==> {
                &&& final(slot).installed
                &&& r matches Ok(s) && s.filter == filter && s.tracer == tracer && s.logger
                    == logger && s.console@.len() == 0
            },
    {
        if slot.installed {
            Err(TelemetryError::SinkAlreadyInstalled)
        } else {
            slot.installed = true;
            Ok(TelemetrySink { filter, tracer, logger, console: Vec::new() })
        }
    }

    /// Runs the observers in their fixed order for one log record. The
    /// filter goes first: a rejected record reaches no observer at all. An
    /// accepted record is correlated against the current span, queued on
    /// the log pipeline (unless that pipeline is already shut down, in
    /// which case it is dropped silently), and formatted onto the console.
    /// Returns whether the filter accepted the record.
    pub fn emit_log(&mut self, rec: LogRecord, current_span: Option<&HttpSpan>) -> (accepted: bool)
        ensures
            accepted == spec_enabled(old(self).filter, rec.component@, rec.severity),
            final(self).filter == old(self).filter,
            final(self).tracer == old(self).tracer,
            !accepted ==> final(self).logger == old(self).logger
                && final(self).console@ == old(self).console@,
            accepted ==> {
                let forwarded = (match current_span {
                    Some(s) => spec_correlate(rec, *s),
                    None => rec,
                });
                &&& (if old(self).logger.shut_down {
                    final(self).logger == old(self).logger
                } else {
                    &&& final(self).logger.pending@ == old(self).logger.pending@.push(forwarded)
                    &&& final(self).logger.flushed@ == old(self).logger.flushed@
                    &&& !final(self).logger.shut_down
                    &&& final(self).logger.resource == old(self).logger.resource
                    &&& final(self).logger.endpoint == old(self).logger.endpoint
                })
                &&& final(self).console@.len() == old(self).console@.len() + 1
                &&& (forall|k: int| 0 <= k < old(self).console@.len()
                    ==> final(self).console@[k] == old(self).console@[k])
                &&& final(self).console@.last()@ == spec_console_line(forwarded)
            },
    {
        let accepted = self.filter.enabled(rec.component.as_str(), rec.severity);
        if !accepted {
            return false;
        }
        let forwarded = match current_span {
            Some(s) => rec.correlate(s),
            None => rec,
        };
        let line = format_console_line(&forwarded);
        if !self.logger.shut_down {
            self.logger.pending.push(forwarded);
        }
        self.console.push(line);
        true
    }

    /// The tracing bridge: forwards one closed span to the span pipeline's
    /// batch queue, after the same severity filter. Returns whether the
    /// filter accepted the span's event.
    pub fn emit_span_close(
        &mut self,
        span: HttpSpan,
        component: &str,
        severity: Severity,
    ) -> (accepted: bool)
        requires
            span.closed,
        ensures
            accepted == spec_enabled(old(self).filter, component@, severity),
            final(self).filter == old(self).filter,
            final(self).logger == old(self).logger,
            final(self).console@ == old(self).console@,
            !accepted ==> final(self).tracer == old(self).tracer,
            accepted ==> {
                &&& final(self).tracer.pending@ == old(self).tracer.pending@.push(span)
                &&& final(self).tracer.resource == old(self).tracer.resource
                &&& final(self).tracer.endpoint == old(self).tracer.endpoint
            },
    {
        let accepted = self.filter.enabled(component, severity);
        if accepted {
            self.tracer.pending.push(span);
        }
        accepted
    }
}

} // verus!
