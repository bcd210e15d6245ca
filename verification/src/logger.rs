use vstd::prelude::*;

use crate::error::TelemetryError;
use crate::record::LogRecord;
use crate::tracer::ResourceDescriptor;

verus! {

/// The log pipeline: bound to the same resource identity as the spans but
/// batching on an independent queue. `pending` holds records awaiting
/// export, `flushed` the records already handed to the collector.
pub struct LoggerHandle {
    pub resource: ResourceDescriptor,
    pub endpoint: String,
    pub pending: Vec<LogRecord>,
    pub flushed: Vec<LogRecord>,
    pub shut_down: bool,
}

/// Builds the log pipeline against `endpoint`, bound to `resource`, with
/// empty queues and still running.
pub fn init_logger(resource: ResourceDescriptor, endpoint: &str) -> (l: LoggerHandle)
    ensures
        l.resource == resource,
        l.endpoint@ == endpoint@,
        l.pending@.len() == 0,
        l.flushed@.len() == 0,
        !l.shut_down,
{
    LoggerHandle {
        resource,
        endpoint: endpoint.to_owned(),
        pending: Vec::new(),
        flushed: Vec::new(),
        shut_down: false,
    }
}

impl LoggerHandle {
    /// Flushes every pending record, then releases the pipeline. Callable
    /// at most once: a second call is rejected and changes nothing.
    pub fn shutdown(&mut self) -> (r: Result<(), TelemetryError>)
        ensures
            old(self).shut_down ==> {
                &&& r matches Err(e) && e == TelemetryError::LoggerAlreadyShutDown
                &&& *final(self) == *old(self)
            },
            !old(self).shut_down ==> {
                &&& r matches Ok(u)
                &&& final(self).shut_down
                &&& final(self).pending@.len() == 0
                &&& final(self).flushed@ == old(self).flushed@ + old(self).pending@
                &&& final(self).resource == old(self).resource
                &&& final(self).endpoint == old(self).endpoint
            },
    {
        if self.shut_down {
            Err(TelemetryError::LoggerAlreadyShutDown)
        } else {
            let mut pending: Vec<LogRecord> = Vec::new();
            core::mem::swap(&mut pending, &mut self.pending);
            self.flushed.append(&mut pending);
            self.shut_down = true;
            Ok(())
        }
    }
}

} // verus!
