use vstd::prelude::*;

use crate::config::AppConfig;
use crate::error::TelemetryError;
use crate::filter::FilterRules;
use crate::filter::LevelFilter;
use crate::filter::Severity;
use crate::logger::init_logger;
use crate::profiling::AgentState;
use crate::profiling::ProfilingAgent;
use crate::profiling::init_pyroscope;
use crate::profiling::spec_same_agent_config;
use crate::sink::SinkSlot;
use crate::sink::TelemetrySink;
use crate::tracer::create_resource;
use crate::tracer::init_tracer;
use crate::tracer::spec_same_resource;

verus! {

/// The filter the service runs with: INFO by default, DEBUG for the
/// application itself, the routing layer and the data-access layer, and
/// the known-noisy bridging and profiling components fully silenced.
pub open spec fn spec_default_rules(f: FilterRules) -> bool {
    &&& f.default_level == LevelFilter::Level(Severity::Info)
    &&& f.overrides@.len() == 7
    &&& f.overrides@[0].0@ == "axum_otel_demo"@ && f.overrides@[0].1 == LevelFilter::Level(
        Severity::Debug,
    )
    &&& f.overrides@[1].0@ == "tower_http"@ && f.overrides@[1].1 == LevelFilter::Level(
        Severity::Debug,
    )
    &&& f.overrides@[2].0@ == "sea_orm"@ && f.overrides@[2].1 == LevelFilter::Level(
        Severity::Debug,
    )
    &&& f.overrides@[3].0@ == "pyroscope"@ && f.overrides@[3].1 == LevelFilter::Off
    &&& f.overrides@[4].0@ == "pyroscope_pprofrs"@ && f.overrides@[4].1 == LevelFilter::Off
    &&& f.overrides@[5].0@ == "Pyroscope"@ && f.overrides@[5].1 == LevelFilter::Off
    &&& f.overrides@[6].0@ == "log"@ && f.overrides@[6].1 == LevelFilter::Off
}

/// Builds that filter.
pub fn default_filter_rules() -> (f: FilterRules)
    ensures
        spec_default_rules(f),
{
    FilterRules::new(LevelFilter::Level(Severity::Info)).with_target(
        "axum_otel_demo".to_owned(),
        LevelFilter::Level(Severity::Debug),
    ).with_target("tower_http".to_owned(), LevelFilter::Level(Severity::Debug)).with_target(
        "sea_orm".to_owned(),
        LevelFilter::Level(Severity::Debug),
    ).with_target("pyroscope".to_owned(), LevelFilter::Off).with_target(
        "pyroscope_pprofrs".to_owned(),
        LevelFilter::Off,
    ).with_target("Pyroscope".to_owned(), LevelFilter::Off).with_target(
        "log".to_owned(),
        LevelFilter::Off,
    )
}

/// Owns what must be torn down at exit: the running profiler and, through
/// the sink it is handed at shutdown, the log pipeline. Consumable once.
pub struct TelemetryGuard {
    pub pyroscope_agent: ProfilingAgent,
    pub used: bool,
}

impl TelemetryGuard {
    /// A guard that has not been spent still holds a running profiler.
    pub open spec fn wf(&self) -> bool {
        !self.used ==> self.pyroscope_agent.state == AgentState::Running
    }

    /// Ordered, single-use teardown. Step one stops the profiler and then
    /// releases it; step two flushes and shuts down the log pipeline. A
    /// failure at either step is reported aside and never aborts the other
    /// step. A second call is rejected as misuse and releases nothing
    /// twice. The span pipeline is deliberately not drained here.
    pub fn shutdown(&mut self, sink: &mut TelemetrySink) -> (r: Result<(), TelemetryError>)
        requires
            old(self).wf(),
        ensures
            final(self).wf(),
            old(self).used ==> {
                &&& r matches Err(e) && e == TelemetryError::GuardAlreadyShutDown
                &&& *final(self) == *old(self)
                &&& *final(sink) == *old(sink)
            },
            !old(self).used ==> {
                &&& r matches Ok(u)
                &&& final(self).used
                &&& final(self).pyroscope_agent.state == AgentState::Terminated
                &&& final(self).pyroscope_agent.stopped_once
                &&& spec_same_agent_config(final(self).pyroscope_agent, old(self).pyroscope_agent)
                &&& final(sink).filter == old(sink).filter
                &&& final(sink).tracer == old(sink).tracer
                &&& final(sink).console@ == old(sink).console@
                &&& (if old(sink).logger.shut_down {
                    final(sink).logger == old(sink).logger
                } else {
                    &&& final(sink).logger.shut_down
                    &&& final(sink).logger.pending@.len() == 0
                    &&& final(sink).logger.flushed@ == old(sink).logger.flushed@
                        + old(sink).logger.pending@
                    &&& final(sink).logger.resource == old(sink).logger.resource
                    &&& final(sink).logger.endpoint == old(sink).logger.endpoint
                })
            },
    {
        if self.used {
            return Err(TelemetryError::GuardAlreadyShutDown);
        }
        let _stopped = self.pyroscope_agent.stop();
        let _released = self.pyroscope_agent.shutdown();
        let _flushed = sink.logger.shutdown();
        self.used = true;
        Ok(())
    }
}

/// Everything `init_telemetry` promises of a freshly initialized pipeline:
/// the default filter installed; span and log pipelines bound to one shared
/// resource identity and to the configured collector endpoint, idle and
/// running; the profiler running against the configured profiling endpoint
/// at 100 Hz with its version and environment tags; and an unspent guard.
pub open spec fn spec_initialized(
    sink: TelemetrySink,
    guard: TelemetryGuard,
    config: AppConfig,
    service_name: Seq<char>,
    service_version: Seq<char>,
) -> bool {
    &&& spec_default_rules(sink.filter)
    &&& sink.tracer.resource.service_name@ == service_name
    &&& sink.tracer.resource.service_version@ == service_version
    &&& spec_same_resource(sink.tracer.resource, sink.logger.resource)
    &&& sink.tracer.endpoint@ == config.otel_endpoint@
    &&& sink.logger.endpoint@ == config.otel_endpoint@
    &&& sink.tracer.pending@.len() == 0
    &&& sink.logger.pending@.len() == 0
    &&& sink.logger.flushed@.len() == 0
    &&& !sink.logger.shut_down
    &&& sink.console@.len() == 0
    &&& guard.pyroscope_agent.endpoint@ == config.pyroscope_endpoint@
    &&& guard.pyroscope_agent.app_name@ == "axum-otel-demo"@
    &&& guard.pyroscope_agent.version_tag@ == service_version
    &&& guard.pyroscope_agent.env_tag@ == "development"@
    &&& guard.pyroscope_agent.sample_rate_hz == 100
    &&& guard.pyroscope_agent.state == AgentState::Running
    &&& !guard.pyroscope_agent.stopped_once
    &&& !guard.used
    &&& guard.wf()
}

/// Initializes the whole observability pipeline from one configuration:
/// builds the shared resource identity, the span and log pipelines against
/// the collector endpoint, starts the profiler, composes the filter and
/// the sink, and installs the sink into the slot — exactly once per slot.
pub fn init_telemetry(
    config: &AppConfig,
    service_name: &str,
    service_version: &str,
    slot: &mut SinkSlot,
) -> (r: Result<(TelemetrySink, TelemetryGuard), TelemetryError>)
    ensures
        old(slot).installed ==> {
            &&& r matches Err(e) && e == TelemetryError::SinkAlreadyInstalled
            &&& *final(slot) == *old(slot)
        },
        !old(slot).installed ==> {
            &&& final(slot).installed
            &&& r matches Ok(p) && spec_initialized(
                p.0,
                p.1,
                *config,
                service_name@,
                service_version@,
            )
        },
    {
        if slot.installed {
            return Err(TelemetryError::SinkAlreadyInstalled);
        }
        let resource = create_resource(service_name, service_version);
        let logger_resource = resource.duplicate();
        let otel_tracer = init_tracer(resource, config.otel_endpoint.as_str());
        let logger_provider = init_logger(logger_resource, config.otel_endpoint.as_str());
        let mut agent = init_pyroscope(config.pyroscope_endpoint.as_str(), service_version);
        match agent.start() {
            Ok(_) => {},
            Err(e) => {
                // unreachable: the agent was just built Ready
                proof {
                    assert(false);
                }
                return Err(e);
            },
        }
        let filter = default_filter_rules();
        match TelemetrySink::install(slot, filter, otel_tracer, logger_provider) {
            Ok(sink) => Ok((sink, TelemetryGuard { pyroscope_agent: agent, used: false })),
            Err(e) => {
                // unreachable: the slot was checked free above
                proof {
                    assert(false);
                }
                Err(e)
            },
        }
    }

} // verus!
