use vstd::prelude::*;

use crate::error::TelemetryError;

verus! {

/// The profiler lifecycle: Ready before and between sampling runs, Running
/// while the sampler works, Terminated once its resources are released.
#[derive(Clone, Copy, PartialEq, Eq, Structural, Debug)]
pub enum AgentState {
    Ready,
    Running,
    Terminated,
}

/// The continuous CPU profiler: a background stack sampler with an explicit
/// lifecycle. Every transition out of its required order is rejected
/// explicitly — never performed silently.
pub struct ProfilingAgent {
    pub endpoint: String,
    pub app_name: String,
    pub version_tag: String,
    pub env_tag: String,
    pub sample_rate_hz: u32,
    pub state: AgentState,
    pub stopped_once: bool,
}

/// Configuration never changes after construction; only the lifecycle
/// fields move.
pub open spec fn spec_same_agent_config(a: ProfilingAgent, b: ProfilingAgent) -> bool {
    &&& a.endpoint == b.endpoint
    &&& a.app_name == b.app_name
    &&& a.version_tag == b.version_tag
    &&& a.env_tag == b.env_tag
    &&& a.sample_rate_hz == b.sample_rate_hz
}

/// Builds the profiling agent against `endpoint`, sampling at 100 Hz and
/// tagging every upload with the service version and environment. The
/// agent starts out Ready; nothing samples until `start`.
pub fn init_pyroscope(endpoint: &str, version: &str) -> (a: ProfilingAgent)
    ensures
        a.endpoint@ == endpoint@,
        a.app_name@ == "axum-otel-demo"@,
        a.version_tag@ == version@,
        a.env_tag@ == "development"@,
        a.sample_rate_hz == 100,
        a.state == AgentState::Ready,
        !a.stopped_once,
{
    ProfilingAgent {
        endpoint: endpoint.to_owned(),
        app_name: "axum-otel-demo".to_owned(),
        version_tag: version.to_owned(),
        env_tag: "development".to_owned(),
        sample_rate_hz: 100,
        state: AgentState::Ready,
        stopped_once: false,
    }
}

impl ProfilingAgent {
    /// Ready → Running: begins periodic sampling. From any other state the
    /// call is rejected and changes nothing.
    pub fn start(&mut self) -> (r: Result<(), TelemetryError>)
        ensures
            old(self).state == AgentState::Ready ==> {
                &&& r matches Ok(u)
                &&& final(self).state == AgentState::Running
                &&& final(self).stopped_once == old(self).stopped_once
                &&& spec_same_agent_config(*final(self), *old(self))
            },
            old(self).state != AgentState::Ready ==> {
                &&& r matches Err(e) && e == TelemetryError::AgentNotReady
                &&& *final(self) == *old(self)
            },
    {
        match self.state {
            AgentState::Ready => {
                self.state = AgentState::Running;
                Ok(())
            },
            _ => Err(TelemetryError::AgentNotReady),
        }
    }

    /// Running → Ready: halts sampling and drains the sample buffer. From
    /// any other state the call is rejected and changes nothing.
    pub fn stop(&mut self) -> (r: Result<(), TelemetryError>)
        ensures
            old(self).state == AgentState::Running ==> {
                &&& r matches Ok(u)
                &&& final(self).state == AgentState::Ready
                &&& final(self).stopped_once
                &&& spec_same_agent_config(*final(self), *old(self))
            },
            old(self).state != AgentState::Running ==> {
                &&& r matches Err(e) && e == TelemetryError::AgentNotRunning
                &&& *final(self) == *old(self)
            },
    {
        match self.state {
            AgentState::Running => {
                self.state = AgentState::Ready;
                self.stopped_once = true;
                Ok(())
            },
            _ => Err(TelemetryError::AgentNotRunning),
        }
    }

    /// Ready → Terminated: releases the agent's resources, valid only after
    /// at least one stop. Calling it from Running — or before the agent
    /// ever stopped — is rejected and changes nothing, so resources are
    /// never released out of order.
    pub fn shutdown(&mut self) -> (r: Result<(), TelemetryError>)
        ensures
            (old(self).state == AgentState::Ready && old(self).stopped_once) ==> {
                &&& r matches Ok(u)
                &&& final(self).state == AgentState::Terminated
                &&& final(self).stopped_once
                &&& spec_same_agent_config(*final(self), *old(self))
            },
            !(old(self).state == AgentState::Ready && old(self).stopped_once) ==> {
                &&& r matches Err(e) && e == TelemetryError::AgentNotStopped
                &&& *final(self) == *old(self)
            },
    {
        match self.state {
            AgentState::Ready => {
                if self.stopped_once {
                    self.state = AgentState::Terminated;
                    Ok(())
                } else {
                    Err(TelemetryError::AgentNotStopped)
                }
            },
            _ => Err(TelemetryError::AgentNotStopped),
        }
    }
}

} // verus!
