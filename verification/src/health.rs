//! What the runtime reports about a container, and what that means for a
//! container that is waited on.

use vstd::prelude::*;

verus! {

/// Time between two inspections, in milliseconds.
pub const POLL_INTERVAL_MS: u64 = 1000;

/// Time after which a container that is not healthy is given up, in
/// milliseconds since it was started.
pub const HEALTH_TIMEOUT_MS: u64 = 30000;

/// Run state of a container, in the runtime's vocabulary.
#[derive(Clone, Copy, Debug, PartialEq, Eq, Structural)]
pub enum RunState {
    Empty,
    Created,
    Running,
    Paused,
    Restarting,
    Removing,
    Exited,
    Dead,
}

/// State of a container's declared health check, in the runtime's vocabulary.
#[derive(Clone, Copy, Debug, PartialEq, Eq, Structural)]
pub enum HealthState {
    Empty,
    /// The container declares no health check.
    Absent,
    Starting,
    Healthy,
    Unhealthy,
}

/// One answer of the runtime's inspection. A field is `None` where the
/// runtime left it out.
#[derive(Clone, Copy, Debug)]
pub struct Inspection {
    pub run_state: Option<RunState>,
    pub health: Option<HealthState>,
}

/// What an inspection means for the wait.
#[derive(Clone, Copy, Debug, PartialEq, Eq, Structural)]
pub enum HealthVerdict {
    /// Running and healthy: the wait is over.
    Ready,
    /// Exited or dead: the container will not become healthy.
    Gone,
    /// Anything else: ask again later.
    NotYet,
}

impl Inspection {
    /// Ready takes a running container whose health check reports healthy.
    /// Gone takes run state exited or dead, whatever the health check says.
    pub open spec fn spec_verdict(self) -> HealthVerdict {
        match self.run_state {
            Some(RunState::Running) => match self.health {
                Some(HealthState::Healthy) => HealthVerdict::Ready,
                _ => HealthVerdict::NotYet,
            },
            Some(RunState::Exited) => HealthVerdict::Gone,
            Some(RunState::Dead) => HealthVerdict::Gone,
            _ => HealthVerdict::NotYet,
        }
    }

    pub fn verdict(&self) -> (verdict: HealthVerdict)
        ensures
            verdict == self.spec_verdict(),
    {
        match self.run_state {
            Some(RunState::Running) => match self.health {
                Some(HealthState::Healthy) => HealthVerdict::Ready,
                _ => HealthVerdict::NotYet,
            },
            Some(RunState::Exited) => HealthVerdict::Gone,
            Some(RunState::Dead) => HealthVerdict::Gone,
            _ => HealthVerdict::NotYet,
        }
    }
}

/// How many more inspections fit before the deadline when `elapsed_ms` have
/// passed and each wait lasts at least one interval.
pub open spec fn polls_left(elapsed_ms: u64) -> nat {
    if elapsed_ms >= HEALTH_TIMEOUT_MS {
        0
    } else {
        ((HEALTH_TIMEOUT_MS - elapsed_ms + POLL_INTERVAL_MS - 1) / (POLL_INTERVAL_MS as int)) as nat
    }
}

/// A verdict is Ready exactly for a running, healthy container.
pub proof fn lemma_ready_iff_running_and_healthy(report: Inspection)
    ensures
        report.spec_verdict() == HealthVerdict::Ready <==> (report.run_state == Some(
            RunState::Running,
        ) && report.health == Some(HealthState::Healthy)),
        report.spec_verdict() == HealthVerdict::Gone <==> (report.run_state == Some(
            RunState::Exited,
        ) || report.run_state == Some(RunState::Dead)),
{
}

} // verus!
