//! The scheduler's decision logic: each of the four periodic loops has an
//! initial delay and a cadence, and keeps a consecutive-failure counter
//! that resets on a good tick. The loops themselves — sleeping, sending,
//! spawning — run outside the library and report each tick's outcome here.

use vstd::prelude::*;
use vstd::string::*;
use crate::config::AgentConfig;
use crate::protocol::HeartbeatPayload;
use crate::text::{clone_strings, spec_strs_view};

verus! {

/// The four periodic loops.
pub enum LoopKind {
    Heartbeat,
    Metrics,
    Inventory,
    JobPoll,
}

/// The delay before a loop's first tick, in seconds.
pub fn initial_delay_sec(kind: &LoopKind) -> (r: u64)
    ensures
        kind is Heartbeat ==> r == 0,
        kind is Metrics ==> r == 5,
        kind is Inventory ==> r == 10,
        kind is JobPoll ==> r == 3,
{
    match kind {
        LoopKind::Heartbeat => 0,
        LoopKind::Metrics => 5,
        LoopKind::Inventory => 10,
        LoopKind::JobPoll => 3,
    }
}

/// The cadence of a loop under a configuration, in seconds.
pub fn cadence_sec(config: &AgentConfig, kind: &LoopKind) -> (r: u64)
    ensures
        kind is Heartbeat ==> r == config.heartbeat_interval_sec,
        kind is Metrics ==> r == config.metrics_interval_sec,
        kind is Inventory ==> r == config.inventory_interval_sec,
        kind is JobPoll ==> r == config.job_poll_interval_sec,
{
    match kind {
        LoopKind::Heartbeat => config.heartbeat_interval_sec,
        LoopKind::Metrics => config.metrics_interval_sec,
        LoopKind::Inventory => config.inventory_interval_sec,
        LoopKind::JobPoll => config.job_poll_interval_sec,
    }
}

/// Where a loop stands between ticks: idle after a good tick, in flat
/// backoff after a failed one. Either way the next tick runs; the phase is
/// observability, not behaviour.
pub enum LoopPhase {
    Idle,
    Running,
    Backoff,
}

/// One loop's observable state: its phase and how many ticks in a row
/// have failed.
pub struct LoopState {
    pub phase: LoopPhase,
    pub consecutive_failures: u64,
}

impl LoopState {
    /// A loop starts idle with no failures.
    pub fn new() -> (r: LoopState)
        ensures
            r.phase is Idle,
            r.consecutive_failures == 0,
    {
        LoopState { phase: LoopPhase::Idle, consecutive_failures: 0 }
    }

    /// A tick begins: the loop is running, the counter is untouched.
    pub fn on_tick(&mut self)
        ensures
            final(self).phase is Running,
            final(self).consecutive_failures == old(self).consecutive_failures,
    {
        self.phase = LoopPhase::Running;
    }

    /// A tick ended: a good one returns the loop to idle and clears the
    /// counter; a failed one puts it in backoff and raises the counter,
    /// saturating rather than wrapping.
    pub fn on_result(&mut self, ok: bool)
        ensures
            ok ==> final(self).phase is Idle && final(self).consecutive_failures == 0,
            !ok ==> final(self).phase is Backoff && final(self).consecutive_failures == (if old(
                self,
            ).consecutive_failures == u64::MAX {
                u64::MAX as int
            } else {
                old(self).consecutive_failures + 1
            }),
    {
        if ok {
            self.phase = LoopPhase::Idle;
            self.consecutive_failures = 0;
        } else {
            self.phase = LoopPhase::Backoff;
            if self.consecutive_failures < u64::MAX {
                self.consecutive_failures = self.consecutive_failures + 1;
            }
        }
    }
}

/// The heartbeat body: the agent reports itself online with its uptime,
/// version and advertised capabilities; no jobs are tracked across ticks.
pub fn build_heartbeat_payload(uptime_sec: u64, agent_version: &str, config: &AgentConfig) -> (r:
    HeartbeatPayload)
    ensures
        r.status@ == "online"@,
        r.uptime_sec == uptime_sec,
        r.agent_version@ == agent_version@,
        r.active_jobs@.len() == 0,
        spec_strs_view(r.capabilities@) == spec_strs_view(config.capabilities@),
{
    HeartbeatPayload {
        status: "online".to_owned(),
        uptime_sec,
        agent_version: agent_version.to_owned(),
        active_jobs: Vec::new(),
        capabilities: clone_strings(&config.capabilities),
    }
}

} // verus!
