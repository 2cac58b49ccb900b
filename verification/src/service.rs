//! The per-service runtime record and its state machine: liveness
//! observations, health-probe bookkeeping, restart accounting, and the
//! graceful-stop protocol. Every executable transition has its effect
//! pinned by a specification-level transition function, and the composite
//! effect of one supervision tick is `service_tick`.

use vstd::prelude::*;

verus! {

use vstd::utf8::encode_utf8;
use crate::config::ServiceConfig;
use crate::policy::{RestartPolicy, policy_of, should_restart_spec};

/// Current node of the service state machine.
#[derive(Debug, Clone, Copy, PartialEq, Eq, Structural)]
pub enum ServiceStatus {
    Running,
    Stopped,
    Failed,
    Starting,
    Stopping,
    Unhealthy,
}

/// One health-check definition in the supervisor's working units: the probe
/// command, its cadence and allowance in milliseconds, and the
/// consecutive-failure budget.
#[derive(Debug, Clone)]
pub struct HealthCheck {
    pub command: String,
    pub interval_ms: u64,
    pub timeout_ms: u64,
    pub retries: u32,
}

/// Milliseconds in a number of whole seconds, saturating at `u64::MAX`.
pub open spec fn secs_to_ms(s: u64) -> u64 {
    if s * 1000 > u64::MAX {
        u64::MAX
    } else {
        (s * 1000) as u64
    }
}

/// Executable form of `secs_to_ms`.
pub fn secs_to_ms_exec(s: u64) -> (r: u64)
    ensures
        r == secs_to_ms(s),
{
    match s.checked_mul(1000) {
        Some(v) => v,
        None => u64::MAX,
    }
}

/// Mutable runtime record for one configured service, owned exclusively by
/// the supervisor.
#[derive(Debug, Clone)]
pub struct ServiceState {
    pub config: ServiceConfig,
    pub pid: Option<u32>,
    pub status: ServiceStatus,
    pub restart_count: u32,
    pub last_restart: Option<u64>,
    pub last_health_check: Option<u64>,
    pub health_failures: u32,
    pub restart_policy: RestartPolicy,
    pub health_check: Option<HealthCheck>,
}

impl ServiceState {
    /// The retry budget of the service's health check, if it has one.
    pub open spec fn spec_retries(self) -> u32 {
        match self.health_check {
            Some(h) => h.retries,
            None => 0,
        }
    }

    /// The minimum delay between a restart decision and the next spawn, in
    /// milliseconds.
    pub open spec fn spec_delay_ms(self) -> u64 {
        secs_to_ms(self.config.restart_delay_secs)
    }

    /// Structural soundness of one runtime record: a pid is recorded exactly
    /// while the supervisor believes a child is alive (never for a `Stopped`
    /// or `Failed` service), and the derived policy and health-check fields
    /// agree with the configuration they came from.
    pub open spec fn wf(self) -> bool {
        &&& (self.pid is None <==> (self.status == ServiceStatus::Stopped || self.status
            == ServiceStatus::Failed))
        &&& self.restart_policy == policy_of(encode_utf8(self.config.restart_policy@))
        &&& match (self.health_check, self.config.health_check) {
            (None, None) => true,
            (Some(h), Some(hc)) => h.command@ == hc.command@ && h.interval_ms == secs_to_ms(
                hc.interval_secs,
            ) && h.timeout_ms == secs_to_ms(hc.timeout_secs) && h.retries == hc.retries,
            _ => false,
        }
    }

    /// The record a freshly loaded configuration starts from: `Stopped`, no
    /// pid, all counters at zero, the policy parsed from the configuration.
    pub open spec fn initial_spec(config: ServiceConfig) -> ServiceState {
        ServiceState {
            pid: None,
            status: ServiceStatus::Stopped,
            restart_count: 0,
            last_restart: None,
            last_health_check: None,
            health_failures: 0,
            restart_policy: policy_of(encode_utf8(config.restart_policy@)),
            health_check: match config.health_check {
                None => None,
                Some(hc) => Some(
                    HealthCheck {
                        command: hc.command,
                        interval_ms: secs_to_ms(hc.interval_secs),
                        timeout_ms: secs_to_ms(hc.timeout_secs),
                        retries: hc.retries,
                    },
                ),
            },
            config,
        }
    }

    /// Builds the initial runtime record for one configuration.
    pub fn initial(config: ServiceConfig) -> (s: ServiceState)
        ensures
            s == ServiceState::initial_spec(config),
            s.wf(),
    {
        let health_check = match &config.health_check {
            None => None,
            Some(hc) => Some(
                HealthCheck {
                    command: hc.command.clone(),
                    interval_ms: secs_to_ms_exec(hc.interval_secs),
                    timeout_ms: secs_to_ms_exec(hc.timeout_secs),
                    retries: hc.retries,
                },
            ),
        };
        let restart_policy = RestartPolicy::from_str(config.restart_policy.as_str());
        ServiceState {
            pid: None,
            status: ServiceStatus::Stopped,
            restart_count: 0,
            last_restart: None,
            last_health_check: None,
            health_failures: 0,
            restart_policy,
            health_check,
            config,
        }
    }
}

/// Effect of one liveness observation: a service whose recorded process no
/// longer exists loses its pid and becomes `Failed`; otherwise nothing
/// changes.
pub open spec fn after_liveness(s: ServiceState, alive: bool) -> ServiceState {
    if s.pid is Some && !alive {
        ServiceState { pid: None, status: ServiceStatus::Failed, ..s }
    } else {
        s
    }
}

/// Whether a health probe is due: only `Running` services with a health
/// check are probed, the first probe is always due, and later ones once the
/// configured interval has elapsed since the last invocation.
pub open spec fn probe_due_spec(s: ServiceState, now: u64) -> bool {
    match s.health_check {
        None => false,
        Some(h) => s.status == ServiceStatus::Running && match s.last_health_check {
            None => true,
            Some(t) => now >= t.saturating_add(h.interval_ms),
        },
    }
}

/// Effect of scheduling a probe: the invocation time is stamped before the
/// probe runs, so cadence is fixed by wall clock, not by probe duration.
pub open spec fn after_scheduled(s: ServiceState, now: u64) -> ServiceState {
    ServiceState { last_health_check: Some(now), ..s }
}

/// Effect of one probe outcome: success clears the consecutive-failure
/// counter and brings an `Unhealthy` service back to `Running`; failure
/// increments the counter and marks the service `Unhealthy` once the
/// counter reaches the retry budget.
pub open spec fn after_probe(s: ServiceState, success: bool) -> ServiceState {
    if success {
        if s.status == ServiceStatus::Unhealthy {
            ServiceState { health_failures: 0, status: ServiceStatus::Running, ..s }
        } else {
            ServiceState { health_failures: 0, ..s }
        }
    } else {
        let hf = s.health_failures.saturating_add(1);
        if hf >= s.spec_retries() {
            ServiceState { health_failures: hf, status: ServiceStatus::Unhealthy, ..s }
        } else {
            ServiceState { health_failures: hf, ..s }
        }
    }
}

/// The earliest moment a restart-driven spawn may happen: immediately if
/// the service was never restarted, otherwise no sooner than the configured
/// delay after the previous restart.
pub open spec fn spawn_time_spec(s: ServiceState, now: u64) -> u64 {
    match s.last_restart {
        None => now,
        Some(t) => {
            let earliest = t.saturating_add(s.spec_delay_ms());
            if now >= earliest {
                now
            } else {
                earliest
            }
        },
    }
}

/// Effect of deciding to restart: the attempt is counted and the spawn time
/// stamped, before the spawn itself is attempted.
pub open spec fn after_restart_stamp(s: ServiceState, spawn_time: u64) -> ServiceState {
    ServiceState {
        restart_count: s.restart_count.saturating_add(1),
        last_restart: Some(spawn_time),
        ..s
    }
}

/// Effect of one spawn attempt: on success the new pid is recorded and the
/// service is `Running`; on failure the record is left exactly as it was,
/// so the caller observes the pre-attempt status.
pub open spec fn after_spawn(s: ServiceState, outcome: Option<u32>) -> ServiceState {
    match outcome {
        Some(p) => ServiceState { pid: Some(p), status: ServiceStatus::Running, ..s },
        None => s,
    }
}

/// Composite effect of a restart: count and stamp, then apply the spawn
/// outcome.
pub open spec fn after_restart(s: ServiceState, now: u64, outcome: Option<u32>) -> ServiceState {
    after_spawn(after_restart_stamp(s, spawn_time_spec(s, now)), outcome)
}

/// What one supervision tick feeds a single service: the tick's clock
/// reading and, where the tick needs them, the liveness answer for the
/// recorded pid, the probe outcome, and the spawn outcome.
#[derive(Debug, Clone, Copy)]
pub struct TickInput {
    pub now: u64,
    pub alive: bool,
    pub probe_ok: bool,
    pub spawn: Option<u32>,
}

/// Composite effect of one supervision tick on a single service: a dead
/// process makes it `Failed` and, if the restart policy approves, a delayed
/// restart follows in the same tick; otherwise a due health probe is
/// scheduled and applied; otherwise nothing changes.
pub open spec fn service_tick(s: ServiceState, inp: TickInput) -> ServiceState {
    if s.pid is Some && !inp.alive {
        let f = after_liveness(s, false);
        if should_restart_spec(f.restart_policy, f.status, f.restart_count, f.config.max_restarts) {
            after_restart(f, inp.now, inp.spawn)
        } else {
            f
        }
    } else if probe_due_spec(s, inp.now) {
        after_probe(after_scheduled(s, inp.now), inp.probe_ok)
    } else {
        s
    }
}

/// The pid the graceful-stop protocol asks to terminate: the recorded
/// process, if there is one.
pub open spec fn terminate_order(s: ServiceState) -> Option<u32> {
    s.pid
}

/// The pid the graceful-stop protocol kills forcefully: only a recorded
/// process that is still alive once the grace window has passed.
pub open spec fn kill_order(s: ServiceState, still_alive: bool) -> Option<u32> {
    if s.pid is Some && still_alive {
        s.pid
    } else {
        None
    }
}

impl ServiceState {
    /// Records one liveness observation for the service's pid.
    pub fn observe_liveness(&mut self, alive: bool)
        ensures
            *final(self) == after_liveness(*old(self), alive),
    {
        if self.pid.is_some() && !alive {
            self.pid = None;
            self.status = ServiceStatus::Failed;
        }
    }

    /// Whether this service's health probe is due at `now`.
    pub fn probe_due(&self, now: u64) -> (r: bool)
        ensures
            r == probe_due_spec(*self, now),
    {
        match &self.health_check {
            None => false,
            Some(h) => self.status == ServiceStatus::Running && match self.last_health_check {
                None => true,
                Some(t) => now >= t.saturating_add(h.interval_ms),
            },
        }
    }

    /// Stamps the probe invocation time.
    pub fn mark_probe_scheduled(&mut self, now: u64)
        ensures
            *final(self) == after_scheduled(*old(self), now),
    {
        self.last_health_check = Some(now);
    }

    /// Applies one probe outcome to a probed (hence running or unhealthy)
    /// service.
    pub fn apply_probe_result(&mut self, success: bool)
        requires
            old(self).status == ServiceStatus::Running || old(self).status
                == ServiceStatus::Unhealthy,
            old(self).health_check is Some,
        ensures
            *final(self) == after_probe(*old(self), success),
    {
        if success {
            self.health_failures = 0;
            if self.status == ServiceStatus::Unhealthy {
                self.status = ServiceStatus::Running;
            }
        } else {
            self.health_failures = self.health_failures.saturating_add(1);
            let retries = match &self.health_check {
                Some(h) => h.retries,
                None => 0,
            };
            if self.health_failures >= retries {
                self.status = ServiceStatus::Unhealthy;
            }
        }
    }

    /// The earliest moment a restart-driven spawn may happen, per
    /// `spawn_time_spec`.
    pub fn spawn_time(&self, now: u64) -> (r: u64)
        ensures
            r == spawn_time_spec(*self, now),
            r >= now,
    {
        match self.last_restart {
            None => now,
            Some(t) => {
                let earliest = t.saturating_add(secs_to_ms_exec(self.config.restart_delay_secs));
                if now >= earliest {
                    now
                } else {
                    earliest
                }
            },
        }
    }

    /// Counts a restart attempt and stamps its spawn time.
    pub fn record_restart(&mut self, spawn_time: u64)
        ensures
            *final(self) == after_restart_stamp(*old(self), spawn_time),
    {
        self.restart_count = self.restart_count.saturating_add(1);
        self.last_restart = Some(spawn_time);
    }

    /// Applies one spawn attempt's outcome.
    pub fn apply_spawn_outcome(&mut self, outcome: Option<u32>)
        ensures
            *final(self) == after_spawn(*old(self), outcome),
    {
        match outcome {
            Some(p) => {
                self.pid = Some(p);
                self.status = ServiceStatus::Running;
            },
            None => {},
        }
    }

    /// Begins a graceful stop: if a process is recorded, the service enters
    /// `Stopping` and the caller is told which pid to send the terminate
    /// signal to; a service without a process is left untouched.
    pub fn begin_stop(&mut self) -> (r: Option<u32>)
        ensures
            r == old(self).pid,
            r == terminate_order(*old(self)),
            *final(self) == (if old(self).pid is Some {
                (ServiceState { status: ServiceStatus::Stopping, ..*old(self) })
            } else {
                *old(self)
            }),
    {
        match self.pid {
            Some(p) => {
                self.status = ServiceStatus::Stopping;
                Some(p)
            },
            None => None,
        }
    }

    /// Ends a graceful stop after the grace window: the caller reports
    /// whether the process is still alive and is told which pid, if any, to
    /// kill forcefully; the service ends `Stopped` with no pid either way.
    pub fn finish_stop(&mut self, still_alive: bool) -> (kill: Option<u32>)
        requires
            old(self).status == ServiceStatus::Stopping,
        ensures
            kill == (if still_alive {
                old(self).pid
            } else {
                None::<u32>
            }),
            kill == kill_order(*old(self), still_alive),
            *final(self) == (ServiceState {
                pid: None,
                status: ServiceStatus::Stopped,
                ..*old(self)
            }),
    {
        let kill = if still_alive {
            self.pid
        } else {
            None
        };
        self.pid = None;
        self.status = ServiceStatus::Stopped;
        kill
    }
}

/// Every transition of one supervision tick preserves well-formedness.
pub proof fn lemma_tick_preserves_wf(s: ServiceState, inp: TickInput)
    requires
        s.wf(),
    ensures
        service_tick(s, inp).wf(),
{
}

/// A supervision tick never touches the configuration, the parsed policy,
/// or the health-check definition of a service.
pub proof fn lemma_tick_preserves_config(s: ServiceState, inp: TickInput)
    ensures
        service_tick(s, inp).config == s.config,
        service_tick(s, inp).restart_policy == s.restart_policy,
        service_tick(s, inp).health_check == s.health_check,
{
}

} // verus!
