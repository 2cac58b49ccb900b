//! Proved properties of the supervision state machine, stated over the
//! specification-level transition functions that the executable code is
//! verified against: restart-policy guarantees, the restart-delay bound,
//! health-failure accounting, and the graceful-stop protocol.

use vstd::prelude::*;

verus! {

use crate::policy::{RestartPolicy, should_restart_spec};
use crate::service::{
    ServiceState, ServiceStatus, TickInput, after_probe, kill_order, service_tick,
    terminate_order,
};

/// The service record after a whole sequence of supervision ticks, applied
/// first to last.
pub open spec fn run_ticks(s: ServiceState, inputs: Seq<TickInput>) -> ServiceState
    decreases inputs.len(),
{
    if inputs.len() == 0 {
        s
    } else {
        run_ticks(service_tick(s, inputs[0]), inputs.drop_first())
    }
}

/// The service record after a number of consecutive failed health probes.
pub open spec fn probes_failed(s: ServiceState, k: nat) -> ServiceState
    decreases k,
{
    if k == 0 {
        s
    } else {
        after_probe(probes_failed(s, (k - 1) as nat), false)
    }
}

/// One tick of a service whose policy is `Never` keeps its restart counter
/// and its configuration, and leaves a `Failed` service (which has no
/// recorded process) entirely untouched.
pub proof fn lemma_never_policy_tick(s: ServiceState, inp: TickInput)
    requires
        s.restart_policy == RestartPolicy::Never,
    ensures
        service_tick(s, inp).restart_count == s.restart_count,
        service_tick(s, inp).restart_policy == RestartPolicy::Never,
        (s.status == ServiceStatus::Failed && s.pid is None) ==> service_tick(s, inp) == s,
{
}

/// A service whose policy is `Never` is never restarted: across any
/// sequence of ticks its restart counter keeps its value, and once it is
/// `Failed` — its process gone — it stays exactly as it is, tick after
/// tick.
pub proof fn lemma_never_policy(s: ServiceState, inputs: Seq<TickInput>)
    requires
        s.restart_policy == RestartPolicy::Never,
    ensures
        run_ticks(s, inputs).restart_count == s.restart_count,
        (s.status == ServiceStatus::Failed && s.pid is None) ==> run_ticks(s, inputs) == s,
    decreases inputs.len(),
{
    if inputs.len() > 0 {
        lemma_never_policy_tick(s, inputs[0]);
        lemma_never_policy(service_tick(s, inputs[0]), inputs.drop_first());
    }
}

/// Under `Always`, the very tick that finds the process dead restarts it:
/// the restart counter grows by exactly one, and if the spawn succeeds the
/// service is `Running` again with the new pid; if it fails, the service
/// is left `Failed`.
pub proof fn lemma_always_restarts(s: ServiceState, inp: TickInput)
    requires
        s.restart_policy == RestartPolicy::Always,
        s.pid is Some,
        !inp.alive,
        s.restart_count < u32::MAX,
    ensures
        service_tick(s, inp).restart_count == s.restart_count + 1,
        inp.spawn is Some ==> (service_tick(s, inp).status == ServiceStatus::Running
            && service_tick(s, inp).pid == inp.spawn),
        inp.spawn is None ==> (service_tick(s, inp).status == ServiceStatus::Failed
            && service_tick(s, inp).pid is None),
{
}

/// Under `OnFailure`, a `Failed` service whose restart counter has reached
/// the budget is not restarted.
pub proof fn lemma_budget_exhausted_no_restart(s: ServiceState)
    requires
        s.restart_policy == RestartPolicy::OnFailure,
        s.restart_count >= s.config.max_restarts,
    ensures
        !should_restart_spec(
            s.restart_policy,
            s.status,
            s.restart_count,
            s.config.max_restarts,
        ),
{
}

/// `OnFailure` is never triggered by `Unhealthy` alone: an unhealthy but
/// alive process is not restarted by this policy — only a confirmed-dead
/// (`Failed`) process is. In a tick this shows twice over: the decision
/// itself refuses any non-`Failed` status, and a service whose process is
/// alive is never even a restart candidate.
pub proof fn lemma_unhealthy_alone_not_restarted(s: ServiceState, inp: TickInput)
    requires
        s.restart_policy == RestartPolicy::OnFailure,
        s.status == ServiceStatus::Unhealthy,
    ensures
        !should_restart_spec(s.restart_policy, s.status, s.restart_count, s.config.max_restarts),
        inp.alive ==> service_tick(s, inp).restart_count == s.restart_count,
{
}

/// One tick under `OnFailure` keeps the restart counter within the budget.
pub proof fn lemma_on_failure_budget_tick(s: ServiceState, inp: TickInput)
    requires
        s.restart_policy == RestartPolicy::OnFailure,
        s.restart_count <= s.config.max_restarts,
    ensures
        service_tick(s, inp).restart_count <= service_tick(s, inp).config.max_restarts,
        service_tick(s, inp).restart_policy == RestartPolicy::OnFailure,
        service_tick(s, inp).config == s.config,
{
}

/// Under `OnFailure` with budget `max_restarts`, the restart counter never
/// exceeds the budget, however many ticks pass: a failure beyond the
/// budget never triggers another restart attempt.
pub proof fn lemma_on_failure_budget(s: ServiceState, inputs: Seq<TickInput>)
    requires
        s.restart_policy == RestartPolicy::OnFailure,
        s.restart_count <= s.config.max_restarts,
    ensures
        run_ticks(s, inputs).restart_count <= s.config.max_restarts,
    decreases inputs.len(),
{
    if inputs.len() > 0 {
        lemma_on_failure_budget_tick(s, inputs[0]);
        lemma_on_failure_budget(service_tick(s, inputs[0]), inputs.drop_first());
    }
}

/// The restart delay is respected: when a tick restarts a service, the
/// stamped spawn time is no earlier than the tick's clock, and — if the
/// service had been restarted before — no earlier than the configured
/// delay past the previous restart stamp.
pub proof fn lemma_restart_delay(s: ServiceState, inp: TickInput)
    requires
        s.pid is Some,
        !inp.alive,
        should_restart_spec(
            s.restart_policy,
            ServiceStatus::Failed,
            s.restart_count,
            s.config.max_restarts,
        ),
    ensures
        service_tick(s, inp).last_restart is Some,
        service_tick(s, inp).last_restart->0 >= inp.now,
        s.last_restart matches Some(t) ==> service_tick(s, inp).last_restart->0
            >= t.saturating_add(s.spec_delay_ms()),
{
}

/// Health-failure accounting: a failed probe increases the consecutive
/// counter (by one, while it has room), a successful probe resets it to
/// zero, and the counter never decreases across failed probes.
pub proof fn lemma_health_failures(s: ServiceState, success: bool)
    ensures
        success ==> after_probe(s, success).health_failures == 0,
        !success ==> after_probe(s, success).health_failures == s.health_failures.saturating_add(
            1,
        ),
        !success ==> after_probe(s, success).health_failures >= s.health_failures,
{
}

/// A running service becomes `Unhealthy` exactly when its consecutive
/// failure count reaches the retry budget — not before.
pub proof fn lemma_unhealthy_exactly_at_retries(s: ServiceState)
    requires
        s.status == ServiceStatus::Running,
        s.health_failures < s.spec_retries(),
    ensures
        after_probe(s, false).status == ServiceStatus::Unhealthy <==> s.health_failures + 1
            == s.spec_retries(),
        after_probe(s, false).status == ServiceStatus::Running <==> s.health_failures + 1
            < s.spec_retries(),
{
}

/// Consecutive failed probes, from a clean counter: after `k` of them the
/// counter reads exactly `k`, and the service is `Unhealthy` exactly once
/// `k` has reached the retry budget — on the budget's probe, not earlier.
pub proof fn lemma_consecutive_failures(s: ServiceState, k: nat)
    requires
        s.status == ServiceStatus::Running,
        s.health_check is Some,
        s.health_failures == 0,
        s.spec_retries() > 0,
        k <= s.spec_retries(),
    ensures
        probes_failed(s, k).health_failures == k,
        probes_failed(s, k).status == ServiceStatus::Unhealthy <==> k == s.spec_retries(),
        probes_failed(s, k).health_check == s.health_check,
    decreases k,
{
    if k > 0 {
        lemma_consecutive_failures(s, (k - 1) as nat);
    }
}

/// A stop is graceful before it is forceful: a kill order only ever exists
/// for the same process that was first ordered to terminate, and a process
/// that exits within the grace window is never ordered killed.
pub proof fn lemma_stop_graceful(s: ServiceState, still_alive: bool)
    ensures
        kill_order(s, still_alive) is Some ==> kill_order(s, still_alive) == terminate_order(s),
        !still_alive ==> kill_order(s, still_alive) is None,
{
}

} // verus!
