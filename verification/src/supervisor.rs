//! The supervisor: exclusive owner of every service's runtime record. It
//! loads configurations, starts and stops services through a
//! `ProcessController`, and runs the supervision tick that polls liveness,
//! schedules health probes, and performs policy-approved delayed restarts.

use vstd::prelude::*;

verus! {

use crate::config::ServiceConfig;
use crate::controller::{ProcessController, SignalKind};
use crate::service::{ServiceState, ServiceStatus, TickInput, after_liveness, after_scheduled, probe_due_spec, service_tick};

/// Errors the supervisor reports to its callers. Everything else — signal
/// delivery failures, probe failures, restart-budget exhaustion — is
/// deliberately not an error: it is absorbed into the service's status.
#[derive(Debug, Clone, Copy, PartialEq, Eq, Structural)]
pub enum SupervisorError {
    /// No service of the given name is configured.
    ServiceNotFound,
    /// The spawn attempt failed; the service keeps its pre-attempt status.
    SpawnFailed,
}

/// The fixed grace window between the graceful terminate signal and the
/// liveness re-check that decides whether a forceful kill is needed.
pub const GRACE_WINDOW_MS: u64 = 5000;

/// Whether a sequence of indices contains `k`.
pub open spec fn contains_index(s: Seq<usize>, k: int) -> bool {
    exists|m: int| 0 <= m < s.len() && (s[m] as int) == k
}

/// Whether one supervision tick can turn service record `a` into `b`.
pub open spec fn tick_related(a: ServiceState, b: ServiceState) -> bool {
    exists|inp: TickInput| b == service_tick(a, inp)
}

/// The tick input of a service the tick leaves alone: its process (if
/// any) was alive and no probe was due.
pub open spec fn quiet_input(now: u64) -> TickInput {
    TickInput { now, alive: true, probe_ok: true, spawn: None }
}

proof fn lemma_contains_index_push(s: Seq<usize>, x: usize, k: int)
    ensures
        contains_index(s.push(x), k) <==> (contains_index(s, k) || (x as int) == k),
{
    if contains_index(s.push(x), k) {
        let m = choose|m: int| 0 <= m < s.push(x).len() && (s.push(x)[m] as int) == k;
        if m < s.len() {
            assert((s[m] as int) == k);
        }
    }
    if contains_index(s, k) {
        let m = choose|m: int| 0 <= m < s.len() && (s[m] as int) == k;
        assert((s.push(x)[m] as int) == k);
    }
    if (x as int) == k {
        assert((s.push(x)[s.len() as int] as int) == k);
    }
}

/// Whether some service in the sequence carries this name.
pub open spec fn has_name(ss: Seq<ServiceState>, name: Seq<char>) -> bool {
    exists|j: int| 0 <= j < ss.len() && ss[j].config.name@ == name
}

/// Effect of loading one configuration into a service list: a record with
/// the same name is replaced, otherwise a fresh record is appended.
pub open spec fn insert_one(ss: Seq<ServiceState>, c: ServiceConfig) -> Seq<ServiceState> {
    if has_name(ss, c.name@) {
        Seq::new(
            ss.len(),
            |j: int|
                if ss[j].config.name@ == c.name@ {
                    ServiceState::initial_spec(c)
                } else {
                    ss[j]
                },
        )
    } else {
        ss.push(ServiceState::initial_spec(c))
    }
}

/// Effect of loading a whole list of configurations, first to last.
pub open spec fn load_spec(ss: Seq<ServiceState>, cs: Seq<ServiceConfig>) -> Seq<ServiceState>
    decreases cs.len(),
{
    if cs.len() == 0 {
        ss
    } else {
        insert_one(load_spec(ss, cs.drop_last()), cs.last())
    }
}

/// Loading a list of configurations with pairwise distinct names into an
/// empty supervisor yields exactly the initial runtime record of each
/// configuration, in order: every service starts `Stopped`, without a pid,
/// with zeroed counters and its policy parsed from its configuration.
pub proof fn lemma_load_fresh(cs: Seq<ServiceConfig>)
    requires
        forall|i: int, j: int| 0 <= i < j < cs.len() ==> cs[i].name@ != cs[j].name@,
    ensures
        load_spec(Seq::empty(), cs).len() == cs.len(),
        forall|i: int|
            0 <= i < cs.len() ==> load_spec(Seq::empty(), cs)[i] == ServiceState::initial_spec(
                cs[i],
            ),
    decreases cs.len(),
{
    if cs.len() > 0 {
        lemma_load_fresh(cs.drop_last());
        let prev = load_spec(Seq::empty(), cs.drop_last());
        if has_name(prev, cs.last().name@) {
            let j = choose|j: int| 0 <= j < prev.len() && prev[j].config.name@ == cs.last().name@;
            assert(prev[j] == ServiceState::initial_spec(cs.drop_last()[j]));
            assert(cs[j].name@ == cs.last().name@);
            assert(false);
        }
        assert(load_spec(Seq::empty(), cs) =~= prev.push(ServiceState::initial_spec(cs.last())));
    }
}

/// The daemon supervisor: the single writer of all service runtime records.
pub struct DaemonSupervisor {
    services: Vec<ServiceState>,
}

impl DaemonSupervisor {
    /// The supervised services, in load order.
    pub closed spec fn spec_services(self) -> Seq<ServiceState> {
        self.services@
    }

    /// Well-formedness: every record is well-formed and every service name
    /// is unique, so the list is a map keyed by name.
    pub open spec fn wf(self) -> bool {
        &&& forall|i: int|
            0 <= i < self.spec_services().len() ==> (#[trigger] self.spec_services()[i]).wf()
        &&& forall|i: int, j: int|
            0 <= i < j < self.spec_services().len() ==> (#[trigger] self.spec_services()[i]).config.name@
                != (#[trigger] self.spec_services()[j]).config.name@
    }

    /// A supervisor with no services configured.
    pub fn new() -> (r: DaemonSupervisor)
        ensures
            r.spec_services().len() == 0,
            r.wf(),
    {
        DaemonSupervisor { services: Vec::new() }
    }

    /// Finds the position of the service with this name, if any.
    pub fn find_index(&self, name: &str) -> (r: Option<usize>)
        ensures
            match r {
                Some(j) => j < self.spec_services().len() && self.spec_services()[j as int].config.name@
                    == name@,
                None => !has_name(self.spec_services(), name@),
            },
    {
        let n = self.services.len();
        for i in 0..n
            invariant
                n == self.services@.len(),
                forall|j: int| 0 <= j < i ==> (#[trigger] self.services@[j]).config.name@ != name@,
        {
            if crate::strutil::str_eq(self.services[i].config.name.as_str(), name) {
                return Some(i);
            }
        }
        None
    }

    /// Loads one configuration: a service of the same name is re-created
    /// from the new configuration, a new name is appended. Either way the
    /// record starts from the initial state.
    pub fn insert_service(&mut self, config: ServiceConfig)
        requires
            old(self).wf(),
        ensures
            final(self).wf(),
            final(self).spec_services() == insert_one(old(self).spec_services(), config),
    {
        let ghost ss = self.services@;
        let ghost cfg = config;
        match self.find_index(config.name.as_str()) {
            Some(j) => {
                let fresh = ServiceState::initial(config);
                self.services[j] = fresh;
                proof {
                    assert(self.services@ =~= insert_one(ss, cfg));
                }
            },
            None => {
                let fresh = ServiceState::initial(config);
                self.services.push(fresh);
                proof {
                    assert(self.services@ =~= insert_one(ss, cfg));
                }
            },
        }
    }

    /// Loads a list of configurations, first to last: later entries win on
    /// a name collision, and every loaded service starts `Stopped` with no
    /// pid and zeroed counters.
    pub fn load_services(&mut self, configs: Vec<ServiceConfig>)
        requires
            old(self).wf(),
        ensures
            final(self).wf(),
            final(self).spec_services() == load_spec(
                old(self).spec_services(),
                configs@,
            ),
    {
        let ghost ss = self.services@;
        let ghost cs = configs@;
        let mut configs = configs;
        let ghost mut k: int = 0;
        while configs.len() > 0
            invariant
                0 <= k <= cs.len(),
                configs@ == cs.skip(k),
                self.wf(),
                self.spec_services() == load_spec(ss, cs.take(k)),
            decreases configs@.len(),
        {
            let config = configs.remove(0);
            proof {
                assert(config == cs[k]);
            }
            self.insert_service(config);
            proof {
                assert(cs.take(k + 1).drop_last() =~= cs.take(k));
                assert(cs.take(k + 1).last() == cs[k]);
                k = k + 1;
                assert(configs@ =~= cs.skip(k));
            }
        }
        proof {
            assert(cs.take(k) =~= cs);
        }
    }

    /// The number of configured services.
    pub fn len(&self) -> (r: usize)
        ensures
            r == self.spec_services().len(),
    {
        self.services.len()
    }

    /// All services in load order; each record carries its own name in its
    /// configuration.
    pub fn list_services(&self) -> (r: &Vec<ServiceState>)
        ensures
            r@ == self.spec_services(),
    {
        &self.services
    }

    /// Starts the named service: a no-op if it is already `Running`,
    /// otherwise one spawn attempt through the controller. On success the
    /// new pid is recorded and the service is `Running`; on failure the
    /// service keeps its pre-attempt status and the error is reported.
    pub fn start_service<C: ProcessController>(&mut self, name: &str, ctrl: &mut C) -> (r: Result<
        (),
        SupervisorError,
    >)
        requires
            old(self).wf(),
        ensures
            final(self).wf(),
            final(self).spec_services().len() == old(self).spec_services().len(),
            (r == Err::<(), SupervisorError>(SupervisorError::ServiceNotFound)) <==> !has_name(
                old(self).spec_services(),
                name@,
            ),
            !has_name(old(self).spec_services(), name@) ==> final(self).spec_services() == old(self).spec_services(),
            forall|j: int|
                0 <= j < old(self).spec_services().len() && (#[trigger] old(self).spec_services()[j]).config.name@ != name@ ==> final(self).spec_services()[j]
                    == old(self).spec_services()[j],
            forall|j: int|
                (0 <= j < old(self).spec_services().len() && (#[trigger] old(self).spec_services()[j]).config.name@ == name@ && old(self).spec_services()[j].status
                    == ServiceStatus::Running) ==> (final(self).spec_services()[j] == old(self).spec_services()[j] && r is Ok),
            forall|j: int|
                (0 <= j < old(self).spec_services().len() && (#[trigger] old(self).spec_services()[j]).config.name@ == name@ && old(self).spec_services()[j].status
                    != ServiceStatus::Running) ==> (exists|outcome: Option<u32>|
                    final(self).spec_services()[j] == crate::service::after_spawn(
                        old(self).spec_services()[j],
                        outcome,
                    ) && (outcome is Some <==> r is Ok)),
    {
        match self.find_index(name) {
            None => Err(SupervisorError::ServiceNotFound),
            Some(idx) => {
                if self.services[idx].status == ServiceStatus::Running {
                    return Ok(());
                }
                let outcome = ctrl.spawn(&self.services[idx].config);
                let svc = &mut self.services[idx];
                svc.apply_spawn_outcome(outcome);
                match outcome {
                    Some(_) => Ok(()),
                    None => Err(SupervisorError::SpawnFailed),
                }
            },
        }
    }

    /// Stops the named service with the ordered graceful protocol: send the
    /// terminate signal, wait out the fixed grace window, re-check
    /// liveness, and only if the process is still alive send the forceful
    /// kill. The service ends `Stopped` with no pid; a service without a
    /// recorded process is left untouched.
    pub fn stop_service<C: ProcessController>(&mut self, name: &str, ctrl: &mut C) -> (r: Result<
        (),
        SupervisorError,
    >)
        requires
            old(self).wf(),
        ensures
            final(self).wf(),
            final(self).spec_services().len() == old(self).spec_services().len(),
            (r == Err::<(), SupervisorError>(SupervisorError::ServiceNotFound)) <==> !has_name(
                old(self).spec_services(),
                name@,
            ),
            r is Ok <==> has_name(old(self).spec_services(), name@),
            !has_name(old(self).spec_services(), name@) ==> final(self).spec_services() == old(self).spec_services(),
            forall|j: int|
                0 <= j < old(self).spec_services().len() && (#[trigger] old(self).spec_services()[j]).config.name@ != name@ ==> final(self).spec_services()[j]
                    == old(self).spec_services()[j],
            forall|j: int|
                (0 <= j < old(self).spec_services().len() && (#[trigger] old(self).spec_services()[j]).config.name@ == name@ && old(self).spec_services()[j].pid
                    is None) ==> final(self).spec_services()[j] == old(self).spec_services()[j],
            forall|j: int|
                (0 <= j < old(self).spec_services().len() && (#[trigger] old(self).spec_services()[j]).config.name@ == name@ && old(self).spec_services()[j].pid
                    is Some) ==> final(self).spec_services()[j] == (ServiceState {
                    pid: None,
                    status: ServiceStatus::Stopped,
                    ..old(self).spec_services()[j]
                }),
    {
        match self.find_index(name) {
            None => Err(SupervisorError::ServiceNotFound),
            Some(idx) => {
                let to_term = {
                    let svc = &mut self.services[idx];
                    svc.begin_stop()
                };
                match to_term {
                    Some(pid) => {
                        ctrl.signal(pid, SignalKind::Terminate);
                        ctrl.sleep_millis(GRACE_WINDOW_MS);
                        let alive = ctrl.is_alive(pid);
                        let kill = {
                            let svc = &mut self.services[idx];
                            svc.finish_stop(alive)
                        };
                        match kill {
                            Some(p) => ctrl.signal(p, SignalKind::Kill),
                            None => {},
                        }
                    },
                    None => {},
                }
                Ok(())
            },
        }
    }

    /// One supervision tick over every service, in a fixed order: a
    /// liveness pass marks services whose process has gone as `Failed` and
    /// schedules due health probes; the probes run next; last, every death
    /// detected in this tick is restarted if — and only if — the restart
    /// policy approves, waiting out the restart delay first. Each service
    /// ends exactly one `service_tick` step from where it started,
    /// whatever the controller answered.
    pub fn check_services<C: ProcessController>(&mut self, ctrl: &mut C)
        requires
            old(self).wf(),
        ensures
            final(self).wf(),
            final(self).spec_services().len() == old(self).spec_services().len(),
            forall|i: int|
                #![trigger old(self).spec_services()[i]]
                0 <= i < old(self).spec_services().len() ==> tick_related(
                    old(self).spec_services()[i],
                    final(self).spec_services()[i],
                ),
            forall|i: int|
                #![trigger old(self).spec_services()[i]]
                (0 <= i < old(self).spec_services().len() && old(self).spec_services()[i].pid
                    is None && old(self).spec_services()[i].status != ServiceStatus::Running)
                    ==> final(self).spec_services()[i] == old(self).spec_services()[i],
    {
        let ghost s0 = self.services@;
        let now = ctrl.now_millis();
        let n = self.services.len();
        let mut candidates: Vec<usize> = Vec::new();
        let mut probes: Vec<usize> = Vec::new();

        for i in 0..n
            invariant
                self.wf(),
                self.services@.len() == n,
                n == s0.len(),
                forall|k: int| i <= k < n ==> self.services@[k] == s0[k],
                forall|m1: int, m2: int|
                    0 <= m1 < m2 < candidates@.len() ==> candidates@[m1] < candidates@[m2],
                forall|m: int|
                    0 <= m < candidates@.len() ==> (((#[trigger] candidates@[m]) as int) < i
                        && s0[candidates@[m] as int].pid is Some
                        && self.services@[candidates@[m] as int] == after_liveness(
                        s0[candidates@[m] as int],
                        false,
                    )),
                forall|m1: int, m2: int|
                    0 <= m1 < m2 < probes@.len() ==> probes@[m1] < probes@[m2],
                forall|m: int|
                    0 <= m < probes@.len() ==> (((#[trigger] probes@[m]) as int) < i
                        && probe_due_spec(s0[probes@[m] as int], now)
                        && self.services@[probes@[m] as int] == after_scheduled(
                        s0[probes@[m] as int],
                        now,
                    ) && !contains_index(candidates@, probes@[m] as int)),
                forall|k: int|
                    0 <= k < i && !contains_index(candidates@, k) && !contains_index(probes@, k)
                        ==> (self.services@[k] == s0[k] && !probe_due_spec(s0[k], now)),
        {
            let ghost c_prev = candidates@;
            let ghost p_prev = probes@;
            let ghost sv_prev = self.services@;
            let died = match self.services[i].pid {
                Some(pid) => !ctrl.is_alive(pid),
                None => false,
            };
            if died {
                let svc = &mut self.services[i];
                svc.observe_liveness(false);
                candidates.push(i);
            }
            let due = self.services[i].probe_due(now);
            if due {
                let svc = &mut self.services[i];
                svc.mark_probe_scheduled(now);
                probes.push(i);
            }
            proof {
                assert forall|k: int|
                    0 <= k < i + 1 && !contains_index(candidates@, k) && !contains_index(
                        probes@,
                        k,
                    ) implies (self.services@[k] == s0[k] && !probe_due_spec(s0[k], now)) by {
                    if died {
                        lemma_contains_index_push(c_prev, i, k);
                    }
                    if due {
                        lemma_contains_index_push(p_prev, i, k);
                    }
                    if k == i {
                        assert(!died && !due);
                        assert(self.services@[k] == s0[k]);
                        assert(!probe_due_spec(s0[k], now));
                    } else {
                        assert(!contains_index(c_prev, k));
                        assert(!contains_index(p_prev, k));
                        assert(sv_prev[k] == s0[k] && !probe_due_spec(s0[k], now));
                        assert(self.services@[k] == sv_prev[k]);
                    }
                }
            }
        }

        let ghost s1 = self.services@;
        let ghost mut wit: Map<int, TickInput> = Map::empty();
        let np = probes.len();
        for t in 0..np
            invariant
                self.wf(),
                self.services@.len() == n,
                n == s0.len(),
                s1.len() == n,
                np == probes@.len(),
                forall|m1: int, m2: int|
                    0 <= m1 < m2 < candidates@.len() ==> candidates@[m1] < candidates@[m2],
                forall|m: int|
                    0 <= m < candidates@.len() ==> (((#[trigger] candidates@[m]) as int) < n
                        && s0[candidates@[m] as int].pid is Some
                        && self.services@[candidates@[m] as int] == after_liveness(
                        s0[candidates@[m] as int],
                        false,
                    )),
                forall|m1: int, m2: int|
                    0 <= m1 < m2 < probes@.len() ==> probes@[m1] < probes@[m2],
                forall|m: int|
                    0 <= m < probes@.len() ==> (((#[trigger] probes@[m]) as int) < n
                        && probe_due_spec(s0[probes@[m] as int], now)
                        && s1[probes@[m] as int] == after_scheduled(s0[probes@[m] as int], now)
                        && !contains_index(candidates@, probes@[m] as int)),
                forall|k: int|
                    0 <= k < n && !contains_index(candidates@, k) && !contains_index(probes@, k)
                        ==> (self.services@[k] == s0[k] && !probe_due_spec(s0[k], now)),
                forall|m: int|
                    0 <= m < t ==> self.services@[(#[trigger] probes@[m]) as int] == service_tick(
                        s0[probes@[m] as int],
                        wit[probes@[m] as int],
                    ),
                forall|m: int|
                    t <= m < np ==> self.services@[(#[trigger] probes@[m]) as int] == s1[probes@[m] as int],
        {
            let idx = probes[t];
            let ok = match &self.services[idx].health_check {
                Some(h) => ctrl.run_probe(h.command.as_str()),
                None => {
                    proof {
                        assert(false);
                    }
                    false
                },
            };
            {
                let svc = &mut self.services[idx];
                svc.apply_probe_result(ok);
            }
            proof {
                wit = wit.insert(idx as int, TickInput { now, alive: true, probe_ok: ok, spawn: None });
                assert(self.services@[idx as int] == service_tick(
                    s0[idx as int],
                    wit[idx as int],
                ));
            }
        }

        let ghost s2 = self.services@;
        proof {
            assert forall|k: int| #![trigger s0[k]]
                0 <= k < n && !contains_index(candidates@, k) && !contains_index(probes@, k)
                implies s2[k] == service_tick(s0[k], quiet_input(now)) by {
                assert(s2[k] == s0[k] && !probe_due_spec(s0[k], now));
            }
        }

        let nc = candidates.len();
        for t in 0..nc
            invariant
                self.wf(),
                self.services@.len() == n,
                n == s0.len(),
                s2.len() == n,
                nc == candidates@.len(),
                np == probes@.len(),
                forall|m1: int, m2: int|
                    0 <= m1 < m2 < candidates@.len() ==> candidates@[m1] < candidates@[m2],
                forall|m: int|
                    0 <= m < candidates@.len() ==> (((#[trigger] candidates@[m]) as int) < n
                        && s0[candidates@[m] as int].pid is Some
                        && s2[candidates@[m] as int] == after_liveness(
                        s0[candidates@[m] as int],
                        false,
                    )),
                forall|m: int|
                    0 <= m < probes@.len() ==> (((#[trigger] probes@[m]) as int) < n
                        && !contains_index(candidates@, probes@[m] as int)),
                forall|k: int|
                    0 <= k < n && !contains_index(candidates@, k) ==> self.services@[k] == s2[k],
                forall|k: int|
                    0 <= k < n && !contains_index(candidates@, k) && !contains_index(probes@, k)
                        ==> s2[k] == service_tick(s0[k], quiet_input(now)),
                forall|m: int|
                    0 <= m < np ==> s2[(#[trigger] probes@[m]) as int] == service_tick(
                        s0[probes@[m] as int],
                        wit[probes@[m] as int],
                    ),
                forall|m: int|
                    t <= m < nc ==> self.services@[(#[trigger] candidates@[m]) as int]
                        == s2[candidates@[m] as int],
                forall|m: int|
                    0 <= m < t ==> self.services@[(#[trigger] candidates@[m]) as int]
                        == service_tick(
                        s0[candidates@[m] as int],
                        wit[candidates@[m] as int],
                    ),
        {
            let idx = candidates[t];
            let should = {
                let svc = &self.services[idx];
                crate::policy::should_restart_decision(
                    svc.restart_policy,
                    svc.status,
                    svc.restart_count,
                    svc.config.max_restarts,
                )
            };
            if should {
                let ghost f = self.services@[idx as int];
                self.restart_by_index(idx, now, ctrl);
                proof {
                    let outcome = choose|o: Option<u32>|
                        self.services@[idx as int] == crate::service::after_restart(f, now, o);
                    wit = wit.insert(
                        idx as int,
                        TickInput { now, alive: false, probe_ok: true, spawn: outcome },
                    );
                    assert(self.services@[idx as int] == service_tick(
                        s0[idx as int],
                        wit[idx as int],
                    ));
                }
            } else {
                proof {
                    wit = wit.insert(
                        idx as int,
                        TickInput { now, alive: false, probe_ok: true, spawn: None },
                    );
                    assert(self.services@[idx as int] == service_tick(
                        s0[idx as int],
                        wit[idx as int],
                    ));
                }
            }
            proof {
                assert forall|m: int|
                    0 <= m < np implies s2[(#[trigger] probes@[m]) as int] == service_tick(
                        s0[probes@[m] as int],
                        wit[probes@[m] as int],
                    ) by {
                    assert((candidates@[t as int] as int) == idx as int);
                    assert(contains_index(candidates@, idx as int));
                    assert((probes@[m] as int) != idx as int);
                }
                assert forall|m: int|
                    0 <= m < t + 1 implies self.services@[(#[trigger] candidates@[m]) as int]
                        == service_tick(s0[candidates@[m] as int], wit[candidates@[m] as int]) by {
                    if m < t {
                        assert(candidates@[m] < candidates@[t as int]);
                    }
                }
            }
        }

        proof {
            assert forall|i: int| #![trigger s0[i]]
                0 <= i < n implies tick_related(s0[i], self.services@[i]) by {
                if contains_index(candidates@, i) {
                    let m = choose|m: int| 0 <= m < candidates@.len() && (candidates@[m] as int)
                        == i;
                    assert(self.services@[i] == service_tick(s0[i], wit[i]));
                } else if contains_index(probes@, i) {
                    let m = choose|m: int| 0 <= m < probes@.len() && (probes@[m] as int) == i;
                    assert(self.services@[i] == s2[i]);
                    assert(s2[i] == service_tick(s0[i], wit[i]));
                    assert(self.services@[i] == service_tick(s0[i], wit[i]));
                } else {
                    assert(self.services@[i] == s2[i]);
                    assert(s2[i] == service_tick(s0[i], quiet_input(now)));
                    assert(self.services@[i] == service_tick(s0[i], quiet_input(now)));
                }
            }
            assert forall|i: int| #![trigger s0[i]]
                0 <= i < n && s0[i].pid is None && s0[i].status != ServiceStatus::Running
                implies self.services@[i] == s0[i] by {
                if contains_index(candidates@, i) {
                    let m = choose|m: int| 0 <= m < candidates@.len() && (candidates@[m] as int)
                        == i;
                    assert(s0[candidates@[m] as int].pid is Some);
                    assert(false);
                } else if contains_index(probes@, i) {
                    let m = choose|m: int| 0 <= m < probes@.len() && (probes@[m] as int) == i;
                    assert(probe_due_spec(s0[probes@[m] as int], now));
                    assert(false);
                } else {
                    assert(self.services@[i] == s2[i]);
                    assert(s2[i] == s0[i]);
                }
            }
        }
    }

    /// Restarts the named service: waits out whatever remains of the
    /// restart delay, counts and stamps the attempt, then starts the
    /// service — which spawns unless it is already `Running`.
    pub fn restart_service<C: ProcessController>(&mut self, name: &str, ctrl: &mut C) -> (r:
        Result<(), SupervisorError>)
        requires
            old(self).wf(),
        ensures
            final(self).wf(),
            final(self).spec_services().len() == old(self).spec_services().len(),
            (r == Err::<(), SupervisorError>(SupervisorError::ServiceNotFound)) <==> !has_name(
                old(self).spec_services(),
                name@,
            ),
            !has_name(old(self).spec_services(), name@) ==> final(self).spec_services() == old(
                self,
            ).spec_services(),
            forall|j: int|
                0 <= j < old(self).spec_services().len() && (#[trigger] old(self).spec_services()[j]).config.name@
                    != name@ ==> final(self).spec_services()[j] == old(self).spec_services()[j],
            forall|j: int|
                (0 <= j < old(self).spec_services().len() && (#[trigger] old(self).spec_services()[j]).config.name@
                    == name@ && old(self).spec_services()[j].status == ServiceStatus::Running)
                    ==> (r is Ok && exists|now: u64|
                    final(self).spec_services()[j] == crate::service::after_restart_stamp(
                        old(self).spec_services()[j],
                        crate::service::spawn_time_spec(old(self).spec_services()[j], now),
                    )),
            forall|j: int|
                (0 <= j < old(self).spec_services().len() && (#[trigger] old(self).spec_services()[j]).config.name@
                    == name@ && old(self).spec_services()[j].status != ServiceStatus::Running)
                    ==> (exists|now: u64, outcome: Option<u32>|
                    final(self).spec_services()[j] == crate::service::after_restart(
                        old(self).spec_services()[j],
                        now,
                        outcome,
                    ) && (outcome is Some <==> r is Ok)),
    {
        match self.find_index(name) {
            None => Err(SupervisorError::ServiceNotFound),
            Some(idx) => {
                let now = ctrl.now_millis();
                let st = self.services[idx].spawn_time(now);
                let wait = st - now;
                if wait > 0 {
                    ctrl.sleep_millis(wait);
                }
                {
                    let svc = &mut self.services[idx];
                    svc.record_restart(st);
                }
                if self.services[idx].status == ServiceStatus::Running {
                    proof {
                        assert(self.spec_services()[idx as int]
                            == crate::service::after_restart_stamp(
                            old(self).spec_services()[idx as int],
                            crate::service::spawn_time_spec(
                                old(self).spec_services()[idx as int],
                                now,
                            ),
                        ));
                    }
                    return Ok(());
                }
                let outcome = ctrl.spawn(&self.services[idx].config);
                let svc = &mut self.services[idx];
                svc.apply_spawn_outcome(outcome);
                proof {
                    assert(self.spec_services()[idx as int] == crate::service::after_restart(
                        old(self).spec_services()[idx as int],
                        now,
                        outcome,
                    ));
                }
                match outcome {
                    Some(_) => Ok(()),
                    None => Err(SupervisorError::SpawnFailed),
                }
            },
        }
    }

    /// Performs one policy-approved restart: waits out whatever remains of
    /// the restart delay, counts and stamps the attempt, then tries to
    /// spawn.
    fn restart_by_index<C: ProcessController>(&mut self, idx: usize, now: u64, ctrl: &mut C)
        requires
            old(self).wf(),
            idx < old(self).spec_services().len(),
        ensures
            final(self).wf(),
            final(self).spec_services().len() == old(self).spec_services().len(),
            forall|j: int|
                0 <= j < old(self).spec_services().len() && j != idx ==> final(self).spec_services()[j] == old(self).spec_services()[j],
            exists|outcome: Option<u32>|
                final(self).spec_services()[idx as int] == crate::service::after_restart(
                    old(self).spec_services()[idx as int],
                    now,
                    outcome,
                ),
    {
        let st = self.services[idx].spawn_time(now);
        let wait = st - now;
        if wait > 0 {
            ctrl.sleep_millis(wait);
        }
        {
            let svc = &mut self.services[idx];
            svc.record_restart(st);
        }
        let outcome = ctrl.spawn(&self.services[idx].config);
        let svc = &mut self.services[idx];
        svc.apply_spawn_outcome(outcome);
        proof {
            assert(self.spec_services()[idx as int] == crate::service::after_restart(
                old(self).spec_services()[idx as int],
                now,
                outcome,
            ));
        }
    }

    /// The status of the named service, if it is configured.
    pub fn get_service_status(&self, name: &str) -> (r: Option<ServiceStatus>)
        ensures
            match r {
                Some(st) => exists|j: int|
                    0 <= j < self.spec_services().len() && (#[trigger] self.spec_services()[j]).config.name@
                        == name@ && self.spec_services()[j].status == st,
                None => !has_name(self.spec_services(), name@),
            },
    {
        match self.find_index(name) {
            Some(j) => Some(self.services[j].status),
            None => None,
        }
    }
}

} // verus!
