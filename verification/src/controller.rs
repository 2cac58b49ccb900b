//! The process-control capability boundary. The supervision logic never
//! touches OS processes itself: it asks a `ProcessController` to spawn,
//! signal, probe and observe them, so the logic can be driven equally by a
//! real controller (owned by the embedding program) or by the scriptable
//! in-memory `FakeController`.

use vstd::prelude::*;

verus! {

use crate::config::ServiceConfig;

/// The two signals the supervisor sends: a graceful terminate request and
/// a forceful kill.
#[derive(Debug, Clone, Copy, PartialEq, Eq, Structural)]
pub enum SignalKind {
    Terminate,
    Kill,
}

/// Capabilities the supervisor needs from its host: a clock, process
/// spawn/signal/liveness primitives, probe execution, and sleeping.
/// Nothing is promised of these calls — the supervisor states what holds of
/// its own state whatever they return.
pub trait ProcessController {
    /// A reading of the host's clock, in milliseconds.
    fn now_millis(&mut self) -> u64;

    /// Tries to start the configured command; `Some` carries the new
    /// process id, `None` means the spawn failed.
    fn spawn(&mut self, config: &ServiceConfig) -> Option<u32>;

    /// Delivers a signal to a process; delivery failures are tolerated,
    /// since the intent is only that the process be gone.
    fn signal(&mut self, pid: u32, kind: SignalKind);

    /// Whether a process with this id still exists.
    fn is_alive(&mut self, pid: u32) -> bool;

    /// Runs a health-probe command and reports whether it exited with
    /// status zero.
    fn run_probe(&mut self, command: &str) -> bool;

    /// Blocks for the given number of milliseconds.
    fn sleep_millis(&mut self, ms: u64);
}

/// One recorded action of the `FakeController`, in the order taken.
#[derive(Debug, Clone, Copy, PartialEq, Eq, Structural)]
pub enum FakeAction {
    Spawned(u32),
    SpawnFailed,
    Signaled(u32, SignalKind),
    Probed(bool),
    Slept(u64),
}

/// A scriptable in-memory controller that never touches real OS processes:
/// spawn and probe outcomes are read from scripts, liveness from a set of
/// live pids, and the clock only moves when the supervisor sleeps. Every
/// action is logged, so a test can check what the supervisor did and in
/// which order.
pub struct FakeController {
    /// The current clock reading, advanced by `sleep_millis`.
    pub clock_ms: u64,
    /// Pids the fake host currently considers alive.
    pub alive: Vec<u32>,
    /// Whether a terminate signal makes its target exit; a stubborn process
    /// ignores it and only a kill removes it.
    pub term_exits: bool,
    /// Scripted spawn outcomes, consumed front to back; an exhausted script
    /// fails further spawns.
    pub spawn_script: Vec<Option<u32>>,
    pub spawn_next: usize,
    /// Scripted probe outcomes, consumed front to back; an exhausted script
    /// fails further probes.
    pub probe_script: Vec<bool>,
    pub probe_next: usize,
    /// Everything the supervisor asked for, in order.
    pub actions: Vec<FakeAction>,
}

impl FakeController {
    /// A controller with empty scripts, nothing alive, and obedient
    /// processes.
    pub fn new() -> (r: FakeController)
        ensures
            r.clock_ms == 0,
            r.alive@.len() == 0,
            r.term_exits == true,
            r.spawn_script@.len() == 0,
            r.spawn_next == 0,
            r.probe_script@.len() == 0,
            r.probe_next == 0,
            r.actions@.len() == 0,
    {
        FakeController {
            clock_ms: 0,
            alive: Vec::new(),
            term_exits: true,
            spawn_script: Vec::new(),
            spawn_next: 0,
            probe_script: Vec::new(),
            probe_next: 0,
            actions: Vec::new(),
        }
    }

    /// Whether the fake host considers this pid alive.
    pub open spec fn spec_alive(self, pid: u32) -> bool {
        self.alive@.contains(pid)
    }

    fn remove_alive(&mut self, pid: u32)
        ensures
            !final(self).alive@.contains(pid),
            forall|q: u32|
                q != pid ==> (final(self).alive@.contains(q) == old(self).alive@.contains(q)),
            *final(self) == (FakeController { alive: final(self).alive, ..*old(self) }),
    {
        let mut kept: Vec<u32> = Vec::new();
        let n = self.alive.len();
        for i in 0..n
            invariant
                n == self.alive@.len(),
                forall|j: int| 0 <= j < kept@.len() ==> kept@[j] != pid,
                forall|q: u32|
                    q != pid ==> (kept@.contains(q) == self.alive@.take(i as int).contains(q)),
        {
            proof {
                assert(self.alive@.take(i + 1) =~= self.alive@.take(i as int).push(
                    self.alive@[i as int],
                ));
            }
            let ghost prev = kept@;
            if self.alive[i] != pid {
                kept.push(self.alive[i]);
            }
            proof {
                let ai = self.alive@[i as int];
                let taken = self.alive@.take(i + 1);
                assert(taken =~= self.alive@.take(i as int).push(ai));
                assert forall|q: u32| q != pid implies kept@.contains(q) == taken.contains(q) by {
                    if taken.contains(q) {
                        let w = choose|w: int| 0 <= w < taken.len() && taken[w] == q;
                        if w < i {
                            assert(self.alive@.take(i as int)[w] == q);
                            assert(self.alive@.take(i as int).contains(q));
                            assert(prev.contains(q));
                            let v = choose|v: int|
                                0 <= v < prev.len() && prev[v] == q;
                            assert(kept@[v] == q);
                        } else {
                            assert(ai == q);
                            assert(kept@[prev.len() as int] == q);
                        }
                        assert(kept@.contains(q));
                    }
                    if kept@.contains(q) {
                        let w = choose|w: int| 0 <= w < kept@.len() && kept@[w] == q;
                        if w < prev.len() {
                            assert(prev[w] == q);
                            assert(prev.contains(q));
                            let v = choose|v: int|
                                0 <= v < self.alive@.take(i as int).len() && self.alive@.take(
                                    i as int,
                                )[v] == q;
                            assert(taken[v] == q);
                        } else {
                            assert(taken[i as int] == q);
                        }
                        assert(taken.contains(q));
                    }
                }
            }
        }
        proof {
            assert(self.alive@.take(n as int) =~= self.alive@);
            if kept@.contains(pid) {
                let w = choose|w: int| 0 <= w < kept@.len() && kept@[w] == pid;
                assert(false);
            }
        }
        self.alive = kept;
    }
}

impl ProcessController for FakeController {
    /// The scripted clock: reading it does not change it.
    fn now_millis(&mut self) -> (r: u64)
        ensures
            r == old(self).clock_ms,
            *final(self) == *old(self),
    {
        self.clock_ms
    }

    /// Takes the next scripted spawn outcome; a successful spawn's pid
    /// becomes alive.
    fn spawn(&mut self, config: &ServiceConfig) -> (r: Option<u32>)
        ensures
            r == (if old(self).spawn_next < old(self).spawn_script@.len() {
                old(self).spawn_script@[old(self).spawn_next as int]
            } else {
                None::<u32>
            }),
    {
        if self.spawn_next < self.spawn_script.len() {
            let outcome = self.spawn_script[self.spawn_next];
            self.spawn_next = self.spawn_next + 1;
            match outcome {
                Some(p) => {
                    self.alive.push(p);
                    self.actions.push(FakeAction::Spawned(p));
                    Some(p)
                },
                None => {
                    self.actions.push(FakeAction::SpawnFailed);
                    None
                },
            }
        } else {
            self.actions.push(FakeAction::SpawnFailed);
            None
        }
    }

    /// Logs the signal; a kill always removes its target from the alive
    /// set, a terminate only when the scripted process obeys it.
    fn signal(&mut self, pid: u32, kind: SignalKind)
        ensures
            final(self).actions@ == old(self).actions@.push(FakeAction::Signaled(pid, kind)),
    {
        self.actions.push(FakeAction::Signaled(pid, kind));
        let removes = match kind {
            SignalKind::Kill => true,
            SignalKind::Terminate => self.term_exits,
        };
        if removes {
            self.remove_alive(pid);
        }
    }

    /// Membership in the scripted alive set; asking does not change it.
    fn is_alive(&mut self, pid: u32) -> (r: bool)
        ensures
            r == old(self).spec_alive(pid),
            *final(self) == *old(self),
    {
        let n = self.alive.len();
        for i in 0..n
            invariant
                n == self.alive@.len(),
                forall|j: int| 0 <= j < i ==> self.alive@[j] != pid,
        {
            if self.alive[i] == pid {
                return true;
            }
        }
        false
    }

    /// Takes the next scripted probe outcome.
    fn run_probe(&mut self, command: &str) -> (r: bool)
        ensures
            r == (if old(self).probe_next < old(self).probe_script@.len() {
                old(self).probe_script@[old(self).probe_next as int]
            } else {
                false
            }),
    {
        let outcome = if self.probe_next < self.probe_script.len() {
            let o = self.probe_script[self.probe_next];
            self.probe_next = self.probe_next + 1;
            o
        } else {
            false
        };
        self.actions.push(FakeAction::Probed(outcome));
        outcome
    }

    /// Advances the scripted clock by the requested time.
    fn sleep_millis(&mut self, ms: u64)
        ensures
            final(self).clock_ms == old(self).clock_ms.saturating_add(ms),
            final(self).actions@ == old(self).actions@.push(FakeAction::Slept(ms)),
    {
        self.clock_ms = self.clock_ms.saturating_add(ms);
        self.actions.push(FakeAction::Slept(ms));
    }
}

} // verus!
