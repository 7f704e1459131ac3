//! The process watchdog: a two-state liveness machine that ties this process's
//! lifetime to the backend process. Every poll observes whether the watched
//! identifier is still in the OS process table; the first observation of a
//! dead backend terminates the whole application with exit code 0.

use vstd::prelude::*;
use sysinfo::SystemExt;

verus! {

/// Seconds between two liveness polls.
pub const POLL_INTERVAL_SECS: u64 = 3;

#[derive(Clone, Copy, Debug, PartialEq, Eq, Structural)]
pub enum WatchdogState {
    /// The watched identifier was last observed alive.
    Monitoring,
    /// The watched identifier no longer resolves to a live process; the
    /// program is to end.
    Terminated,
}

/// What the runner must do after a poll: end the whole process with the given
/// exit code, or sleep the given number of seconds until the next poll.
#[derive(Clone, Copy, Debug, PartialEq, Eq, Structural)]
pub enum WatchdogAction {
    Exit(i32),
    Sleep(u64),
}

/// Relies on sysinfo's `System::new_all`, `SystemExt::refresh_processes` and
/// `SystemExt::process`: reads the OS process table and reports whether a
/// process with identifier `pid` is currently listed. The outcome depends on
/// the machine's state at the instant of the call, so nothing is promised of
/// it; a query that finds nothing reads as "absent".
#[verifier::external_body]
fn check_process(pid: u32) -> bool {
    let mut system = sysinfo::System::new_all();
    system.refresh_processes();
    system.process(sysinfo::Pid::from(pid as usize)).is_some()
}

/// The state the machine reaches after a run of liveness observations,
/// oldest first, starting from `Monitoring`. Once `Terminated`, later
/// observations change nothing.
pub open spec fn state_after(obs: Seq<bool>) -> WatchdogState
    decreases obs.len(),
{
    if obs.len() == 0 {
        WatchdogState::Monitoring
    } else if state_after(obs.drop_last()) == WatchdogState::Terminated {
        WatchdogState::Terminated
    } else if obs.last() {
        WatchdogState::Monitoring
    } else {
        WatchdogState::Terminated
    }
}

/// A watchdog that only ever observes the backend alive never leaves
/// `Monitoring`: it never terminates the process.
pub proof fn lemma_alive_never_terminates(obs: Seq<bool>)
    requires
        forall|i: int| 0 <= i < obs.len() ==> obs[i],
    ensures
        state_after(obs) == WatchdogState::Monitoring,
    decreases obs.len(),
{
    if obs.len() > 0 {
        assert(forall|i: int| 0 <= i < obs.drop_last().len() ==> obs.drop_last()[i]);
        lemma_alive_never_terminates(obs.drop_last());
    }
}

/// The first observation of a dead backend reaches `Terminated` at that very
/// poll: the machine terminates within one polling interval of the
/// disappearance.
pub proof fn lemma_death_terminates(obs: Seq<bool>, k: int)
    requires
        0 <= k < obs.len(),
        !obs[k],
    ensures
        state_after(obs.take(k + 1)) == WatchdogState::Terminated,
{
    let t = obs.take(k + 1);
    assert(t.len() == k + 1);
    assert(!t.last());
}

/// Once `Terminated`, the machine is `Terminated` after every longer run of
/// observations as well.
pub proof fn lemma_terminated_persists(obs: Seq<bool>, n: int, m: int)
    requires
        0 <= n <= m <= obs.len(),
        state_after(obs.take(n)) == WatchdogState::Terminated,
    ensures
        state_after(obs.take(m)) == WatchdogState::Terminated,
    decreases m - n,
{
    if m > n {
        lemma_terminated_persists(obs, n, m - 1);
        let t = obs.take(m);
        assert(t.drop_last() =~= obs.take(m - 1));
    }
}

/// The liveness watchdog for one backend process identifier.
pub struct Watchdog {
    /// The identifier supplied at launch; absent when the launcher runs
    /// standalone, in which case no polling happens at all.
    pub watched: Option<u32>,
    pub state: WatchdogState,
}

impl Watchdog {
    pub fn new(watched: Option<u32>) -> (w: Watchdog)
        ensures
            w.watched == watched,
            w.state == WatchdogState::Monitoring,
    {
        Watchdog { watched, state: WatchdogState::Monitoring }
    }

    /// Whether the watchdog has anything to watch: with no identifier it
    /// performs no checks and its execution unit exits immediately.
    pub fn enabled(&self) -> (b: bool)
        ensures
            b == (self.watched is Some),
    {
        self.watched.is_some()
    }

    /// One decision of the liveness machine on one observation: a live
    /// backend means sleep until the next poll, a dead one means end the
    /// whole process with exit code 0.
    pub fn step(&mut self, alive: bool) -> (a: WatchdogAction)
        requires
            old(self).state == WatchdogState::Monitoring,
        ensures
            final(self).watched == old(self).watched,
            alive ==> final(self).state == WatchdogState::Monitoring && a
                == WatchdogAction::Sleep(POLL_INTERVAL_SECS),
            !alive ==> final(self).state == WatchdogState::Terminated && a == WatchdogAction::Exit(
                0,
            ),
    {
        if alive {
            WatchdogAction::Sleep(POLL_INTERVAL_SECS)
        } else {
            self.state = WatchdogState::Terminated;
            WatchdogAction::Exit(0)
        }
    }

    /// One full poll: reads the process table for the watched identifier and
    /// steps the machine on the observation. The observation itself depends on
    /// the machine's state, so only the shape of every outcome is stated:
    /// either the backend was seen alive and the runner is to sleep one
    /// interval, or it was not and the runner is to end the process with
    /// exit code 0.
    pub fn poll(&mut self) -> (a: WatchdogAction)
        requires
            old(self).watched is Some,
            old(self).state == WatchdogState::Monitoring,
        ensures
            final(self).watched == old(self).watched,
            a == WatchdogAction::Sleep(POLL_INTERVAL_SECS) || a == WatchdogAction::Exit(0),
            (a == WatchdogAction::Exit(0)) <==> final(self).state == WatchdogState::Terminated,
            (a == WatchdogAction::Sleep(POLL_INTERVAL_SECS)) <==> final(self).state
                == WatchdogState::Monitoring,
    {
        let pid = self.watched.unwrap();
        let alive = check_process(pid);
        self.step(alive)
    }

    /// Drives the machine over a whole run of observations, oldest first,
    /// stopping at the first dead one; reports whether the run ended in
    /// termination. The final state is exactly `state_after` of the run.
    pub fn run(&mut self, observations: &Vec<bool>) -> (exited: bool)
        requires
            old(self).state == WatchdogState::Monitoring,
        ensures
            final(self).watched == old(self).watched,
            final(self).state == state_after(observations@),
            exited == (state_after(observations@) == WatchdogState::Terminated),
    {
        let n = observations.len();
        let mut i: usize = 0;
        while i < n
            invariant
                0 <= i <= n,
                n == observations@.len(),
                self.watched == old(self).watched,
                self.state == WatchdogState::Monitoring,
                state_after(observations@.take(i as int)) == WatchdogState::Monitoring,
            decreases n - i,
        {
            let a = self.step(observations[i]);
            proof {
                let t = observations@.take(i + 1);
                assert(t.drop_last() =~= observations@.take(i as int));
                assert(t.last() == observations@[i as int]);
            }
            if matches!(a, WatchdogAction::Exit(_)) {
                proof {
                    lemma_terminated_persists(observations@, i + 1, n as int);
                    assert(observations@.take(n as int) =~= observations@);
                }
                return true;
            }
            i = i + 1;
        }
        proof {
            assert(observations@.take(n as int) =~= observations@);
        }
        false
    }
}

/// The line the watchdog logs for one observation.
pub fn watchdog_message(alive: bool) -> (m: &'static str)
    ensures
        alive ==> m@ == "wox process is alive"@,
        !alive ==> m@ == "wox process is not alive, exit ui process"@,
{
    if alive {
        "wox process is alive"
    } else {
        "wox process is not alive, exit ui process"
    }
}

} // verus!
