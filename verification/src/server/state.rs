//! State the localhost API keeps besides configuration, jobs and pairing:
//! the health of the HTTP server itself, and the last discovery sweep with
//! the flag that collapses concurrent sweeps into one.
use crate::machine::models::DiscoveredMachine;
use crate::server::routes::Rejection;
use vstd::prelude::*;

verus! {

/// Fixed port of the bridge API, on loopback only.
pub const PORT: u16 = 17831;

/// Health of the embedded HTTP server, shown in the UI so that a port
/// conflict is visible instead of silently breaking Ember.
#[derive(Debug, Clone, PartialEq, Eq)]
pub struct ServerHealth {
    pub running: bool,
    pub port: u16,
    pub error: Option<String>,
}

impl ServerHealth {
    /// Before the server has tried to bind `port`.
    pub fn new(port: u16) -> (r: ServerHealth)
        ensures
            !r.running,
            r.port == port,
            r.error is None,
    {
        ServerHealth { running: false, port, error: None }
    }

    /// The listener is bound: running, with no error.
    pub fn mark_listening(&mut self)
        ensures
            final(self).running,
            final(self).error is None,
            final(self).port == old(self).port,
    {
        self.running = true;
        self.error = None;
    }

    /// The server could not start, or stopped: not running, with the reason.
    pub fn mark_failed(&mut self, message: String)
        ensures
            !final(self).running,
            final(self).error == Some(message),
            final(self).port == old(self).port,
    {
        self.running = false;
        self.error = Some(message);
    }
}

/// Result of the most recent discovery sweep, kept so that listing the
/// machines can answer at once.
pub struct DiscoveryCache {
    pub machines: Vec<DiscoveredMachine>,
    /// Milliseconds since the Unix epoch when the last sweep completed.
    pub completed_at_ms: Option<u64>,
    /// A sweep is under way.
    pub running: bool,
}

impl DiscoveryCache {
    /// No sweep yet.
    pub fn new() -> (r: DiscoveryCache)
        ensures
            r.machines@.len() == 0,
            r.completed_at_ms is None,
            !r.running,
    {
        DiscoveryCache { machines: Vec::new(), completed_at_ms: None, running: false }
    }

    /// Claim the sweep: refused while another one is running, so concurrent
    /// requests collapse into one.
    pub fn begin_sweep(&mut self) -> (r: Result<(), Rejection>)
        ensures
            (final(self).running, r) == spec_begin_sweep(old(self).running),
            final(self).machines@ == old(self).machines@,
            final(self).completed_at_ms == old(self).completed_at_ms,
    {
        if self.running {
            Err(Rejection::DiscoveryRunning)
        } else {
            self.running = true;
            Ok(())
        }
    }

    /// The sweep finished at `now_ms` with these machines.
    pub fn finish_sweep(&mut self, machines: Vec<DiscoveredMachine>, now_ms: u64)
        ensures
            final(self).machines@ == machines@,
            final(self).completed_at_ms == Some(now_ms),
            !final(self).running,
    {
        self.machines = machines;
        self.completed_at_ms = Some(now_ms);
        self.running = false;
    }

    /// The sweep was abandoned (the client went away): release the claim
    /// and keep the previous results.
    pub fn abandon_sweep(&mut self)
        ensures
            !final(self).running,
            final(self).machines@ == old(self).machines@,
            final(self).completed_at_ms == old(self).completed_at_ms,
    {
        self.running = false;
    }
}

/// Claiming a sweep when `running` says whether one is under way: the
/// flag afterwards, and the answer.
pub open spec fn spec_begin_sweep(running: bool) -> (bool, Result<(), Rejection>) {
    if running {
        (true, Err(Rejection::DiscoveryRunning))
    } else {
        (true, Ok(()))
    }
}

/// Only one sweep runs at a time: right after a claim, from any state,
/// a second claim is refused with `discovery_running`.
pub proof fn law_one_sweep_at_a_time(running: bool)
    ensures
        spec_begin_sweep(spec_begin_sweep(running).0).1 == Err::<(), Rejection>(
            Rejection::DiscoveryRunning,
        ),
{
}

} // verus!
