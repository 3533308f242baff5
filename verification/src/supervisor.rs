//! The connection supervisor.
//!
//! The supervisor runs forever: advertise, wait for a central, spawn one
//! event loop and one notification task for the accepted connection, then
//! advertise again. It bounds the number of concurrently active connections:
//! while the bound is reached, a newly connecting central is declined — not
//! queued — until one of the active connections completes; an advertising
//! failure is logged and retried immediately.

use vstd::prelude::*;

verus! {

/// Mathematical model of the supervisor: how many connections are active,
/// against the configured maximum.
pub ghost struct SupervisorModel {
    /// Currently active connections.
    pub active: nat,
    /// Configured maximum of concurrent connections.
    pub limit: nat,
}

impl SupervisorModel {
    /// The bound is positive and never exceeded.
    pub open spec fn wf(&self) -> bool {
        self.active <= self.limit && self.limit >= 1
    }
}

/// The model after one accept attempt, with whether it was accepted: a new
/// connection is taken exactly below the limit and declined at it.
pub open spec fn spec_accept(m: SupervisorModel) -> (SupervisorModel, bool) {
    if m.active < m.limit {
        (SupervisorModel { active: m.active + 1, ..m }, true)
    } else {
        (m, false)
    }
}

/// The model after one connection completed (its event loop exited).
pub open spec fn spec_close(m: SupervisorModel) -> SupervisorModel {
    if m.active > 0 {
        SupervisorModel { active: (m.active - 1) as nat, ..m }
    } else {
        m
    }
}

/// Accepting preserves the bound, succeeds exactly below the limit, and
/// changes nothing when it declines.
pub proof fn lemma_accept_preserves_bound(m: SupervisorModel)
    requires
        m.wf(),
    ensures
        spec_accept(m).0.wf(),
        spec_accept(m).1 <==> m.active < m.limit,
        !spec_accept(m).1 ==> spec_accept(m).0 == m,
{
}

/// A full supervisor declines every new connection until one of the active
/// connections completes; after one completes, the next central is accepted
/// again (advertising resumes usefully after a disconnect).
pub proof fn lemma_full_supervisor_blocks_until_release(m: SupervisorModel)
    requires
        m.wf(),
        m.active == m.limit,
    ensures
        !spec_accept(m).1,
        spec_accept(spec_close(m)).1,
{
}

/// What the radio reported back from one advertising round.
#[derive(Clone, Copy, Debug, PartialEq, Eq, Structural)]
pub enum AdvertiseOutcome {
    /// A central connected.
    Connected,
    /// Advertising failed in the radio or link layer; treated as transient.
    Failed,
}

/// What the supervisor does next.
#[derive(Clone, Copy, Debug, PartialEq, Eq, Structural)]
pub enum SupervisorAction {
    /// Spawn one event loop and one notification task for the new
    /// connection, then advertise again.
    SpawnConnection,
    /// Advertise again immediately, without spawning anything.
    RetryAdvertise,
}

/// The connection supervisor's bookkeeping.
pub struct ConnectionSupervisor {
    active: usize,
    limit: usize,
}

impl View for ConnectionSupervisor {
    type V = SupervisorModel;

    closed spec fn view(&self) -> SupervisorModel {
        SupervisorModel { active: self.active as nat, limit: self.limit as nat }
    }
}

impl ConnectionSupervisor {
    /// The bound is positive and never exceeded.
    pub open spec fn wf(&self) -> bool {
        self@.wf()
    }

    /// A supervisor for at most `limit` concurrent connections, none active
    /// yet.
    pub fn new(limit: usize) -> (s: ConnectionSupervisor)
        requires
            limit >= 1,
        ensures
            s.wf(),
            s@.active == 0,
            s@.limit == limit,
    {
        ConnectionSupervisor { active: 0, limit }
    }

    /// Whether a new connection would currently be accepted.
    pub fn can_accept(&self) -> (r: bool)
        ensures
            r <==> self@.active < self@.limit,
    {
        self.active < self.limit
    }

    /// Step the supervisor with one advertising round's outcome. A
    /// connected central is taken exactly when a slot is free — the
    /// supervisor then owns one more active connection — and declined at
    /// the limit; a failed round changes nothing. Either way the next
    /// action returns to advertising.
    pub fn step(&mut self, outcome: AdvertiseOutcome) -> (a: SupervisorAction)
        requires
            old(self).wf(),
        ensures
            final(self).wf(),
            a is SpawnConnection <==> (outcome is Connected && old(self)@.active
                < old(self)@.limit),
            outcome is Connected ==> (final(self)@, a is SpawnConnection) == spec_accept(
                old(self)@,
            ),
            outcome is Failed ==> final(self)@ == old(self)@,
    {
        match outcome {
            AdvertiseOutcome::Connected => {
                if self.active < self.limit {
                    self.active = self.active + 1;
                    SupervisorAction::SpawnConnection
                } else {
                    SupervisorAction::RetryAdvertise
                }
            },
            AdvertiseOutcome::Failed => SupervisorAction::RetryAdvertise,
        }
    }

    /// Note that one connection completed: its event loop observed the
    /// disconnect and exited, so its slot is free again.
    pub fn connection_closed(&mut self)
        requires
            old(self).wf(),
        ensures
            final(self).wf(),
            final(self)@ == spec_close(old(self)@),
    {
        if self.active > 0 {
            self.active = self.active - 1;
        }
    }

    /// How many connections are active.
    pub fn active_connections(&self) -> (n: usize)
        ensures
            n == self@.active,
    {
        self.active
    }

    /// The configured maximum of concurrent connections.
    pub fn connection_limit(&self) -> (n: usize)
        ensures
            n == self@.limit,
    {
        self.limit
    }
}

} // verus!
