//! Replication of the coordinator over a leader-election strategy.
//!
//! Every coordinator replica wraps its election strategy in a
//! `Replication`; only the replica whose strategy says it leads drains the
//! transaction queue, and the one that finishes the queue spreads the stop
//! signal.  The blocking wait until this replica is promoted — sleeping,
//! pinging the leader, evaluating the health check — is the driving
//! process's loop over the strategy's health-check steps; everything it
//! decides with is stated here and in [`crate::leader_election`].

use crate::control_message::{ControlMessage, PeerId};
use crate::leader_election::LeaderElection;
use vstd::prelude::*;

verus! {

/// One coordinator replica's view of who leads and whether work remains.
pub struct Replication<L: LeaderElection> {
    /// The election strategy that decides the active leader.
    pub leader_election_strategy: L,
}

impl<L: LeaderElection> Replication<L> {
    /// Wraps an election strategy.
    pub fn new(leader_election_strategy: L) -> (r: Self)
        ensures
            r.leader_election_strategy == leader_election_strategy,
    {
        Replication { leader_election_strategy }
    }

    /// True when this replica is the current leader.  May be asked only
    /// once a leader is known; the driving process waits for one first.
    pub fn is_leader(&self) -> (r: bool)
        requires
            self.leader_election_strategy.inv(),
            self.leader_election_strategy.spec_leader() is Some,
        ensures
            r == (self.leader_election_strategy.spec_leader() == Some(
                self.leader_election_strategy.spec_id(),
            )),
    {
        self.leader_election_strategy.is_leader()
    }

    /// True when there is no more work to do.
    pub fn has_finished(&self) -> (r: bool)
        requires
            self.leader_election_strategy.inv(),
        ensures
            r == self.leader_election_strategy.spec_finished(),
    {
        self.leader_election_strategy.has_finished()
    }

    /// Tells every replica there is no more work to do; the returned
    /// datagrams must be sent to their peers.
    pub fn graceful_quit(&mut self) -> (sends: Vec<(PeerId, ControlMessage)>)
        requires
            old(self).leader_election_strategy.inv(),
        ensures
            final(self).leader_election_strategy.inv(),
            final(self).leader_election_strategy.spec_finished(),
            final(self).leader_election_strategy.spec_id() == old(
                self,
            ).leader_election_strategy.spec_id(),
    {
        self.leader_election_strategy.graceful_quit()
    }

    /// This replica's own id.
    pub fn get_current_id(&self) -> (r: PeerId)
        requires
            self.leader_election_strategy.inv(),
        ensures
            r == self.leader_election_strategy.spec_id(),
    {
        self.leader_election_strategy.get_current_id()
    }
}

} // verus!
