//! The strategy interface between replication and leader election.
//!
//! A leader-election strategy decides which coordinator replica is active.
//! The replication layer (see [`crate::replication`]) only asks whether this
//! replica leads, starts elections, and spreads the stop signal; the bully
//! strategy of [`crate::bully`] implements this trait.  Blocking — waiting
//! until a leader is known, sleeping between health checks — belongs to the
//! process that drives the strategy, which also sends the returned
//! datagrams; the strategy itself never blocks.

use crate::control_message::{ControlMessage, PeerId};
use vstd::prelude::*;

verus! {

/// A leader-election strategy for one coordinator replica.
pub trait LeaderElection: Sized {
    /// Invariant of every reachable strategy state.
    spec fn inv(&self) -> bool;

    /// This replica's own id.
    spec fn spec_id(&self) -> PeerId;

    /// The currently believed leader; `None` while an election is in
    /// progress.
    spec fn spec_leader(&self) -> Option<PeerId>;

    /// Whether the replica set was told there is no more work to do.
    spec fn spec_finished(&self) -> bool;

    /// True when this replica is the current leader.  May be asked only
    /// once a leader is known: there is no "unknown" answer, callers wait
    /// instead.
    fn is_leader(&self) -> (r: bool)
        requires
            self.inv(),
            self.spec_leader() is Some,
        ensures
            r == (self.spec_leader() == Some(self.spec_id())),
    ;

    /// Starts an election for a new leader, re-entrantly: a no-op while one
    /// is already in flight.  The returned datagrams must be sent to their
    /// peers.
    fn find_new_leader(&mut self, now: u64) -> (sends: Vec<(PeerId, ControlMessage)>)
        requires
            old(self).inv(),
        ensures
            final(self).inv(),
            final(self).spec_id() == old(self).spec_id(),
            final(self).spec_finished() == old(self).spec_finished(),
    ;

    /// Stops this replica — there is no more work — and returns the
    /// datagrams that tell every other replica to stop too.
    fn graceful_quit(&mut self) -> (sends: Vec<(PeerId, ControlMessage)>)
        requires
            old(self).inv(),
        ensures
            final(self).inv(),
            final(self).spec_finished(),
            final(self).spec_id() == old(self).spec_id(),
    ;

    /// True when there is no more work to do.
    fn has_finished(&self) -> (r: bool)
        requires
            self.inv(),
        ensures
            r == self.spec_finished(),
    ;

    /// This replica's own id.
    fn get_current_id(&self) -> (r: PeerId)
        requires
            self.inv(),
        ensures
            r == self.spec_id(),
    ;
}

} // verus!
