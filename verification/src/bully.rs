//! The bully leader-election state machine of one coordinator replica.
//!
//! Replica ids live in the fixed range `MIN_PEER_ID ..= MAX_PEER_ID`; the
//! highest live id always wins an election.  A replica starts an election by
//! broadcasting `Election` to every strictly higher id; a higher peer vetoes
//! with `Okay` and contends itself; a candidate whose election window
//! elapses with no veto declares itself by broadcasting `Coordinator`.
//!
//! This module is the decision core alone: every transition takes the
//! current instant and the inbound message as plain values and returns the
//! datagrams to send, so the surrounding process owns the socket, the clock
//! and the timer loop and is driven entirely by these functions.

use crate::control_message::{ControlMessage, PeerId};
use crate::leader_election::LeaderElection;
use vstd::prelude::*;

verus! {

/// Lowest replica id of the static membership range.
pub const MIN_PEER_ID: PeerId = 1;

/// Highest replica id of the static membership range.
pub const MAX_PEER_ID: PeerId = 30;

/// How long a candidate waits for a veto before declaring itself leader,
/// in milliseconds.
pub const LEADER_ELECTION_TIMEOUT_MS: u64 = 10000;

/// Period of the leader health check, and how long a follower waits for the
/// matching `Pong`, in milliseconds.
pub const LEADER_HEALTH_CHECK_TIMEOUT_MS: u64 = 1000;

/// Election phase of one replica.
#[derive(Clone, Copy, Debug, PartialEq, Eq, Structural)]
pub enum State {
    /// A leader is known (possibly this replica), nothing in flight.
    Idle,
    /// This replica broadcast an election and awaits vetoes.
    FindingLeader {
        /// Instant at which the election started, in milliseconds.
        since: u64,
    },
    /// A higher peer vetoed; awaiting its `Coordinator` announcement.
    WaitingForCoordinator,
}

impl State {
    /// A `FindingLeader` phase that starts at the given instant.
    pub fn finding_leader_now(now: u64) -> (r: Self)
        ensures
            r == (State::FindingLeader { since: now }),
    {
        State::FindingLeader { since: now }
    }
}

/// Election state of one replica, mutated only by the transitions below.
#[derive(Clone, Copy, Debug)]
pub struct BullyState {
    /// This replica's own id.
    pub id: PeerId,
    /// The currently believed leader; `None` while an election is in
    /// progress.  Readers that need a leader must wait until it is known.
    pub leader_id: Option<PeerId>,
    /// Sender of the last `Pong` since the current health check began.
    pub got_pong: Option<PeerId>,
    /// Permanent stop flag: the whole replica set was told there is no more
    /// work.
    pub stop: bool,
    /// Current election phase.
    pub current_state: State,
}

/// Ids of every peer strictly above `id`, ascending.
pub open spec fn spec_peers_above(id: PeerId) -> Seq<PeerId>
    recommends
        MIN_PEER_ID <= id <= MAX_PEER_ID,
{
    Seq::new((MAX_PEER_ID - id) as nat, |i: int| (id + 1 + i) as PeerId)
}

/// Ids of every peer strictly below `id`, ascending.
pub open spec fn spec_peers_below(id: PeerId) -> Seq<PeerId>
    recommends
        MIN_PEER_ID <= id <= MAX_PEER_ID,
{
    Seq::new((id - MIN_PEER_ID) as nat, |i: int| (MIN_PEER_ID + i) as PeerId)
}

/// Ids of every peer other than `id`, ascending.
pub open spec fn spec_peers_except(id: PeerId) -> Seq<PeerId>
    recommends
        MIN_PEER_ID <= id <= MAX_PEER_ID,
{
    spec_peers_below(id) + spec_peers_above(id)
}

/// The same message addressed to each of the given peers, in order.
pub open spec fn spec_broadcast(targets: Seq<PeerId>, msg: ControlMessage) -> Seq<
    (PeerId, ControlMessage),
> {
    targets.map_values(|p: PeerId| (p, msg))
}

/// True when the batch contains `msg` addressed to `to`.
pub open spec fn spec_sends_to(
    sends: Seq<(PeerId, ControlMessage)>,
    to: PeerId,
    msg: ControlMessage,
) -> bool {
    exists|i: int| 0 <= i < sends.len() && sends[i] == (to, msg)
}

/// What starting an election does: a no-op if one is already in flight,
/// else the known leader is cleared, the phase moves to `FindingLeader`,
/// and `Election` goes to every strictly higher peer.
pub open spec fn spec_election_start(s: BullyState, now: u64) -> (
    BullyState,
    Seq<(PeerId, ControlMessage)>,
) {
    if s.current_state is FindingLeader {
        (s, Seq::empty())
    } else {
        (
            BullyState {
                leader_id: None,
                current_state: State::FindingLeader { since: now },
                ..s
            },
            spec_broadcast(spec_peers_above(s.id), ControlMessage::Election),
        )
    }
}

/// What processing one inbound datagram does.
pub open spec fn spec_process_message(
    s: BullyState,
    message: ControlMessage,
    peer_from: PeerId,
    now: u64,
) -> (BullyState, Seq<(PeerId, ControlMessage)>) {
    match message {
        ControlMessage::Okay => {
            if s.current_state is FindingLeader {
                (BullyState { current_state: State::WaitingForCoordinator, ..s }, Seq::empty())
            } else {
                (s, Seq::empty())
            }
        },
        ControlMessage::Election => {
            if peer_from < s.id {
                let (s1, sends) = spec_election_start(s, now);
                (s1, seq![(peer_from, ControlMessage::Okay)] + sends)
            } else {
                (s, Seq::empty())
            }
        },
        ControlMessage::Coordinator => (
            BullyState { leader_id: Some(peer_from), current_state: State::Idle, ..s },
            Seq::empty(),
        ),
        ControlMessage::Ping => (s, seq![(peer_from, ControlMessage::Pong)]),
        ControlMessage::Pong => (BullyState { got_pong: Some(peer_from), ..s }, Seq::empty()),
        ControlMessage::GracefulQuit => (BullyState { stop: true, ..s }, Seq::empty()),
    }
}

/// What one timer tick does: a candidate whose election window elapsed with
/// no veto declares itself — it records itself as leader, returns to
/// `Idle`, and announces `Coordinator` to every other peer.
pub open spec fn spec_on_tick(s: BullyState, now: u64) -> (
    BullyState,
    Seq<(PeerId, ControlMessage)>,
) {
    match s.current_state {
        State::FindingLeader { since } => {
            if since <= now && now - since > LEADER_ELECTION_TIMEOUT_MS {
                (
                    BullyState { leader_id: Some(s.id), current_state: State::Idle, ..s },
                    spec_broadcast(spec_peers_except(s.id), ControlMessage::Coordinator),
                )
            } else {
                (s, Seq::empty())
            }
        },
        _ => (s, Seq::empty()),
    }
}

/// What a graceful quit does: the replica stops itself and tells every
/// other peer to stop.
pub open spec fn spec_graceful_quit(s: BullyState) -> (BullyState, Seq<(PeerId, ControlMessage)>) {
    (
        BullyState { stop: true, ..s },
        spec_broadcast(spec_peers_except(s.id), ControlMessage::GracefulQuit),
    )
}

/// What evaluating a finished health check does: a `Pong` from the believed
/// leader means it is healthy; anything else — no answer, or an answer from
/// an unexpected peer — starts a new election (a no-op if one is already in
/// flight).
pub open spec fn spec_health_check_eval(s: BullyState, now: u64) -> (
    BullyState,
    Seq<(PeerId, ControlMessage)>,
) {
    if s.got_pong is Some && s.got_pong == s.leader_id {
        (s, Seq::empty())
    } else {
        spec_election_start(s, now)
    }
}

impl BullyState {
    /// Well-formed replica state: the id lies in the membership range.
    pub open spec fn wf(&self) -> bool {
        MIN_PEER_ID <= self.id <= MAX_PEER_ID
    }

    /// Creates the state of a fresh replica: no known leader, no health
    /// check in flight, not stopped, idle.
    pub fn new(id: PeerId) -> (r: Self)
        requires
            MIN_PEER_ID <= id <= MAX_PEER_ID,
        ensures
            r == (BullyState {
                id,
                leader_id: None,
                got_pong: None,
                stop: false,
                current_state: State::Idle,
            }),
            r.wf(),
    {
        BullyState { id, leader_id: None, got_pong: None, stop: false, current_state: State::Idle }
    }

    /// The same message addressed to every peer strictly above this
    /// replica's id.
    fn broadcast_above(&self, msg: ControlMessage) -> (r: Vec<(PeerId, ControlMessage)>)
        requires
            self.wf(),
        ensures
            r@ == spec_broadcast(spec_peers_above(self.id), msg),
    {
        let ghost target = spec_broadcast(spec_peers_above(self.id), msg);
        let mut out: Vec<(PeerId, ControlMessage)> = Vec::new();
        let mut peer: PeerId = self.id + 1;
        while peer <= MAX_PEER_ID
            invariant
                self.wf(),
                self.id + 1 <= peer <= MAX_PEER_ID + 1,
                target == spec_broadcast(spec_peers_above(self.id), msg),
                out@ =~= target.take(peer - self.id - 1),
            decreases MAX_PEER_ID + 1 - peer,
        {
            out.push((peer, msg));
            peer = peer + 1;
            proof {
                assert(out@ =~= target.take(peer - self.id - 1));
            }
        }
        proof {
            assert(out@ =~= target);
        }
        out
    }

    /// The same message addressed to every peer other than this replica.
    fn broadcast_except(&self, msg: ControlMessage) -> (r: Vec<(PeerId, ControlMessage)>)
        requires
            self.wf(),
        ensures
            r@ == spec_broadcast(spec_peers_except(self.id), msg),
    {
        let ghost below = spec_broadcast(spec_peers_below(self.id), msg);
        let ghost above = spec_broadcast(spec_peers_above(self.id), msg);
        let mut out: Vec<(PeerId, ControlMessage)> = Vec::new();
        let mut peer: PeerId = MIN_PEER_ID;
        while peer < self.id
            invariant
                self.wf(),
                MIN_PEER_ID <= peer <= self.id,
                below == spec_broadcast(spec_peers_below(self.id), msg),
                out@ =~= below.take(peer - MIN_PEER_ID),
            decreases self.id - peer,
        {
            out.push((peer, msg));
            peer = peer + 1;
            proof {
                assert(out@ =~= below.take(peer - MIN_PEER_ID));
            }
        }
        proof {
            assert(out@ =~= below);
        }
        let mut rest = self.broadcast_above(msg);
        out.append(&mut rest);
        proof {
            assert(out@ =~= spec_broadcast(spec_peers_except(self.id), msg));
        }
        out
    }

    /// Processes one inbound datagram, answering and adjusting the election
    /// state as the message demands.
    pub fn process_message(
        &mut self,
        message: ControlMessage,
        peer_from: PeerId,
        now: u64,
    ) -> (sends: Vec<(PeerId, ControlMessage)>)
        requires
            old(self).wf(),
        ensures
            (*final(self), sends@) == spec_process_message(*old(self), message, peer_from, now),
            final(self).wf(),
    {
        match message {
            ControlMessage::Okay => {
                if let State::FindingLeader { .. } = self.current_state {
                    self.current_state = State::WaitingForCoordinator;
                }
                Vec::new()
            },
            ControlMessage::Election => {
                if peer_from < self.id {
                    let mut sends: Vec<(PeerId, ControlMessage)> = Vec::new();
                    sends.push((peer_from, ControlMessage::Okay));
                    let mut rest = self.find_new_leader(now);
                    sends.append(&mut rest);
                    proof {
                        assert(sends@ =~= seq![(peer_from, ControlMessage::Okay)]
                            + spec_election_start(*old(self), now).1);
                    }
                    sends
                } else {
                    Vec::new()
                }
            },
            ControlMessage::Coordinator => {
                self.leader_id = Some(peer_from);
                self.current_state = State::Idle;
                Vec::new()
            },
            ControlMessage::Ping => {
                let mut sends: Vec<(PeerId, ControlMessage)> = Vec::new();
                sends.push((peer_from, ControlMessage::Pong));
                proof {
                    assert(sends@ =~= seq![(peer_from, ControlMessage::Pong)]);
                }
                sends
            },
            ControlMessage::Pong => {
                self.got_pong = Some(peer_from);
                Vec::new()
            },
            ControlMessage::GracefulQuit => {
                self.stop = true;
                Vec::new()
            },
        }
    }

    /// One timer tick: finishes an election whose window elapsed with no
    /// veto by declaring this replica the leader.
    pub fn on_tick(&mut self, now: u64) -> (sends: Vec<(PeerId, ControlMessage)>)
        requires
            old(self).wf(),
        ensures
            (*final(self), sends@) == spec_on_tick(*old(self), now),
            final(self).wf(),
    {
        if let State::FindingLeader { since } = self.current_state {
            if since <= now && now - since > LEADER_ELECTION_TIMEOUT_MS {
                self.leader_id = Some(self.id);
                self.current_state = State::Idle;
                return self.broadcast_except(ControlMessage::Coordinator);
            }
        }
        Vec::new()
    }

    /// Begins a leader health check: forgets any earlier `Pong` and names
    /// the peer to ping — the believed leader.
    pub fn begin_health_check(&mut self) -> (target: PeerId)
        requires
            old(self).leader_id is Some,
        ensures
            *final(self) == (BullyState { got_pong: None, ..*old(self) }),
            Some(target) == old(self).leader_id,
    {
        self.got_pong = None;
        match self.leader_id {
            Some(leader) => leader,
            None => vstd::pervasive::unreached(),
        }
    }

    /// Evaluates a finished health check: a `Pong` from the believed leader
    /// means it is healthy; anything else starts a new election.
    pub fn evaluate_health_check(&mut self, now: u64) -> (sends: Vec<(PeerId, ControlMessage)>)
        requires
            old(self).wf(),
        ensures
            (*final(self), sends@) == spec_health_check_eval(*old(self), now),
            final(self).wf(),
    {
        let healthy = match (self.got_pong, self.leader_id) {
            (Some(pong_from), Some(leader)) => pong_from == leader,
            _ => false,
        };
        if healthy {
            Vec::new()
        } else {
            self.find_new_leader(now)
        }
    }
}

impl LeaderElection for BullyState {
    /// The replica id lies in the membership range.
    open spec fn inv(&self) -> bool {
        self.wf()
    }

    open spec fn spec_id(&self) -> PeerId {
        self.id
    }

    open spec fn spec_leader(&self) -> Option<PeerId> {
        self.leader_id
    }

    open spec fn spec_finished(&self) -> bool {
        self.stop
    }

    /// True when this replica is the current leader.  Callers must first
    /// wait until a leader is known: there is no "unknown" answer.
    fn is_leader(&self) -> (r: bool)
        ensures
            r == (self.leader_id == Some(self.id)),
    {
        match self.leader_id {
            Some(leader) => leader == self.id,
            None => vstd::pervasive::unreached(),
        }
    }

    /// Starts an election unless one is already in flight: clears the known
    /// leader, moves to `FindingLeader`, and asks every strictly higher
    /// peer to veto.
    fn find_new_leader(&mut self, now: u64) -> (sends: Vec<(PeerId, ControlMessage)>)
        ensures
            (*final(self), sends@) == spec_election_start(*old(self), now),
    {
        if let State::FindingLeader { .. } = self.current_state {
            return Vec::new();
        }
        self.current_state = State::finding_leader_now(now);
        self.leader_id = None;
        self.broadcast_above(ControlMessage::Election)
    }

    /// Stops this replica and tells every other peer there is no more work.
    fn graceful_quit(&mut self) -> (sends: Vec<(PeerId, ControlMessage)>)
        ensures
            (*final(self), sends@) == spec_graceful_quit(*old(self)),
    {
        self.stop = true;
        self.broadcast_except(ControlMessage::GracefulQuit)
    }

    /// True when the replica set was told there is no more work to do.
    fn has_finished(&self) -> (r: bool)
        ensures
            r == self.stop,
    {
        self.stop
    }

    /// This replica's own id.
    fn get_current_id(&self) -> (r: PeerId)
        ensures
            r == self.id,
    {
        self.id
    }
}

/// A broadcast to every peer other than `id` really addresses each such
/// peer once.
proof fn lemma_broadcast_except_covers(id: PeerId, p: PeerId, msg: ControlMessage)
    requires
        MIN_PEER_ID <= id <= MAX_PEER_ID,
        MIN_PEER_ID <= p <= MAX_PEER_ID,
        p != id,
    ensures
        spec_sends_to(spec_broadcast(spec_peers_except(id), msg), p, msg),
{
    let sends = spec_broadcast(spec_peers_except(id), msg);
    if p < id {
        let j = p - MIN_PEER_ID;
        assert(spec_peers_except(id)[j] == p);
        assert(sends[j] == (p, msg));
    } else {
        let j = (id - MIN_PEER_ID) + (p - id - 1);
        assert(spec_peers_except(id)[j] == p);
        assert(sends[j] == (p, msg));
    }
}

/// Vetoes flow only downwards: whatever datagram a replica processes, every
/// `Okay` it sends goes to the election's sender, whose id is strictly
/// below its own.  This is the bully rule that lets the highest live id
/// win: nobody can veto it.
pub proof fn lemma_okay_only_to_lower(
    s: BullyState,
    message: ControlMessage,
    peer_from: PeerId,
    now: u64,
)
    ensures
        ({
            let sends = spec_process_message(s, message, peer_from, now).1;
            forall|i: int|
                0 <= i < sends.len() && (#[trigger] sends[i]).1 == ControlMessage::Okay
                    ==> sends[i].0 == peer_from && sends[i].0 < s.id
        }),
{
    let sends = spec_process_message(s, message, peer_from, now).1;
    assert forall|i: int|
        0 <= i < sends.len() && (#[trigger] sends[i]).1 == ControlMessage::Okay implies sends[i].0
        == peer_from && sends[i].0 < s.id by {
        if message is Election && peer_from < s.id && i > 0 {
            assert(sends[i].1 == ControlMessage::Election);
        }
    }
}

/// An election start talks only upwards: every datagram it sends is an
/// `Election` addressed to a peer whose id is strictly above the sender's.
pub proof fn lemma_election_only_to_higher(s: BullyState, now: u64)
    requires
        s.wf(),
    ensures
        ({
            let sends = spec_election_start(s, now).1;
            forall|i: int|
                0 <= i < sends.len() ==> (#[trigger] sends[i]).0 > s.id && sends[i].1
                    == ControlMessage::Election
        }),
{
    let sends = spec_election_start(s, now).1;
    assert forall|i: int| 0 <= i < sends.len() implies (#[trigger] sends[i]).0 > s.id && sends[i].1
        == ControlMessage::Election by {
        assert(sends[i].0 == spec_peers_above(s.id)[i]);
    }
}

/// A candidate whose election window elapses with no veto becomes leader:
/// it records itself, returns to `Idle`, and announces `Coordinator` to
/// every other peer in the membership range.
pub proof fn lemma_election_timeout_elects_self(s: BullyState, since: u64, now: u64)
    requires
        s.wf(),
        s.current_state == (State::FindingLeader { since }),
        since <= now,
        now - since > LEADER_ELECTION_TIMEOUT_MS,
    ensures
        ({
            let (s1, sends) = spec_on_tick(s, now);
            &&& s1.leader_id == Some(s.id)
            &&& s1.current_state is Idle
            &&& forall|p: PeerId|
                MIN_PEER_ID <= p <= MAX_PEER_ID && p != s.id ==> spec_sends_to(
                    sends,
                    p,
                    ControlMessage::Coordinator,
                )
        }),
{
    let (s1, sends) = spec_on_tick(s, now);
    assert forall|p: PeerId| MIN_PEER_ID <= p <= MAX_PEER_ID && p != s.id implies spec_sends_to(
        sends,
        p,
        ControlMessage::Coordinator,
    ) by {
        lemma_broadcast_except_covers(s.id, p, ControlMessage::Coordinator);
    }
}

/// Bully convergence, one full election round: no replica whose id is at
/// most the highest live id ever vetoes it, so once the highest replica's
/// election window elapses it declares itself leader and addresses
/// `Coordinator` to every peer; and every replica that processes that
/// announcement — whatever phase it was in — records the same leader and
/// returns to `Idle`.  Lost datagrams from other peers cannot change this:
/// the declaration rests only on the absence of a veto.
pub proof fn lemma_bully_convergence(
    top: BullyState,
    follower: BullyState,
    since: u64,
    now: u64,
    later: u64,
)
    requires
        top.wf(),
        follower.wf(),
        follower.id != top.id,
        top.current_state == (State::FindingLeader { since }),
        since <= now,
        now - since > LEADER_ELECTION_TIMEOUT_MS,
    ensures
        forall|s: BullyState, m: ControlMessage, p: PeerId, t: u64|
            s.id <= top.id ==> !#[trigger] spec_sends_to(
                spec_process_message(s, m, p, t).1,
                top.id,
                ControlMessage::Okay,
            ),
        ({
            let (top1, announce) = spec_on_tick(top, now);
            let (follower1, _) = spec_process_message(
                follower,
                ControlMessage::Coordinator,
                top.id,
                later,
            );
            &&& top1.leader_id == Some(top.id)
            &&& top1.current_state is Idle
            &&& spec_sends_to(announce, follower.id, ControlMessage::Coordinator)
            &&& follower1.leader_id == Some(top.id)
            &&& follower1.current_state is Idle
        }),
{
    assert forall|s: BullyState, m: ControlMessage, p: PeerId, t: u64|
        s.id <= top.id implies !#[trigger] spec_sends_to(
        spec_process_message(s, m, p, t).1,
        top.id,
        ControlMessage::Okay,
    ) by {
        lemma_okay_only_to_lower(s, m, p, t);
        let sends = spec_process_message(s, m, p, t).1;
        if spec_sends_to(sends, top.id, ControlMessage::Okay) {
            let i = choose|i: int|
                0 <= i < sends.len() && sends[i] == (top.id, ControlMessage::Okay);
            assert(sends[i].1 == ControlMessage::Okay);
            assert(sends[i].0 < s.id);
        }
    }
    lemma_election_timeout_elects_self(top, since, now);
}

/// A lower candidacy is vetoed and abandoned: a higher replica that
/// processes a lower peer's `Election` sends it `Okay`, and a candidate
/// that processes such a veto gives up its own candidacy and waits for the
/// winner's announcement instead of declaring itself.
pub proof fn lemma_lower_candidacy_abandoned(lo: BullyState, hi: BullyState, now: u64, later: u64)
    requires
        lo.wf(),
        hi.wf(),
        lo.id < hi.id,
        lo.current_state is FindingLeader,
    ensures
        spec_sends_to(
            spec_process_message(hi, ControlMessage::Election, lo.id, now).1,
            lo.id,
            ControlMessage::Okay,
        ),
        spec_process_message(lo, ControlMessage::Okay, hi.id, later).0.current_state
            is WaitingForCoordinator,
{
    let sends = spec_process_message(hi, ControlMessage::Election, lo.id, now).1;
    assert(sends[0] == (lo.id, ControlMessage::Okay));
}

/// A follower that misses its leader's `Pong` — none arrived, or one came
/// from an unexpected peer — starts a new election at that very
/// evaluation: it clears the known leader, enters `FindingLeader`, and asks
/// every higher peer to veto.  (During an election already in flight the
/// evaluation is a re-entrant no-op.)
pub proof fn lemma_failed_health_check_starts_election(s: BullyState, now: u64)
    requires
        s.wf(),
        !(s.got_pong is Some && s.got_pong == s.leader_id),
        !(s.current_state is FindingLeader),
    ensures
        ({
            let (s1, sends) = spec_health_check_eval(s, now);
            &&& s1.current_state == (State::FindingLeader { since: now })
            &&& s1.leader_id is None
            &&& sends == spec_broadcast(spec_peers_above(s.id), ControlMessage::Election)
        }),
{
}

/// Graceful quit reaches everyone: the finishing replica stops itself and
/// addresses `GracefulQuit` to every other peer in the membership range,
/// and any replica that processes the datagram stops as well, whatever its
/// phase — `has_finished` then reports it on both sides.
pub proof fn lemma_graceful_quit_stops_all(
    s: BullyState,
    other: BullyState,
    peer_from: PeerId,
    now: u64,
)
    requires
        s.wf(),
        other.wf(),
        other.id != s.id,
    ensures
        spec_graceful_quit(s).0.stop,
        spec_sends_to(spec_graceful_quit(s).1, other.id, ControlMessage::GracefulQuit),
        spec_process_message(other, ControlMessage::GracefulQuit, peer_from, now).0.stop,
{
    lemma_broadcast_except_covers(s.id, other.id, ControlMessage::GracefulQuit);
}

} // verus!
