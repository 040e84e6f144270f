//! Two-phase-commit orchestration for one transaction.
//!
//! For each transaction the coordinator prepares the hotel, the airline and
//! the bank in that fixed order, stopping at the first rejection.  On any
//! rejection it aborts exactly the participants that had already accepted —
//! in order, and never one that was not asked or that rejected — then
//! records a failure; when all three accept it commits all three in order
//! and records a success.  Each transaction is attempted at most once:
//! after the recording step the orchestrator is done.
//!
//! The orchestrator is a step machine: it names the next action to perform,
//! the surrounding process performs the I/O, and the answer to a `Prepare`
//! is fed back as a plain boolean.  A transport failure counts as a
//! rejection, so the machine needs no failure input of its own.

use crate::transaction::AlgloboTransaction;
use crate::transaction_message::TransactionMessage;
use vstd::prelude::*;

verus! {

/// The three participants, in the coordinator's fixed order.
#[derive(Clone, Copy, Debug, PartialEq, Eq, Structural)]
pub enum Entity {
    /// First to be prepared.
    Hotel,
    /// Second to be prepared.
    Airline,
    /// Last to be prepared.
    Bank,
}

/// The participant at the given position of the fixed order.
pub open spec fn spec_entity(i: int) -> Entity
    recommends
        0 <= i < 3,
{
    if i == 0 {
        Entity::Hotel
    } else if i == 1 {
        Entity::Airline
    } else {
        Entity::Bank
    }
}

/// One step the coordinator performs for the current transaction.
#[derive(Clone, Copy, Debug, PartialEq, Eq, Structural)]
pub enum TxAction {
    /// Send `Prepare` to the entity and await its response.
    Prepare(Entity),
    /// Send `Abort` to the entity.
    Abort(Entity),
    /// Send `Commit` to the entity.
    Commit(Entity),
    /// Append the transaction to the processed records and report its
    /// latency to the statistics collector.
    RecordSuccess,
    /// Append the transaction to the failed records.
    RecordFailure,
}

/// Where the coordinator stands in the protocol for one transaction.
#[derive(Clone, Copy, Debug, PartialEq, Eq, Structural)]
pub enum TxPhase {
    /// Awaiting the answer to `Prepare` of the entity at position `idx`;
    /// all earlier entities accepted.
    Preparing {
        /// Position of the entity being prepared, `0 ..= 2`.
        idx: u8,
    },
    /// A rejection happened: aborting the `count` entities that accepted.
    Aborting {
        /// Position of the entity to abort next.
        idx: u8,
        /// How many entities accepted before the rejection, `1 ..= 2`.
        count: u8,
    },
    /// All three accepted: committing them in order.
    Committing {
        /// Position of the entity to commit next, `0 ..= 2`.
        idx: u8,
    },
    /// Sending the outcome to the result sinks.
    Recording {
        /// Whether the transaction committed.
        success: bool,
    },
    /// Finished; nothing more to do for this transaction.
    Done {
        /// Whether the transaction committed.
        success: bool,
    },
}

/// Phases the machine can actually reach: all positions in range.
pub open spec fn spec_phase_wf(p: TxPhase) -> bool {
    match p {
        TxPhase::Preparing { idx } => idx < 3,
        TxPhase::Aborting { idx, count } => idx < count && 1 <= count <= 2,
        TxPhase::Committing { idx } => idx < 3,
        TxPhase::Recording { .. } => true,
        TxPhase::Done { .. } => true,
    }
}

/// The action the coordinator performs next in the given phase, or nothing
/// when the transaction is done.
pub open spec fn spec_next_action(p: TxPhase) -> Option<TxAction> {
    match p {
        TxPhase::Preparing { idx } => Some(TxAction::Prepare(spec_entity(idx as int))),
        TxPhase::Aborting { idx, count } => Some(TxAction::Abort(spec_entity(idx as int))),
        TxPhase::Committing { idx } => Some(TxAction::Commit(spec_entity(idx as int))),
        TxPhase::Recording { success } => Some(
            if success {
                TxAction::RecordSuccess
            } else {
                TxAction::RecordFailure
            },
        ),
        TxPhase::Done { .. } => None,
    }
}

/// Where the machine moves after a participant answers `Prepare`: onwards
/// to the next participant or to the commits on acceptance; to the aborts
/// of exactly the participants that accepted, or straight to the failure
/// record, on rejection.
pub open spec fn spec_step_prepare(p: TxPhase, accepted: bool) -> TxPhase
    recommends
        p is Preparing,
{
    let idx = p->Preparing_idx;
    if accepted {
        if idx < 2 {
            TxPhase::Preparing { idx: (idx + 1) as u8 }
        } else {
            TxPhase::Committing { idx: 0 }
        }
    } else {
        if idx == 0 {
            TxPhase::Recording { success: false }
        } else {
            TxPhase::Aborting { idx: 0, count: idx }
        }
    }
}

/// Where the machine moves after a step that needs no answer.
pub open spec fn spec_step_auto(p: TxPhase) -> TxPhase
    recommends
        !(p is Preparing) && !(p is Done),
{
    match p {
        TxPhase::Aborting { idx, count } => {
            if idx + 1 < count {
                TxPhase::Aborting { idx: (idx + 1) as u8, count }
            } else {
                TxPhase::Recording { success: false }
            }
        },
        TxPhase::Committing { idx } => {
            if idx < 2 {
                TxPhase::Committing { idx: (idx + 1) as u8 }
            } else {
                TxPhase::Recording { success: true }
            }
        },
        TxPhase::Recording { success } => TxPhase::Done { success },
        _ => p,
    }
}

/// Upper bound on the steps left from a phase; every transition shrinks it.
pub open spec fn spec_phase_measure(p: TxPhase) -> nat {
    match p {
        TxPhase::Preparing { idx } => (10 - (idx % 3)) as nat,
        TxPhase::Aborting { idx, count } => (6 - (idx % 3)) as nat,
        TxPhase::Committing { idx } => (5 - (idx % 3)) as nat,
        TxPhase::Recording { .. } => 2,
        TxPhase::Done { .. } => 0,
    }
}

/// Every action the machine performs from phase `p` to the end, given each
/// participant's answer to `Prepare`; answers of participants that are
/// never asked are ignored.
pub open spec fn spec_run_from(p: TxPhase, hotel_ok: bool, airline_ok: bool, bank_ok: bool) -> Seq<
    TxAction,
>
    decreases spec_phase_measure(p),
{
    if !spec_phase_wf(p) {
        Seq::empty()
    } else {
        match spec_next_action(p) {
            None => Seq::empty(),
            Some(action) => {
                let next = if p is Preparing {
                    let answer = if p->Preparing_idx == 0 {
                        hotel_ok
                    } else if p->Preparing_idx == 1 {
                        airline_ok
                    } else {
                        bank_ok
                    };
                    spec_step_prepare(p, answer)
                } else {
                    spec_step_auto(p)
                };
                seq![action] + spec_run_from(next, hotel_ok, airline_ok, bank_ok)
            },
        }
    }
}

/// The coordinator's whole script for one transaction, as the three answers
/// dictate it.
pub open spec fn spec_transaction_trace(hotel_ok: bool, airline_ok: bool, bank_ok: bool) -> Seq<
    TxAction,
> {
    if !hotel_ok {
        seq![TxAction::Prepare(Entity::Hotel), TxAction::RecordFailure]
    } else if !airline_ok {
        seq![
            TxAction::Prepare(Entity::Hotel),
            TxAction::Prepare(Entity::Airline),
            TxAction::Abort(Entity::Hotel),
            TxAction::RecordFailure,
        ]
    } else if !bank_ok {
        seq![
            TxAction::Prepare(Entity::Hotel),
            TxAction::Prepare(Entity::Airline),
            TxAction::Prepare(Entity::Bank),
            TxAction::Abort(Entity::Hotel),
            TxAction::Abort(Entity::Airline),
            TxAction::RecordFailure,
        ]
    } else {
        seq![
            TxAction::Prepare(Entity::Hotel),
            TxAction::Prepare(Entity::Airline),
            TxAction::Prepare(Entity::Bank),
            TxAction::Commit(Entity::Hotel),
            TxAction::Commit(Entity::Airline),
            TxAction::Commit(Entity::Bank),
            TxAction::RecordSuccess,
        ]
    }
}

/// A full run of the step machine performs exactly the script that the
/// three answers dictate: the machine and the trace agree on every input.
pub proof fn lemma_run_yields_trace(hotel_ok: bool, airline_ok: bool, bank_ok: bool)
    ensures
        spec_run_from(TxPhase::Preparing { idx: 0 }, hotel_ok, airline_ok, bank_ok)
            == spec_transaction_trace(hotel_ok, airline_ok, bank_ok),
{
    reveal_with_fuel(spec_run_from, 9);
    assert(spec_run_from(TxPhase::Preparing { idx: 0 }, hotel_ok, airline_ok, bank_ok)
        =~= spec_transaction_trace(hotel_ok, airline_ok, bank_ok));
}

/// The script respects two-phase commit: `Abort` goes only to participants
/// that accepted their `Prepare`, never to the bank (nothing is prepared
/// after it); the commits happen exactly when all three accepted, and then
/// no abort happens at all; and every run ends with exactly one outcome
/// record.
pub proof fn lemma_trace_respects_two_phase(hotel_ok: bool, airline_ok: bool, bank_ok: bool)
    ensures
        ({
            let trace = spec_transaction_trace(hotel_ok, airline_ok, bank_ok);
            &&& !trace.contains(TxAction::Abort(Entity::Bank))
            &&& trace.contains(TxAction::Abort(Entity::Hotel)) ==> hotel_ok && !(airline_ok
                && bank_ok)
            &&& trace.contains(TxAction::Abort(Entity::Airline)) ==> (hotel_ok && airline_ok
                && !bank_ok)
            &&& trace.contains(TxAction::RecordSuccess) <==> (hotel_ok && airline_ok && bank_ok)
            &&& trace.contains(TxAction::Commit(Entity::Hotel)) <==> (hotel_ok && airline_ok
                && bank_ok)
            &&& (hotel_ok && airline_ok && bank_ok) ==> !trace.contains(
                TxAction::Abort(Entity::Hotel),
            ) && !trace.contains(TxAction::Abort(Entity::Airline))
            &&& trace.contains(TxAction::RecordSuccess) ==> !trace.contains(
                TxAction::RecordFailure,
            )
        }),
{
    let trace = spec_transaction_trace(hotel_ok, airline_ok, bank_ok);
    if !hotel_ok {
        assert(trace[1] == TxAction::RecordFailure);
        assert(forall|i: int| 0 <= i < trace.len() ==> !(#[trigger] trace[i] is Abort));
        assert(forall|i: int|
            0 <= i < trace.len() ==> trace[i] != TxAction::RecordSuccess && !(#[trigger] trace[i]
                is Commit));
    } else if !airline_ok {
        assert(forall|i: int|
            0 <= i < trace.len() ==> (#[trigger] trace[i] is Abort ==> trace[i]
                == TxAction::Abort(Entity::Hotel)));
        assert(trace.contains(TxAction::Abort(Entity::Hotel))) by {
            assert(trace[2] == TxAction::Abort(Entity::Hotel));
        }
        assert(forall|i: int|
            0 <= i < trace.len() ==> trace[i] != TxAction::RecordSuccess && !(#[trigger] trace[i]
                is Commit));
    } else if !bank_ok {
        assert(forall|i: int|
            0 <= i < trace.len() ==> (#[trigger] trace[i] is Abort ==> trace[i]
                == TxAction::Abort(Entity::Hotel) || trace[i] == TxAction::Abort(Entity::Airline)));
        assert(trace.contains(TxAction::Abort(Entity::Airline))) by {
            assert(trace[4] == TxAction::Abort(Entity::Airline));
        }
        assert(forall|i: int|
            0 <= i < trace.len() ==> trace[i] != TxAction::RecordSuccess && !(#[trigger] trace[i]
                is Commit));
    } else {
        assert(forall|i: int| 0 <= i < trace.len() ==> !(#[trigger] trace[i] is Abort));
        assert(trace.contains(TxAction::RecordSuccess)) by {
            assert(trace[6] == TxAction::RecordSuccess);
        }
        assert(trace.contains(TxAction::Commit(Entity::Hotel))) by {
            assert(trace[3] == TxAction::Commit(Entity::Hotel));
        }
        assert(forall|i: int|
            0 <= i < trace.len() ==> (#[trigger] trace[i]) != TxAction::RecordFailure);
    }
}

/// The participant at the given position of the fixed order.
fn entity_at(idx: u8) -> (r: Entity)
    requires
        idx < 3,
    ensures
        r == spec_entity(idx as int),
{
    if idx == 0 {
        Entity::Hotel
    } else if idx == 1 {
        Entity::Airline
    } else {
        Entity::Bank
    }
}

/// Drives one transaction through two-phase commit, one step at a time.
pub struct TxOrchestrator {
    /// The transaction being driven.
    pub transaction: AlgloboTransaction,
    /// Where the coordinator stands for it.
    pub phase: TxPhase,
}

impl TxOrchestrator {
    /// Reachable orchestrator states.
    pub open spec fn wf(&self) -> bool {
        spec_phase_wf(self.phase)
    }

    /// Starts the protocol for one transaction: the hotel is asked first.
    pub fn new(transaction: AlgloboTransaction) -> (r: Self)
        ensures
            r.phase == (TxPhase::Preparing { idx: 0 }),
            r.transaction == transaction,
            r.wf(),
    {
        TxOrchestrator { transaction, phase: TxPhase::Preparing { idx: 0 } }
    }

    /// The next action to perform, or `None` when the transaction is done.
    pub fn next_action(&self) -> (r: Option<TxAction>)
        requires
            self.wf(),
        ensures
            r == spec_next_action(self.phase),
    {
        match self.phase {
            TxPhase::Preparing { idx } => Some(TxAction::Prepare(entity_at(idx))),
            TxPhase::Aborting { idx, count } => Some(TxAction::Abort(entity_at(idx))),
            TxPhase::Committing { idx } => Some(TxAction::Commit(entity_at(idx))),
            TxPhase::Recording { success } => Some(
                if success {
                    TxAction::RecordSuccess
                } else {
                    TxAction::RecordFailure
                },
            ),
            TxPhase::Done { .. } => None,
        }
    }

    /// Feeds back a participant's answer to the pending `Prepare`; a
    /// transport failure must be fed back as a rejection.
    pub fn on_prepare_answer(&mut self, accepted: bool)
        requires
            old(self).wf(),
            old(self).phase is Preparing,
        ensures
            final(self).phase == spec_step_prepare(old(self).phase, accepted),
            final(self).transaction == old(self).transaction,
            final(self).wf(),
    {
        let idx = match self.phase {
            TxPhase::Preparing { idx } => idx,
            _ => vstd::pervasive::unreached(),
        };
        self.phase = if accepted {
            if idx < 2 {
                TxPhase::Preparing { idx: idx + 1 }
            } else {
                TxPhase::Committing { idx: 0 }
            }
        } else {
            if idx == 0 {
                TxPhase::Recording { success: false }
            } else {
                TxPhase::Aborting { idx: 0, count: idx }
            }
        };
    }

    /// Moves past the current action when it needs no answer (an abort, a
    /// commit, or the outcome record).
    pub fn advance(&mut self)
        requires
            old(self).wf(),
            !(old(self).phase is Preparing),
            !(old(self).phase is Done),
        ensures
            final(self).phase == spec_step_auto(old(self).phase),
            final(self).transaction == old(self).transaction,
            final(self).wf(),
    {
        self.phase = match self.phase {
            TxPhase::Aborting { idx, count } => {
                if idx + 1 < count {
                    TxPhase::Aborting { idx: idx + 1, count }
                } else {
                    TxPhase::Recording { success: false }
                }
            },
            TxPhase::Committing { idx } => {
                if idx < 2 {
                    TxPhase::Committing { idx: idx + 1 }
                } else {
                    TxPhase::Recording { success: true }
                }
            },
            TxPhase::Recording { success } => TxPhase::Done { success },
            _ => vstd::pervasive::unreached(),
        };
    }

    /// The wire message that performs the given action, or `None` for the
    /// recording actions, which talk to the result sinks instead.
    pub fn message_for(&self, action: TxAction) -> (r: Option<TransactionMessage>)
        ensures
            match action {
                TxAction::Prepare(_) => r matches Some(m) && (m
                    matches TransactionMessage::Prepare { transaction } && transaction.eqv(
                    self.transaction,
                )),
                TxAction::Abort(_) => r == Some(
                    TransactionMessage::Abort { transaction_id: self.transaction.id },
                ),
                TxAction::Commit(_) => r == Some(
                    TransactionMessage::Commit { transaction_id: self.transaction.id },
                ),
                TxAction::RecordSuccess => r is None,
                TxAction::RecordFailure => r is None,
            },
    {
        match action {
            TxAction::Prepare(_) => Some(
                TransactionMessage::Prepare { transaction: self.transaction.duplicate() },
            ),
            TxAction::Abort(_) => Some(
                TransactionMessage::Abort { transaction_id: self.transaction.id },
            ),
            TxAction::Commit(_) => Some(
                TransactionMessage::Commit { transaction_id: self.transaction.id },
            ),
            TxAction::RecordSuccess => None,
            TxAction::RecordFailure => None,
        }
    }
}

} // verus!
