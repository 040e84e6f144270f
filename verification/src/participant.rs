//! The three participant services: hotel, airline and bank.
//!
//! Each participant answers `Prepare`, `Commit` and `Abort` over its own
//! transaction log (see [`crate::transaction_log`]).  `Prepare` checks the
//! log first — a retried id answers its earlier acceptance without
//! re-evaluating business rules — then applies the participant's business
//! predicate: a client matching the participant's always-fail sentinel is
//! rejected (a fault-injection hook for testing).  `Commit` applies the
//! participant's business effect exactly once; repeated or out-of-order
//! `Commit` and `Abort` are no-ops.  Any other message kind is a protocol
//! violation that the caller must treat as fatal for the connection.

use crate::transaction::AlgloboTransaction;
use crate::transaction_log::{spec_abort, spec_commit, spec_prepare, TransactionLog};
use crate::transaction_message::TransactionMessage;
use vstd::prelude::*;

verus! {

/// A participant received a message kind that is not part of its protocol;
/// the connection must be torn down rather than answered.
#[derive(Clone, Copy, Debug, PartialEq, Eq, Structural)]
pub struct ProtocolViolation;

/// Client identifier on which the hotel always rejects a `Prepare`.
pub open spec fn spec_hotel_sentinel() -> Seq<char> {
    "falla_hotel"@
}

/// Client identifier on which the airline always rejects a `Prepare`.
pub open spec fn spec_airline_sentinel() -> Seq<char> {
    "falla_airline"@
}

/// Client identifier on which the bank always rejects a `Prepare`.
pub open spec fn spec_bank_sentinel() -> Seq<char> {
    "falla_banco"@
}

/// The hotel service: stores one reservation per committed transaction.
pub struct Hotel {
    /// Number of reservations stored so far.
    pub reservations: u32,
    /// Per-transaction status log; an accepted entry keeps the client name.
    pub transaction_log: TransactionLog<String>,
}

impl Hotel {
    /// Creates a hotel with no reservations and an empty log.
    pub fn new() -> (r: Self)
        ensures
            r.reservations == 0,
            r.transaction_log@ == Map::<u32, crate::transaction_log::TransactionState<
                String,
            >>::empty(),
    {
        Hotel { reservations: 0, transaction_log: TransactionLog::new() }
    }

    /// True when committing `transaction_id` would apply an effect that no
    /// longer fits the reservation counter — the caller-checkable guard of
    /// [`Self::handle`]'s precondition.
    pub fn commit_would_overflow(&self, transaction_id: u32) -> (r: bool)
        ensures
            r == (self.transaction_log@.contains_key(transaction_id)
                && self.transaction_log@[transaction_id] is Accepted && self.reservations
                == u32::MAX),
    {
        match self.transaction_log.get_accepted(transaction_id) {
            Some(_client) => self.reservations == u32::MAX,
            None => false,
        }
    }

    /// Answers one transaction message.
    ///
    /// `Prepare` answers idempotently for a logged id and otherwise accepts
    /// exactly the clients that do not match the hotel's sentinel; `Commit`
    /// stores one reservation if and only if the id was accepted and not yet
    /// resolved; `Abort` closes the id unconditionally; any other message is
    /// a protocol violation.
    pub fn handle(&mut self, msg: TransactionMessage) -> (r: Result<
        Option<bool>,
        ProtocolViolation,
    >)
        requires
            (old(self).transaction_log@.contains_key(msg->Commit_transaction_id) && old(
                self,
            ).transaction_log@[msg->Commit_transaction_id] is Accepted && msg is Commit) ==> old(
                self,
            ).reservations < u32::MAX,
        ensures
            msg is Response <==> r is Err,
            msg matches TransactionMessage::Prepare { transaction } ==> ({
                let (log1, answer) = spec_prepare(
                    old(self).transaction_log@,
                    transaction.id,
                    transaction.client,
                    transaction.client@ != spec_hotel_sentinel(),
                );
                &&& final(self).transaction_log@ == log1
                &&& r == Result::<Option<bool>, ProtocolViolation>::Ok(Some(answer))
                &&& final(self).reservations == old(self).reservations
            }),
            msg matches TransactionMessage::Abort { transaction_id } ==> ({
                &&& final(self).transaction_log@ == spec_abort(
                    old(self).transaction_log@,
                    transaction_id,
                )
                &&& r == Result::<Option<bool>, ProtocolViolation>::Ok(Some(true))
                &&& final(self).reservations == old(self).reservations
            }),
            msg matches TransactionMessage::Commit { transaction_id } ==> ({
                let (log1, effect) = spec_commit(old(self).transaction_log@, transaction_id);
                &&& final(self).transaction_log@ == log1
                &&& r == Result::<Option<bool>, ProtocolViolation>::Ok(Some(true))
                &&& final(self).reservations == if effect is Some {
                    old(self).reservations + 1
                } else {
                    old(self).reservations as int
                }
            }),
    {
        match msg {
            TransactionMessage::Prepare { transaction } => {
                let sentinel: String = "falla_hotel".to_owned();
                let accept = !(transaction.client == sentinel);
                let id = transaction.id;
                let answer = self.transaction_log.prepare(id, transaction.client, accept);
                Ok(Some(answer))
            },
            TransactionMessage::Abort { transaction_id } => {
                self.transaction_log.abort(transaction_id);
                Ok(Some(true))
            },
            TransactionMessage::Commit { transaction_id } => {
                if let Some(_client) = self.transaction_log.commit(transaction_id) {
                    self.reservations = self.reservations + 1;
                }
                Ok(Some(true))
            },
            TransactionMessage::Response { .. } => Err(ProtocolViolation),
        }
    }
}

/// The airline service: stores one reservation per committed transaction.
pub struct Airline {
    /// Number of reservations stored so far.
    pub reservations: u32,
    /// Per-transaction status log; an accepted entry keeps the client name.
    pub transaction_log: TransactionLog<String>,
}

impl Airline {
    /// Creates an airline with no reservations and an empty log.
    pub fn new() -> (r: Self)
        ensures
            r.reservations == 0,
            r.transaction_log@ == Map::<u32, crate::transaction_log::TransactionState<
                String,
            >>::empty(),
    {
        Airline { reservations: 0, transaction_log: TransactionLog::new() }
    }

    /// True when committing `transaction_id` would apply an effect that no
    /// longer fits the reservation counter — the caller-checkable guard of
    /// [`Self::handle`]'s precondition.
    pub fn commit_would_overflow(&self, transaction_id: u32) -> (r: bool)
        ensures
            r == (self.transaction_log@.contains_key(transaction_id)
                && self.transaction_log@[transaction_id] is Accepted && self.reservations
                == u32::MAX),
    {
        match self.transaction_log.get_accepted(transaction_id) {
            Some(_client) => self.reservations == u32::MAX,
            None => false,
        }
    }

    /// Answers one transaction message; see [`Hotel::handle`] — the airline
    /// behaves the same with its own sentinel and reservation count.
    pub fn handle(&mut self, msg: TransactionMessage) -> (r: Result<
        Option<bool>,
        ProtocolViolation,
    >)
        requires
            (old(self).transaction_log@.contains_key(msg->Commit_transaction_id) && old(
                self,
            ).transaction_log@[msg->Commit_transaction_id] is Accepted && msg is Commit) ==> old(
                self,
            ).reservations < u32::MAX,
        ensures
            msg is Response <==> r is Err,
            msg matches TransactionMessage::Prepare { transaction } ==> ({
                let (log1, answer) = spec_prepare(
                    old(self).transaction_log@,
                    transaction.id,
                    transaction.client,
                    transaction.client@ != spec_airline_sentinel(),
                );
                &&& final(self).transaction_log@ == log1
                &&& r == Result::<Option<bool>, ProtocolViolation>::Ok(Some(answer))
                &&& final(self).reservations == old(self).reservations
            }),
            msg matches TransactionMessage::Abort { transaction_id } ==> ({
                &&& final(self).transaction_log@ == spec_abort(
                    old(self).transaction_log@,
                    transaction_id,
                )
                &&& r == Result::<Option<bool>, ProtocolViolation>::Ok(Some(true))
                &&& final(self).reservations == old(self).reservations
            }),
            msg matches TransactionMessage::Commit { transaction_id } ==> ({
                let (log1, effect) = spec_commit(old(self).transaction_log@, transaction_id);
                &&& final(self).transaction_log@ == log1
                &&& r == Result::<Option<bool>, ProtocolViolation>::Ok(Some(true))
                &&& final(self).reservations == if effect is Some {
                    old(self).reservations + 1
                } else {
                    old(self).reservations as int
                }
            }),
    {
        match msg {
            TransactionMessage::Prepare { transaction } => {
                let sentinel: String = "falla_airline".to_owned();
                let accept = !(transaction.client == sentinel);
                let id = transaction.id;
                let answer = self.transaction_log.prepare(id, transaction.client, accept);
                Ok(Some(answer))
            },
            TransactionMessage::Abort { transaction_id } => {
                self.transaction_log.abort(transaction_id);
                Ok(Some(true))
            },
            TransactionMessage::Commit { transaction_id } => {
                if let Some(_client) = self.transaction_log.commit(transaction_id) {
                    self.reservations = self.reservations + 1;
                }
                Ok(Some(true))
            },
            TransactionMessage::Response { .. } => Err(ProtocolViolation),
        }
    }
}

/// The bank service: on commit, credits the hotel's and the airline's
/// accounts with the transaction's prices.
pub struct Bank {
    /// Funds credited to the hotel so far.
    pub hotel_account: u32,
    /// Funds credited to the airline so far.
    pub airline_account: u32,
    /// Per-transaction status log; an accepted entry keeps the whole record,
    /// whose prices the commit effect needs.
    pub transaction_log: TransactionLog<AlgloboTransaction>,
}

impl Bank {
    /// Creates a bank with empty accounts and an empty log.
    pub fn new() -> (r: Self)
        ensures
            r.hotel_account == 0,
            r.airline_account == 0,
            r.transaction_log@ == Map::<u32, crate::transaction_log::TransactionState<
                AlgloboTransaction,
            >>::empty(),
    {
        Bank { hotel_account: 0, airline_account: 0, transaction_log: TransactionLog::new() }
    }

    /// True when committing `transaction_id` would credit more than an
    /// account can hold — the caller-checkable guard of [`Self::handle`]'s
    /// precondition.
    pub fn commit_would_overflow(&self, transaction_id: u32) -> (r: bool)
        ensures
            r == (self.transaction_log@.contains_key(transaction_id)
                && self.transaction_log@[transaction_id] is Accepted && {
                let t = self.transaction_log@[transaction_id]->Accepted_data;
                self.hotel_account + t.hotel_price > u32::MAX || self.airline_account
                    + t.airline_price > u32::MAX
            }),
    {
        match self.transaction_log.get_accepted(transaction_id) {
            Some(record) => record.hotel_price > u32::MAX - self.hotel_account
                || record.airline_price > u32::MAX - self.airline_account,
            None => false,
        }
    }

    /// Answers one transaction message.
    ///
    /// `Prepare` answers idempotently for a logged id and otherwise accepts
    /// exactly the clients that do not match the bank's sentinel; `Commit`
    /// credits both accounts with the accepted record's prices, exactly
    /// once per id; `Abort` closes the id unconditionally; any other
    /// message is a protocol violation.
    pub fn handle(&mut self, msg: TransactionMessage) -> (r: Result<
        Option<bool>,
        ProtocolViolation,
    >)
        requires
            (old(self).transaction_log@.contains_key(msg->Commit_transaction_id) && old(
                self,
            ).transaction_log@[msg->Commit_transaction_id] is Accepted && msg is Commit) ==> ({
                let t = old(self).transaction_log@[msg->Commit_transaction_id]->Accepted_data;
                &&& old(self).hotel_account + t.hotel_price <= u32::MAX
                &&& old(self).airline_account + t.airline_price <= u32::MAX
            }),
        ensures
            msg is Response <==> r is Err,
            msg matches TransactionMessage::Prepare { transaction } ==> ({
                let (log1, answer) = spec_prepare(
                    old(self).transaction_log@,
                    transaction.id,
                    transaction,
                    transaction.client@ != spec_bank_sentinel(),
                );
                &&& final(self).transaction_log@ == log1
                &&& r == Result::<Option<bool>, ProtocolViolation>::Ok(Some(answer))
                &&& final(self).hotel_account == old(self).hotel_account
                &&& final(self).airline_account == old(self).airline_account
            }),
            msg matches TransactionMessage::Abort { transaction_id } ==> ({
                &&& final(self).transaction_log@ == spec_abort(
                    old(self).transaction_log@,
                    transaction_id,
                )
                &&& r == Result::<Option<bool>, ProtocolViolation>::Ok(Some(true))
                &&& final(self).hotel_account == old(self).hotel_account
                &&& final(self).airline_account == old(self).airline_account
            }),
            msg matches TransactionMessage::Commit { transaction_id } ==> ({
                let (log1, effect) = spec_commit(old(self).transaction_log@, transaction_id);
                &&& final(self).transaction_log@ == log1
                &&& r == Result::<Option<bool>, ProtocolViolation>::Ok(Some(true))
                &&& match effect {
                    Some(t) => {
                        &&& final(self).hotel_account == old(self).hotel_account + t.hotel_price
                        &&& final(self).airline_account == old(self).airline_account
                            + t.airline_price
                    },
                    None => {
                        &&& final(self).hotel_account == old(self).hotel_account
                        &&& final(self).airline_account == old(self).airline_account
                    },
                }
            }),
    {
        match msg {
            TransactionMessage::Prepare { transaction } => {
                let sentinel: String = "falla_banco".to_owned();
                let accept = !(transaction.client == sentinel);
                let id = transaction.id;
                let answer = self.transaction_log.prepare(id, transaction, accept);
                Ok(Some(answer))
            },
            TransactionMessage::Abort { transaction_id } => {
                self.transaction_log.abort(transaction_id);
                Ok(Some(true))
            },
            TransactionMessage::Commit { transaction_id } => {
                if let Some(record) = self.transaction_log.commit(transaction_id) {
                    self.hotel_account = self.hotel_account + record.hotel_price;
                    self.airline_account = self.airline_account + record.airline_price;
                }
                Ok(Some(true))
            },
            TransactionMessage::Response { .. } => Err(ProtocolViolation),
        }
    }
}

} // verus!
