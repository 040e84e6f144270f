//! The per-transaction status log kept by every participant.
//!
//! The log maps each transaction id to its current state.  An entry is
//! created by a successful `Prepare` and is terminal-monotone afterwards:
//! `Accepted` may move to `Commit` or `Abort`, and both of those are sticky.
//! The log is the anchor of idempotent retries: repeating `Prepare` for a
//! logged id answers without touching the log, and repeating `Commit` or
//! `Abort` never applies a business effect twice.

use std::collections::HashMap;
use vstd::prelude::*;
use vstd::std_specs::hash::{builds_valid_hashers, group_hash_axioms, obeys_key_model};

verus! {

broadcast use group_hash_axioms;

/// State of one transaction id in a participant's log.
pub enum TransactionState<T> {
    /// Prepared but not yet resolved; keeps the data needed to apply the
    /// business effect on commit.
    Accepted {
        /// What the participant must apply if the transaction commits.
        data: T,
    },
    /// Finalized with no effect.
    Abort,
    /// Finalized; the business effect has been applied exactly once.
    Commit,
}

/// What `prepare` does to a log: a logged id answers its earlier acceptance
/// without mutation; an unlogged id is accepted (and logged) or rejected as
/// the business predicate decided.
pub open spec fn spec_prepare<T>(
    log: Map<u32, TransactionState<T>>,
    id: u32,
    data: T,
    accept: bool,
) -> (Map<u32, TransactionState<T>>, bool) {
    if log.contains_key(id) {
        (log, true)
    } else if accept {
        (log.insert(id, TransactionState::Accepted { data }), true)
    } else {
        (log, false)
    }
}

/// What `abort` does to a log: the id is closed unconditionally, even if it
/// was never prepared.
pub open spec fn spec_abort<T>(
    log: Map<u32, TransactionState<T>>,
    id: u32,
) -> Map<u32, TransactionState<T>> {
    log.insert(id, TransactionState::Abort)
}

/// What `commit` does to a log: an `Accepted` entry is finalized and its
/// data handed out to be applied exactly once; any other state — already
/// committed, aborted, or never prepared — is a no-op with no effect.
pub open spec fn spec_commit<T>(log: Map<u32, TransactionState<T>>, id: u32) -> (
    Map<u32, TransactionState<T>>,
    Option<T>,
) {
    if log.contains_key(id) && log[id] is Accepted {
        (log.insert(id, TransactionState::Commit), Some(log[id]->Accepted_data))
    } else {
        (log, None)
    }
}

/// Preparing the same id twice yields the same answer both times, and the
/// second attempt leaves the log exactly as the first left it, so the log
/// gains at most one entry over both calls.
pub proof fn lemma_prepare_idempotent<T>(
    log: Map<u32, TransactionState<T>>,
    id: u32,
    data: T,
    accept: bool,
)
    ensures
        ({
            let (log1, answer1) = spec_prepare(log, id, data, accept);
            let (log2, answer2) = spec_prepare(log1, id, data, accept);
            &&& answer2 == answer1
            &&& log2 == log1
            &&& log1.dom() == log.dom() || log1.dom() == log.dom().insert(id)
        }),
{
    let (log1, answer1) = spec_prepare(log, id, data, accept);
    if !log.contains_key(id) && accept {
        assert(log1.dom() =~= log.dom().insert(id));
    } else {
        assert(log1.dom() =~= log.dom());
    }
}

/// Committing twice applies the effect at most once: whatever the first
/// commit did, the second one returns no effect and leaves the log alone.
pub proof fn lemma_commit_at_most_once<T>(log: Map<u32, TransactionState<T>>, id: u32)
    ensures
        ({
            let (log1, effect1) = spec_commit(log, id);
            let (log2, effect2) = spec_commit(log1, id);
            &&& log2 == log1
            &&& effect2 is None
        }),
{
}

/// Committing an aborted id is a no-op: the log is unchanged and no effect
/// is applied.
pub proof fn lemma_commit_on_aborted_is_noop<T>(log: Map<u32, TransactionState<T>>, id: u32)
    requires
        log.contains_key(id),
        log[id] is Abort,
    ensures
        spec_commit(log, id) == (log, None::<T>),
{
}

/// A participant's transaction log, keyed by transaction id.
pub struct TransactionLog<T> {
    entries: HashMap<u32, TransactionState<T>>,
}

impl<T> View for TransactionLog<T> {
    type V = Map<u32, TransactionState<T>>;

    closed spec fn view(&self) -> Map<u32, TransactionState<T>> {
        self.entries@
    }
}

impl<T> TransactionLog<T> {
    /// Creates an empty log.
    pub fn new() -> (r: Self)
        ensures
            r@ == Map::<u32, TransactionState<T>>::empty(),
    {
        TransactionLog { entries: HashMap::new() }
    }

    /// Number of ids the log holds.
    pub fn len(&self) -> (r: usize)
        ensures
            r == self@.dom().len(),
    {
        self.entries.len()
    }

    /// True when the id has an entry.
    pub fn contains(&self, id: u32) -> (r: bool)
        ensures
            r == self@.contains_key(id),
    {
        self.entries.contains_key(&id)
    }

    /// Answers a `Prepare` for `id`: idempotently for a logged id, and by
    /// the caller's business decision `accept` otherwise.
    pub fn prepare(&mut self, id: u32, data: T, accept: bool) -> (r: bool)
        ensures
            (final(self)@, r) == spec_prepare(old(self)@, id, data, accept),
    {
        if self.entries.contains_key(&id) {
            return true;
        }
        if accept {
            self.entries.insert(id, TransactionState::Accepted { data });
            true
        } else {
            false
        }
    }

    /// The data of an accepted, not yet resolved entry, without touching
    /// the log; `None` in every other state.
    pub fn get_accepted(&self, id: u32) -> (r: Option<&T>)
        ensures
            match r {
                Some(data) => self@.contains_key(id) && self@[id] is Accepted && *data
                    == self@[id]->Accepted_data,
                None => !(self@.contains_key(id) && self@[id] is Accepted),
            },
    {
        match self.entries.get(&id) {
            Some(TransactionState::Accepted { data }) => Some(data),
            _ => None,
        }
    }

    /// Closes `id` unconditionally.
    pub fn abort(&mut self, id: u32)
        ensures
            final(self)@ == spec_abort(old(self)@, id),
    {
        self.entries.insert(id, TransactionState::Abort);
    }

    /// Finalizes an accepted `id`, handing out the data whose business
    /// effect must now be applied; in every other state, does nothing.
    pub fn commit(&mut self, id: u32) -> (r: Option<T>)
        ensures
            (final(self)@, r) == spec_commit(old(self)@, id),
    {
        match self.entries.remove(&id) {
            Some(TransactionState::Accepted { data }) => {
                self.entries.insert(id, TransactionState::Commit);
                proof {
                    assert(self@ =~= old(self)@.insert(id, TransactionState::Commit));
                }
                Some(data)
            },
            Some(other) => {
                self.entries.insert(id, other);
                proof {
                    assert(self@ =~= old(self)@);
                }
                None
            },
            None => {
                proof {
                    assert(self@ =~= old(self)@);
                }
                None
            },
        }
    }
}

} // verus!
