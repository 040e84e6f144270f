//! A bounded first-in-first-out queue of transactions.
//!
//! The queue holds at most the capacity it was created with.  A producer
//! that finds the queue full waits until a consumer pops; that waiting
//! belongs to the process that shares the queue between threads, so the
//! bound is stated here as a precondition on `push`.

use crate::transaction::AlgloboTransaction;
use vstd::prelude::*;

verus! {

/// Bounded queue of pending transactions, oldest first.
pub struct Queue {
    data: Vec<AlgloboTransaction>,
    max: usize,
}

impl View for Queue {
    type V = Seq<AlgloboTransaction>;

    closed spec fn view(&self) -> Seq<AlgloboTransaction> {
        self.data@
    }
}

impl Queue {
    /// Capacity the queue was created with.
    pub closed spec fn spec_max(&self) -> usize {
        self.max
    }

    /// Creates an empty queue that holds at most `k` transactions.
    pub fn new(k: usize) -> (r: Self)
        ensures
            r@ == Seq::<AlgloboTransaction>::empty(),
            r.spec_max() == k,
    {
        Queue { data: Vec::new(), max: k }
    }

    /// Appends a transaction at the back.  The queue must not be full; a
    /// producer that finds it full waits until a consumer pops.
    pub fn push(&mut self, value: AlgloboTransaction)
        requires
            old(self)@.len() < old(self).spec_max(),
        ensures
            final(self)@ == old(self)@.push(value),
            final(self).spec_max() == old(self).spec_max(),
    {
        self.data.push(value);
    }

    /// True when a push would exceed the capacity.
    pub fn is_full(&self) -> (r: bool)
        ensures
            r == (self@.len() >= self.spec_max()),
    {
        self.data.len() >= self.max
    }

    /// Removes and returns the oldest transaction, or `None` when empty.
    pub fn pop_front(&mut self) -> (r: Option<AlgloboTransaction>)
        ensures
            final(self).spec_max() == old(self).spec_max(),
            old(self)@.len() == 0 ==> r is None && final(self)@ == old(self)@,
            old(self)@.len() > 0 ==> r == Some(old(self)@[0]) && final(self)@ == old(
                self,
            )@.subrange(1, old(self)@.len() as int),
    {
        if self.data.len() == 0 {
            None
        } else {
            let front = self.data.remove(0);
            proof {
                assert(self@ =~= old(self)@.subrange(1, old(self)@.len() as int));
            }
            Some(front)
        }
    }
}

} // verus!
