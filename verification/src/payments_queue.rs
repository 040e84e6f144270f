//! The queue of pending payments, with crash recovery.
//!
//! On startup the coordinator reads the pending payment records and the two
//! result files (processed and failed).  A record whose id already appears
//! in a result file was resolved by an earlier run and must not be
//! attempted again; every other record enters the queue in its original
//! order.  Reading the files is the surrounding process's job; the
//! filtering rule lives here.

use crate::transaction::AlgloboTransaction;
use vstd::prelude::*;

verus! {

/// The ids of the given records.
pub open spec fn spec_ids_of(records: Seq<AlgloboTransaction>) -> Seq<u32> {
    records.map_values(|t: AlgloboTransaction| t.id)
}

/// Collects the ids of the given records, e.g. of a result file whose
/// transactions must not be attempted again.
pub fn ids_of(records: &Vec<AlgloboTransaction>) -> (r: Vec<u32>)
    ensures
        r@ == spec_ids_of(records@),
{
    let ghost target = spec_ids_of(records@);
    let mut out: Vec<u32> = Vec::new();
    let mut i: usize = 0;
    while i < records.len()
        invariant
            i <= records.len(),
            target == spec_ids_of(records@),
            out@ =~= target.take(i as int),
        decreases records.len() - i,
    {
        out.push(records[i].id);
        i = i + 1;
        proof {
            assert(out@ =~= target.take(i as int));
        }
    }
    proof {
        assert(out@ =~= target);
    }
    out
}

/// True when `ids` holds `id`.
fn contains_id(ids: &Vec<u32>, id: u32) -> (r: bool)
    ensures
        r == ids@.contains(id),
{
    let mut i: usize = 0;
    while i < ids.len()
        invariant
            i <= ids.len(),
            forall|j: int| 0 <= j < i ==> ids@[j] != id,
        decreases ids.len() - i,
    {
        if ids[i] == id {
            return true;
        }
        i = i + 1;
    }
    false
}

/// The pending payments a fresh coordinator run must attempt, oldest first.
pub struct PaymentsQueue {
    queue: Vec<AlgloboTransaction>,
}

impl View for PaymentsQueue {
    type V = Seq<AlgloboTransaction>;

    closed spec fn view(&self) -> Seq<AlgloboTransaction> {
        self.queue@
    }
}

impl PaymentsQueue {
    /// Builds the queue from the pending records, skipping — in order —
    /// every record whose id appears among the already-resolved ids of the
    /// processed and failed result files.
    pub fn new(pending: Vec<AlgloboTransaction>, resolved_ids: Vec<u32>) -> (r: Self)
        ensures
            r@ == pending@.filter(
                |t: AlgloboTransaction| !resolved_ids@.contains(t.id),
            ),
    {
        let ghost all = pending@;
        let ghost pred = |t: AlgloboTransaction| !resolved_ids@.contains(t.id);
        let mut rest = pending;
        let mut queue: Vec<AlgloboTransaction> = Vec::new();
        while rest.len() > 0
            invariant
                rest@.len() <= all.len(),
                rest@ =~= all.subrange(all.len() - rest@.len(), all.len() as int),
                pred == (|t: AlgloboTransaction| !resolved_ids@.contains(t.id)),
                queue@ =~= all.take(all.len() - rest@.len()).filter(pred),
            decreases rest.len(),
        {
            let ghost done = (all.len() - rest@.len()) as int;
            let record = rest.remove(0);
            proof {
                assert(record == all[done]);
                assert(rest@ =~= all.subrange(done + 1, all.len() as int));
            }
            let keep = !contains_id(&resolved_ids, record.id);
            if keep {
                queue.push(record);
            }
            proof {
                let taken = all.take(done + 1);
                assert(taken =~= all.take(done).push(all[done]));
                all.take(done).lemma_filter_push(all[done], pred);
                assert(keep == pred(record));
                assert(queue@ =~= taken.filter(pred));
            }
        }
        proof {
            assert(all.take(all.len() as int) =~= all);
        }
        PaymentsQueue { queue }
    }

    /// Removes and returns the oldest pending payment, or `None` when all
    /// have been attempted.
    pub fn pop(&mut self) -> (r: Option<AlgloboTransaction>)
        ensures
            old(self)@.len() == 0 ==> r is None && final(self)@ == old(self)@,
            old(self)@.len() > 0 ==> r == Some(old(self)@[0]) && final(self)@ == old(
                self,
            )@.subrange(1, old(self)@.len() as int),
    {
        if self.queue.len() == 0 {
            None
        } else {
            let front = self.queue.remove(0);
            proof {
                assert(self@ =~= old(self)@.subrange(1, old(self)@.len() as int));
            }
            Some(front)
        }
    }
}

} // verus!
