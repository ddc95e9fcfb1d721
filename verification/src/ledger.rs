//! A collection of records in which each identity occurs once. A concurrent
//! hash set of ids decides whether a record is new; the records themselves
//! stay in the order in which they were accepted.

use crate::identity::{held_ids, insert_id, new_id_set};
use crate::models::{identities, Identified};
use dashmap::DashSet;
use vstd::prelude::*;

verus! {

/// One more id at the end adds that id to the set of ids, and leaves the ids
/// distinct where they were distinct and the id is new.
pub proof fn lemma_ids_after_push(ids: Seq<u128>, id: u128)
    ensures
        ids.push(id).to_set() == ids.to_set().insert(id),
        ids.no_duplicates() && !ids.contains(id) ==> ids.push(id).no_duplicates(),
{
    let after = ids.push(id);
    assert forall|other: u128| after.contains(other) <==> (ids.contains(other) || other == id) by {
        if after.contains(other) {
            let i = choose|i: int| 0 <= i < after.len() && after[i] == other;
            if i < ids.len() {
                assert(ids[i] == other);
            }
        }
        if ids.contains(other) {
            let i = choose|i: int| 0 <= i < ids.len() && ids[i] == other;
            assert(after[i] == other);
        }
        if other == id {
            assert(after[ids.len() as int] == other);
        }
    }
    assert(after.to_set() =~= ids.to_set().insert(id));
    if ids.no_duplicates() && !ids.contains(id) {
        assert forall|i: int, j: int| 0 <= i < j < after.len() implies after[i] != after[j] by {
            if j == ids.len() {
                assert(ids.contains(ids[i]));
            }
        }
    }
}

/// Records deduplicated by id.
pub struct Ledger<R> {
    ids: DashSet<u128>,
    records: Vec<R>,
}

impl<R: Identified> Ledger<R> {
    /// The records, first accepted first.
    pub closed spec fn records(&self) -> Seq<R> {
        self.records@
    }

    /// The ids that the hash set holds.
    pub closed spec fn ids(&self) -> Set<u128> {
        held_ids(self.ids)
    }

    /// The ledger's invariant: the records' ids are distinct, and they are
    /// what the hash set holds.
    pub open spec fn wf(&self) -> bool {
        &&& identities(self.records()).no_duplicates()
        &&& self.ids() == identities(self.records()).to_set()
    }

    /// The empty ledger.
    pub fn new() -> (ledger: Self)
        ensures
            ledger.wf(),
            ledger.records() == Seq::<R>::empty(),
            ledger.ids() == Set::<u128>::empty(),
    {
        let ledger = Ledger { ids: new_id_set(), records: Vec::new() };
        assert(identities(ledger.records()).to_set() =~= Set::<u128>::empty());
        ledger
    }

    /// Accepts `record` unless a record with its id is already held, and tells
    /// whether it was accepted. A held record is never replaced.
    pub fn insert_if_absent(&mut self, record: R) -> (inserted: bool)
        requires
            old(self).wf(),
        ensures
            final(self).wf(),
            inserted == !identities(old(self).records()).contains(record.identity()),
            inserted ==> final(self).records() == old(self).records().push(record),
            !inserted ==> final(self).records() == old(self).records(),
            final(self).ids() == old(self).ids().insert(record.identity()),
    {
        let id = record.id();
        let fresh = insert_id(&mut self.ids, id);
        if fresh {
            self.records.push(record);
            proof {
                let before = identities(old(self).records());
                assert(identities(self.records()) =~= before.push(id));
                lemma_ids_after_push(before, id);
            }
        } else {
            assert(self.ids() =~= old(self).ids());
        }
        fresh
    }

    /// The number of records, which is the number of distinct ids.
    pub fn len(&self) -> (n: usize)
        ensures
            n == self.records().len(),
            self.wf() ==> n == self.ids().len(),
    {
        proof {
            if self.wf() {
                identities(self.records()).unique_seq_to_set();
            }
        }
        self.records.len()
    }

    /// The records, first accepted first.
    pub fn as_vec(&self) -> (records: &Vec<R>)
        ensures
            records@ == self.records(),
    {
        &self.records
    }
}

} // verus!
