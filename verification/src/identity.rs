//! A set of record identities, kept in a concurrent hash set.

use dashmap::DashSet;
use vstd::prelude::*;

verus! {

#[verifier::external_type_specification]
#[verifier::external_body]
#[verifier::reject_recursive_types(K)]
#[verifier::reject_recursive_types(S)]
pub struct ExDashSet<K, S>(DashSet<K, S>);

/// The identities that a set holds.
pub uninterp spec fn held_ids(set: DashSet<u128>) -> Set<u128>;

/// `DashSet::new`: the new set holds nothing.
#[verifier::external_body]
pub(crate) fn new_id_set() -> (set: DashSet<u128>)
    ensures
        held_ids(set) == Set::<u128>::empty(),
{
    DashSet::new()
}

/// `DashSet::insert`: afterwards the set holds `id` besides what it held, and
/// the result tells whether `id` was not yet in it.
#[verifier::external_body]
pub(crate) fn insert_id(set: &mut DashSet<u128>, id: u128) -> (fresh: bool)
    ensures
        fresh == !held_ids(*old(set)).contains(id),
        held_ids(*final(set)) == held_ids(*old(set)).insert(id),
{
    set.insert(id)
}

} // verus!
