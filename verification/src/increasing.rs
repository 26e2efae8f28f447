//! The order in which a map with integer keys is walked, in plain terms.
use vstd::prelude::*;
use vstd::std_specs::btree::increasing_seq;
use vstd::std_specs::cmp::OrdSpec;
use crate::order::ascending;

verus! {

/// A sequence of integer keys that is increasing in the sense of the ordered
/// map is ascending by `<`.
pub proof fn lemma_increasing_is_ascending(keys: Seq<u64>)
    requires
        increasing_seq(keys),
    ensures
        ascending(keys),
{
    broadcast use vstd::std_specs::btree::group_btree_axioms;
    broadcast use vstd::laws_cmp::group_laws_cmp;

    assert forall|i: int, j: int| 0 <= i < j < keys.len() implies keys[i] < keys[j] by {
        assert(keys[i].cmp_spec(&keys[j]) is Less);
    }
}

} // verus!
