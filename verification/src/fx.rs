//! Tables whose keys are hashed with `rustc_hash`.

use rustc_hash::{FxHashMap, FxHashSet};
use vstd::prelude::*;

verus! {

/// The hash builder of `rustc_hash`, which carries no state.
#[verifier::external_type_specification]
#[verifier::external_body]
pub struct ExFxBuildHasher(rustc_hash::FxBuildHasher);

/// Whether the table hashes equal keys to equal digests, whenever it does.
pub open spec fn map_hashes_consistently<K, V, S>(map: std::collections::HashMap<K, V, S>) -> bool {
    vstd::std_specs::hash::builds_valid_hashers::<S>()
}

/// Whether the set hashes equal keys to equal digests, whenever it does.
pub open spec fn set_hashes_consistently<K, S>(set: std::collections::HashSet<K, S>) -> bool {
    vstd::std_specs::hash::builds_valid_hashers::<S>()
}

/// `FxHashMap::default`: a table without entries. Its hash builder makes every hasher from the
/// same initial state, so that equal keys are hashed alike.
#[verifier::external_body]
pub(crate) fn map<V>() -> (res: FxHashMap<u32, V>)
    ensures
        res@.dom() == Set::<u32>::empty(),
        map_hashes_consistently(res),
{
    FxHashMap::default()
}

/// `FxHashSet::default`: a set without members. Its hash builder makes every hasher from the
/// same initial state, so that equal keys are hashed alike.
#[verifier::external_body]
pub(crate) fn set() -> (res: FxHashSet<u32>)
    ensures
        res@ == Set::<u32>::empty(),
        set_hashes_consistently(res),
{
    FxHashSet::default()
}

/// A table holds finitely many entries.
pub proof fn lemma_map_finite<V>(map: FxHashMap<u32, V>)
    ensures
        map@.dom().finite(),
{
    broadcast use vstd::std_specs::hash::group_hash_axioms;

    let items = vstd::std_specs::iter::IteratorSpec::remaining(
        &vstd::std_specs::hash::spec_hash_map_iter(&map),
    );
    let keys = items.map_values(|item: (&u32, &V)| *item.0);
    vstd::seq_lib::seq_to_set_is_finite(keys);
    assert forall|k: u32| map@.dom().contains(k) implies keys.to_set().contains(k) by {
        assert(map@.contains_key(k));
        let i = items.index_of((&k, &map@[k]));
        assert(keys[i] == k);
    }
    assert(map@.dom().subset_of(keys.to_set()));
    vstd::set_lib::lemma_len_subset(map@.dom(), keys.to_set());
}

} // verus!
