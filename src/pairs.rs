//! A hash map built from a list of key/value pairs, as a map literal would.
use std::collections::HashMap;
use std::hash::Hash;
use vstd::prelude::*;
use vstd::std_specs::hash::obeys_key_model;

verus! {

broadcast use vstd::std_specs::hash::group_hash_axioms;

/// The map that inserting the pairs of `s` in order gives: a key that occurs
/// more than once keeps the value of its last pair.
pub open spec fn map_of_pairs<K, V>(s: Seq<(K, V)>) -> Map<K, V>
    decreases s.len(),
{
    if s.len() == 0 {
        Map::empty()
    } else {
        map_of_pairs(s.drop_last()).insert(s.last().0, s.last().1)
    }
}

/// Builds a hash map holding the given pairs, with room for all of them from
/// the start. Where a key occurs more than once, its last pair wins.
pub fn hash_map_from_pairs<K: Hash + Eq, V>(pairs: Vec<(K, V)>) -> (map: HashMap<K, V>)
    ensures
        obeys_key_model::<K>() ==> map@ == map_of_pairs(pairs@),
{
    let ghost s = pairs@;
    let mut map: HashMap<K, V> = HashMap::with_capacity(pairs.len());
    for pair in it: pairs.into_iter()
        invariant
            it.seq() == s,
            obeys_key_model::<K>() ==> map@ == map_of_pairs(s.take(it.index() as int)),
    {
        let (k, v) = pair;
        map.insert(k, v);
        proof {
            assert(s.take(it.index() as int + 1).drop_last() =~= s.take(it.index() as int));
        }
    }
    proof {
        assert(s.take(s.len() as int) =~= s);
    }
    map
}

} // verus!
