//! Finite maps as they are kept in memory: a list of pairs in which no key
//! occurs twice. `as_map` reads such a list as the map it stands for.

use vstd::prelude::*;

verus! {

/// The map that a list of pairs stands for; of two pairs with one key the later
/// one counts.
pub open spec fn as_map<K, V>(pairs: Seq<(K, V)>) -> Map<K, V>
    decreases pairs.len(),
{
    if pairs.len() == 0 {
        Map::empty()
    } else {
        as_map(pairs.drop_last()).insert(pairs.last().0, pairs.last().1)
    }
}

/// No key occurs twice.
pub open spec fn distinct_keys<K, V>(pairs: Seq<(K, V)>) -> bool {
    forall|i: int, j: int| 0 <= i < j < pairs.len() ==> pairs[i].0 != pairs[j].0
}

/// Some pair of the list carries `key`.
pub open spec fn has_key<K, V>(pairs: Seq<(K, V)>, key: K) -> bool {
    exists|i: int| 0 <= i < pairs.len() && #[trigger] pairs[i].0 == key
}

/// The keys of the map are the keys of the list, and there are finitely many.
pub proof fn lemma_as_map_keys<K, V>(pairs: Seq<(K, V)>)
    ensures
        as_map(pairs).dom().finite(),
        forall|key: K| #[trigger] as_map(pairs).contains_key(key) <==> has_key(pairs, key),
    decreases pairs.len(),
{
    if pairs.len() > 0 {
        let front = pairs.drop_last();
        lemma_as_map_keys(front);
        assert forall|key: K| #[trigger] as_map(pairs).contains_key(key) implies has_key(
            pairs,
            key,
        ) by {
            if pairs.last().0 == key {
                assert(pairs[pairs.len() - 1].0 == key);
            } else {
                let i = choose|i: int| 0 <= i < front.len() && #[trigger] front[i].0 == key;
                assert(pairs[i].0 == key);
            }
        }
        assert forall|key: K| has_key(pairs, key) implies #[trigger] as_map(pairs).contains_key(
            key,
        ) by {
            let i = choose|i: int| 0 <= i < pairs.len() && #[trigger] pairs[i].0 == key;
            if i < front.len() {
                assert(front[i].0 == key);
            }
        }
    }
}

/// In a list without repeated keys, each pair is what the map holds for its key.
pub proof fn lemma_as_map_at<K, V>(pairs: Seq<(K, V)>, i: int)
    requires
        distinct_keys(pairs),
        0 <= i < pairs.len(),
    ensures
        as_map(pairs).contains_key(pairs[i].0),
        as_map(pairs)[pairs[i].0] == pairs[i].1,
    decreases pairs.len(),
{
    if i < pairs.len() - 1 {
        lemma_as_map_at(pairs.drop_last(), i);
    }
}

/// Replacing the value of one pair is an `insert` on the map.
pub proof fn lemma_as_map_update<K, V>(pairs: Seq<(K, V)>, i: int, value: V)
    requires
        distinct_keys(pairs),
        0 <= i < pairs.len(),
    ensures
        distinct_keys(pairs.update(i, (pairs[i].0, value))),
        as_map(pairs.update(i, (pairs[i].0, value))) == as_map(pairs).insert(pairs[i].0, value),
    decreases pairs.len(),
{
    let after = pairs.update(i, (pairs[i].0, value));
    if i < pairs.len() - 1 {
        lemma_as_map_update(pairs.drop_last(), i, value);
        assert(after.drop_last() == pairs.drop_last().update(i, (pairs[i].0, value)));
        assert(after.last() == pairs.last());
    } else {
        assert(after.drop_last() == pairs.drop_last());
    }
    assert(as_map(after) =~= as_map(pairs).insert(pairs[i].0, value));
}

/// Appending a pair under a new key is an `insert` on the map.
pub proof fn lemma_as_map_push<K, V>(pairs: Seq<(K, V)>, key: K, value: V)
    requires
        distinct_keys(pairs),
        !has_key(pairs, key),
    ensures
        distinct_keys(pairs.push((key, value))),
        as_map(pairs.push((key, value))) == as_map(pairs).insert(key, value),
{
    let after = pairs.push((key, value));
    assert(after.drop_last() == pairs);
    assert forall|i: int, j: int| 0 <= i < j < after.len() implies after[i].0 != after[j].0 by {
        if j == pairs.len() {
            assert(pairs[i].0 != key);
        }
    }
}

} // verus!
