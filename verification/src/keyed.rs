//! Lists of keyed slots, read as maps. The register and the engine keep
//! their records in such lists and never hold one key twice.

use vstd::prelude::*;

verus! {

/// Whether position `i` of `slots` is keyed by `key`.
pub open spec fn holds<K, V>(slots: Seq<(K, V)>, i: int, key: K) -> bool {
    0 <= i < slots.len() && slots[i].0 == key
}

/// Whether no position of `slots` is keyed by `key`.
pub open spec fn lacks<K, V>(slots: Seq<(K, V)>, key: K) -> bool {
    forall|i: int| !holds(slots, i, key)
}

/// No key has two positions.
pub open spec fn distinct_keys<K, V>(slots: Seq<(K, V)>) -> bool {
    forall|i: int, j: int|
        #![trigger slots[i], slots[j]]
        0 <= i < j < slots.len() ==> slots[i].0 != slots[j].0
}

/// The map that a list of slots stands for.
pub open spec fn map_of<K, V>(slots: Seq<(K, V)>) -> Map<K, V> {
    Map::new(
        |key: K| exists|i: int| holds(slots, i, key),
        |key: K| slots[choose|i: int| holds(slots, i, key)].1,
    )
}

/// The empty list stands for the empty map.
pub proof fn lemma_empty<K, V>()
    ensures
        distinct_keys(Seq::<(K, V)>::empty()),
        map_of(Seq::<(K, V)>::empty()) == Map::<K, V>::empty(),
{
    assert(map_of(Seq::<(K, V)>::empty()) =~= Map::<K, V>::empty());
}

/// Under distinct keys, the position keyed by a key gives its value.
pub proof fn lemma_at<K, V>(slots: Seq<(K, V)>, i: int, key: K)
    requires
        distinct_keys(slots),
        holds(slots, i, key),
    ensures
        map_of(slots).dom().contains(key),
        map_of(slots)[key] == slots[i].1,
{
    let j = choose|j: int| holds(slots, j, key);
    assert(holds(slots, j, key));
    if i < j {
        assert(slots[i].0 == slots[j].0);
    } else if j < i {
        assert(slots[j].0 == slots[i].0);
    }
}

/// Where no position is keyed by a key, the map has no such key.
pub proof fn lemma_absent<K, V>(slots: Seq<(K, V)>, key: K)
    requires
        lacks(slots, key),
    ensures
        !map_of(slots).dom().contains(key),
{
    if map_of(slots).dom().contains(key) {
        let i = choose|i: int| holds(slots, i, key);
        assert(holds(slots, i, key));
    }
}

/// Every value of the map sits at some position of the list.
pub proof fn lemma_value_is_listed<K, V>(slots: Seq<(K, V)>, key: K) -> (i: int)
    requires
        map_of(slots).dom().contains(key),
    ensures
        holds(slots, i, key),
        map_of(slots)[key] == slots[i].1,
{
    let i = choose|i: int| holds(slots, i, key);
    assert(holds(slots, i, key));
    i
}

/// Appending a slot under a key that is not held inserts it into the map.
pub proof fn lemma_push<K, V>(slots: Seq<(K, V)>, slot: (K, V))
    requires
        distinct_keys(slots),
        lacks(slots, slot.0),
    ensures
        distinct_keys(slots.push(slot)),
        map_of(slots.push(slot)) == map_of(slots).insert(slot.0, slot.1),
{
    let after = slots.push(slot);
    let last = slots.len() as int;
    assert forall|i: int, j: int| 0 <= i < j < after.len() implies after[i].0 != after[j].0 by {
        if j == last {
            assert(!holds(slots, i, slot.0));
        } else {
            assert(slots[i].0 == after[i].0);
            assert(slots[j].0 == after[j].0);
        }
    }
    assert(holds(after, last, slot.0));
    lemma_at(after, last, slot.0);
    let target = map_of(slots).insert(slot.0, slot.1);
    assert forall|key: K| map_of(after).dom().contains(key) implies #[trigger] target.dom().contains(
        key,
    ) by {
        let i = choose|i: int| holds(after, i, key);
        if i != last {
            assert(holds(slots, i, key));
        }
    }
    assert forall|key: K| #[trigger] target.dom().contains(key) implies map_of(
        after,
    ).dom().contains(key) && map_of(after)[key] == target[key] by {
        if key != slot.0 {
            let i = choose|i: int| holds(slots, i, key);
            assert(holds(slots, i, key));
            assert(holds(after, i, key));
            lemma_at(after, i, key);
            lemma_at(slots, i, key);
        }
    }
    assert(map_of(after).dom() =~= target.dom());
    assert(map_of(after) =~= target);
}

/// Replacing the slot of a key in place overwrites the key in the map.
pub proof fn lemma_replace<K, V>(slots: Seq<(K, V)>, at: int, slot: (K, V))
    requires
        distinct_keys(slots),
        holds(slots, at, slot.0),
    ensures
        distinct_keys(slots.update(at, slot)),
        map_of(slots.update(at, slot)) == map_of(slots).insert(slot.0, slot.1),
{
    let after = slots.update(at, slot);
    assert forall|i: int, j: int| 0 <= i < j < after.len() implies after[i].0 != after[j].0 by {
        assert(after[i].0 == slots[i].0);
        assert(after[j].0 == slots[j].0);
    }
    assert(holds(after, at, slot.0));
    lemma_at(after, at, slot.0);
    let target = map_of(slots).insert(slot.0, slot.1);
    assert forall|key: K| map_of(after).dom().contains(key) implies #[trigger] target.dom().contains(
        key,
    ) by {
        let i = choose|i: int| holds(after, i, key);
        assert(holds(slots, i, key));
    }
    assert forall|key: K| #[trigger] target.dom().contains(key) implies map_of(
        after,
    ).dom().contains(key) && map_of(after)[key] == target[key] by {
        if key != slot.0 {
            let i = choose|i: int| holds(slots, i, key);
            assert(holds(slots, i, key));
            assert(holds(after, i, key));
            lemma_at(after, i, key);
            lemma_at(slots, i, key);
        }
    }
    assert(map_of(after).dom() =~= target.dom());
    assert(map_of(after) =~= target);
}

} // verus!
