//! A small association-table model: a vector of `(String, V)` entries with
//! unique keys, viewed as a `Map` from the key's characters to the value.
//!
//! The fleet registry, the relay table and the per-peer statistics all keep
//! their entries this way; these are the shared lemmas connecting the
//! entry vector to its map view.

use vstd::prelude::*;

verus! {

/// The entry vector seen as a map from key characters to value.
pub open spec fn kv_map<V>(entries: Seq<(String, V)>) -> Map<Seq<char>, V>
    decreases entries.len(),
{
    if entries.len() == 0 {
        Map::empty()
    } else {
        kv_map(entries.drop_last()).insert(entries.last().0@, entries.last().1)
    }
}

/// Every key occurs at most once among the entries.
pub open spec fn kv_unique<V>(entries: Seq<(String, V)>) -> bool {
    forall|i: int, j: int| 0 <= i < j < entries.len() ==> entries[i].0@ != entries[j].0@
}

/// A key is in the map exactly when some entry carries it.
pub proof fn lemma_kv_contains<V>(entries: Seq<(String, V)>, key: Seq<char>)
    ensures
        kv_map(entries).contains_key(key) <==> exists|i: int|
            0 <= i < entries.len() && entries[i].0@ == key,
    decreases entries.len(),
{
    if entries.len() > 0 {
        lemma_kv_contains(entries.drop_last(), key);
        if exists|i: int| 0 <= i < entries.drop_last().len() && entries.drop_last()[i].0@ == key {
            let i = choose|i: int|
                0 <= i < entries.drop_last().len() && entries.drop_last()[i].0@ == key;
            assert(entries[i].0@ == key);
        }
        if exists|i: int| 0 <= i < entries.len() && entries[i].0@ == key {
            let i = choose|i: int| 0 <= i < entries.len() && entries[i].0@ == key;
            if i < entries.len() - 1 {
                assert(entries.drop_last()[i].0@ == key);
            }
        }
    }
}

/// With unique keys, the map agrees with the entry at every index.
pub proof fn lemma_kv_index<V>(entries: Seq<(String, V)>, i: int)
    requires
        kv_unique(entries),
        0 <= i < entries.len(),
    ensures
        kv_map(entries).contains_key(entries[i].0@),
        kv_map(entries)[entries[i].0@] == entries[i].1,
    decreases entries.len(),
{
    lemma_kv_contains(entries, entries[i].0@);
    if i < entries.len() - 1 {
        lemma_kv_index(entries.drop_last(), i);
        assert(entries.drop_last()[i] == entries[i]);
        assert(entries[i].0@ != entries.last().0@);
    }
}

/// Removing the entry at `i` removes exactly its key from the map, provided
/// keys are unique.
pub proof fn lemma_kv_remove<V>(entries: Seq<(String, V)>, i: int)
    requires
        kv_unique(entries),
        0 <= i < entries.len(),
    ensures
        kv_map(entries.remove(i)) =~= kv_map(entries).remove(entries[i].0@),
    decreases entries.len(),
{
    let key = entries[i].0@;
    if i == entries.len() - 1 {
        assert(entries.remove(i) =~= entries.drop_last());
        lemma_kv_contains(entries.drop_last(), key);
        assert(!kv_map(entries.drop_last()).contains_key(key));
        assert(kv_map(entries.drop_last()) =~= kv_map(entries.drop_last()).insert(
            key,
            entries.last().1,
        ).remove(key));
    } else {
        assert(entries.remove(i).drop_last() =~= entries.drop_last().remove(i));
        assert(entries.remove(i).last() == entries.last());
        lemma_kv_remove(entries.drop_last(), i);
    }
}

/// Appending an entry inserts its key into the map.
pub proof fn lemma_kv_push<V>(entries: Seq<(String, V)>, entry: (String, V))
    ensures
        kv_map(entries.push(entry)) =~= kv_map(entries).insert(entry.0@, entry.1),
{
    assert(entries.push(entry).drop_last() =~= entries);
}

/// Index of the entry carrying `key`, if the table holds one.
pub fn kv_find<V>(entries: &Vec<(String, V)>, key: &String) -> (found: Option<usize>)
    ensures
        match found {
            Some(i) => i < entries@.len() && entries@[i as int].0@ == key@,
            None => forall|i: int| 0 <= i < entries@.len() ==> entries@[i].0@ != key@,
        },
{
    let mut i: usize = 0;
    while i < entries.len()
        invariant
            i <= entries@.len(),
            forall|j: int| 0 <= j < i ==> entries@[j].0@ != key@,
        decreases entries@.len() - i,
    {
        if entries[i].0 == *key {
            return Some(i);
        }
        i = i + 1;
    }
    None
}

} // verus!
