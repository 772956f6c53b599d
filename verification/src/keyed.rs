//! Lists of named entries, read as maps from name to entry. A list in which
//! no name stands twice holds exactly one entry under each of its names.

use vstd::prelude::*;

verus! {

/// No name stands twice in `entries`.
pub open spec fn distinct_keys<V>(entries: Seq<(Seq<char>, V)>) -> bool {
    forall|i: int, j: int|
        0 <= i < entries.len() && 0 <= j < entries.len() && i != j ==> entries[i].0 != entries[j].0
}

/// Some entry of `entries` bears `key`.
pub open spec fn has_key<V>(entries: Seq<(Seq<char>, V)>, key: Seq<char>) -> bool {
    exists|i: int| 0 <= i < entries.len() && (#[trigger] entries[i]).0 == key
}

/// An index at which `key` stands.
pub open spec fn index_of_key<V>(entries: Seq<(Seq<char>, V)>, key: Seq<char>) -> int {
    choose|i: int| 0 <= i < entries.len() && (#[trigger] entries[i]).0 == key
}

/// The entries as a map from name to entry.
pub open spec fn map_of<V>(entries: Seq<(Seq<char>, V)>) -> Map<Seq<char>, V> {
    Map::new(
        |key: Seq<char>| has_key(entries, key),
        |key: Seq<char>| entries[index_of_key(entries, key)].1,
    )
}

/// With distinct names, the entry at an index is the one that the map holds
/// under its name.
pub proof fn lemma_map_entry<V>(entries: Seq<(Seq<char>, V)>, i: int)
    requires
        distinct_keys(entries),
        0 <= i < entries.len(),
    ensures
        map_of(entries).dom().contains(entries[i].0),
        map_of(entries)[entries[i].0] == entries[i].1,
{
    let key = entries[i].0;
    assert(has_key(entries, key));
    assert(index_of_key(entries, key) == i);
}

/// A list without entries is the empty map.
pub proof fn lemma_map_empty<V>(entries: Seq<(Seq<char>, V)>)
    requires
        entries.len() == 0,
    ensures
        distinct_keys(entries),
        map_of(entries) == Map::<Seq<char>, V>::empty(),
{
    assert(map_of(entries) =~= Map::<Seq<char>, V>::empty());
}

/// Appending an entry under a new name inserts it into the map.
pub proof fn lemma_map_push<V>(entries: Seq<(Seq<char>, V)>, key: Seq<char>, value: V)
    requires
        distinct_keys(entries),
        !has_key(entries, key),
    ensures
        distinct_keys(entries.push((key, value))),
        map_of(entries.push((key, value))) == map_of(entries).insert(key, value),
{
    let grown = entries.push((key, value));
    assert(distinct_keys(grown)) by {
        assert forall|i: int, j: int|
            0 <= i < grown.len() && 0 <= j < grown.len() && i != j implies grown[i].0
            != grown[j].0 by {
            if i < entries.len() && j < entries.len() {
                assert(grown[i] == entries[i] && grown[j] == entries[j]);
            } else if i < entries.len() {
                assert(entries[i].0 != key);
            } else {
                assert(entries[j].0 != key);
            }
        }
    }
    let left = map_of(grown);
    let right = map_of(entries).insert(key, value);
    assert forall|k: Seq<char>| left.dom().contains(k) <==> right.dom().contains(k) by {
        if has_key(grown, k) {
            let at = index_of_key(grown, k);
            if at < entries.len() {
                assert(entries[at].0 == k);
            }
        }
        if has_key(entries, k) {
            let at = index_of_key(entries, k);
            assert(grown[at].0 == k);
        }
        assert(grown[entries.len() as int].0 == key);
    }
    assert forall|k: Seq<char>| left.dom().contains(k) implies left[k] == right[k] by {
        let at = index_of_key(grown, k);
        lemma_map_entry(grown, at);
        if at < entries.len() {
            assert(entries[at] == grown[at]);
            lemma_map_entry(entries, at);
        }
    }
    assert(left =~= right);
}

/// A list with distinct names holds as many names as entries.
pub proof fn lemma_map_size<V>(entries: Seq<(Seq<char>, V)>)
    requires
        distinct_keys(entries),
    ensures
        map_of(entries).dom().finite(),
        map_of(entries).dom().len() == entries.len(),
    decreases entries.len(),
{
    if entries.len() == 0 {
        lemma_map_empty(entries);
    } else {
        let front = entries.drop_last();
        let last = entries.last();
        assert(distinct_keys(front)) by {
            assert forall|i: int, j: int|
                0 <= i < front.len() && 0 <= j < front.len() && i != j implies front[i].0
                != front[j].0 by {
                assert(front[i] == entries[i] && front[j] == entries[j]);
            }
        }
        assert(!has_key(front, last.0)) by {
            if has_key(front, last.0) {
                let i = index_of_key(front, last.0);
                assert(entries[i].0 == entries[entries.len() - 1].0);
            }
        }
        lemma_map_size(front);
        lemma_map_push(front, last.0, last.1);
        assert(front.push((last.0, last.1)) =~= entries);
        assert(map_of(entries).dom() =~= map_of(front).dom().insert(last.0));
    }
}

/// Taking the entry at index `at` away removes its name from the map and
/// leaves every other entry as it was.
pub proof fn lemma_map_remove<V>(entries: Seq<(Seq<char>, V)>, at: int)
    requires
        distinct_keys(entries),
        0 <= at < entries.len(),
    ensures
        distinct_keys(entries.remove(at)),
        map_of(entries.remove(at)) == map_of(entries).remove(entries[at].0),
{
    let fewer = entries.remove(at);
    let gone = entries[at].0;
    assert(distinct_keys(fewer)) by {
        assert forall|i: int, j: int|
            0 <= i < fewer.len() && 0 <= j < fewer.len() && i != j implies fewer[i].0
            != fewer[j].0 by {
            let a = if i < at { i } else { i + 1 };
            let b = if j < at { j } else { j + 1 };
            assert(fewer[i] == entries[a] && fewer[j] == entries[b]);
        }
    }
    let left = map_of(fewer);
    let right = map_of(entries).remove(gone);
    assert forall|k: Seq<char>| left.dom().contains(k) <==> right.dom().contains(k) by {
        if has_key(fewer, k) {
            let i = index_of_key(fewer, k);
            let a = if i < at { i } else { i + 1 };
            assert(entries[a].0 == k);
            assert(a != at);
        }
        if has_key(entries, k) && k != gone {
            let i = index_of_key(entries, k);
            let a = if i < at { i } else { i - 1 };
            assert(fewer[a].0 == k);
        }
    }
    assert forall|k: Seq<char>| left.dom().contains(k) implies left[k] == right[k] by {
        let i = index_of_key(fewer, k);
        let a = if i < at { i } else { i + 1 };
        lemma_map_entry(fewer, i);
        assert(fewer[i] == entries[a]);
        lemma_map_entry(entries, a);
    }
    assert(left =~= right);
}

/// Replacing the value at index `at` replaces it in the map, under the same
/// name.
pub proof fn lemma_map_update<V>(entries: Seq<(Seq<char>, V)>, at: int, value: V)
    requires
        distinct_keys(entries),
        0 <= at < entries.len(),
    ensures
        distinct_keys(entries.update(at, (entries[at].0, value))),
        map_of(entries.update(at, (entries[at].0, value))) == map_of(entries).insert(
            entries[at].0,
            value,
        ),
{
    let key = entries[at].0;
    let changed = entries.update(at, (key, value));
    assert(distinct_keys(changed)) by {
        assert forall|i: int, j: int|
            0 <= i < changed.len() && 0 <= j < changed.len() && i != j implies changed[i].0
            != changed[j].0 by {
            assert(changed[i].0 == entries[i].0 && changed[j].0 == entries[j].0);
        }
    }
    let left = map_of(changed);
    let right = map_of(entries).insert(key, value);
    assert forall|k: Seq<char>| left.dom().contains(k) <==> right.dom().contains(k) by {
        if has_key(changed, k) {
            let i = index_of_key(changed, k);
            assert(entries[i].0 == k);
        }
        if has_key(entries, k) {
            let i = index_of_key(entries, k);
            assert(changed[i].0 == k);
        }
        assert(changed[at].0 == key);
    }
    assert forall|k: Seq<char>| left.dom().contains(k) implies left[k] == right[k] by {
        let i = index_of_key(changed, k);
        lemma_map_entry(changed, i);
        if i != at {
            assert(changed[i] == entries[i]);
            lemma_map_entry(entries, i);
        }
    }
    assert(left =~= right);
}

} // verus!
