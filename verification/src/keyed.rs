//! Sequences of named entries, the model shared by JSON objects, hash
//! arguments and the helper registry.

use vstd::prelude::*;

verus! {

/// Some entry of `entries` is stored under `key`.
pub open spec fn has_key<V>(entries: Seq<(Seq<char>, V)>, key: Seq<char>) -> bool {
    exists|i: int| 0 <= i < entries.len() && (#[trigger] entries[i]).0 == key
}

/// The position of an entry stored under `key`; meaningful when `has_key` holds.
pub open spec fn key_index<V>(entries: Seq<(Seq<char>, V)>, key: Seq<char>) -> int {
    choose|i: int| 0 <= i < entries.len() && (#[trigger] entries[i]).0 == key
}

/// The value stored under `key`; meaningful when `has_key` holds.
pub open spec fn value_of<V>(entries: Seq<(Seq<char>, V)>, key: Seq<char>) -> V {
    entries[key_index(entries, key)].1
}

/// No two entries share a key.
pub open spec fn distinct_keys<V>(entries: Seq<(Seq<char>, V)>) -> bool {
    forall|i: int, j: int|
        0 <= i < j < entries.len() ==> (#[trigger] entries[i]).0 != (#[trigger] entries[j]).0
}

/// Storing `value` under `key`: an entry already under that key keeps its
/// place and takes the new value, otherwise the entry is appended.
pub open spec fn upsert<V>(entries: Seq<(Seq<char>, V)>, key: Seq<char>, value: V) -> Seq<
    (Seq<char>, V),
> {
    if has_key(entries, key) {
        entries.update(key_index(entries, key), (key, value))
    } else {
        entries.push((key, value))
    }
}

/// Dropping the entry under `key`, if there is one; the others keep their order.
pub open spec fn without_key<V>(entries: Seq<(Seq<char>, V)>, key: Seq<char>) -> Seq<
    (Seq<char>, V),
> {
    if has_key(entries, key) {
        entries.remove(key_index(entries, key))
    } else {
        entries
    }
}

/// With distinct keys, the entry found at a position is the one `key_index` names.
pub proof fn lemma_key_index_unique<V>(entries: Seq<(Seq<char>, V)>, i: int)
    requires
        distinct_keys(entries),
        0 <= i < entries.len(),
    ensures
        has_key(entries, entries[i].0),
        key_index(entries, entries[i].0) == i,
        value_of(entries, entries[i].0) == entries[i].1,
{
    let key = entries[i].0;
    let j = key_index(entries, key);
    assert(0 <= j < entries.len() && entries[j].0 == key);
    if j < i {
        assert(entries[j].0 != entries[i].0);
    } else if i < j {
        assert(entries[i].0 != entries[j].0);
    }
}

/// `upsert` keeps keys distinct, makes `key` present with `value`, and leaves
/// every other key as it was.
pub proof fn lemma_upsert<V>(entries: Seq<(Seq<char>, V)>, key: Seq<char>, value: V)
    requires
        distinct_keys(entries),
    ensures
        distinct_keys(upsert(entries, key, value)),
        has_key(upsert(entries, key, value), key),
        value_of(upsert(entries, key, value), key) == value,
        forall|other: Seq<char>|
            other != key ==> (has_key(upsert(entries, key, value), other) <==> has_key(
                entries,
                other,
            )),
        forall|other: Seq<char>|
            other != key && has_key(entries, other) ==> value_of(
                upsert(entries, key, value),
                other,
            ) == value_of(entries, other),
{
    let after = upsert(entries, key, value);
    let at = if has_key(entries, key) {
        key_index(entries, key)
    } else {
        entries.len() as int
    };
    assert(after.len() > at >= 0 && after[at] == (key, value));
    assert forall|i: int, j: int| 0 <= i < j < after.len() implies (#[trigger] after[i]).0 != (
    #[trigger] after[j]).0 by {
        if has_key(entries, key) {
            assert(entries[at].0 == key);
            assert(entries[i].0 != entries[j].0);
        } else {
            if j < entries.len() {
                assert(entries[i].0 != entries[j].0);
            } else {
                assert(entries[i].0 != key);
            }
        }
    }
    lemma_key_index_unique(after, at);
    assert forall|other: Seq<char>| other != key implies (has_key(after, other) <==> has_key(
        entries,
        other,
    )) by {
        if has_key(after, other) {
            let i = key_index(after, other);
            assert(after[i].0 == other);
            assert(i != at);
            assert(entries[i].0 == other);
        }
        if has_key(entries, other) {
            let i = key_index(entries, other);
            assert(entries[i].0 == other);
            assert(after[i].0 == other);
        }
    }
    assert forall|other: Seq<char>| other != key && has_key(entries, other) implies value_of(
        after,
        other,
    ) == value_of(entries, other) by {
        let i = key_index(entries, other);
        assert(entries[i].0 == other);
        assert(after[i] == entries[i]);
        lemma_key_index_unique(after, i);
    }
}

} // verus!
