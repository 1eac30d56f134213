//! Lists of entries keyed by text, searched from the front.

use vstd::prelude::*;

verus! {

/// The position of the first entry with the key, if there is one.
pub open spec fn position_of<V>(entries: Seq<(Seq<char>, V)>, key: Seq<char>) -> Option<int>
    decreases entries.len(),
{
    if entries.len() == 0 {
        None
    } else if entries[0].0 == key {
        Some(0int)
    } else {
        match position_of(entries.drop_first(), key) {
            Some(i) => Some(i + 1),
            None => None,
        }
    }
}

/// No key has two entries.
pub open spec fn distinct_keys<V>(entries: Seq<(Seq<char>, V)>) -> bool {
    forall|i: int, j: int| 0 <= i < j < entries.len() ==> entries[i].0 != entries[j].0
}

/// What `position_of` finds is the first entry with the key, and it finds
/// nothing only where the key has no entry.
pub proof fn position_of_is_first<V>(entries: Seq<(Seq<char>, V)>, key: Seq<char>)
    ensures
        match position_of(entries, key) {
            Some(i) => 0 <= i < entries.len() && entries[i].0 == key && forall|j: int|
                0 <= j < i ==> entries[j].0 != key,
            None => forall|j: int| 0 <= j < entries.len() ==> entries[j].0 != key,
        },
    decreases entries.len(),
{
    if entries.len() > 0 && entries[0].0 != key {
        let rest = entries.drop_first();
        position_of_is_first(rest, key);
        match position_of(rest, key) {
            Some(i) => {
                assert forall|j: int| 0 <= j < i + 1 implies entries[j].0 != key by {
                    if j > 0 {
                        assert(rest[j - 1].0 != key);
                    }
                }
            },
            None => {
                assert forall|j: int| 0 <= j < entries.len() implies entries[j].0 != key by {
                    if j > 0 {
                        assert(rest[j - 1].0 != key);
                    }
                }
            },
        }
    }
}

/// The first position with the key is what `position_of` finds.
pub proof fn first_is_position_of<V>(entries: Seq<(Seq<char>, V)>, key: Seq<char>, i: int)
    requires
        0 <= i < entries.len(),
        entries[i].0 == key,
        forall|j: int| 0 <= j < i ==> entries[j].0 != key,
    ensures
        position_of(entries, key) == Some(i),
{
    position_of_is_first(entries, key);
}

/// A new entry at the end is found under its key only where no earlier
/// entry has that key; the other keys are found where they were.
pub proof fn position_after_push<V>(entries: Seq<(Seq<char>, V)>, added: (Seq<char>, V), key: Seq<char>)
    ensures
        position_of(entries.push(added), key) == match position_of(entries, key) {
            Some(i) => Some(i),
            None => if added.0 == key {
                Some(entries.len() as int)
            } else {
                None
            },
        },
{
    let after = entries.push(added);
    position_of_is_first(entries, key);
    match position_of(entries, key) {
        Some(i) => {
            assert(after[i].0 == key);
            assert forall|j: int| 0 <= j < i implies after[j].0 != key by {
                assert(entries[j].0 != key);
            }
            first_is_position_of(after, key, i);
        },
        None => {
            if added.0 == key {
                assert(after[entries.len() as int].0 == key);
                assert forall|j: int| 0 <= j < entries.len() implies after[j].0 != key by {
                    assert(entries[j].0 != key);
                }
                first_is_position_of(after, key, entries.len() as int);
            } else {
                position_of_is_first(after, key);
                if position_of(after, key).is_some() {
                    let i = position_of(after, key).unwrap();
                    if i < entries.len() {
                        assert(entries[i].0 == key);
                    }
                }
            }
        },
    }
}

/// A new value under a key that is there leaves every key where it was.
pub proof fn position_after_update<V>(entries: Seq<(Seq<char>, V)>, at: int, value: V, key: Seq<char>)
    requires
        0 <= at < entries.len(),
    ensures
        position_of(entries.update(at, (entries[at].0, value)), key) == position_of(entries, key),
{
    let after = entries.update(at, (entries[at].0, value));
    position_of_is_first(entries, key);
    position_of_is_first(after, key);
    match position_of(entries, key) {
        Some(i) => {
            assert(after[i].0 == key);
            assert forall|j: int| 0 <= j < i implies after[j].0 != key by {
                assert(entries[j].0 != key);
            }
            first_is_position_of(after, key, i);
        },
        None => {
            if position_of(after, key).is_some() {
                let i = position_of(after, key).unwrap();
                assert(entries[i].0 == key);
            }
        },
    }
}

} // verus!
