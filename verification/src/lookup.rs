//! Finding a name in an ordered list of named entries.
//!
//! Records, argument lists and the state store are all lists of named
//! entries. A name stands for the first entry that carries it.

use vstd::prelude::*;

verus! {

/// `index` is the first position of `keys` that holds `key`.
pub open spec fn is_first(keys: Seq<Seq<char>>, key: Seq<char>, index: int) -> bool {
    &&& 0 <= index < keys.len()
    &&& keys[index] == key
    &&& forall|earlier: int| 0 <= earlier < index ==> keys[earlier] != key
}

/// The first position of `keys` that holds `key`, if any does.
pub open spec fn first_index(keys: Seq<Seq<char>>, key: Seq<char>) -> Option<int> {
    if exists|index: int| is_first(keys, key, index) {
        Some(choose|index: int| is_first(keys, key, index))
    } else {
        None
    }
}

/// The names of a list of named entries, in order.
pub open spec fn keys<T>(entries: Seq<(String, T)>) -> Seq<Seq<char>> {
    Seq::new(entries.len(), |index: int| entries[index].0@)
}

/// No name occurs twice in `keys`.
pub open spec fn distinct(keys: Seq<Seq<char>>) -> bool {
    forall|first: int, second: int|
        0 <= first < second < keys.len() ==> keys[first] != keys[second]
}

/// A first position is the only first position.
pub proof fn lemma_first_index_found(keys: Seq<Seq<char>>, key: Seq<char>, index: int)
    requires
        is_first(keys, key, index),
    ensures
        first_index(keys, key) == Some(index),
{
    let chosen = choose|other: int| is_first(keys, key, other);
    assert(is_first(keys, key, chosen));
    if chosen < index {
        assert(keys[chosen] != key);
    } else if index < chosen {
        assert(keys[index] != key);
    }
}

/// A name that no entry carries has no first position.
pub proof fn lemma_first_index_missing(keys: Seq<Seq<char>>, key: Seq<char>)
    requires
        forall|index: int| 0 <= index < keys.len() ==> keys[index] != key,
    ensures
        first_index(keys, key) is None,
{
}

/// What `first_index` says of its answer.
pub proof fn lemma_first_index_meaning(keys: Seq<Seq<char>>, key: Seq<char>)
    ensures
        match first_index(keys, key) {
            Some(index) => is_first(keys, key, index),
            None => forall|index: int| 0 <= index < keys.len() ==> keys[index] != key,
        },
{
    if first_index(keys, key) is None {
        assert forall|index: int| 0 <= index < keys.len() implies keys[index] != key by {
            if keys[index] == key {
                lemma_some_first(keys, key, index);
            }
        }
    }
}

/// If some entry up to `bound` carries `key`, then a first one exists.
proof fn lemma_some_first(keys: Seq<Seq<char>>, key: Seq<char>, bound: int)
    requires
        0 <= bound < keys.len(),
        keys[bound] == key,
    ensures
        exists|index: int| is_first(keys, key, index),
    decreases bound,
{
    if forall|earlier: int| 0 <= earlier < bound ==> keys[earlier] != key {
        assert(is_first(keys, key, bound));
    } else {
        let earlier = choose|earlier: int| 0 <= earlier < bound && keys[earlier] == key;
        lemma_some_first(keys, key, earlier);
    }
}

/// Whether two strings hold the same text.
pub fn same_text(left: &str, right: &str) -> (same: bool)
    ensures
        same == (left@ == right@),
{
    left.to_owned() == right.to_owned()
}

/// Finds the first entry named `key`.
pub fn find_key<T>(entries: &Vec<(String, T)>, key: &str) -> (found: Option<usize>)
    ensures
        match found {
            Some(index) => first_index(keys(entries@), key@) == Some(index as int),
            None => first_index(keys(entries@), key@) is None,
        },
{
    let wanted = key.to_owned();
    let mut index: usize = 0;
    while index < entries.len()
        invariant
            index <= entries.len(),
            wanted@ == key@,
            forall|earlier: int| 0 <= earlier < index ==> keys(entries@)[earlier] != key@,
        decreases entries.len() - index,
    {
        if entries[index].0 == wanted {
            proof {
                lemma_first_index_found(keys(entries@), key@, index as int);
            }
            return Some(index);
        }
        index += 1;
    }
    proof {
        lemma_first_index_missing(keys(entries@), key@);
    }
    None
}

} // verus!
