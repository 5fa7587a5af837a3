//! A persistent key-value table modelled as an association list of byte
//! strings, viewed in specifications as a finite `Map` from key bytes to
//! value bytes. Keys are kept unique, so lookup, insert and remove agree
//! with the map operations.

use vstd::prelude::*;
use crate::types::{bytes_eq, copy_bytes};

verus! {

/// The map an association list denotes: later entries override earlier
/// ones, though with unique keys no overriding ever happens.
pub open spec fn alist_view(entries: Seq<(Vec<u8>, Vec<u8>)>) -> Map<Seq<u8>, Seq<u8>>
    decreases entries.len(),
{
    if entries.len() == 0 {
        Map::empty()
    } else {
        alist_view(entries.drop_last()).insert(entries.last().0@, entries.last().1@)
    }
}

/// No two entries share a key.
pub open spec fn keys_unique(entries: Seq<(Vec<u8>, Vec<u8>)>) -> bool {
    forall|i: int, j: int| 0 <= i < j < entries.len() ==> entries[i].0@ != entries[j].0@
}

/// A key is in the view's domain exactly when some entry carries it.
pub proof fn lemma_alist_dom(entries: Seq<(Vec<u8>, Vec<u8>)>, key: Seq<u8>)
    ensures
        alist_view(entries).contains_key(key) <==> exists|i: int|
            0 <= i < entries.len() && entries[i].0@ == key,
    decreases entries.len(),
{
    if entries.len() > 0 {
        lemma_alist_dom(entries.drop_last(), key);
        if entries.last().0@ == key {
            assert(entries[entries.len() - 1].0@ == key);
        } else {
            if alist_view(entries).contains_key(key) {
                let i = choose|i: int|
                    0 <= i < entries.drop_last().len() && entries.drop_last()[i].0@ == key;
                assert(entries[i].0@ == key);
            }
            if exists|i: int| 0 <= i < entries.len() && entries[i].0@ == key {
                let i = choose|i: int| 0 <= i < entries.len() && entries[i].0@ == key;
                assert(i < entries.len() - 1);
                assert(entries.drop_last()[i].0@ == key);
            }
        }
    }
}

/// With unique keys, the view maps each entry's key to that entry's value.
pub proof fn lemma_alist_index(entries: Seq<(Vec<u8>, Vec<u8>)>, i: int)
    requires
        keys_unique(entries),
        0 <= i < entries.len(),
    ensures
        alist_view(entries).contains_key(entries[i].0@),
        alist_view(entries)[entries[i].0@] == entries[i].1@,
    decreases entries.len(),
{
    lemma_alist_dom(entries, entries[i].0@);
    if i == entries.len() - 1 {
    } else {
        assert(keys_unique(entries.drop_last()));
        assert(entries.drop_last()[i] == entries[i]);
        lemma_alist_index(entries.drop_last(), i);
        assert(entries[i].0@ != entries.last().0@);
    }
}

/// Removing the entry at index `i` removes exactly its key from the view.
pub proof fn lemma_alist_remove(entries: Seq<(Vec<u8>, Vec<u8>)>, i: int)
    requires
        keys_unique(entries),
        0 <= i < entries.len(),
    ensures
        keys_unique(entries.remove(i)),
        alist_view(entries.remove(i)) =~= alist_view(entries).remove(entries[i].0@),
    decreases entries.len(),
{
    let removed = entries.remove(i);
    entries.remove_ensures(i);
    assert forall|p: int, q: int| 0 <= p < q < removed.len() implies removed[p].0@
        != removed[q].0@ by {
        let p0 = if p < i { p } else { p + 1 };
        let q0 = if q < i { q } else { q + 1 };
        assert(removed[p] == entries[p0]);
        assert(removed[q] == entries[q0]);
    }
    if i == entries.len() - 1 {
        assert(removed =~= entries.drop_last());
        lemma_alist_dom(entries.drop_last(), entries[i].0@);
        assert(!alist_view(entries.drop_last()).contains_key(entries[i].0@));
    } else {
        assert(removed.last() == entries.last());
        assert(removed.drop_last() =~= entries.drop_last().remove(i));
        assert(keys_unique(entries.drop_last()));
        assert(entries.drop_last()[i] == entries[i]);
        lemma_alist_remove(entries.drop_last(), i);
        assert(entries[i].0@ != entries.last().0@);
    }
}

/// Looks a key up: the value stored under it, if any.
pub fn alist_get(entries: &Vec<(Vec<u8>, Vec<u8>)>, key: &Vec<u8>) -> (r: Option<Vec<u8>>)
    requires
        keys_unique(entries@),
    ensures
        match r {
            Some(value) => alist_view(entries@).contains_key(key@) && value@ == alist_view(
                entries@,
            )[key@],
            None => !alist_view(entries@).contains_key(key@),
        },
{
    let mut i: usize = 0;
    while i < entries.len()
        invariant
            keys_unique(entries@),
            i <= entries@.len(),
            forall|j: int| 0 <= j < i ==> entries@[j].0@ != key@,
        decreases entries@.len() - i,
    {
        if bytes_eq(&entries[i].0, key) {
            let value = copy_bytes(&entries[i].1);
            proof {
                lemma_alist_index(entries@, i as int);
            }
            return Some(value);
        }
        i += 1;
    }
    proof {
        lemma_alist_dom(entries@, key@);
    }
    None
}

/// Whether a key is present.
pub fn alist_contains(entries: &Vec<(Vec<u8>, Vec<u8>)>, key: &Vec<u8>) -> (r: bool)
    requires
        keys_unique(entries@),
    ensures
        r == alist_view(entries@).contains_key(key@),
{
    let got = alist_get(entries, key);
    got.is_some()
}

/// Removes a key if present; leaves the table as it was otherwise.
pub fn alist_remove(entries: &mut Vec<(Vec<u8>, Vec<u8>)>, key: &Vec<u8>)
    requires
        keys_unique(old(entries)@),
    ensures
        keys_unique(final(entries)@),
        alist_view(final(entries)@) == alist_view(old(entries)@).remove(key@),
{
    let mut i: usize = 0;
    while i < entries.len()
        invariant
            entries@ == old(entries)@,
            keys_unique(entries@),
            i <= entries@.len(),
            forall|j: int| 0 <= j < i ==> entries@[j].0@ != key@,
        decreases entries@.len() - i,
    {
        if bytes_eq(&entries[i].0, key) {
            proof {
                lemma_alist_remove(entries@, i as int);
            }
            entries.remove(i);
            return ;
        }
        i += 1;
    }
    proof {
        lemma_alist_dom(entries@, key@);
        assert(alist_view(entries@) =~= alist_view(entries@).remove(key@));
    }
}

/// Inserts a key-value pair, replacing any earlier entry under the key.
pub fn alist_insert(entries: &mut Vec<(Vec<u8>, Vec<u8>)>, key: Vec<u8>, value: Vec<u8>)
    requires
        keys_unique(old(entries)@),
    ensures
        keys_unique(final(entries)@),
        alist_view(final(entries)@) == alist_view(old(entries)@).insert(key@, value@),
{
    alist_remove(entries, &key);
    proof {
        lemma_alist_dom(entries@, key@);
    }
    let ghost pre = entries@;
    entries.push((key, value));
    proof {
        assert(entries@.drop_last() =~= pre);
        assert forall|p: int, q: int| 0 <= p < q < entries@.len() implies entries@[p].0@
            != entries@[q].0@ by {
            if q == entries@.len() - 1 {
                assert(pre[p] == entries@[p]);
                lemma_alist_index(pre, p);
            }
        }
        assert(alist_view(entries@) =~= alist_view(old(entries)@).insert(
            entries@.last().0@,
            entries@.last().1@,
        ));
    }
}

} // verus!
