//! Association lists keyed by text: a vector of entries whose keys are pairwise
//! distinct, seen as the map from each key to its value.
use vstd::prelude::*;

use crate::text::same_text;

verus! {

/// The keys of `entries` are pairwise distinct.
pub open spec fn keys_distinct<V>(entries: Seq<(String, V)>) -> bool {
    forall|i: int, j: int|
        0 <= i < entries.len() && 0 <= j < entries.len() && i != j ==> #[trigger] entries[i].0@
            != #[trigger] entries[j].0@
}

/// Some entry of `entries` has the key `key`.
pub open spec fn has_key<V>(entries: Seq<(String, V)>, key: Seq<char>) -> bool {
    exists|i: int| 0 <= i < entries.len() && #[trigger] entries[i].0@ == key
}

/// The position of an entry of `entries` with the key `key`.
spec fn key_index<V>(entries: Seq<(String, V)>, key: Seq<char>) -> int {
    choose|i: int| 0 <= i < entries.len() && #[trigger] entries[i].0@ == key
}

/// The map from each key of `entries` to the value of its entry.
pub closed spec fn assoc_view<V>(entries: Seq<(String, V)>) -> Map<Seq<char>, V> {
    Map::new(|k: Seq<char>| has_key(entries, k), |k: Seq<char>| entries[key_index(entries, k)].1)
}

/// Each entry of a list with distinct keys is what the map holds for its key.
pub proof fn lemma_assoc_view_at<V>(entries: Seq<(String, V)>, i: int)
    requires
        keys_distinct(entries),
        0 <= i < entries.len(),
    ensures
        assoc_view(entries).contains_key(entries[i].0@),
        assoc_view(entries)[entries[i].0@] == entries[i].1,
{
    let k = entries[i].0@;
    assert(has_key(entries, k));
    let j = key_index(entries, k);
    assert(entries[j].0@ == k);
}

/// The map of a list with distinct keys holds exactly its entries, one key for each.
pub proof fn lemma_assoc_entries<V>(entries: Seq<(String, V)>)
    requires
        keys_distinct(entries),
    ensures
        forall|i: int| 0 <= i < entries.len() ==> #[trigger] assoc_view(entries).contains_key(entries[i].0@)
            && assoc_view(entries)[entries[i].0@] == entries[i].1,
        forall|k: Seq<char>| #[trigger] assoc_view(entries).contains_key(k) ==> exists|i: int|
            0 <= i < entries.len() && #[trigger] entries[i].0@ == k,
        assoc_view(entries).dom().finite(),
        assoc_view(entries).dom().len() == entries.len(),
{
    let m = assoc_view(entries);
    assert forall|i: int| 0 <= i < entries.len() implies #[trigger] m.contains_key(entries[i].0@)
        && m[entries[i].0@] == entries[i].1 by {
        lemma_assoc_view_at(entries, i);
    }
    let keys = entries.map_values(|e: (String, V)| e.0@);
    assert(m.dom() =~= keys.to_set()) by {
        assert forall|k: Seq<char>| m.dom().contains(k) implies keys.to_set().contains(k) by {
            let i = key_index(entries, k);
            assert(keys[i] == k);
        }
        assert forall|k: Seq<char>| keys.to_set().contains(k) implies m.dom().contains(k) by {
            let i = choose|i: int| 0 <= i < keys.len() && keys[i] == k;
            assert(entries[i].0@ == k);
        }
    }
    assert(keys.no_duplicates()) by {
        assert forall|i: int, j: int| 0 <= i < keys.len() && 0 <= j < keys.len() && i != j implies keys[i]
            != keys[j] by {
            assert(entries[i].0@ != entries[j].0@);
        }
    }
    keys.unique_seq_to_set();
}

/// The list with no entries is the empty map.
pub proof fn lemma_assoc_empty<V>()
    ensures
        assoc_view(Seq::<(String, V)>::empty()) == Map::<Seq<char>, V>::empty(),
{
    assert(assoc_view(Seq::<(String, V)>::empty()) =~= Map::<Seq<char>, V>::empty());
}

/// The position of the entry with the key `key`, if there is one.
pub fn key_position<V>(entries: &Vec<(String, V)>, key: &str) -> (r: Option<usize>)
    requires
        keys_distinct(entries@),
    ensures
        match r {
            Some(i) => i < entries@.len() && entries@[i as int].0@ == key@
                && assoc_view(entries@).contains_key(key@) && assoc_view(entries@)[key@] == entries@[i as int].1,
            None => !assoc_view(entries@).contains_key(key@),
        },
{
    let mut i: usize = 0;
    while i < entries.len()
        invariant
            keys_distinct(entries@),
            i <= entries@.len(),
            forall|j: int| 0 <= j < i ==> entries@[j].0@ != key@,
        decreases entries@.len() - i,
    {
        if same_text(entries[i].0.as_str(), key) {
            proof {
                lemma_assoc_view_at(entries@, i as int);
            }
            return Some(i);
        }
        i = i + 1;
    }
    None
}

/// Stores `value` under `key`, replacing the entry the key had.
pub fn assoc_insert<V>(entries: &mut Vec<(String, V)>, key: String, value: V)
    requires
        keys_distinct(old(entries)@),
    ensures
        keys_distinct(final(entries)@),
        assoc_view(final(entries)@) == assoc_view(old(entries)@).insert(key@, value),
{
    let ghost old_entries = entries@;
    let ghost k = key@;
    match key_position(entries, key.as_str()) {
        Some(i) => {
            entries.set(i, (key, value));
            proof {
                let s = entries@;
                assert forall|a: int, b: int| 0 <= a < s.len() && 0 <= b < s.len() && a != b implies
                    #[trigger] s[a].0@ != #[trigger] s[b].0@ by {
                    if a != i as int {
                        assert(old_entries[a] == s[a]);
                    }
                    if b != i as int {
                        assert(old_entries[b] == s[b]);
                    }
                }
                assert forall|q: Seq<char>| #[trigger] assoc_view(s).contains_key(q)
                    == assoc_view(old_entries).insert(k, value).contains_key(q) by {
                    if has_key(old_entries, q) {
                        let j = key_index(old_entries, q);
                        assert(s[j].0@ == q);
                    }
                    if has_key(s, q) {
                        let j = key_index(s, q);
                        if j != i {
                            assert(old_entries[j].0@ == q);
                        }
                    }
                }
                assert forall|q: Seq<char>| #[trigger] assoc_view(s).contains_key(q) implies assoc_view(s)[q]
                    == assoc_view(old_entries).insert(k, value)[q] by {
                    let j = key_index(s, q);
                    assert(s[j].0@ == q);
                    if q == k {
                        lemma_assoc_view_at(s, i as int);
                    } else {
                        assert(j != i);
                        assert(old_entries[j] == s[j]);
                        lemma_assoc_view_at(s, j);
                        lemma_assoc_view_at(old_entries, j);
                    }
                }
                assert(assoc_view(s) =~= assoc_view(old_entries).insert(k, value));
            }
        },
        None => {
            entries.push((key, value));
            proof {
                let s = entries@;
                let n = old_entries.len() as int;
                assert(!has_key(old_entries, k)) by {
                    if has_key(old_entries, k) {
                        lemma_assoc_view_at(old_entries, key_index(old_entries, k));
                    }
                }
                assert forall|a: int, b: int| 0 <= a < s.len() && 0 <= b < s.len() && a != b implies
                    #[trigger] s[a].0@ != #[trigger] s[b].0@ by {
                    if a != n {
                        assert(old_entries[a] == s[a]);
                    }
                    if b != n {
                        assert(old_entries[b] == s[b]);
                    }
                    if a == n {
                        assert(old_entries[b].0@ != k);
                    }
                    if b == n {
                        assert(old_entries[a].0@ != k);
                    }
                }
                assert forall|q: Seq<char>| #[trigger] assoc_view(s).contains_key(q)
                    == assoc_view(old_entries).insert(k, value).contains_key(q) by {
                    if has_key(old_entries, q) {
                        let j = key_index(old_entries, q);
                        assert(s[j].0@ == q);
                    }
                    if has_key(s, q) && q != k {
                        let j = key_index(s, q);
                        assert(old_entries[j].0@ == q);
                    }
                    if q == k {
                        assert(s[n].0@ == q);
                    }
                }
                assert forall|q: Seq<char>| #[trigger] assoc_view(s).contains_key(q) implies assoc_view(s)[q]
                    == assoc_view(old_entries).insert(k, value)[q] by {
                    let j = key_index(s, q);
                    assert(s[j].0@ == q);
                    if q == k {
                        lemma_assoc_view_at(s, n);
                    } else {
                        assert(old_entries[j] == s[j]);
                        lemma_assoc_view_at(s, j);
                        lemma_assoc_view_at(old_entries, j);
                    }
                }
                assert(assoc_view(s) =~= assoc_view(old_entries).insert(k, value));
            }
        },
    }
}

/// Takes the entry with the key `key` out of the list, and gives back its value.
pub fn assoc_remove<V>(entries: &mut Vec<(String, V)>, key: &str) -> (r: Option<V>)
    requires
        keys_distinct(old(entries)@),
    ensures
        keys_distinct(final(entries)@),
        assoc_view(final(entries)@) == assoc_view(old(entries)@).remove(key@),
        match r {
            Some(v) => assoc_view(old(entries)@).contains_key(key@) && v == assoc_view(old(entries)@)[key@],
            None => !assoc_view(old(entries)@).contains_key(key@),
        },
{
    let ghost old_entries = entries@;
    let ghost k = key@;
    match key_position(entries, key) {
        Some(i) => {
            let (_, v) = entries.remove(i);
            proof {
                let s = entries@;
                assert forall|a: int, b: int| 0 <= a < s.len() && 0 <= b < s.len() && a != b implies
                    #[trigger] s[a].0@ != #[trigger] s[b].0@ by {
                    let oa = if a < i { a } else { a + 1 };
                    let ob = if b < i { b } else { b + 1 };
                    assert(old_entries[oa] == s[a]);
                    assert(old_entries[ob] == s[b]);
                }
                assert forall|q: Seq<char>| #[trigger] assoc_view(s).contains_key(q)
                    == assoc_view(old_entries).remove(k).contains_key(q) by {
                    if has_key(old_entries, q) && q != k {
                        let j = key_index(old_entries, q);
                        assert(old_entries[j].0@ == q);
                        if j < i {
                            assert(s[j].0@ == q);
                        } else {
                            assert(j != i);
                            assert(s[j - 1].0@ == q);
                        }
                    }
                    if has_key(s, q) {
                        let j = key_index(s, q);
                        if j < i {
                            assert(old_entries[j].0@ == q);
                        } else {
                            assert(old_entries[j + 1].0@ == q);
                        }
                    }
                }
                assert forall|q: Seq<char>| #[trigger] assoc_view(s).contains_key(q) implies assoc_view(s)[q]
                    == assoc_view(old_entries).remove(k)[q] by {
                    let j = key_index(s, q);
                    assert(s[j].0@ == q);
                    lemma_assoc_view_at(s, j);
                    if j < i {
                        assert(old_entries[j] == s[j]);
                        lemma_assoc_view_at(old_entries, j);
                    } else {
                        assert(old_entries[j + 1] == s[j]);
                        lemma_assoc_view_at(old_entries, j + 1);
                    }
                }
                assert(assoc_view(s) =~= assoc_view(old_entries).remove(k));
            }
            Some(v)
        },
        None => {
            proof {
                assert(assoc_view(entries@) =~= assoc_view(old_entries).remove(k));
            }
            None
        },
    }
}

} // verus!
