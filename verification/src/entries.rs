//! Lists of key and value texts, in which a key is set in place where it is
//! and appended where it is not, and the collection of pairs into such a list
//! as a map collects them.

use vstd::prelude::*;

use crate::text::{pair_views, str_eq};

verus! {

/// Key and value pairs.
pub type Entries = Seq<(Seq<char>, Seq<char>)>;

/// The position of the first entry with a key.
pub open spec fn find_key(entries: Entries, key: Seq<char>) -> Option<int> {
    if exists|i: int| 0 <= i < entries.len() && entries[i].0 == key {
        Some(choose|i: int| 0 <= i < entries.len() && entries[i].0 == key && forall|j: int| 0 <= j < i ==> entries[j].0 != key)
    } else {
        None
    }
}

/// The first entry with a key holds the key, with none before it; a key no
/// entry holds is not found.
pub proof fn lemma_find_key(entries: Entries, key: Seq<char>)
    ensures
        find_key(entries, key) matches Some(i) ==> 0 <= i < entries.len() && entries[i].0 == key
            && forall|j: int| 0 <= j < i ==> entries[j].0 != key,
        find_key(entries, key) is None ==> forall|j: int| 0 <= j < entries.len() ==> entries[j].0 != key,
{
    if exists|i: int| 0 <= i < entries.len() && entries[i].0 == key {
        let w = choose|i: int| 0 <= i < entries.len() && entries[i].0 == key;
        lemma_minimal_key(entries, key, w);
    }
}

proof fn lemma_minimal_key(entries: Entries, key: Seq<char>, w: int)
    requires
        0 <= w < entries.len(),
        entries[w].0 == key,
    ensures
        exists|i: int| 0 <= i < entries.len() && entries[i].0 == key && forall|j: int| 0 <= j < i ==> entries[j].0 != key,
    decreases w,
{
    if exists|j: int| 0 <= j < w && entries[j].0 == key {
        let j = choose|j: int| 0 <= j < w && entries[j].0 == key;
        lemma_minimal_key(entries, key, j);
    } else {
        assert(forall|j: int| 0 <= j < w ==> entries[j].0 != key);
    }
}

/// Sets the value of a key: in place where the key is, at the end otherwise.
pub open spec fn upsert(entries: Entries, key: Seq<char>, value: Seq<char>) -> Entries {
    match find_key(entries, key) {
        Some(i) => entries.update(i, (key, value)),
        None => entries.push((key, value)),
    }
}

/// Looks up the first entry with a key.
pub fn find_key_index(entries: &Vec<(String, String)>, key: &str) -> (r: Option<usize>)
    ensures
        r matches Some(i) ==> i < entries@.len() && find_key(pair_views(entries@), key@) == Some(i as int),
        r is None ==> find_key(pair_views(entries@), key@) is None,
{
    let ghost v = pair_views(entries@);
    proof {
        lemma_find_key(v, key@);
    }
    let n = entries.len();
    let mut i: usize = 0;
    while i < n
        invariant
            n == entries@.len(),
            v == pair_views(entries@),
            i <= n,
            forall|j: int| 0 <= j < i ==> v[j].0 != key@,
        decreases n - i,
    {
        if str_eq(entries[i].0.as_str(), key) {
            proof {
                assert(v[i as int].0 == key@);
                let k = choose|k: int| 0 <= k < v.len() && v[k].0 == key@ && forall|j: int| 0 <= j < k ==> v[j].0 != key@;
                if k < i {
                } else if k > i {
                    assert(v[i as int].0 != key@);
                }
            }
            return Some(i);
        }
        i = i + 1;
    }
    None
}

pub fn set_entry(entries: &mut Vec<(String, String)>, key: &str, value: &str)
    ensures
        pair_views(final(entries)@) == upsert(pair_views(old(entries)@), key@, value@),
{
    proof {
        lemma_find_key(pair_views(entries@), key@);
    }
    match find_key_index(entries, key) {
        Some(i) => {
            let k = String::from_str(key);
            let v = String::from_str(value);
            assert(k@ == key@ && v@ == value@);
            entries.set(i, (k, v));
            assert(entries@ == old(entries)@.update(i as int, (k, v)));
            assert(pair_views(entries@) =~= pair_views(old(entries)@).update(i as int, (key@, value@)));
            assert(find_key(pair_views(old(entries)@), key@) == Some(i as int));
        },
        None => {
            entries.push((String::from_str(key), String::from_str(value)));
            assert(pair_views(entries@) =~= pair_views(old(entries)@).push((key@, value@)));
        },
    }
}

/// Copies a list of pairs.
pub fn clone_pairs(pairs: &Vec<(String, String)>) -> (r: Vec<(String, String)>)
    ensures
        pair_views(r@) == pair_views(pairs@),
{
    let mut out: Vec<(String, String)> = Vec::new();
    let n = pairs.len();
    let mut i: usize = 0;
    while i < n
        invariant
            n == pairs@.len(),
            i <= n,
            out@.len() == i,
            forall|j: int| 0 <= j < i ==> (#[trigger] out@[j]).0@ == pairs@[j].0@ && out@[j].1@ == pairs@[j].1@,
        decreases n - i,
    {
        out.push((pairs[i].0.clone(), pairs[i].1.clone()));
        i = i + 1;
    }
    assert(pair_views(out@) =~= pair_views(pairs@));
    out
}

/// Sets each pair in turn, in order: a key keeps its first place and takes
/// its last value.
pub open spec fn upsert_all(entries: Entries, pairs: Entries) -> Entries
    decreases pairs.len(),
{
    if pairs.len() == 0 {
        entries
    } else {
        upsert(upsert_all(entries, pairs.drop_last()), pairs.last().0, pairs.last().1)
    }
}

/// The value of the last pair with a key.
pub open spec fn last_value(pairs: Entries, key: Seq<char>) -> Option<Seq<char>>
    decreases pairs.len(),
{
    if pairs.len() == 0 {
        None
    } else if pairs.last().0 == key {
        Some(pairs.last().1)
    } else {
        last_value(pairs.drop_last(), key)
    }
}

/// The value of a key among entries: that of the first entry with the key.
pub open spec fn value_of(entries: Entries, key: Seq<char>) -> Option<Seq<char>> {
    match find_key(entries, key) {
        Some(i) => Some(entries[i].1),
        None => None,
    }
}

/// Whether no two entries have the same key.
pub open spec fn keys_unique(entries: Entries) -> bool {
    forall|i: int, j: int| 0 <= i < j < entries.len() ==> entries[i].0 != entries[j].0
}

/// Setting a key keeps the keys of a list unique.
pub proof fn lemma_upsert_keeps_keys_unique(entries: Entries, key: Seq<char>, value: Seq<char>)
    requires
        keys_unique(entries),
    ensures
        keys_unique(upsert(entries, key, value)),
{
    lemma_find_key(entries, key);
    let u = upsert(entries, key, value);
    match find_key(entries, key) {
        Some(i) => {
            assert forall|a: int, b: int| 0 <= a < b < u.len() implies u[a].0 != u[b].0 by {
                assert(u[a].0 == entries[a].0 && u[b].0 == entries[b].0);
            }
        },
        None => {
            assert forall|a: int, b: int| 0 <= a < b < u.len() implies u[a].0 != u[b].0 by {
                assert(u[a] == entries[a]);
                if b < entries.len() {
                    assert(u[b] == entries[b]);
                }
            }
        },
    }
}

proof fn lemma_value_of_unique(entries: Entries, key: Seq<char>, i: int)
    requires
        keys_unique(entries),
        0 <= i < entries.len(),
        entries[i].0 == key,
    ensures
        value_of(entries, key) == Some(entries[i].1),
{
    lemma_find_key(entries, key);
    let j = find_key(entries, key)->0;
    if j < i {
        assert(entries[j].0 != entries[i].0);
    } else if i < j {
        assert(entries[i].0 != entries[j].0);
    }
}

proof fn lemma_value_of_absent(entries: Entries, key: Seq<char>)
    requires
        forall|j: int| 0 <= j < entries.len() ==> entries[j].0 != key,
    ensures
        value_of(entries, key) is None,
{
    lemma_find_key(entries, key);
}

/// Collecting pairs keeps each key once, and a key has the value of the last
/// pair with that key; a key of no pair has no value.
pub proof fn lemma_collected_last_value_wins(pairs: Entries, key: Seq<char>)
    ensures
        keys_unique(upsert_all(Seq::empty(), pairs)),
        value_of(upsert_all(Seq::empty(), pairs), key) == last_value(pairs, key),
    decreases pairs.len(),
{
    if pairs.len() == 0 {
        lemma_value_of_absent(Seq::empty(), key);
    } else {
        let prev = upsert_all(Seq::empty(), pairs.drop_last());
        let (k, v) = pairs.last();
        let u = upsert(prev, k, v);
        lemma_collected_last_value_wins(pairs.drop_last(), key);
        lemma_find_key(prev, k);
        match find_key(prev, k) {
            Some(i) => {
                assert(u == prev.update(i, (k, v)));
                assert forall|a: int, b: int| 0 <= a < b < u.len() implies u[a].0 != u[b].0 by {
                    assert(u[a].0 == prev[a].0 && u[b].0 == prev[b].0);
                }
                if key == k {
                    lemma_value_of_unique(u, key, i);
                } else {
                    lemma_find_key(prev, key);
                    match find_key(prev, key) {
                        Some(j) => {
                            lemma_value_of_unique(prev, key, j);
                            lemma_value_of_unique(u, key, j);
                        },
                        None => {
                            assert forall|j: int| 0 <= j < u.len() implies u[j].0 != key by {
                                if j != i {
                                    assert(u[j] == prev[j]);
                                }
                            }
                            lemma_value_of_absent(u, key);
                        },
                    }
                }
            },
            None => {
                assert(u == prev.push((k, v)));
                assert forall|a: int, b: int| 0 <= a < b < u.len() implies u[a].0 != u[b].0 by {
                    if b == prev.len() {
                        assert(u[a] == prev[a]);
                    } else {
                        assert(u[a] == prev[a] && u[b] == prev[b]);
                    }
                }
                if key == k {
                    lemma_value_of_unique(u, key, prev.len() as int);
                } else {
                    lemma_find_key(prev, key);
                    match find_key(prev, key) {
                        Some(j) => {
                            lemma_value_of_unique(prev, key, j);
                            assert(u[j] == prev[j]);
                            lemma_value_of_unique(u, key, j);
                        },
                        None => {
                            assert forall|j: int| 0 <= j < u.len() implies u[j].0 != key by {
                                if j < prev.len() {
                                    assert(u[j] == prev[j]);
                                }
                            }
                            lemma_value_of_absent(u, key);
                        },
                    }
                }
            },
        }
    }
}

/// Collects pairs as a map does: in order, a key keeps its first place and
/// takes its last value.
pub fn collect_pairs(pairs: &Vec<(String, String)>) -> (r: Vec<(String, String)>)
    ensures
    pair_views(r@) == upsert_all(Seq::empty(), pair_views(pairs@)),
{
    let ghost pv = pair_views(pairs@);
    let mut inner: Vec<(String, String)> = Vec::new();
    let n = pairs.len();
    let mut i: usize = 0;
    assert(pair_views(inner@) =~= upsert_all(Seq::empty(), pv.subrange(0, 0)));
    while i < n
        invariant
            n == pairs@.len(),
            pv == pair_views(pairs@),
            i <= n,
            pair_views(inner@) == upsert_all(Seq::empty(), pv.subrange(0, i as int)),
        decreases n - i,
    {
        set_entry(&mut inner, pairs[i].0.as_str(), pairs[i].1.as_str());
        assert(pv.subrange(0, i + 1).drop_last() =~= pv.subrange(0, i as int));
        i = i + 1;
    }
    assert(pv.subrange(0, n as int) =~= pv);
    inner
}

} // verus!
