//! A small association list keyed by strings, with a `Map` view over the
//! key characters.  Both stores of the library keep their records in one of
//! these; keys are unique, so a linear scan finds the only match.

use vstd::prelude::*;

verus! {

/// The map a key-value list denotes: later entries override earlier ones,
/// though a well-formed list never holds a key twice.
pub open spec fn kv_map<V>(s: Seq<(String, V)>) -> Map<Seq<char>, V>
    decreases s.len(),
{
    if s.len() == 0 {
        Map::empty()
    } else {
        kv_map(s.drop_last()).insert(s.last().0@, s.last().1)
    }
}

/// Well-formedness: no two entries share a key.
pub open spec fn kv_unique<V>(s: Seq<(String, V)>) -> bool {
    forall|i: int, j: int| 0 <= i < j < s.len() ==> s[i].0@ != s[j].0@
}

/// An entry's key is in the map, and maps to that entry's value.
pub proof fn lemma_kv_map_index<V>(s: Seq<(String, V)>, i: int)
    requires
        kv_unique(s),
        0 <= i < s.len(),
    ensures
        kv_map(s).dom().contains(s[i].0@),
        kv_map(s)[s[i].0@] == s[i].1,
    decreases s.len(),
{
    if i < s.len() - 1 {
        assert(kv_unique(s.drop_last()));
        lemma_kv_map_index(s.drop_last(), i);
        assert(s[i].0@ != s.last().0@);
    }
}

/// A key held by no entry is not in the map.
pub proof fn lemma_kv_map_absent<V>(s: Seq<(String, V)>, k: Seq<char>)
    requires
        forall|i: int| 0 <= i < s.len() ==> s[i].0@ != k,
    ensures
        !kv_map(s).dom().contains(k),
    decreases s.len(),
{
    if s.len() > 0 {
        lemma_kv_map_absent(s.drop_last(), k);
    }
}

/// Replacing the entry that holds a key is, on the map, an insert at that
/// key.
pub proof fn lemma_kv_map_update<V>(s: Seq<(String, V)>, i: int, k: String, v: V)
    requires
        kv_unique(s),
        0 <= i < s.len(),
        k@ == s[i].0@,
    ensures
        kv_unique(s.update(i, (k, v))),
        kv_map(s.update(i, (k, v))) == kv_map(s).insert(k@, v),
    decreases s.len(),
{
    let t = s.update(i, (k, v));
    assert(kv_unique(t));
    if i == s.len() - 1 {
        assert(t.drop_last() =~= s.drop_last());
        assert(kv_map(t) == kv_map(s.drop_last()).insert(k@, v));
        assert(kv_map(s).insert(k@, v) == kv_map(s.drop_last()).insert(s.last().0@, s.last().1)
            .insert(k@, v));
        assert(kv_map(s.drop_last()).insert(s.last().0@, s.last().1).insert(k@, v)
            =~= kv_map(s.drop_last()).insert(k@, v));
    } else {
        assert(kv_unique(s.drop_last()));
        assert(t.drop_last() =~= s.drop_last().update(i, (k, v)));
        lemma_kv_map_update(s.drop_last(), i, k, v);
        assert(t.last() == s.last());
        assert(kv_map(t) == kv_map(s.drop_last()).insert(k@, v).insert(s.last().0@, s.last().1));
        assert(s.last().0@ != k@);
        assert(kv_map(s.drop_last()).insert(k@, v).insert(s.last().0@, s.last().1) =~= kv_map(
            s.drop_last(),
        ).insert(s.last().0@, s.last().1).insert(k@, v));
    }
}

/// Appending an entry under a fresh key is, on the map, an insert at that
/// key.
pub proof fn lemma_kv_map_push<V>(s: Seq<(String, V)>, k: String, v: V)
    requires
        kv_unique(s),
        forall|i: int| 0 <= i < s.len() ==> s[i].0@ != k@,
    ensures
        kv_unique(s.push((k, v))),
        kv_map(s.push((k, v))) == kv_map(s).insert(k@, v),
{
    assert(s.push((k, v)).drop_last() =~= s);
}

/// Finds the entry holding a key, if the list has one.
pub fn kv_find<V>(entries: &Vec<(String, V)>, key: &str) -> (r: Option<usize>)
    requires
        kv_unique(entries@),
    ensures
        match r {
            Some(i) => i < entries@.len() && entries@[i as int].0@ == key@ && kv_map(
                entries@,
            ).dom().contains(key@) && kv_map(entries@)[key@] == entries@[i as int].1,
            None => !kv_map(entries@).dom().contains(key@) && (forall|j: int|
                0 <= j < entries@.len() ==> entries@[j].0@ != key@),
        },
{
    let k: String = key.to_owned();
    let n: usize = entries.len();
    let mut i: usize = 0;
    while i < n
        invariant
            kv_unique(entries@),
            n == entries@.len(),
            i <= n,
            k@ == key@,
            forall|j: int| 0 <= j < i ==> entries@[j].0@ != key@,
        decreases n - i,
    {
        if entries[i].0 == k {
            proof {
                lemma_kv_map_index(entries@, i as int);
            }
            return Some(i);
        }
        i = i + 1;
    }
    proof {
        lemma_kv_map_absent(entries@, key@);
    }
    None
}

/// Binds a key to a value, replacing any entry that already holds the key.
pub fn kv_insert<V>(entries: &mut Vec<(String, V)>, key: String, value: V)
    requires
        kv_unique(old(entries)@),
    ensures
        kv_unique(final(entries)@),
        kv_map(final(entries)@) == kv_map(old(entries)@).insert(key@, value),
{
    let found = kv_find(entries, key.as_str());
    match found {
        Some(i) => {
            proof {
                lemma_kv_map_update(entries@, i as int, key, value);
            }
            let slot = &mut entries[i];
            *slot = (key, value);
        },
        None => {
            proof {
                lemma_kv_map_push(entries@, key, value);
            }
            entries.push((key, value));
        },
    }
}

} // verus!
