use vstd::prelude::*;
use crate::text::same_text;

verus! {

/// No two entries share a key.
pub open spec fn keys_distinct<V>(s: Seq<(String, V)>) -> bool {
    forall|i: int, j: int|
        0 <= i < s.len() && 0 <= j < s.len() && i != j ==> s[i].0@ != s[j].0@
}

/// The map from each key to the value stored with it (a later entry wins).
pub open spec fn key_map<V>(s: Seq<(String, V)>) -> Map<Seq<char>, V>
    decreases s.len(),
{
    if s.len() == 0 {
        Map::empty()
    } else {
        key_map(s.drop_last()).insert(s.last().0@, s.last().1)
    }
}

/// The keys of `key_map(s)` are exactly the keys of the entries.
pub proof fn lemma_key_map_dom<V>(s: Seq<(String, V)>)
    ensures
        forall|k: Seq<char>|
            #[trigger] key_map(s).contains_key(k) <==> exists|i: int| 0 <= i < s.len() && s[i].0@ == k,
    decreases s.len(),
{
    if s.len() > 0 {
        lemma_key_map_dom(s.drop_last());
        assert forall|k: Seq<char>|
            #[trigger] key_map(s).contains_key(k) <==> exists|i: int|
                0 <= i < s.len() && s[i].0@ == k by {
            if key_map(s).contains_key(k) && k != s.last().0@ {
                assert(key_map(s.drop_last()).contains_key(k));
                let i = choose|i: int| 0 <= i < s.drop_last().len() && s.drop_last()[i].0@ == k;
                assert(s[i].0@ == k);
            }
            if key_map(s).contains_key(k) && k == s.last().0@ {
                assert(s[s.len() - 1].0@ == k);
            }
            if exists|i: int| 0 <= i < s.len() && s[i].0@ == k {
                let i = choose|i: int| 0 <= i < s.len() && s[i].0@ == k;
                if i < s.len() - 1 {
                    assert(s.drop_last()[i].0@ == k);
                    assert(key_map(s.drop_last()).contains_key(k));
                }
            }
        }
    }
}

/// With distinct keys, the value stored under the key of entry `i` is that entry's value.
pub proof fn lemma_key_map_index<V>(s: Seq<(String, V)>, i: int)
    requires
        keys_distinct(s),
        0 <= i < s.len(),
    ensures
        key_map(s).contains_key(s[i].0@),
        key_map(s)[s[i].0@] == s[i].1,
    decreases s.len(),
{
    if i < s.len() - 1 {
        assert(keys_distinct(s.drop_last()));
        lemma_key_map_index(s.drop_last(), i);
        assert(s.drop_last()[i] == s[i]);
        assert(s[i].0@ != s.last().0@);
    }
}

/// Replacing the value of entry `i`, under a key with the same characters, replaces it in the map.
pub proof fn lemma_key_map_update<V>(s: Seq<(String, V)>, i: int, p: (String, V))
    requires
        keys_distinct(s),
        0 <= i < s.len(),
        p.0@ == s[i].0@,
    ensures
        keys_distinct(s.update(i, p)),
        key_map(s.update(i, p)) == key_map(s).insert(p.0@, p.1),
    decreases s.len(),
{
    let t = s.update(i, p);
    assert(keys_distinct(t));
    if i == s.len() - 1 {
        assert(t.drop_last() =~= s.drop_last());
        lemma_key_map_dom(s.drop_last());
        assert(key_map(t) =~= key_map(s).insert(p.0@, p.1));
    } else {
        assert(keys_distinct(s.drop_last()));
        lemma_key_map_update(s.drop_last(), i, p);
        assert(t.drop_last() =~= s.drop_last().update(i, p));
        assert(s.last().0@ != p.0@);
        assert(key_map(t) =~= key_map(s).insert(p.0@, p.1));
    }
}

/// Appending an entry with a new key adds that key to the map.
pub proof fn lemma_key_map_push<V>(s: Seq<(String, V)>, p: (String, V))
    requires
        keys_distinct(s),
        forall|i: int| 0 <= i < s.len() ==> s[i].0@ != p.0@,
    ensures
        keys_distinct(s.push(p)),
        key_map(s.push(p)) == key_map(s).insert(p.0@, p.1),
{
    assert(s.push(p).drop_last() =~= s);
}

/// The index of the entry whose key has the characters of `key`, if there is one.
pub fn find_key<V>(entries: &Vec<(String, V)>, key: &str) -> (r: Option<usize>)
    ensures
        match r {
            Some(i) => i < entries@.len() && entries@[i as int].0@ == key@,
            None => forall|i: int| 0 <= i < entries@.len() ==> entries@[i].0@ != key@,
        },
{
    let mut i: usize = 0;
    while i < entries.len()
        invariant
            i <= entries@.len(),
            forall|j: int| 0 <= j < i ==> entries@[j].0@ != key@,
        decreases entries@.len() - i,
    {
        if same_text(entries[i].0.as_str(), key) {
            return Some(i);
        }
        i = i + 1;
    }
    None
}

/// Inserts `value` under `key`, replacing the value of an entry with the same key.
pub fn upsert<V>(entries: &mut Vec<(String, V)>, key: String, value: V)
    requires
        keys_distinct(old(entries)@),
    ensures
        keys_distinct(final(entries)@),
        key_map(final(entries)@) == key_map(old(entries)@).insert(key@, value),
{
    match find_key(entries, key.as_str()) {
        Some(i) => {
            proof {
                lemma_key_map_update(entries@, i as int, (key, value));
            }
            entries.set(i, (key, value));
        },
        None => {
            proof {
                lemma_key_map_push(entries@, (key, value));
            }
            entries.push((key, value));
        },
    }
}

} // verus!
