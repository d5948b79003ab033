//! Association lists keyed by strings: the representation shared by the
//! datatype table of a dataset and by the registry's table of datasets.
use vstd::prelude::*;

verus! {

/// No two entries share a key.
pub open spec fn keys_unique<V>(s: Seq<(String, V)>) -> bool {
    forall|i: int, j: int|
        0 <= i < s.len() && 0 <= j < s.len() && i != j ==> s[i].0@ != s[j].0@
}

/// Some entry has key `k`.
pub open spec fn has_key<V>(s: Seq<(String, V)>, k: Seq<char>) -> bool {
    exists|i: int| 0 <= i < s.len() && s[i].0@ == k
}

/// The index of the entry with key `k`.
pub open spec fn index_of<V>(s: Seq<(String, V)>, k: Seq<char>) -> int {
    choose|i: int| 0 <= i < s.len() && s[i].0@ == k
}

/// The map that an association list stands for.
pub open spec fn map_of<V: View>(s: Seq<(String, V)>) -> Map<Seq<char>, V::V> {
    Map::new(|k: Seq<char>| has_key(s, k), |k: Seq<char>| s[index_of(s, k)].1@)
}

/// The keys of an association list, in order.
pub open spec fn keys_of<V>(s: Seq<(String, V)>) -> Seq<Seq<char>> {
    s.map_values(|e: (String, V)| e.0@)
}

pub proof fn lemma_index_of<V>(s: Seq<(String, V)>, i: int)
    requires
        keys_unique(s),
        0 <= i < s.len(),
    ensures
        has_key(s, s[i].0@),
        index_of(s, s[i].0@) == i,
{
    assert(0 <= i < s.len() && s[i].0@ == s[i].0@);
}

pub proof fn lemma_push<V: View>(s: Seq<(String, V)>, e: (String, V))
    requires
        keys_unique(s),
        !has_key(s, e.0@),
    ensures
        keys_unique(s.push(e)),
        map_of(s.push(e)) == map_of(s).insert(e.0@, e.1@),
{
    let t = s.push(e);
    assert forall|i: int, j: int|
        0 <= i < t.len() && 0 <= j < t.len() && i != j implies t[i].0@ != t[j].0@ by {
        if i < s.len() && j < s.len() {
            assert(t[i] == s[i] && t[j] == s[j]);
        } else if i < s.len() {
            assert(t[i] == s[i]);
        } else if j < s.len() {
            assert(t[j] == s[j]);
        }
    }
    lemma_index_of(t, s.len() as int);
    assert forall|k: Seq<char>| k != e.0@ implies (has_key(t, k) == has_key(s, k)) by {
        if has_key(s, k) {
            let i = index_of(s, k);
            assert(t[i] == s[i]);
        }
        if has_key(t, k) {
            let i = index_of(t, k);
            assert(t[i] == s[i]);
        }
    }
    assert forall|k: Seq<char>| k != e.0@ && has_key(s, k) implies t[index_of(t, k)].1@
        == s[index_of(s, k)].1@ by {
        let i = index_of(s, k);
        assert(t[i] == s[i]);
        lemma_index_of(t, i);
    }
    assert(map_of(t) =~= map_of(s).insert(e.0@, e.1@));
}

pub proof fn lemma_update<V: View>(s: Seq<(String, V)>, i: int, e: (String, V))
    requires
        keys_unique(s),
        0 <= i < s.len(),
        s[i].0@ == e.0@,
    ensures
        keys_unique(s.update(i, e)),
        map_of(s.update(i, e)) == map_of(s).insert(e.0@, e.1@),
{
    let t = s.update(i, e);
    assert forall|a: int, b: int|
        0 <= a < t.len() && 0 <= b < t.len() && a != b implies t[a].0@ != t[b].0@ by {
        assert(t[a].0@ == s[a].0@ && t[b].0@ == s[b].0@);
    }
    lemma_index_of(t, i);
    assert forall|k: Seq<char>| has_key(t, k) == has_key(s, k) by {
        if has_key(s, k) {
            let j = index_of(s, k);
            assert(t[j].0@ == s[j].0@);
        }
        if has_key(t, k) {
            let j = index_of(t, k);
            assert(t[j].0@ == s[j].0@);
        }
    }
    assert forall|k: Seq<char>| k != e.0@ && has_key(s, k) implies t[index_of(t, k)].1@
        == s[index_of(s, k)].1@ by {
        let j = index_of(s, k);
        assert(t[j] == s[j]);
        lemma_index_of(t, j);
    }
    assert(map_of(t) =~= map_of(s).insert(e.0@, e.1@));
}

pub proof fn lemma_remove<V: View>(s: Seq<(String, V)>, i: int)
    requires
        keys_unique(s),
        0 <= i < s.len(),
    ensures
        keys_unique(s.remove(i)),
        map_of(s.remove(i)) == map_of(s).remove(s[i].0@),
{
    let t = s.remove(i);
    let k0 = s[i].0@;
    assert forall|a: int, b: int|
        0 <= a < t.len() && 0 <= b < t.len() && a != b implies t[a].0@ != t[b].0@ by {
        let a2 = if a < i { a } else { a + 1 };
        let b2 = if b < i { b } else { b + 1 };
        assert(t[a] == s[a2] && t[b] == s[b2]);
    }
    assert forall|k: Seq<char>| k != k0 implies (has_key(t, k) == has_key(s, k)) by {
        if has_key(s, k) {
            let j = index_of(s, k);
            if j < i {
                assert(t[j] == s[j]);
            } else {
                assert(t[j - 1] == s[j]);
            }
        }
        if has_key(t, k) {
            let j = index_of(t, k);
            if j < i {
                assert(t[j] == s[j]);
            } else {
                assert(t[j] == s[j + 1]);
            }
        }
    }
    assert forall|k: Seq<char>| has_key(t, k) implies k != k0 by {
        let j = index_of(t, k);
        if j < i {
            assert(t[j] == s[j]);
        } else {
            assert(t[j] == s[j + 1]);
        }
    }
    assert forall|k: Seq<char>| k != k0 && has_key(s, k) implies t[index_of(t, k)].1@
        == s[index_of(s, k)].1@ by {
        let j = index_of(s, k);
        lemma_index_of(s, j);
        if j < i {
            assert(t[j] == s[j]);
            lemma_index_of(t, j);
        } else {
            assert(t[j - 1] == s[j]);
            lemma_index_of(t, j - 1);
        }
    }
    assert(map_of(t) =~= map_of(s).remove(k0));
}

/// The keys of an association list are exactly the domain of its map.
pub proof fn lemma_keys<V: View>(s: Seq<(String, V)>)
    requires
        keys_unique(s),
    ensures
        keys_of(s).no_duplicates(),
        keys_of(s).to_set() == map_of(s).dom(),
        keys_of(s).len() == s.len(),
{
    let ks = keys_of(s);
    assert forall|k: Seq<char>| ks.contains(k) <==> map_of(s).dom().contains(k) by {
        if ks.contains(k) {
            let i = choose|i: int| 0 <= i < ks.len() && ks[i] == k;
            assert(s[i].0@ == k);
        }
        if has_key(s, k) {
            let i = index_of(s, k);
            assert(ks[i] == k);
        }
    }
    assert(ks.to_set() =~= map_of(s).dom());
}

/// Looks up the position of key `k`.
pub fn find_key<V>(v: &Vec<(String, V)>, k: &String) -> (r: Option<usize>)
    requires
        keys_unique(v@),
    ensures
        r.is_none() == !has_key(v@, k@),
        r.is_some() ==> r.unwrap() < v@.len() && v@[r.unwrap() as int].0@ == k@
            && index_of(v@, k@) == r.unwrap(),
{
    let mut i: usize = 0;
    while i < v.len()
        invariant
            0 <= i <= v@.len(),
            keys_unique(v@),
            forall|j: int| 0 <= j < i ==> v@[j].0@ != k@,
        decreases v@.len() - i,
    {
        if v[i].0 == *k {
            proof {
                lemma_index_of(v@, i as int);
            }
            return Some(i);
        }
        i = i + 1;
    }
    None
}

} // verus!
