//! Association-list reasoning: a sequence of string-keyed pairs, seen as a
//! map from key characters to a value derived from the stored one.
//!
//! Both the session payload and the in-memory store keep their entries in a
//! vector with pairwise-distinct keys; their map views and the proofs about
//! inserting, updating and removing entries are shared here.

use vstd::prelude::*;

verus! {

/// No two entries share a key.
pub open spec fn unique_keys<V>(s: Seq<(String, V)>) -> bool {
    forall|i: int, j: int| 0 <= i < j < s.len() ==> s[i].0@ != s[j].0@
}

/// The map an entry sequence denotes, with each stored value passed through
/// `f`. A later entry would win over an earlier one under the same key, which
/// never arises once the keys are unique.
pub open spec fn assoc_map<V, W>(s: Seq<(String, V)>, f: spec_fn(V) -> W) -> Map<Seq<char>, W>
    decreases s.len(),
{
    if s.len() == 0 {
        Map::empty()
    } else {
        assoc_map(s.drop_last(), f).insert(s.last().0@, f(s.last().1))
    }
}

/// The denoted map contains exactly the keys of the entries, and, once the
/// keys are unique, maps each entry's key to that entry's derived value.
pub proof fn lemma_assoc_map_char<V, W>(s: Seq<(String, V)>, f: spec_fn(V) -> W)
    ensures
        forall|k: Seq<char>|
            #[trigger] assoc_map(s, f).contains_key(k) <==> exists|i: int|
                0 <= i < s.len() && #[trigger] s[i].0@ == k,
        unique_keys(s) ==> forall|i: int|
            0 <= i < s.len() ==> assoc_map(s, f)[#[trigger] s[i].0@] == f(s[i].1),
    decreases s.len(),
{
    if s.len() > 0 {
        let d = s.drop_last();
        lemma_assoc_map_char(d, f);
        assert(forall|i: int| 0 <= i < d.len() ==> #[trigger] d[i] == s[i]);
        assert(assoc_map(s, f) == assoc_map(d, f).insert(s.last().0@, f(s.last().1)));
        assert(s.last() == s[s.len() - 1]);
        assert forall|k: Seq<char>| #[trigger] assoc_map(s, f).contains_key(k) implies exists|i: int|
            0 <= i < s.len() && #[trigger] s[i].0@ == k by {
            if k == s.last().0@ {
                assert(s[s.len() - 1].0@ == k);
            } else {
                assert(assoc_map(d, f).contains_key(k));
                let i = choose|i: int| 0 <= i < d.len() && #[trigger] d[i].0@ == k;
                assert(s[i].0@ == k);
            }
        }
        assert forall|k: Seq<char>|
            (exists|i: int| 0 <= i < s.len() && #[trigger] s[i].0@ == k) implies #[trigger] assoc_map(
            s,
            f,
        ).contains_key(k) by {
            let i = choose|i: int| 0 <= i < s.len() && #[trigger] s[i].0@ == k;
            if i < s.len() - 1 {
                assert(d[i].0@ == k);
            }
        }
        if unique_keys(s) {
            assert(unique_keys(d));
            assert forall|i: int| 0 <= i < s.len() implies assoc_map(s, f)[#[trigger] s[i].0@]
                == f(s[i].1) by {
                if i < s.len() - 1 {
                    assert(s[i].0@ != s[s.len() - 1].0@);
                    assert(assoc_map(d, f)[d[i].0@] == f(d[i].1));
                }
            }
        }
    }
}

/// Appending an entry under a key absent from the sequence denotes the map
/// with that key inserted, and keeps the keys unique.
pub proof fn lemma_assoc_map_push<V, W>(
    s: Seq<(String, V)>,
    f: spec_fn(V) -> W,
    key: String,
    value: V,
)
    requires
        unique_keys(s),
        forall|i: int| 0 <= i < s.len() ==> #[trigger] s[i].0@ != key@,
    ensures
        unique_keys(s.push((key, value))),
        assoc_map(s.push((key, value)), f) == assoc_map(s, f).insert(key@, f(value)),
{
    let t = s.push((key, value));
    assert(forall|i: int| 0 <= i < s.len() ==> #[trigger] t[i] == s[i]);
    assert(t.drop_last() =~= s);
    assert(t.last() == (key, value));
}

/// Replacing the entry at `i` by one under the same key denotes the map with
/// that key's value replaced, and keeps the keys unique.
pub proof fn lemma_assoc_map_update<V, W>(
    s: Seq<(String, V)>,
    f: spec_fn(V) -> W,
    i: int,
    key: String,
    value: V,
)
    requires
        unique_keys(s),
        0 <= i < s.len(),
        s[i].0@ == key@,
    ensures
        unique_keys(s.update(i, (key, value))),
        assoc_map(s.update(i, (key, value)), f) == assoc_map(s, f).insert(key@, f(value)),
{
    let t = s.update(i, (key, value));
    lemma_assoc_map_char(s, f);
    lemma_assoc_map_char(t, f);
    assert(forall|j: int| 0 <= j < s.len() ==> #[trigger] t[j].0@ == s[j].0@);
    assert(unique_keys(t));
    let goal = assoc_map(s, f).insert(key@, f(value));
    assert forall|k: Seq<char>| assoc_map(t, f).contains_key(k) <==> goal.contains_key(k) by {
        if assoc_map(t, f).contains_key(k) {
            let j = choose|j: int| 0 <= j < t.len() && #[trigger] t[j].0@ == k;
            assert(s[j].0@ == k);
        }
        if goal.contains_key(k) && k != key@ {
            let j = choose|j: int| 0 <= j < s.len() && #[trigger] s[j].0@ == k;
            assert(t[j].0@ == k);
        }
        if k == key@ {
            assert(t[i].0@ == k);
        }
    }
    assert forall|k: Seq<char>| #[trigger] assoc_map(t, f).contains_key(k) implies assoc_map(t, f)[k]
        == goal[k] by {
        if k == key@ {
            assert(assoc_map(t, f)[t[i].0@] == f(t[i].1));
        } else {
            let j = choose|j: int| 0 <= j < t.len() && #[trigger] t[j].0@ == k;
            assert(assoc_map(t, f)[t[j].0@] == f(t[j].1));
            assert(assoc_map(s, f)[s[j].0@] == f(s[j].1));
            assert(t[j] == s[j]);
        }
    }
    assert(assoc_map(t, f) =~= goal);
}

/// Removing the entry at `i` denotes the map with that entry's key removed,
/// and keeps the keys unique.
pub proof fn lemma_assoc_map_remove<V, W>(s: Seq<(String, V)>, f: spec_fn(V) -> W, i: int)
    requires
        unique_keys(s),
        0 <= i < s.len(),
    ensures
        unique_keys(s.remove(i)),
        assoc_map(s.remove(i), f) == assoc_map(s, f).remove(s[i].0@),
{
    let t = s.remove(i);
    s.remove_ensures(i);
    lemma_assoc_map_char(s, f);
    lemma_assoc_map_char(t, f);
    assert forall|p: int, q: int| 0 <= p < q < t.len() implies t[p].0@ != t[q].0@ by {
        if q < i {
            assert(t[p] == s[p] && t[q] == s[q]);
        } else if p < i {
            assert(t[p] == s[p] && t[q] == s[q + 1]);
        } else {
            assert(t[p] == s[p + 1] && t[q] == s[q + 1]);
        }
    }
    let goal = assoc_map(s, f).remove(s[i].0@);
    assert forall|k: Seq<char>| assoc_map(t, f).contains_key(k) <==> goal.contains_key(k) by {
        if assoc_map(t, f).contains_key(k) {
            let j = choose|j: int| 0 <= j < t.len() && #[trigger] t[j].0@ == k;
            if j < i {
                assert(s[j].0@ == k);
                assert(k != s[i].0@);
            } else {
                assert(s[j + 1].0@ == k);
                assert(k != s[i].0@);
            }
        }
        if goal.contains_key(k) {
            let j = choose|j: int| 0 <= j < s.len() && #[trigger] s[j].0@ == k;
            assert(j != i);
            if j < i {
                assert(t[j].0@ == k);
            } else {
                assert(t[j - 1].0@ == k);
            }
        }
    }
    assert forall|k: Seq<char>| #[trigger] assoc_map(t, f).contains_key(k) implies assoc_map(t, f)[k]
        == goal[k] by {
        let j = choose|j: int| 0 <= j < t.len() && #[trigger] t[j].0@ == k;
        assert(assoc_map(t, f)[t[j].0@] == f(t[j].1));
        if j < i {
            assert(t[j] == s[j]);
            assert(assoc_map(s, f)[s[j].0@] == f(s[j].1));
            assert(k != s[i].0@);
        } else {
            assert(t[j] == s[j + 1]);
            assert(assoc_map(s, f)[s[j + 1].0@] == f(s[j + 1].1));
            assert(k != s[i].0@);
        }
    }
    assert(assoc_map(t, f) =~= goal);
}

} // verus!
