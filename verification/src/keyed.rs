//! Sequences whose elements are found by a key: the map such a sequence
//! stands for, and how it changes when an element is replaced or added.

use vstd::prelude::*;

verus! {

/// Some element of `s` has key `k`.
pub open spec fn has_key<A>(s: Seq<A>, key: spec_fn(A) -> Seq<char>, k: Seq<char>) -> bool {
    exists|i: int| 0 <= i < s.len() && key(s[i]) == k
}

/// The position of an element of `s` with key `k`.
pub open spec fn key_index<A>(s: Seq<A>, key: spec_fn(A) -> Seq<char>, k: Seq<char>) -> int {
    choose|i: int| 0 <= i < s.len() && key(s[i]) == k
}

/// No two elements of `s` share a key.
pub open spec fn unique_keys<A>(s: Seq<A>, key: spec_fn(A) -> Seq<char>) -> bool {
    forall|i: int, j: int| 0 <= i < s.len() && 0 <= j < s.len() && i != j ==> key(s[i]) != key(s[j])
}

/// The elements of `s` by key.
pub open spec fn keyed_map<A>(s: Seq<A>, key: spec_fn(A) -> Seq<char>) -> Map<Seq<char>, A> {
    Map::new(|k: Seq<char>| has_key(s, key, k), |k: Seq<char>| s[key_index(s, key, k)])
}

pub proof fn lemma_keyed_index<A>(s: Seq<A>, key: spec_fn(A) -> Seq<char>, k: Seq<char>, i: int)
    requires
        unique_keys(s, key),
        0 <= i < s.len(),
        key(s[i]) == k,
    ensures
        key_index(s, key, k) == i,
        has_key(s, key, k),
        keyed_map(s, key).dom().contains(k),
        keyed_map(s, key)[k] == s[i],
{
    assert(has_key(s, key, k));
}

/// Replacing the element that has key `key(x)` by `x` inserts `x` in the map.
pub proof fn lemma_keyed_update<A>(s: Seq<A>, key: spec_fn(A) -> Seq<char>, i: int, x: A)
    requires
        unique_keys(s, key),
        0 <= i < s.len(),
        key(x) == key(s[i]),
    ensures
        unique_keys(s.update(i, x), key),
        keyed_map(s.update(i, x), key) == keyed_map(s, key).insert(key(x), x),
{
    let t = s.update(i, x);
    assert forall|a: int, b: int| 0 <= a < t.len() && 0 <= b < t.len() && a != b implies key(t[a])
        != key(t[b]) by {
        assert(key(t[a]) == key(s[a]));
        assert(key(t[b]) == key(s[b]));
    }
    lemma_keyed_index(t, key, key(x), i);
    assert forall|k: Seq<char>| #[trigger] keyed_map(t, key).dom().contains(k) <==> keyed_map(
        s,
        key,
    ).insert(key(x), x).dom().contains(k) by {
        if has_key(s, key, k) {
            let j = choose|j: int| 0 <= j < s.len() && key(s[j]) == k;
            assert(key(t[j]) == k);
        }
        if has_key(t, key, k) {
            let j = choose|j: int| 0 <= j < t.len() && key(t[j]) == k;
            assert(key(s[j]) == k);
        }
    }
    assert forall|k: Seq<char>| #[trigger] keyed_map(t, key).dom().contains(k) && k != key(
        x,
    ) implies keyed_map(t, key)[k] == keyed_map(s, key)[k] by {
        let j = choose|j: int| 0 <= j < t.len() && key(t[j]) == k;
        assert(j != i);
        assert(key(s[j]) == k);
        lemma_keyed_index(t, key, k, j);
        lemma_keyed_index(s, key, k, j);
    }
    assert(keyed_map(t, key) =~= keyed_map(s, key).insert(key(x), x));
}

/// Adding an element with a new key inserts it in the map.
pub proof fn lemma_keyed_push<A>(s: Seq<A>, key: spec_fn(A) -> Seq<char>, x: A)
    requires
        unique_keys(s, key),
        !has_key(s, key, key(x)),
    ensures
        unique_keys(s.push(x), key),
        keyed_map(s.push(x), key) == keyed_map(s, key).insert(key(x), x),
{
    let t = s.push(x);
    assert forall|a: int, b: int| 0 <= a < t.len() && 0 <= b < t.len() && a != b implies key(t[a])
        != key(t[b]) by {
        if a == s.len() {
            assert(key(s[b]) != key(x));
        } else if b == s.len() {
            assert(key(s[a]) != key(x));
        } else {
        }
    }
    lemma_keyed_index(t, key, key(x), s.len() as int);
    assert forall|k: Seq<char>| #[trigger] keyed_map(t, key).dom().contains(k) <==> keyed_map(
        s,
        key,
    ).insert(key(x), x).dom().contains(k) by {
        if has_key(s, key, k) {
            let j = choose|j: int| 0 <= j < s.len() && key(s[j]) == k;
            assert(key(t[j]) == k);
        }
        if has_key(t, key, k) && k != key(x) {
            let j = choose|j: int| 0 <= j < t.len() && key(t[j]) == k;
            assert(j < s.len());
            assert(key(s[j]) == k);
        }
    }
    assert forall|k: Seq<char>| #[trigger] keyed_map(t, key).dom().contains(k) && k != key(
        x,
    ) implies keyed_map(t, key)[k] == keyed_map(s, key)[k] by {
        let j = choose|j: int| 0 <= j < t.len() && key(t[j]) == k;
        assert(j < s.len());
        assert(key(s[j]) == k);
        lemma_keyed_index(t, key, k, j);
        lemma_keyed_index(s, key, k, j);
    }
    assert(keyed_map(t, key) =~= keyed_map(s, key).insert(key(x), x));
}

} // verus!
