//! Sequences of records with unique keys, read as maps from key to record.
//!
//! The device and stream stores keep their records in a vector; these spec
//! functions and lemmas relate that vector to the map that the stores'
//! contracts speak of.

use vstd::prelude::*;

verus! {

/// No two records of `s` share a key.
pub open spec fn keys_unique<K, T>(s: Seq<T>, key: spec_fn(T) -> K) -> bool {
    forall|i: int, j: int|
        0 <= i < s.len() && 0 <= j < s.len() && i != j ==> key(#[trigger] s[i]) != key(
            #[trigger] s[j],
        )
}

/// The map from each record's key to the record.
pub open spec fn keyed_map<K, T>(s: Seq<T>, key: spec_fn(T) -> K) -> Map<K, T>
    decreases s.len(),
{
    if s.len() == 0 {
        Map::empty()
    } else {
        keyed_map(s.drop_last(), key).insert(key(s.last()), s.last())
    }
}

/// Domain and values of `keyed_map` for a sequence with unique keys.
pub proof fn lemma_keyed_map<K, T>(s: Seq<T>, key: spec_fn(T) -> K)
    requires
        keys_unique(s, key),
    ensures
        forall|k: K|
            #[trigger] keyed_map(s, key).dom().contains(k) <==> exists|i: int|
                0 <= i < s.len() && key(s[i]) == k,
        forall|i: int| 0 <= i < s.len() ==> #[trigger] keyed_map(s, key)[key(s[i])] == s[i],
        keyed_map(s, key).dom().finite(),
        keyed_map(s, key).len() == s.len(),
    decreases s.len(),
{
    if s.len() > 0 {
        let p = s.drop_last();
        assert(keys_unique(p, key)) by {
            assert forall|i: int, j: int|
                0 <= i < p.len() && 0 <= j < p.len() && i != j implies key(#[trigger] p[i])
                != key(#[trigger] p[j]) by {
                assert(p[i] == s[i] && p[j] == s[j]);
            }
        }
        lemma_keyed_map(p, key);
        let m = keyed_map(s, key);
        let last = s.last();
        assert(!keyed_map(p, key).dom().contains(key(last))) by {
            if keyed_map(p, key).dom().contains(key(last)) {
                let i = choose|i: int| 0 <= i < p.len() && key(p[i]) == key(last);
                assert(p[i] == s[i]);
                assert(key(s[i]) != key(s[s.len() - 1]));
            }
        }
        assert forall|k: K| #[trigger] m.dom().contains(k) <==> exists|i: int|
            0 <= i < s.len() && key(s[i]) == k by {
            if m.dom().contains(k) {
                if k == key(last) {
                    assert(key(s[s.len() - 1]) == k);
                } else {
                    let i = choose|i: int| 0 <= i < p.len() && key(p[i]) == k;
                    assert(p[i] == s[i]);
                }
            }
            if exists|i: int| 0 <= i < s.len() && key(s[i]) == k {
                let i = choose|i: int| 0 <= i < s.len() && key(s[i]) == k;
                if i < s.len() - 1 {
                    assert(p[i] == s[i]);
                    assert(keyed_map(p, key).dom().contains(k));
                }
            }
        }
        assert forall|i: int| 0 <= i < s.len() implies #[trigger] m[key(s[i])] == s[i] by {
            if i < s.len() - 1 {
                assert(p[i] == s[i]);
                assert(key(s[i]) != key(last));
            }
        }
    }
}

/// Two sequences with unique keys and the same key/record pairs give the
/// same map.
pub proof fn lemma_keyed_map_ext<K, T>(s: Seq<T>, key: spec_fn(T) -> K, m: Map<K, T>)
    requires
        keys_unique(s, key),
        forall|k: K| #[trigger] m.dom().contains(k) <==> exists|i: int|
            0 <= i < s.len() && key(s[i]) == k,
        forall|i: int| 0 <= i < s.len() ==> #[trigger] m[key(s[i])] == s[i],
    ensures
        keyed_map(s, key) == m,
{
    lemma_keyed_map(s, key);
    let km = keyed_map(s, key);
    assert forall|k: K| km.dom().contains(k) implies km[k] == m[k] by {
        let i = choose|i: int| 0 <= i < s.len() && key(s[i]) == k;
        assert(km[key(s[i])] == s[i]);
    }
    assert(km =~= m);
}

/// Replacing the record at `i` by one with the same key updates the map
/// at that key.
pub proof fn lemma_keyed_map_update<K, T>(s: Seq<T>, key: spec_fn(T) -> K, i: int, x: T)
    requires
        keys_unique(s, key),
        0 <= i < s.len(),
        key(x) == key(s[i]),
    ensures
        keys_unique(s.update(i, x), key),
        keyed_map(s.update(i, x), key) == keyed_map(s, key).insert(key(x), x),
{
    let t = s.update(i, x);
    assert(keys_unique(t, key)) by {
        assert forall|a: int, b: int|
            0 <= a < t.len() && 0 <= b < t.len() && a != b implies key(#[trigger] t[a]) != key(
                #[trigger] t[b],
            ) by {
            assert(key(t[a]) == key(s[a]));
            assert(key(t[b]) == key(s[b]));
        }
    }
    lemma_keyed_map(s, key);
    let m = keyed_map(s, key).insert(key(x), x);
    assert forall|k: K| #[trigger] m.dom().contains(k) <==> exists|j: int|
        0 <= j < t.len() && key(t[j]) == k by {
        if m.dom().contains(k) {
            if k != key(x) {
                let j = choose|j: int| 0 <= j < s.len() && key(s[j]) == k;
                assert(key(t[j]) == key(s[j]));
            } else {
                assert(key(t[i]) == k);
            }
        }
        if exists|j: int| 0 <= j < t.len() && key(t[j]) == k {
            let j = choose|j: int| 0 <= j < t.len() && key(t[j]) == k;
            assert(key(t[j]) == key(s[j]));
        }
    }
    assert forall|j: int| 0 <= j < t.len() implies #[trigger] m[key(t[j])] == t[j] by {
        if j != i {
            assert(key(s[j]) != key(s[i]));
        }
    }
    lemma_keyed_map_ext(t, key, m);
}

/// Appending a record with a fresh key inserts it into the map.
pub proof fn lemma_keyed_map_push<K, T>(s: Seq<T>, key: spec_fn(T) -> K, x: T)
    requires
        keys_unique(s, key),
        !keyed_map(s, key).dom().contains(key(x)),
    ensures
        keys_unique(s.push(x), key),
        keyed_map(s.push(x), key) == keyed_map(s, key).insert(key(x), x),
{
    lemma_keyed_map(s, key);
    let t = s.push(x);
    assert(t.drop_last() =~= s);
    assert(keys_unique(t, key)) by {
        assert forall|a: int, b: int|
            0 <= a < t.len() && 0 <= b < t.len() && a != b implies key(#[trigger] t[a]) != key(
                #[trigger] t[b],
            ) by {
            if a < s.len() && b < s.len() {
                assert(t[a] == s[a] && t[b] == s[b]);
            } else if a < s.len() {
                assert(t[a] == s[a]);
            } else if b < s.len() {
                assert(t[b] == s[b]);
            }
        }
    }
}

/// Removing the record at `i` removes its key from the map.
pub proof fn lemma_keyed_map_remove<K, T>(s: Seq<T>, key: spec_fn(T) -> K, i: int)
    requires
        keys_unique(s, key),
        0 <= i < s.len(),
    ensures
        keys_unique(s.remove(i), key),
        keyed_map(s.remove(i), key) == keyed_map(s, key).remove(key(s[i])),
{
    lemma_keyed_map(s, key);
    let t = s.remove(i);
    assert forall|j: int| 0 <= j < t.len() implies #[trigger] t[j] == (if j < i {
        s[j]
    } else {
        s[j + 1]
    }) by {}
    assert(keys_unique(t, key)) by {
        assert forall|a: int, b: int|
            0 <= a < t.len() && 0 <= b < t.len() && a != b implies key(#[trigger] t[a]) != key(
                #[trigger] t[b],
            ) by {
            let sa = if a < i { a } else { a + 1 };
            let sb = if b < i { b } else { b + 1 };
            assert(t[a] == s[sa]);
            assert(t[b] == s[sb]);
        }
    }
    let m = keyed_map(s, key).remove(key(s[i]));
    assert forall|k: K| #[trigger] m.dom().contains(k) <==> exists|j: int|
        0 <= j < t.len() && key(t[j]) == k by {
        if m.dom().contains(k) {
            let j = choose|j: int| 0 <= j < s.len() && key(s[j]) == k;
            assert(j != i);
            let tj = if j < i { j } else { j - 1 };
            assert(t[tj] == s[j]);
        }
        if exists|j: int| 0 <= j < t.len() && key(t[j]) == k {
            let j = choose|j: int| 0 <= j < t.len() && key(t[j]) == k;
            let sj = if j < i { j } else { j + 1 };
            assert(t[j] == s[sj]);
            assert(key(s[sj]) != key(s[i]));
        }
    }
    assert forall|j: int| 0 <= j < t.len() implies #[trigger] m[key(t[j])] == t[j] by {
        let sj = if j < i { j } else { j + 1 };
        assert(t[j] == s[sj]);
        assert(key(s[sj]) != key(s[i]));
    }
    lemma_keyed_map_ext(t, key, m);
}

} // verus!
