//! The mathematical model of an interner: the sequence of distinct strings
//! it holds, in insertion order. An identifier is a slot index into that
//! sequence. The lemmas at the end state the laws the interner obeys.

use vstd::prelude::*;

verus! {

/// No string occupies two slots.
pub open spec fn distinct(v: Seq<Seq<char>>) -> bool {
    forall|i: int, j: int| 0 <= i < j < v.len() ==> v[i] != v[j]
}

/// Some slot holds exactly `key`.
pub open spec fn is_interned(v: Seq<Seq<char>>, key: Seq<char>) -> bool {
    exists|i: int| 0 <= i < v.len() && v[i] == key
}

/// The slot that holds `key` (meaningful when `is_interned(v, key)`).
pub open spec fn index_of_key(v: Seq<Seq<char>>, key: Seq<char>) -> int {
    choose|i: int| 0 <= i < v.len() && v[i] == key
}

/// The interner state after interning `key` into state `v`: unchanged when
/// `key` is already present, else `key` appended.
pub open spec fn intern_view(v: Seq<Seq<char>>, key: Seq<char>) -> Seq<Seq<char>> {
    if is_interned(v, key) {
        v
    } else {
        v.push(key)
    }
}

/// The slot index interning `key` into state `v` yields: the existing slot
/// when present, else the next fresh slot.
pub open spec fn intern_index(v: Seq<Seq<char>>, key: Seq<char>) -> int {
    if is_interned(v, key) {
        index_of_key(v, key)
    } else {
        v.len() as int
    }
}

/// The string slot `i` dereferences to, or `None` out of range.
pub open spec fn slot_str(v: Seq<Seq<char>>, i: int) -> Option<Seq<char>> {
    if 0 <= i < v.len() {
        Some(v[i])
    } else {
        None
    }
}

/// Does slot `idx` of `v` hold exactly `key`?
pub open spec fn slot_holds(v: Seq<Seq<char>>, idx: u64, key: Seq<char>) -> bool {
    idx < v.len() && v[idx as int] == key
}

/// In a duplicate-free state a string occupies at most one slot.
pub proof fn lemma_slot_unique(v: Seq<Seq<char>>, i: int, j: int)
    requires
        distinct(v),
        0 <= i < v.len(),
        0 <= j < v.len(),
        v[i] == v[j],
    ensures
        i == j,
{
    if i < j {
        assert(v[i] != v[j]);
    } else if j < i {
        assert(v[j] != v[i]);
    }
}

/// The index an intern yields is a live slot and holds the interned string.
pub proof fn lemma_intern_index_valid(v: Seq<Seq<char>>, key: Seq<char>)
    ensures
        0 <= intern_index(v, key) < intern_view(v, key).len(),
        intern_view(v, key)[intern_index(v, key)] == key,
{
    if is_interned(v, key) {
        let i = index_of_key(v, key);
        assert(0 <= i < v.len() && v[i] == key);
    }
}

/// Determinism: interning a string twice yields the same index, and the
/// second call leaves the state unchanged.
pub proof fn lemma_intern_deterministic(v: Seq<Seq<char>>, key: Seq<char>)
    requires
        distinct(v),
    ensures
        intern_index(intern_view(v, key), key) == intern_index(v, key),
        intern_view(intern_view(v, key), key) == intern_view(v, key),
{
    let w = intern_view(v, key);
    let i = intern_index(v, key);
    lemma_intern_index_valid(v, key);
    assert(is_interned(w, key));
    if is_interned(v, key) {
        lemma_slot_unique(v, index_of_key(w, key), i);
    } else {
        assert(distinct(w)) by {
            assert forall|p: int, q: int| 0 <= p < q < w.len() implies w[p] != w[q] by {
                if q == v.len() as int {
                    assert(w[p] == v[p]);
                    assert(!(0 <= p < v.len() && v[p] == key));
                }
            }
        }
        lemma_slot_unique(w, index_of_key(w, key), i);
    }
}

/// Distinctness: interning two different strings, one after the other,
/// yields two different indices.
pub proof fn lemma_intern_distinct(v: Seq<Seq<char>>, k1: Seq<char>, k2: Seq<char>)
    requires
        k1 != k2,
    ensures
        intern_index(intern_view(v, k1), k2) != intern_index(v, k1),
{
    let w = intern_view(v, k1);
    let i1 = intern_index(v, k1);
    let i2 = intern_index(w, k2);
    lemma_intern_index_valid(v, k1);
    if is_interned(w, k2) {
        let j = index_of_key(w, k2);
        assert(0 <= j < w.len() && w[j] == k2);
        assert(w[i1] == k1);
    } else {
        assert(i2 == w.len() as int);
    }
}

/// Round-trip: the index interning yields dereferences back to the string.
pub proof fn lemma_round_trip(v: Seq<Seq<char>>, key: Seq<char>)
    ensures
        slot_str(intern_view(v, key), intern_index(v, key)) == Some(key),
{
    lemma_intern_index_valid(v, key);
}

/// Monotonic slot growth: interning the distinct strings of `keys` in order
/// into an empty interner puts the `k`-th string at slot `k`, so `n`
/// insertions fill exactly the slots `0 .. n-1` in insertion order.
pub proof fn lemma_monotonic_growth(keys: Seq<Seq<char>>, k: int)
    requires
        distinct(keys),
        0 <= k < keys.len(),
    ensures
        intern_index(keys.take(k), keys[k]) == k,
        intern_view(keys.take(k), keys[k]) == keys.take(k + 1),
{
    let v = keys.take(k);
    assert(!is_interned(v, keys[k])) by {
        if is_interned(v, keys[k]) {
            let i = index_of_key(v, keys[k]);
            assert(0 <= i < v.len() && v[i] == keys[k]);
            assert(keys[i] == keys[k]);
        }
    }
    assert(v.push(keys[k]) =~= keys.take(k + 1));
}

} // verus!
