//! The deduplicating hash index. It stores `(hash, slot)` pairs only — the
//! arena is the source of truth for string contents — and every probe
//! re-derives the candidate slot's string through the arena. The table is
//! hashbrown's `HashTable`, which Verus cannot read, so it sits in an opaque
//! struct behind wrappers whose contracts state what hashbrown's source
//! shows. Every pair is inserted under the hash it carries as its first
//! component (`probe_insert` is the only insert), which is what makes the
//! miss contract of `probe_find` speak of pairs whose first component is the
//! probed hash.

use std::hash::BuildHasher;

use vstd::prelude::*;

use crate::arena::Arena;
use crate::model::slot_holds;

verus! {

/// The hash index: a set of `(hash, slot)` pairs.
#[verifier::external_body]
pub struct ProbeTable {
    inner: hashbrown::HashTable<(u64, u64)>,
}

/// The `(hash, slot)` pairs a `ProbeTable` holds.
pub uninterp spec fn table_pairs(t: ProbeTable) -> Set<(u64, u64)>;

/// The hash `rustc_hash::FxBuildHasher` gives a string: the seed and the
/// word width are fixed for a build, so within one program equal strings
/// always hash equal — which is all the probe contracts rest on.
pub uninterp spec fn fx_hash_of(key: Seq<char>) -> u64;

/// Relies on `rustc_hash::FxBuildHasher::hash_one`: `FxHasher` starts from a
/// constant seed and folds in the string's bytes, so equal strings hash
/// equal.
#[verifier::external_body]
pub fn fx_hash(key: &str) -> (r: u64)
    ensures
        r == fx_hash_of(key@),
{
    rustc_hash::FxBuildHasher.hash_one(key)
}

/// Relies on `str`'s `PartialEq`: two strings are equal exactly when their
/// characters are.
#[verifier::external_body]
pub fn str_eq(a: &str, b: &str) -> (r: bool)
    ensures
        r == (a@ == b@),
{
    a == b
}

/// Does slot `idx` of `arena` hold exactly `key`? This is the probe every
/// table lookup re-verifies candidates with: hash equality alone is never
/// trusted.
pub fn slot_matches(arena: &Arena, idx: u64, key: &str) -> (r: bool)
    ensures
        r == slot_holds(arena@, idx, key@),
{
    let n = arena.len();
    if idx < n as u64 {
        match arena.get(idx as usize) {
            Some(s) => str_eq(s, key),
            None => false,
        }
    } else {
        false
    }
}

/// Relies on `hashbrown::HashTable::new`: the new table is empty.
#[verifier::external_body]
pub fn table_new() -> (t: ProbeTable)
    ensures
        table_pairs(t) == Set::<(u64, u64)>::empty(),
{
    ProbeTable { inner: hashbrown::HashTable::new() }
}

/// Relies on `hashbrown::HashTable::find`: the entry returned is in the
/// table and satisfies the probe; `None` means no entry stored under `hash`
/// satisfies it (`find` visits every entry stored under the given hash, and
/// may try others, for which the probe answers false).
#[verifier::external_body]
pub fn table_find(t: &ProbeTable, hash: u64, arena: &Arena, key: &str) -> (r: Option<u64>)
    ensures
        match r {
            Some(idx) => (exists|h: u64|
                #[trigger] table_pairs(*t).contains((h, idx))) && slot_holds(arena@, idx, key@),
            None => forall|idx: u64|
                #[trigger] table_pairs(*t).contains((hash, idx)) ==> !slot_holds(
                    arena@,
                    idx,
                    key@,
                ),
        },
{
    t.inner.find(hash, |p: &(u64, u64)| slot_matches(arena, p.1, key)).map(|p| p.1)
}

/// Relies on `hashbrown::HashTable::insert_unique`: inserts the pair, stored
/// under `hash`, which the pair carries as its first component; the rehash
/// closure hands back exactly that stored hash.
#[verifier::external_body]
pub fn table_insert(t: &mut ProbeTable, hash: u64, idx: u64)
    ensures
        table_pairs(*final (t)) == table_pairs(*old(t)).insert((hash, idx)),
{
    t.inner.insert_unique(hash, (hash, idx), |p: &(u64, u64)| p.0);
}

} // verus!
