//! The interner with the fixed 32-bit identifier: an append-only arena of
//! the distinct strings seen so far, and a hash index that maps a string's
//! hash to its slot. A string is stored once, no matter how often it is
//! interned.

use vstd::prelude::*;

use crate::arena::Arena;
use crate::model::{
    distinct, index_of_key, intern_index, intern_view, is_interned, lemma_slot_unique, slot_holds,
    slot_str,
};
use crate::nonzero::{nz_u32_get, nz_u32_new, nz_u32_value, NzU32};
use crate::table::{fx_hash, fx_hash_of, table_find, table_insert, table_new, table_pairs, ProbeTable};

verus! {

/// An ID for an interned string: the slot index plus one, in a 32-bit
/// non-zero integer. Cheap to copy and to compare, and an `Option<Istr>`
/// costs no more space than an `Istr`, since the all-zero pattern is never
/// an identifier. Its view is the slot index it stands for.
///
/// An identifier is meaningful only for the interner that minted it;
/// comparing identifiers from different interners gives a nonsensical
/// result.
#[derive(Clone, Copy)]
pub struct Istr(NzU32);

impl View for Istr {
    type V = int;

    closed spec fn view(&self) -> int {
        nz_u32_value(self.0) - 1
    }
}

impl PartialEq for Istr {
    fn eq(&self, other: &Self) -> (r: bool) {
        nz_u32_get(self.0) == nz_u32_get(other.0)
    }
}

impl Eq for Istr {

}

impl vstd::std_specs::cmp::PartialEqSpecImpl for Istr {
    open spec fn obeys_eq_spec() -> bool {
        true
    }

    open spec fn eq_spec(&self, other: &Istr) -> bool {
        self@ == other@
    }
}

impl Istr {
    /// The identifier for slot `index`: `None` exactly when `index + 1`
    /// does not fit 32 bits.
    pub fn from_index(index: usize) -> (r: Option<Istr>)
        ensures
            r is Some <==> (index as int) < u32::MAX as int,
            r is Some ==> r->0@ == index as int,
    {
        if index < u32::MAX as usize {
            let z = nz_u32_new((index as u32) + 1).unwrap();
            Some(Istr(z))
        } else {
            None
        }
    }

    /// The slot index this identifier stands for.
    pub fn to_index(self) -> (r: usize)
        ensures
            r as int == self@,
    {
        (nz_u32_get(self.0) - 1) as usize
    }
}

/// Storage for interned strings. Its view is the sequence of the distinct
/// strings it holds, in insertion order; an `Istr`'s view indexes into it.
pub struct Interner {
    lookup: ProbeTable,
    arena: Arena,
}

impl View for Interner {
    type V = Seq<Seq<char>>;

    closed spec fn view(&self) -> Seq<Seq<char>> {
        self.arena@
    }
}

impl Default for Interner {
    fn default() -> (r: Interner)
        ensures
            r.wf(),
            r@ == Seq::<Seq<char>>::empty(),
    {
        let r = Interner { lookup: table_new(), arena: Arena::new() };
        proof {
            assert(r@ =~= Seq::<Seq<char>>::empty());
        }
        r
    }
}

impl Interner {
    /// The interner's invariant: no string is stored twice, every slot fits
    /// the identifier width, and the hash index holds exactly one pair per
    /// slot, carrying the slot's string's hash.
    pub closed spec fn wf(self) -> bool {
        &&& distinct(self.arena@)
        &&& self.arena@.len() <= u32::MAX as int
        &&& (forall|k: int|
            0 <= k < self.arena@.len() ==> #[trigger] table_pairs(self.lookup).contains(
                (fx_hash_of(self.arena@[k]), k as u64),
            ))
        &&& (forall|p: (u64, u64)|
            #[trigger] table_pairs(self.lookup).contains(p) ==> p.1 < self.arena@.len() && p.0
                == fx_hash_of(self.arena@[p.1 as int]))
    }

    /// A hit in the hash index pins the slot: the probed slot holds `key`,
    /// and it is the one slot `key` occupies.
    proof fn lemma_hit(self, idx: u64, key: Seq<char>)
        requires
            self.wf(),
            slot_holds(self.arena@, idx, key),
        ensures
            is_interned(self.arena@, key),
            index_of_key(self.arena@, key) == idx as int,
            (idx as int) < self.arena@.len(),
    {
        assert(self.arena@[idx as int] == key);
        assert(is_interned(self.arena@, key));
        lemma_slot_unique(self.arena@, index_of_key(self.arena@, key), idx as int);
    }

    /// A miss in the hash index means the string is absent: were `key` in
    /// some slot, the index would hold that slot's pair under `key`'s hash,
    /// and the probe would have matched it.
    proof fn lemma_miss(self, hash: u64, key: Seq<char>)
        requires
            self.wf(),
            hash == fx_hash_of(key),
            forall|idx: u64|
                #[trigger] table_pairs(self.lookup).contains((hash, idx)) ==> !slot_holds(
                    self.arena@,
                    idx,
                    key,
                ),
        ensures
            !is_interned(self.arena@, key),
    {
        assert forall|k: int| 0 <= k < self.arena@.len() implies self.arena@[k] != key by {
            if self.arena@[k] == key {
                assert(table_pairs(self.lookup).contains((fx_hash_of(self.arena@[k]), k as u64)));
                assert(slot_holds(self.arena@, k as u64, key));
            }
        }
    }

    /// A new, empty interner.
    pub fn new() -> (r: Interner)
        ensures
            r.wf(),
            r@ == Seq::<Seq<char>>::empty(),
    {
        Interner::default()
    }

    /// Intern a string: the identifier of the slot that already holds
    /// `key`, or of a fresh slot that `key` is appended to. Callers that
    /// cannot rule out identifier exhaustion use [`Interner::try_intern`].
    pub fn intern(&mut self, key: &str) -> (r: Istr)
        requires
            old(self).wf(),
            is_interned(old(self)@, key@) || old(self)@.len() < u32::MAX as int,
        ensures
            final (self).wf(),
            final (self)@ == intern_view(old(self)@, key@),
            r@ == intern_index(old(self)@, key@),
            0 <= r@ < final (self)@.len(),
            final (self)@[r@] == key@,
    {
        self.try_intern(key).unwrap()
    }

    /// Like [`Interner::intern`], but `None` instead of a precondition when
    /// no identifier is left: the over-capacity string is not stored, and
    /// everything already interned stays valid.
    pub fn try_intern(&mut self, key: &str) -> (r: Option<Istr>)
        requires
            old(self).wf(),
        ensures
            final (self).wf(),
            match r {
                Some(id) => {
                    &&& is_interned(old(self)@, key@) || old(self)@.len() < u32::MAX as int
                    &&& final (self)@ == intern_view(old(self)@, key@)
                    &&& id@ == intern_index(old(self)@, key@)
                    &&& 0 <= id@ < final (self)@.len()
                    &&& final (self)@[id@] == key@
                },
                None => {
                    &&& !is_interned(old(self)@, key@)
                    &&& old(self)@.len() == u32::MAX as int
                    &&& final (self)@ == old(self)@
                },
            },
    {
        let n = self.arena.len();
        let hash = fx_hash(key);
        let found = table_find(&self.lookup, hash, &self.arena, key);
        match found {
            Some(idx) => {
                proof {
                    self.lemma_hit(idx, key@);
                }
                let id = Istr::from_index(idx as usize).unwrap();
                Some(id)
            },
            None => {
                proof {
                    self.lemma_miss(hash, key@);
                }
                if n < u32::MAX as usize {
                    let id = Istr::from_index(n).unwrap();
                    self.arena.push_str(key);
                    table_insert(&mut self.lookup, hash, n as u64);
                    proof {
                        let v = old(self)@;
                        let w = self.arena@;
                        assert(w == v.push(key@));
                        assert forall|p: int, q: int| 0 <= p < q < w.len() implies w[p] != w[q] by {
                            if q == v.len() as int {
                                assert(w[p] == v[p]);
                            }
                        }
                        assert forall|k: int|
                            0 <= k < w.len() implies #[trigger] table_pairs(
                            self.lookup,
                        ).contains((fx_hash_of(w[k]), k as u64)) by {
                            if k < v.len() {
                                assert(w[k] == v[k]);
                                assert(table_pairs(old(self).lookup).contains(
                                    (fx_hash_of(v[k]), k as u64),
                                ));
                            } else {
                                assert(w[k] == key@);
                                assert(k as u64 == n as u64);
                            }
                        }
                        assert forall|p: (u64, u64)|
                            #[trigger] table_pairs(self.lookup).contains(p) implies p.1 < w.len()
                            && p.0 == fx_hash_of(w[p.1 as int]) by {
                            if p != (hash, n as u64) {
                                assert(table_pairs(old(self).lookup).contains(p));
                                assert(w[p.1 as int] == v[p.1 as int]);
                            } else {
                                assert(w[p.1 as int] == key@);
                            }
                        }
                        assert(self@ =~= intern_view(v, key@));
                    }
                    Some(id)
                } else {
                    None
                }
            },
        }
    }

    /// The identifier `key` is interned under, or `None` when `key` was
    /// never interned. Never inserts.
    pub fn get_interned(&self, key: &str) -> (r: Option<Istr>)
        requires
            self.wf(),
        ensures
            match r {
                Some(id) => {
                    &&& is_interned(self@, key@)
                    &&& id@ == index_of_key(self@, key@)
                    &&& 0 <= id@ < self@.len()
                    &&& self@[id@] == key@
                },
                None => !is_interned(self@, key@),
            },
    {
        let hash = fx_hash(key);
        let found = table_find(&self.lookup, hash, &self.arena, key);
        match found {
            Some(idx) => {
                proof {
                    self.lemma_hit(idx, key@);
                }
                let id = Istr::from_index(idx as usize).unwrap();
                Some(id)
            },
            None => {
                proof {
                    self.lemma_miss(hash, key@);
                }
                None
            },
        }
    }

    /// The string an identifier dereferences to, or `None` when its slot is
    /// out of range for this interner (an identifier minted by another
    /// instance may be).
    pub fn get_str(&self, interned: Istr) -> (r: Option<&str>)
        ensures
            match r {
                Some(s) => slot_str(self@, interned@) == Some(s@),
                None => slot_str(self@, interned@) is None,
            },
    {
        self.arena.get(interned.to_index())
    }

    /// Dereference an identifier known to resolve in this interner.
    pub fn index_by(&self, interned: Istr) -> (r: &str)
        requires
            0 <= interned@ < self@.len(),
        ensures
            r@ == self@[interned@],
    {
        self.get_str(interned).unwrap()
    }
}

} // verus!
