//! The interner over a selectable identifier width: the same arena and
//! hash index as the fixed-width interner, minting identifiers in whichever
//! backing representation the caller picked.

use vstd::prelude::*;

use crate::arena::Arena;
use crate::istr::{Istr, IstrRepr};
use crate::model::{
    distinct, index_of_key, intern_index, intern_view, is_interned, lemma_slot_unique, slot_holds,
    slot_str,
};
use crate::nonzero::NzUsize;
use crate::table::{fx_hash, fx_hash_of, table_find, table_insert, table_new, table_pairs, ProbeTable};

verus! {

/// Storage for interned strings, generic over the identifier
/// representation. Its view is the sequence of the distinct strings it
/// holds, in insertion order; an `Istr`'s view indexes into it.
pub struct Interner<Repr: IstrRepr = NzUsize> {
    lookup: ProbeTable,
    arena: Arena,
    repr: core::marker::PhantomData<Repr>,
}

impl<Repr: IstrRepr> View for Interner<Repr> {
    type V = Seq<Seq<char>>;

    closed spec fn view(&self) -> Seq<Seq<char>> {
        self.arena@
    }
}

impl<Repr: IstrRepr> Default for Interner<Repr> {
    fn default() -> (r: Interner<Repr>)
        ensures
            r.wf(),
            r@ == Seq::<Seq<char>>::empty(),
    {
        let r = Interner {
            lookup: table_new(),
            arena: Arena::new(),
            repr: core::marker::PhantomData,
        };
        proof {
            Repr::lemma_max_index_bounds();
            assert(r@ =~= Seq::<Seq<char>>::empty());
        }
        r
    }
}

impl Interner {
    /// A new, empty interner, minting non-zero pointer-sized identifiers.
    pub fn new() -> (r: Interner)
        ensures
            r.wf(),
            r@ == Seq::<Seq<char>>::empty(),
    {
        Interner::default()
    }
}

impl<Repr: IstrRepr> Interner<Repr> {
    /// The interner's invariant: no string is stored twice, every slot fits
    /// the identifier representation, and the hash index holds exactly one
    /// pair per slot, carrying the slot's string's hash.
    pub closed spec fn wf(self) -> bool {
        &&& distinct(self.arena@)
        &&& self.arena@.len() <= Repr::max_index() + 1
        &&& (forall|k: int|
            0 <= k < self.arena@.len() ==> #[trigger] table_pairs(self.lookup).contains(
                (fx_hash_of(self.arena@[k]), k as u64),
            ))
        &&& (forall|p: (u64, u64)|
            #[trigger] table_pairs(self.lookup).contains(p) ==> p.1 < self.arena@.len() && p.0
                == fx_hash_of(self.arena@[p.1 as int]))
    }

    /// A hit in the hash index pins the slot: the probed slot holds `key`,
    /// and it is the one slot `key` occupies.
    proof fn lemma_hit(self, idx: u64, key: Seq<char>)
        requires
            self.wf(),
            slot_holds(self.arena@, idx, key),
        ensures
            is_interned(self.arena@, key),
            index_of_key(self.arena@, key) == idx as int,
            (idx as int) < self.arena@.len(),
    {
        Repr::lemma_max_index_bounds();
        assert(self.arena@[idx as int] == key);
        assert(is_interned(self.arena@, key));
        lemma_slot_unique(self.arena@, index_of_key(self.arena@, key), idx as int);
    }

    /// A miss in the hash index means the string is absent: were `key` in
    /// some slot, the index would hold that slot's pair under `key`'s hash,
    /// and the probe would have matched it.
    proof fn lemma_miss(self, hash: u64, key: Seq<char>)
        requires
            self.wf(),
            hash == fx_hash_of(key),
            forall|idx: u64|
                #[trigger] table_pairs(self.lookup).contains((hash, idx)) ==> !slot_holds(
                    self.arena@,
                    idx,
                    key,
                ),
        ensures
            !is_interned(self.arena@, key),
    {
        Repr::lemma_max_index_bounds();
        assert forall|k: int| 0 <= k < self.arena@.len() implies self.arena@[k] != key by {
            if self.arena@[k] == key {
                assert(table_pairs(self.lookup).contains((fx_hash_of(self.arena@[k]), k as u64)));
                assert(slot_holds(self.arena@, k as u64, key));
            }
        }
    }

    /// A new, empty interner with the inferred identifier representation.
    pub fn with_istr_repr() -> (r: Interner<Repr>)
        ensures
            r.wf(),
            r@ == Seq::<Seq<char>>::empty(),
    {
        Interner::default()
    }

    /// Intern a string: the identifier of the slot that already holds
    /// `key`, or of a fresh slot that `key` is appended to. Callers that
    /// cannot rule out identifier exhaustion use [`Interner::try_intern`].
    pub fn intern(&mut self, key: &str) -> (r: Istr<Repr>)
        requires
            old(self).wf(),
            is_interned(old(self)@, key@) || old(self)@.len() <= Repr::max_index(),
        ensures
            final (self).wf(),
            final (self)@ == intern_view(old(self)@, key@),
            r.wf(),
            r@ == intern_index(old(self)@, key@),
            0 <= r@ < final (self)@.len(),
            final (self)@[r@] == key@,
    {
        self.try_intern(key).unwrap()
    }

    /// Like [`Interner::intern`], but `None` instead of a precondition when
    /// no identifier is left: the over-capacity string is not stored, and
    /// everything already interned stays valid.
    pub fn try_intern(&mut self, key: &str) -> (r: Option<Istr<Repr>>)
        requires
            old(self).wf(),
        ensures
            final (self).wf(),
            match r {
                Some(id) => {
                    &&& is_interned(old(self)@, key@) || old(self)@.len() <= Repr::max_index()
                    &&& final (self)@ == intern_view(old(self)@, key@)
                    &&& id.wf()
                    &&& id@ == intern_index(old(self)@, key@)
                    &&& 0 <= id@ < final (self)@.len()
                    &&& final (self)@[id@] == key@
                },
                None => {
                    &&& !is_interned(old(self)@, key@)
                    &&& old(self)@.len() > Repr::max_index()
                    &&& final (self)@ == old(self)@
                },
            },
    {
        let n = self.arena.len();
        let hash = fx_hash(key);
        let found = table_find(&self.lookup, hash, &self.arena, key);
        match found {
            Some(idx) => {
                proof {
                    Repr::lemma_max_index_bounds();
                    self.lemma_hit(idx, key@);
                }
                let id = Istr::from_index(idx as usize).unwrap();
                Some(id)
            },
            None => {
                proof {
                    self.lemma_miss(hash, key@);
                }
                match Istr::from_index(n) {
                    Some(id) => {
                        self.arena.push_str(key);
                        table_insert(&mut self.lookup, hash, n as u64);
                        proof {
                            Repr::lemma_max_index_bounds();
                            let v = old(self)@;
                            let w = self.arena@;
                            assert(w == v.push(key@));
                            assert forall|p: int, q: int|
                                0 <= p < q < w.len() implies w[p] != w[q] by {
                                if q == v.len() as int {
                                    assert(w[p] == v[p]);
                                }
                            }
                            assert forall|k: int|
                                0 <= k < w.len() implies #[trigger] table_pairs(
                                self.lookup,
                            ).contains((fx_hash_of(w[k]), k as u64)) by {
                                if k < v.len() {
                                    assert(w[k] == v[k]);
                                    assert(table_pairs(old(self).lookup).contains(
                                        (fx_hash_of(v[k]), k as u64),
                                    ));
                                } else {
                                    assert(w[k] == key@);
                                    assert(k as u64 == n as u64);
                                }
                            }
                            assert forall|p: (u64, u64)|
                                #[trigger] table_pairs(self.lookup).contains(p) implies p.1
                                < w.len() && p.0 == fx_hash_of(w[p.1 as int]) by {
                                if p != (hash, n as u64) {
                                    assert(table_pairs(old(self).lookup).contains(p));
                                    assert(w[p.1 as int] == v[p.1 as int]);
                                } else {
                                    assert(w[p.1 as int] == key@);
                                }
                            }
                            assert(self@ =~= intern_view(v, key@));
                        }
                        Some(id)
                    },
                    None => None,
                }
            },
        }
    }

    /// The identifier `key` is interned under, or `None` when `key` was
    /// never interned. Never inserts.
    pub fn get_interned(&self, key: &str) -> (r: Option<Istr<Repr>>)
        requires
            self.wf(),
        ensures
            match r {
                Some(id) => {
                    &&& is_interned(self@, key@)
                    &&& id.wf()
                    &&& id@ == index_of_key(self@, key@)
                    &&& 0 <= id@ < self@.len()
                    &&& self@[id@] == key@
                },
                None => !is_interned(self@, key@),
            },
    {
        let hash = fx_hash(key);
        let found = table_find(&self.lookup, hash, &self.arena, key);
        match found {
            Some(idx) => {
                proof {
                    Repr::lemma_max_index_bounds();
                    self.lemma_hit(idx, key@);
                }
                let id = Istr::from_index(idx as usize).unwrap();
                Some(id)
            },
            None => {
                proof {
                    self.lemma_miss(hash, key@);
                }
                None
            },
        }
    }

    /// The string an identifier dereferences to, or `None` when its slot is
    /// out of range for this interner (an identifier minted by another
    /// instance may be).
    pub fn get_str(&self, interned: Istr<Repr>) -> (r: Option<&str>)
        requires
            interned.wf(),
        ensures
            match r {
                Some(s) => slot_str(self@, interned@) == Some(s@),
                None => slot_str(self@, interned@) is None,
            },
    {
        self.arena.get(interned.to_index())
    }

    /// Dereference an identifier known to resolve in this interner.
    pub fn index_by(&self, interned: Istr<Repr>) -> (r: &str)
        requires
            interned.wf(),
            0 <= interned@ < self@.len(),
        ensures
            r@ == self@[interned@],
    {
        self.get_str(interned).unwrap()
    }
}

} // verus!
