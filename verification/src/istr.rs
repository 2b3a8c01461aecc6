//! The width-generic identifier. A backing representation is any of the
//! library's fixed-width integer types; the non-zero widths store the slot
//! index plus one, so the all-zero pattern stays free for "absent" and an
//! `Option` of the identifier costs no extra space. The set of
//! representations is closed: the zero-is-absent trick is only sound for
//! the widths provided here.

use vstd::prelude::*;

use crate::nonzero::{
    nz_u32_get, nz_u32_new, nz_u32_value, nz_u64_get, nz_u64_new, nz_u64_value, nz_usize_get,
    nz_usize_new, nz_usize_value, NzU32, NzU64, NzUsize,
};
use crate::sealed::Sealed;

verus! {

/// An ID for an interned string, backed by the representation `Repr`; by
/// default a non-zero pointer-sized integer, which keeps the niche. Its
/// view is the slot index it stands for.
///
/// An identifier is meaningful only for the interner that minted it;
/// comparing identifiers from different interners gives a nonsensical
/// result.
#[derive(Clone, Copy)]
pub struct Istr<Repr: IstrRepr = NzUsize> {
    pub(crate) repr: Repr,
}

/// A backing type for an [`Istr`]: a fixed-width integer-like value that
/// converts to and from a slot index.
pub trait IstrRepr: Copy + Sealed + Sized {
    /// The slot index this value stands for.
    spec fn as_index(self) -> int;

    /// Does the index fit a `usize`, so `to_index` can return it?
    spec fn in_bounds(self) -> bool;

    /// The largest index `from_index` accepts.
    spec fn max_index() -> int;

    /// No representation rejects every index, and none accepts an index no
    /// `usize` can hold.
    proof fn lemma_max_index_bounds()
        ensures
            0 <= Self::max_index() <= usize::MAX as int,
    ;

    /// Convert a slot index to this backing type: `None` exactly when the
    /// index is too large for it.
    fn from_index(index: usize) -> (r: Option<Self>)
        ensures
            r is Some <==> index as int <= Self::max_index(),
            r is Some ==> r->0.in_bounds() && r->0.as_index() == index as int,
    ;

    /// Convert this backing value back to its slot index. A value whose
    /// index does not fit a `usize` is left out: on it the conversion
    /// would overflow.
    fn to_index(self) -> (r: usize)
        requires
            self.in_bounds(),
        ensures
            r as int == self.as_index(),
    ;

    /// Do two backing values stand for the same slot?
    fn same_index(self, other: Self) -> (r: bool)
        ensures
            r == (self.as_index() == other.as_index()),
    ;
}

impl<Repr: IstrRepr> View for Istr<Repr> {
    type V = int;

    closed spec fn view(&self) -> int {
        self.repr.as_index()
    }
}

impl<Repr: IstrRepr> Istr<Repr> {
    /// Does the identifier's index fit a `usize`? Every identifier an
    /// interner mints does.
    pub closed spec fn wf(self) -> bool {
        self.repr.in_bounds()
    }

    /// The identifier for slot `index`: `None` exactly when the
    /// representation cannot hold that index.
    pub fn from_index(index: usize) -> (r: Option<Istr<Repr>>)
        ensures
            r is Some <==> index as int <= Repr::max_index(),
            r is Some ==> r->0.wf() && r->0@ == index as int,
    {
        match Repr::from_index(index) {
            Some(repr) => Some(Istr { repr }),
            None => None,
        }
    }

    /// The slot index this identifier stands for.
    pub fn to_index(self) -> (r: usize)
        requires
            self.wf(),
        ensures
            r as int == self@,
    {
        self.repr.to_index()
    }
}

impl<Repr: IstrRepr> PartialEq for Istr<Repr> {
    fn eq(&self, other: &Self) -> (r: bool) {
        self.repr.same_index(other.repr)
    }
}

impl<Repr: IstrRepr> Eq for Istr<Repr> {

}

impl<Repr: IstrRepr> vstd::std_specs::cmp::PartialEqSpecImpl for Istr<Repr> {
    open spec fn obeys_eq_spec() -> bool {
        true
    }

    open spec fn eq_spec(&self, other: &Istr<Repr>) -> bool {
        self@ == other@
    }
}

impl Sealed for usize {

}

impl Sealed for u64 {

}

impl Sealed for u32 {

}

impl Sealed for NzUsize {

}

impl Sealed for NzU64 {

}

impl Sealed for NzU32 {

}

impl IstrRepr for NzUsize {
    open spec fn as_index(self) -> int {
        nz_usize_value(self) - 1
    }

    open spec fn in_bounds(self) -> bool {
        true
    }

    open spec fn max_index() -> int {
        usize::MAX as int - 1
    }

    proof fn lemma_max_index_bounds() {
    }

    fn from_index(index: usize) -> (r: Option<Self>) {
        if index < usize::MAX {
            Some(nz_usize_new(index + 1).unwrap())
        } else {
            None
        }
    }

    fn to_index(self) -> (r: usize) {
        nz_usize_get(self) - 1
    }

    fn same_index(self, other: Self) -> (r: bool) {
        nz_usize_get(self) == nz_usize_get(other)
    }
}

impl IstrRepr for NzU64 {
    open spec fn as_index(self) -> int {
        nz_u64_value(self) - 1
    }

    open spec fn in_bounds(self) -> bool {
        nz_u64_value(self) <= usize::MAX as u64
    }

    open spec fn max_index() -> int {
        usize::MAX as int - 1
    }

    proof fn lemma_max_index_bounds() {
    }

    fn from_index(index: usize) -> (r: Option<Self>) {
        if index < usize::MAX {
            Some(nz_u64_new(index as u64 + 1).unwrap())
        } else {
            None
        }
    }

    fn to_index(self) -> (r: usize) {
        nz_u64_get(self) as usize - 1
    }

    fn same_index(self, other: Self) -> (r: bool) {
        nz_u64_get(self) == nz_u64_get(other)
    }
}

impl IstrRepr for NzU32 {
    open spec fn as_index(self) -> int {
        nz_u32_value(self) - 1
    }

    open spec fn in_bounds(self) -> bool {
        true
    }

    open spec fn max_index() -> int {
        u32::MAX as int - 1
    }

    proof fn lemma_max_index_bounds() {
    }

    fn from_index(index: usize) -> (r: Option<Self>) {
        if index < u32::MAX as usize {
            Some(nz_u32_new((index as u32) + 1).unwrap())
        } else {
            None
        }
    }

    fn to_index(self) -> (r: usize) {
        (nz_u32_get(self) - 1) as usize
    }

    fn same_index(self, other: Self) -> (r: bool) {
        nz_u32_get(self) == nz_u32_get(other)
    }
}

impl IstrRepr for usize {
    open spec fn as_index(self) -> int {
        self as int
    }

    open spec fn in_bounds(self) -> bool {
        true
    }

    open spec fn max_index() -> int {
        usize::MAX as int
    }

    proof fn lemma_max_index_bounds() {
    }

    fn from_index(index: usize) -> (r: Option<Self>) {
        Some(index)
    }

    fn to_index(self) -> (r: usize) {
        self
    }

    fn same_index(self, other: Self) -> (r: bool) {
        self == other
    }
}

impl IstrRepr for u64 {
    open spec fn as_index(self) -> int {
        self as int
    }

    open spec fn in_bounds(self) -> bool {
        self <= usize::MAX as u64
    }

    open spec fn max_index() -> int {
        usize::MAX as int
    }

    proof fn lemma_max_index_bounds() {
    }

    fn from_index(index: usize) -> (r: Option<Self>) {
        Some(index as u64)
    }

    fn to_index(self) -> (r: usize) {
        self as usize
    }

    fn same_index(self, other: Self) -> (r: bool) {
        self == other
    }
}

impl IstrRepr for u32 {
    open spec fn as_index(self) -> int {
        self as int
    }

    open spec fn in_bounds(self) -> bool {
        true
    }

    open spec fn max_index() -> int {
        u32::MAX as int
    }

    proof fn lemma_max_index_bounds() {
    }

    fn from_index(index: usize) -> (r: Option<Self>) {
        if index <= u32::MAX as usize {
            Some(index as u32)
        } else {
            None
        }
    }

    fn to_index(self) -> (r: usize) {
        self as usize
    }

    fn same_index(self, other: Self) -> (r: bool) {
        self == other
    }
}

} // verus!
