//! The `core::num` non-zero integers that back identifiers, held opaquely.
//! Verus cannot declare the `NonZero` family (one generic struct, bounded by
//! a trait that stable code cannot name), so each width is wrapped in an
//! opaque cell whose contained integer is given a name; `new` and `get` are
//! wrapped with the contracts their documentation states. The cells keep
//! the niche: an `Option` around them costs no extra space.

use vstd::prelude::*;

verus! {

/// A `core::num::NonZeroU32`, opaque to Verus.
#[verifier::external_body]
pub struct NzU32 {
    inner: core::num::NonZeroU32,
}

/// A `core::num::NonZeroU64`, opaque to Verus.
#[verifier::external_body]
pub struct NzU64 {
    inner: core::num::NonZeroU64,
}

/// A `core::num::NonZeroUsize`, opaque to Verus.
#[verifier::external_body]
pub struct NzUsize {
    inner: core::num::NonZeroUsize,
}

impl Clone for NzU32 {
    /// Relies on the cell being `Copy`: a clone is a bitwise copy.
    #[verifier::external_body]
    fn clone(&self) -> (r: Self)
        ensures
            r == *self,
    {
        *self
    }
}

impl Copy for NzU32 {}

impl Clone for NzU64 {
    /// Relies on the cell being `Copy`: a clone is a bitwise copy.
    #[verifier::external_body]
    fn clone(&self) -> (r: Self)
        ensures
            r == *self,
    {
        *self
    }
}

impl Copy for NzU64 {}

impl Clone for NzUsize {
    /// Relies on the cell being `Copy`: a clone is a bitwise copy.
    #[verifier::external_body]
    fn clone(&self) -> (r: Self)
        ensures
            r == *self,
    {
        *self
    }
}

impl Copy for NzUsize {}

/// The integer a `NzU32` contains.
pub uninterp spec fn nz_u32_value(z: NzU32) -> u32;

/// The integer a `NzU64` contains.
pub uninterp spec fn nz_u64_value(z: NzU64) -> u64;

/// The integer a `NzUsize` contains.
pub uninterp spec fn nz_usize_value(z: NzUsize) -> usize;

/// Relies on `NonZeroU32::new`: `Some` exactly for a non-zero argument,
/// containing that argument.
#[verifier::external_body]
pub fn nz_u32_new(n: u32) -> (r: Option<NzU32>)
    ensures
        r is Some <==> n != 0,
        r is Some ==> nz_u32_value(r->0) == n,
{
    match core::num::NonZeroU32::new(n) {
        Some(z) => Some(NzU32 { inner: z }),
        None => None,
    }
}

/// Relies on `NonZeroU32::get`: returns the contained integer, never zero.
#[verifier::external_body]
pub fn nz_u32_get(z: NzU32) -> (r: u32)
    ensures
        r == nz_u32_value(z),
        r != 0,
{
    z.inner.get()
}

/// Relies on `NonZeroU64::new`: `Some` exactly for a non-zero argument,
/// containing that argument.
#[verifier::external_body]
pub fn nz_u64_new(n: u64) -> (r: Option<NzU64>)
    ensures
        r is Some <==> n != 0,
        r is Some ==> nz_u64_value(r->0) == n,
{
    match core::num::NonZeroU64::new(n) {
        Some(z) => Some(NzU64 { inner: z }),
        None => None,
    }
}

/// Relies on `NonZeroU64::get`: returns the contained integer, never zero.
#[verifier::external_body]
pub fn nz_u64_get(z: NzU64) -> (r: u64)
    ensures
        r == nz_u64_value(z),
        r != 0,
{
    z.inner.get()
}

/// Relies on `NonZeroUsize::new`: `Some` exactly for a non-zero argument,
/// containing that argument.
#[verifier::external_body]
pub fn nz_usize_new(n: usize) -> (r: Option<NzUsize>)
    ensures
        r is Some <==> n != 0,
        r is Some ==> nz_usize_value(r->0) == n,
{
    match core::num::NonZeroUsize::new(n) {
        Some(z) => Some(NzUsize { inner: z }),
        None => None,
    }
}

/// Relies on `NonZeroUsize::get`: returns the contained integer, never zero.
#[verifier::external_body]
pub fn nz_usize_get(z: NzUsize) -> (r: usize)
    ensures
        r == nz_usize_value(z),
        r != 0,
{
    z.inner.get()
}

} // verus!
