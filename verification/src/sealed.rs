use vstd::prelude::*;

verus! {

/// Closes the set of identifier representations to the ones this library
/// provides.
pub trait Sealed {}

} // verus!
