//! The type that carries the variance.
//!
//! Rust derives variance from how a parameter occurs in a type, and the only
//! occurrence that is contravariant is the argument of a function pointer.
//! Verus does not model function pointer types, so the one that the markers
//! are built on is kept in a structure whose inside Verus does not read.
use vstd::prelude::*;

verus! {

/// Stands for the function pointer type `fn(A) -> R`: contravariant in `A`
/// and covariant in `R`.
///
/// Verus is told nothing of this type but its name and its parameters, and
/// nothing is claimed of it. No value of it is ever made: the markers hold
/// `PhantomData` over it, which is a unit to Verus whatever its parameter is.
///
/// A function pointer is `Send`, `Sync` and `Unpin` whatever `A` and `R` are,
/// and owns neither; the markers inherit exactly that.
#[verifier::external_body]
#[verifier::reject_recursive_types(A)]
#[verifier::reject_recursive_types(R)]
#[allow(dead_code)]
pub(crate) struct FnPointer<A, R>(fn(A) -> R);

} // verus!
