//! The marker that keeps the token kinds of this crate closed to others.
use vstd::prelude::*;

verus! {

/// Implemented only by the token marker types of this crate.
pub trait Sealed {}

} // verus!
