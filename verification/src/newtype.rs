//! Types that wrap another type.
use vstd::prelude::*;

verus! {

/// A type that wraps an `Original` value and gives it back.
pub trait Newtype<New, Original> {
    fn extract(self) -> Original;
}

} // verus!
