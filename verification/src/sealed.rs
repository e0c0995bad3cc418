use vstd::prelude::*;

verus! {

/// Marks the types that a guest pointer may point to; nothing outside this
/// crate can add to them.
pub trait Sealed {
}

impl<T> Sealed for T {
}

impl<T> Sealed for [T] {
}

impl Sealed for str {
}

} // verus!
