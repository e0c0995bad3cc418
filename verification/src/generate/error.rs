use vstd::prelude::*;

verus! {

/// Why a type of an interface description cannot be emitted.
#[derive(Copy, Clone, Debug, PartialEq, Eq, Structural)]
pub enum GenError {
    /// A flag set declares more flags than a 64-bit integer has bits.
    FlagOverflow,
    /// The type has a size that depends on the target, and the target at
    /// hand has no such types.
    TargetSpecificSize,
    /// The type is neither named nor one that can be written out in place.
    AnonymousType,
    /// The first result of a function is of a type that is not passed as
    /// one value.
    ResultNotByValue,
}

} // verus!
