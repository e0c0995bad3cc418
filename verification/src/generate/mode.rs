use vstd::prelude::*;

verus! {

/// The target that types are emitted for. It decides how wide a pointer
/// and a size are.
#[derive(Copy, Clone, Debug, PartialEq, Eq, Structural)]
pub enum Mode {
    /// The host's own layout: pointers and sizes are as wide as the host's.
    Host,
    /// The guest's layout with 32-bit pointers and sizes.
    Wasi32,
    /// The layout that all guests share: no type in it has a size that
    /// depends on the target.
    Wasi,
}

impl Mode {
    /// Whether this target has the types whose size depends on the target.
    pub open spec fn include_target_types_spec(&self) -> bool {
        *self != Mode::Wasi
    }

    #[verifier::when_used_as_spec(include_target_types_spec)]
    pub fn include_target_types(&self) -> (b: bool)
        ensures
            b == self.include_target_types_spec(),
    {
        match self {
            Mode::Host | Mode::Wasi32 => true,
            Mode::Wasi => false,
        }
    }
}

} // verus!
