use vstd::prelude::*;
use crate::error::GuestError;
use crate::guest_type::GuestErrorType;

verus! {

/// What a handler keeps between calls: the errors of the access layer
/// that it was told of, in the order in which they came.
#[derive(Debug)]
pub struct WasiCtx {
    pub guest_errors: Vec<GuestError>,
}

impl WasiCtx {
    pub fn new() -> (c: WasiCtx)
        ensures
            c.guest_errors@ == Seq::<GuestError>::empty(),
    {
        WasiCtx { guest_errors: Vec::new() }
    }
}

/// The codes that the imported functions of the checks return.
#[derive(Copy, Clone, Debug, PartialEq, Eq, Structural)]
pub enum Errno {
    Success,
    InvalidArg,
}

impl Errno {
    /// The number that stands for the code at the call boundary.
    pub fn to_i32(self) -> (r: i32)
        ensures
            r == (match self {
                Errno::Success => 0i32,
                Errno::InvalidArg => 1i32,
            }),
    {
        match self {
            Errno::Success => 0,
            Errno::InvalidArg => 1,
        }
    }
}

// A failure of the access layer is noted in the context and answered
// with `InvalidArg`.
impl GuestErrorType for Errno {
    type Context = WasiCtx;

    open spec fn success_spec() -> Errno {
        Errno::Success
    }

    open spec fn from_error_spec(e: GuestError, before: WasiCtx, after: WasiCtx, r: Errno) -> bool {
        r == Errno::InvalidArg && after.guest_errors@ == before.guest_errors@.push(e)
    }

    fn success() -> (r: Errno) {
        Errno::Success
    }

    fn from_error(e: GuestError, ctx: &mut WasiCtx) -> (r: Errno) {
        ctx.guest_errors.push(e);
        Errno::InvalidArg
    }
}

} // verus!
