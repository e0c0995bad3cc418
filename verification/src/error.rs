use vstd::prelude::*;
use crate::region::Region;

verus! {

/// What can go wrong when the host touches guest memory.
#[derive(Debug, PartialEq, Eq)]
pub enum GuestError {
    /// Bits outside the declared mask of the named flag set.
    InvalidFlagValue(String),
    /// An ordinal past the last variant of the named enum.
    InvalidEnumValue(String),
    /// The access ends past the end of the guest buffer.
    PtrOutOfBounds(Region),
    /// The host address of the access is no multiple of the alignment.
    PtrNotAligned(Region, u32),
    /// Arithmetic on an offset or an address left its integer type.
    PtrOverflow,
    /// The region overlaps one that is already borrowed.
    PtrBorrowed(Region),
    /// A failure inside the named imported function.
    InFunc { funcname: String, location: String, err: Box<GuestError> },
    /// A failure while handling the named field of the named type.
    InDataField { typename: String, field: String, err: Box<GuestError> },
    /// The bytes are not valid UTF-8.
    InvalidUtf8,
}

} // verus!
