use vstd::prelude::*;
use crate::error::GuestError;
use crate::generate::schema::IntRepr;
use crate::guest_type::{GuestType, read_spec, write_spec};
use crate::memory::GuestMemory;
use crate::pointer::GuestPtr;

verus! {

/// The type in which a value crosses the call boundary between guest and host.
#[derive(Copy, Clone, Debug, PartialEq, Eq, Structural)]
pub enum AtomType {
    I32,
    I64,
    F32,
    F64,
}

/// What reading an integer of representation `repr` at `offset` must
/// return, widened to `u64`.
pub open spec fn repr_read_spec(repr: IntRepr, base: usize, contents: Seq<u8>, offset: u32) -> Result<
    u64,
    GuestError,
> {
    match repr {
        IntRepr::U8 => match read_spec::<u8>(base, contents, offset) {
            Ok(v) => Ok(v as u64),
            Err(e) => Err(e),
        },
        IntRepr::U16 => match read_spec::<u16>(base, contents, offset) {
            Ok(v) => Ok(v as u64),
            Err(e) => Err(e),
        },
        IntRepr::U32 => match read_spec::<u32>(base, contents, offset) {
            Ok(v) => Ok(v as u64),
            Err(e) => Err(e),
        },
        IntRepr::U64 => read_spec::<u64>(base, contents, offset),
    }
}

/// What writing the low bits of `value` as an integer of representation
/// `repr` at `offset` must return, and the bytes that the buffer holds
/// afterwards.
pub open spec fn repr_write_spec(
    repr: IntRepr,
    base: usize,
    contents: Seq<u8>,
    offset: u32,
    value: u64,
) -> (Result<(), GuestError>, Seq<u8>) {
    match repr {
        IntRepr::U8 => write_spec::<u8>(base, contents, offset, value as u8),
        IntRepr::U16 => write_spec::<u16>(base, contents, offset, value as u16),
        IntRepr::U32 => write_spec::<u32>(base, contents, offset, value as u32),
        IntRepr::U64 => write_spec::<u64>(base, contents, offset, value),
    }
}

impl IntRepr {
    /// The number of bits of the integer.
    pub open spec fn bits_spec(self) -> u32 {
        match self {
            IntRepr::U8 => 8,
            IntRepr::U16 => 16,
            IntRepr::U32 => 32,
            IntRepr::U64 => 64,
        }
    }

    /// The greatest value of the integer.
    pub open spec fn max_spec(self) -> u64 {
        match self {
            IntRepr::U8 => 0xff,
            IntRepr::U16 => 0xffff,
            IntRepr::U32 => 0xffff_ffff,
            IntRepr::U64 => 0xffff_ffff_ffff_ffff,
        }
    }

    /// The number of guest bytes of the integer, which is also its alignment.
    pub open spec fn size_spec(self) -> u32 {
        match self {
            IntRepr::U8 => 1,
            IntRepr::U16 => 2,
            IntRepr::U32 => 4,
            IntRepr::U64 => 8,
        }
    }

    /// The type in which the integer crosses the call boundary: the
    /// 64-bit one for a 64-bit integer, the 32-bit one for all others.
    pub open spec fn abi_spec(self) -> AtomType {
        match self {
            IntRepr::U64 => AtomType::I64,
            _ => AtomType::I32,
        }
    }

    pub fn bits(self) -> (r: u32)
        ensures
            r == self.bits_spec(),
    {
        match self {
            IntRepr::U8 => 8,
            IntRepr::U16 => 16,
            IntRepr::U32 => 32,
            IntRepr::U64 => 64,
        }
    }

    pub fn max_value(self) -> (r: u64)
        ensures
            r == self.max_spec(),
    {
        match self {
            IntRepr::U8 => 0xff,
            IntRepr::U16 => 0xffff,
            IntRepr::U32 => 0xffff_ffff,
            IntRepr::U64 => 0xffff_ffff_ffff_ffff,
        }
    }

    pub fn guest_size(self) -> (r: u32)
        ensures
            r == self.size_spec(),
    {
        match self {
            IntRepr::U8 => 1,
            IntRepr::U16 => 2,
            IntRepr::U32 => 4,
            IntRepr::U64 => 8,
        }
    }

    pub fn guest_align(self) -> (r: usize)
        ensures
            r == self.size_spec(),
    {
        match self {
            IntRepr::U8 => 1,
            IntRepr::U16 => 2,
            IntRepr::U32 => 4,
            IntRepr::U64 => 8,
        }
    }

    pub fn abi(self) -> (r: AtomType)
        ensures
            r == self.abi_spec(),
    {
        match self {
            IntRepr::U8 | IntRepr::U16 | IntRepr::U32 => AtomType::I32,
            IntRepr::U64 => AtomType::I64,
        }
    }

    /// Reads an integer of this representation at `offset`.
    pub fn read<M: GuestMemory>(self, mem: &M, offset: u32) -> (r: Result<u64, GuestError>)
        ensures
            r == repr_read_spec(self, mem.base_addr(), mem.contents(), offset),
            r matches Ok(v) ==> v <= self.max_spec(),
    {
        match self {
            IntRepr::U8 => match u8::read(mem, &GuestPtr::new(offset)) {
                Ok(v) => Ok(v as u64),
                Err(e) => Err(e),
            },
            IntRepr::U16 => match u16::read(mem, &GuestPtr::new(offset)) {
                Ok(v) => Ok(v as u64),
                Err(e) => Err(e),
            },
            IntRepr::U32 => match u32::read(mem, &GuestPtr::new(offset)) {
                Ok(v) => Ok(v as u64),
                Err(e) => Err(e),
            },
            IntRepr::U64 => u64::read(mem, &GuestPtr::new(offset)),
        }
    }

    /// Writes the low bits of `value` as an integer of this representation
    /// at `offset`.
    pub fn write<M: GuestMemory>(self, mem: &mut M, offset: u32, value: u64) -> (r: Result<
        (),
        GuestError,
    >)
        ensures
            (r, final(mem).contents()) == repr_write_spec(
                self,
                old(mem).base_addr(),
                old(mem).contents(),
                offset,
                value,
            ),
            final(mem).base_addr() == old(mem).base_addr(),
    {
        match self {
            IntRepr::U8 => u8::write(mem, &GuestPtr::new(offset), #[verifier::truncate] (value as u8)),
            IntRepr::U16 => u16::write(
                mem,
                &GuestPtr::new(offset),
                #[verifier::truncate] (value as u16),
            ),
            IntRepr::U32 => u32::write(
                mem,
                &GuestPtr::new(offset),
                #[verifier::truncate] (value as u32),
            ),
            IntRepr::U64 => u64::write(mem, &GuestPtr::new(offset), value),
        }
    }
}

/// An integer that fits the representation and was written is the integer
/// that is read back.
pub proof fn lemma_repr_write_then_read(
    repr: IntRepr,
    base: usize,
    contents: Seq<u8>,
    offset: u32,
    value: u64,
)
    requires
        value <= repr.max_spec(),
        repr_write_spec(repr, base, contents, offset, value).0 is Ok,
    ensures
        repr_read_spec(repr, base, repr_write_spec(repr, base, contents, offset, value).1, offset)
            == Ok::<u64, GuestError>(value),
{
    match repr {
        IntRepr::U8 => {
            crate::guest_type::lemma_write_then_read::<u8>(base, contents, offset, value as u8);
        },
        IntRepr::U16 => {
            crate::guest_type::lemma_write_then_read::<u16>(base, contents, offset, value as u16);
        },
        IntRepr::U32 => {
            crate::guest_type::lemma_write_then_read::<u32>(base, contents, offset, value as u32);
        },
        IntRepr::U64 => {
            crate::guest_type::lemma_write_then_read::<u64>(base, contents, offset, value);
        },
    }
}

} // verus!
