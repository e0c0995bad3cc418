use vstd::prelude::*;
use vstd::bytes::*;
use crate::display::{decimal, tagged, tagged_spec, to_decimal};
use crate::error::GuestError;
use crate::generate::names::{camel_case, type_ident};
use crate::generate::schema::HandleDatatype;
use crate::guest_type::{GuestType, GuestTypeTransparent};
use crate::memory::{GuestMemory, read_bytes, write_bytes};
use crate::pointer::GuestPtr;

verus! {

/// What is emitted for a handle: the name of the type, and the size and
/// alignment of its values in guest memory.
#[derive(Debug)]
pub struct HandleDef {
    pub name: String,
    pub size: u32,
    pub align: usize,
}

/// A handle: a 32-bit identifier of which every value is legal.
#[derive(Copy, Clone, Debug, PartialEq, Eq, Structural)]
pub struct Handle {
    pub raw: u32,
}

/// Works out what is emitted for a handle.
pub fn define_handle(name: &str, h: &HandleDatatype) -> (def: HandleDef)
    ensures
        def.name@ == camel_case(name@),
        def.size == 4,
        def.align == 4,
{
    HandleDef { name: type_ident(name), size: 4, align: 4 }
}

impl HandleDef {
    /// Shows a handle: the name of the type, and the identifier in
    /// decimal in round brackets.
    pub fn display(&self, h: Handle) -> (s: String)
        ensures
            s@ == tagged_spec(self.name@, decimal(h.raw as nat)),
    {
        tagged(self.name.as_str(), to_decimal(h.raw as u64).as_str())
    }
}

impl Handle {
    pub fn from_u32(e: u32) -> (h: Handle)
        ensures
            h.raw == e,
    {
        Handle { raw: e }
    }

    /// The handle with the bits of `e`.
    pub fn from_i32(e: i32) -> (h: Handle)
        ensures
            h.raw == e as u32,
    {
        Handle { raw: #[verifier::truncate] (e as u32) }
    }

    pub fn to_u32(self) -> (e: u32)
        ensures
            e == self.raw,
    {
        self.raw
    }

    /// The bits of the handle as a signed integer.
    pub fn to_i32(self) -> (e: i32)
        ensures
            e == self.raw as i32,
    {
        #[verifier::truncate]
        (self.raw as i32)
    }
}

/// A handle turned into a signed integer and back is the same handle.
pub proof fn lemma_handle_i32_round_trip(raw: u32)
    ensures
        ((raw as i32) as u32) == raw,
{
    assert(((raw as i32) as u32) == raw) by (bit_vector);
}

impl GuestType for Handle {
    open spec fn size_spec() -> u32 {
        4
    }

    open spec fn align_spec() -> usize {
        4
    }

    open spec fn decode(bytes: Seq<u8>) -> Result<Self, GuestError> {
        Ok(Handle { raw: spec_u32_from_le_bytes(bytes) })
    }

    open spec fn encode(self) -> Seq<u8> {
        spec_u32_to_le_bytes(self.raw)
    }

    proof fn lemma_layout(v: Self) {
        lemma_auto_spec_u32_to_from_le_bytes();
    }

    fn guest_size() -> (r: u32) {
        4
    }

    fn guest_align() -> (r: usize) {
        4
    }

    fn read<M: GuestMemory>(mem: &M, ptr: &GuestPtr<Self>) -> (r: Result<Self, GuestError>) {
        let offset = ptr.offset();
        match mem.validate_size_align(offset, 4, 4) {
            Err(e) => Err(e),
            Ok(_) => {
                let bytes = read_bytes(mem, offset, 4);
                Ok(Handle { raw: u32_from_le_bytes(bytes.as_slice()) })
            },
        }
    }

    fn write<M: GuestMemory>(mem: &mut M, ptr: &GuestPtr<Self>, val: Self) -> (r: Result<
        (),
        GuestError,
    >) {
        let offset = ptr.offset();
        match mem.validate_size_align(offset, 4, 4) {
            Err(e) => Err(e),
            Ok(_) => {
                let bytes = u32_to_le_bytes(val.raw);
                write_bytes(mem, offset, &bytes);
                Ok(())
            },
        }
    }
}

impl GuestTypeTransparent for Handle {
    fn validate<M: GuestMemory>(mem: &M, ptr: &GuestPtr<Self>) -> (r: Result<(), GuestError>) {
        Ok(())
    }
}

} // verus!
