use vstd::prelude::*;
use vstd::bytes::*;
use crate::error::GuestError;
use crate::guest_type::{GuestType, GuestTypeTransparent};
use crate::memory::{GuestMemory, read_bytes, write_bytes};
use crate::pointer::GuestPtr;

verus! {

// The fixed-width integers are stored in little-endian byte order, each
// aligned to its own size.

impl GuestType for u8 {
    open spec fn size_spec() -> u32 {
        1
    }

    open spec fn align_spec() -> usize {
        1
    }

    open spec fn decode(bytes: Seq<u8>) -> Result<Self, GuestError> {
        Ok(bytes[0])
    }

    open spec fn encode(self) -> Seq<u8> {
        seq![self]
    }

    proof fn lemma_layout(v: Self) {
    }

    fn guest_size() -> (r: u32) {
        1
    }

    fn guest_align() -> (r: usize) {
        1
    }

    fn read<M: GuestMemory>(mem: &M, ptr: &GuestPtr<Self>) -> (r: Result<Self, GuestError>) {
        let offset = ptr.offset();
        match mem.validate_size_align(offset, 1, 1) {
            Err(e) => Err(e),
            Ok(_) => {
                let bytes = read_bytes(mem, offset, 1);
                Ok(bytes[0])
            },
        }
    }

    fn write<M: GuestMemory>(mem: &mut M, ptr: &GuestPtr<Self>, val: Self) -> (r: Result<
        (),
        GuestError,
    >) {
        let offset = ptr.offset();
        match mem.validate_size_align(offset, 1, 1) {
            Err(e) => Err(e),
            Ok(_) => {
                let mut bytes: Vec<u8> = Vec::new();
                bytes.push(val);
                assert(bytes@ =~= val.encode());
                write_bytes(mem, offset, &bytes);
                Ok(())
            },
        }
    }
}

impl GuestType for i8 {
    open spec fn size_spec() -> u32 {
        1
    }

    open spec fn align_spec() -> usize {
        1
    }

    open spec fn decode(bytes: Seq<u8>) -> Result<Self, GuestError> {
        Ok(bytes[0] as i8)
    }

    open spec fn encode(self) -> Seq<u8> {
        seq![self as u8]
    }

    proof fn lemma_layout(v: Self) {
        assert((v as u8) as i8 == v) by (bit_vector);
        assert(v.encode()[0] == v as u8);
    }

    fn guest_size() -> (r: u32) {
        1
    }

    fn guest_align() -> (r: usize) {
        1
    }

    fn read<M: GuestMemory>(mem: &M, ptr: &GuestPtr<Self>) -> (r: Result<Self, GuestError>) {
        let offset = ptr.offset();
        match mem.validate_size_align(offset, 1, 1) {
            Err(e) => Err(e),
            Ok(_) => {
                let bytes = read_bytes(mem, offset, 1);
                Ok(#[verifier::truncate] (bytes[0] as i8))
            },
        }
    }

    fn write<M: GuestMemory>(mem: &mut M, ptr: &GuestPtr<Self>, val: Self) -> (r: Result<
        (),
        GuestError,
    >) {
        let offset = ptr.offset();
        match mem.validate_size_align(offset, 1, 1) {
            Err(e) => Err(e),
            Ok(_) => {
                let mut bytes: Vec<u8> = Vec::new();
                bytes.push(#[verifier::truncate] (val as u8));
                assert(bytes@ =~= val.encode());
                write_bytes(mem, offset, &bytes);
                Ok(())
            },
        }
    }
}

impl GuestType for u16 {
    open spec fn size_spec() -> u32 {
        2
    }

    open spec fn align_spec() -> usize {
        2
    }

    open spec fn decode(bytes: Seq<u8>) -> Result<Self, GuestError> {
        Ok(spec_u16_from_le_bytes(bytes))
    }

    open spec fn encode(self) -> Seq<u8> {
        spec_u16_to_le_bytes(self)
    }

    proof fn lemma_layout(v: Self) {
        lemma_auto_spec_u16_to_from_le_bytes();
    }

    fn guest_size() -> (r: u32) {
        2
    }

    fn guest_align() -> (r: usize) {
        2
    }

    fn read<M: GuestMemory>(mem: &M, ptr: &GuestPtr<Self>) -> (r: Result<Self, GuestError>) {
        let offset = ptr.offset();
        match mem.validate_size_align(offset, 2, 2) {
            Err(e) => Err(e),
            Ok(_) => {
                let bytes = read_bytes(mem, offset, 2);
                Ok(u16_from_le_bytes(bytes.as_slice()))
            },
        }
    }

    fn write<M: GuestMemory>(mem: &mut M, ptr: &GuestPtr<Self>, val: Self) -> (r: Result<
        (),
        GuestError,
    >) {
        let offset = ptr.offset();
        match mem.validate_size_align(offset, 2, 2) {
            Err(e) => Err(e),
            Ok(_) => {
                let bytes = u16_to_le_bytes(val);
                write_bytes(mem, offset, &bytes);
                Ok(())
            },
        }
    }
}

impl GuestType for i16 {
    open spec fn size_spec() -> u32 {
        2
    }

    open spec fn align_spec() -> usize {
        2
    }

    open spec fn decode(bytes: Seq<u8>) -> Result<Self, GuestError> {
        Ok(spec_u16_from_le_bytes(bytes) as i16)
    }

    open spec fn encode(self) -> Seq<u8> {
        spec_u16_to_le_bytes(self as u16)
    }

    proof fn lemma_layout(v: Self) {
        lemma_auto_spec_u16_to_from_le_bytes();
        let bits = v as u16;
        assert(spec_u16_to_le_bytes(bits).len() == 2);
        assert(spec_u16_from_le_bytes(spec_u16_to_le_bytes(bits)) == bits);
        assert((v as u16) as i16 == v) by (bit_vector);
    }

    fn guest_size() -> (r: u32) {
        2
    }

    fn guest_align() -> (r: usize) {
        2
    }

    fn read<M: GuestMemory>(mem: &M, ptr: &GuestPtr<Self>) -> (r: Result<Self, GuestError>) {
        let offset = ptr.offset();
        match mem.validate_size_align(offset, 2, 2) {
            Err(e) => Err(e),
            Ok(_) => {
                let bytes = read_bytes(mem, offset, 2);
                Ok(#[verifier::truncate] (u16_from_le_bytes(bytes.as_slice()) as i16))
            },
        }
    }

    fn write<M: GuestMemory>(mem: &mut M, ptr: &GuestPtr<Self>, val: Self) -> (r: Result<
        (),
        GuestError,
    >) {
        let offset = ptr.offset();
        match mem.validate_size_align(offset, 2, 2) {
            Err(e) => Err(e),
            Ok(_) => {
                let bytes = u16_to_le_bytes(#[verifier::truncate] (val as u16));
                write_bytes(mem, offset, &bytes);
                Ok(())
            },
        }
    }
}

impl GuestType for u32 {
    open spec fn size_spec() -> u32 {
        4
    }

    open spec fn align_spec() -> usize {
        4
    }

    open spec fn decode(bytes: Seq<u8>) -> Result<Self, GuestError> {
        Ok(spec_u32_from_le_bytes(bytes))
    }

    open spec fn encode(self) -> Seq<u8> {
        spec_u32_to_le_bytes(self)
    }

    proof fn lemma_layout(v: Self) {
        lemma_auto_spec_u32_to_from_le_bytes();
    }

    fn guest_size() -> (r: u32) {
        4
    }

    fn guest_align() -> (r: usize) {
        4
    }

    fn read<M: GuestMemory>(mem: &M, ptr: &GuestPtr<Self>) -> (r: Result<Self, GuestError>) {
        let offset = ptr.offset();
        match mem.validate_size_align(offset, 4, 4) {
            Err(e) => Err(e),
            Ok(_) => {
                let bytes = read_bytes(mem, offset, 4);
                Ok(u32_from_le_bytes(bytes.as_slice()))
            },
        }
    }

    fn write<M: GuestMemory>(mem: &mut M, ptr: &GuestPtr<Self>, val: Self) -> (r: Result<
        (),
        GuestError,
    >) {
        let offset = ptr.offset();
        match mem.validate_size_align(offset, 4, 4) {
            Err(e) => Err(e),
            Ok(_) => {
                let bytes = u32_to_le_bytes(val);
                write_bytes(mem, offset, &bytes);
                Ok(())
            },
        }
    }
}

impl GuestType for i32 {
    open spec fn size_spec() -> u32 {
        4
    }

    open spec fn align_spec() -> usize {
        4
    }

    open spec fn decode(bytes: Seq<u8>) -> Result<Self, GuestError> {
        Ok(spec_u32_from_le_bytes(bytes) as i32)
    }

    open spec fn encode(self) -> Seq<u8> {
        spec_u32_to_le_bytes(self as u32)
    }

    proof fn lemma_layout(v: Self) {
        lemma_auto_spec_u32_to_from_le_bytes();
        let bits = v as u32;
        assert(spec_u32_to_le_bytes(bits).len() == 4);
        assert(spec_u32_from_le_bytes(spec_u32_to_le_bytes(bits)) == bits);
        assert((v as u32) as i32 == v) by (bit_vector);
    }

    fn guest_size() -> (r: u32) {
        4
    }

    fn guest_align() -> (r: usize) {
        4
    }

    fn read<M: GuestMemory>(mem: &M, ptr: &GuestPtr<Self>) -> (r: Result<Self, GuestError>) {
        let offset = ptr.offset();
        match mem.validate_size_align(offset, 4, 4) {
            Err(e) => Err(e),
            Ok(_) => {
                let bytes = read_bytes(mem, offset, 4);
                Ok(#[verifier::truncate] (u32_from_le_bytes(bytes.as_slice()) as i32))
            },
        }
    }

    fn write<M: GuestMemory>(mem: &mut M, ptr: &GuestPtr<Self>, val: Self) -> (r: Result<
        (),
        GuestError,
    >) {
        let offset = ptr.offset();
        match mem.validate_size_align(offset, 4, 4) {
            Err(e) => Err(e),
            Ok(_) => {
                let bytes = u32_to_le_bytes(#[verifier::truncate] (val as u32));
                write_bytes(mem, offset, &bytes);
                Ok(())
            },
        }
    }
}

impl GuestType for u64 {
    open spec fn size_spec() -> u32 {
        8
    }

    open spec fn align_spec() -> usize {
        8
    }

    open spec fn decode(bytes: Seq<u8>) -> Result<Self, GuestError> {
        Ok(spec_u64_from_le_bytes(bytes))
    }

    open spec fn encode(self) -> Seq<u8> {
        spec_u64_to_le_bytes(self)
    }

    proof fn lemma_layout(v: Self) {
        lemma_auto_spec_u64_to_from_le_bytes();
    }

    fn guest_size() -> (r: u32) {
        8
    }

    fn guest_align() -> (r: usize) {
        8
    }

    fn read<M: GuestMemory>(mem: &M, ptr: &GuestPtr<Self>) -> (r: Result<Self, GuestError>) {
        let offset = ptr.offset();
        match mem.validate_size_align(offset, 8, 8) {
            Err(e) => Err(e),
            Ok(_) => {
                let bytes = read_bytes(mem, offset, 8);
                Ok(u64_from_le_bytes(bytes.as_slice()))
            },
        }
    }

    fn write<M: GuestMemory>(mem: &mut M, ptr: &GuestPtr<Self>, val: Self) -> (r: Result<
        (),
        GuestError,
    >) {
        let offset = ptr.offset();
        match mem.validate_size_align(offset, 8, 8) {
            Err(e) => Err(e),
            Ok(_) => {
                let bytes = u64_to_le_bytes(val);
                write_bytes(mem, offset, &bytes);
                Ok(())
            },
        }
    }
}

impl GuestType for i64 {
    open spec fn size_spec() -> u32 {
        8
    }

    open spec fn align_spec() -> usize {
        8
    }

    open spec fn decode(bytes: Seq<u8>) -> Result<Self, GuestError> {
        Ok(spec_u64_from_le_bytes(bytes) as i64)
    }

    open spec fn encode(self) -> Seq<u8> {
        spec_u64_to_le_bytes(self as u64)
    }

    proof fn lemma_layout(v: Self) {
        lemma_auto_spec_u64_to_from_le_bytes();
        let bits = v as u64;
        assert(spec_u64_to_le_bytes(bits).len() == 8);
        assert(spec_u64_from_le_bytes(spec_u64_to_le_bytes(bits)) == bits);
        assert((v as u64) as i64 == v) by (bit_vector);
    }

    fn guest_size() -> (r: u32) {
        8
    }

    fn guest_align() -> (r: usize) {
        8
    }

    fn read<M: GuestMemory>(mem: &M, ptr: &GuestPtr<Self>) -> (r: Result<Self, GuestError>) {
        let offset = ptr.offset();
        match mem.validate_size_align(offset, 8, 8) {
            Err(e) => Err(e),
            Ok(_) => {
                let bytes = read_bytes(mem, offset, 8);
                Ok(#[verifier::truncate] (u64_from_le_bytes(bytes.as_slice()) as i64))
            },
        }
    }

    fn write<M: GuestMemory>(mem: &mut M, ptr: &GuestPtr<Self>, val: Self) -> (r: Result<
        (),
        GuestError,
    >) {
        let offset = ptr.offset();
        match mem.validate_size_align(offset, 8, 8) {
            Err(e) => Err(e),
            Ok(_) => {
                let bytes = u64_to_le_bytes(#[verifier::truncate] (val as u64));
                write_bytes(mem, offset, &bytes);
                Ok(())
            },
        }
    }
}

// Every bit pattern of an integer is a value.

impl GuestTypeTransparent for u8 {
    fn validate<M: GuestMemory>(mem: &M, ptr: &GuestPtr<Self>) -> (r: Result<(), GuestError>) {
        Ok(())
    }
}

impl GuestTypeTransparent for i8 {
    fn validate<M: GuestMemory>(mem: &M, ptr: &GuestPtr<Self>) -> (r: Result<(), GuestError>) {
        Ok(())
    }
}

impl GuestTypeTransparent for u16 {
    fn validate<M: GuestMemory>(mem: &M, ptr: &GuestPtr<Self>) -> (r: Result<(), GuestError>) {
        Ok(())
    }
}

impl GuestTypeTransparent for i16 {
    fn validate<M: GuestMemory>(mem: &M, ptr: &GuestPtr<Self>) -> (r: Result<(), GuestError>) {
        Ok(())
    }
}

impl GuestTypeTransparent for u32 {
    fn validate<M: GuestMemory>(mem: &M, ptr: &GuestPtr<Self>) -> (r: Result<(), GuestError>) {
        Ok(())
    }
}

impl GuestTypeTransparent for i32 {
    fn validate<M: GuestMemory>(mem: &M, ptr: &GuestPtr<Self>) -> (r: Result<(), GuestError>) {
        Ok(())
    }
}

impl GuestTypeTransparent for u64 {
    fn validate<M: GuestMemory>(mem: &M, ptr: &GuestPtr<Self>) -> (r: Result<(), GuestError>) {
        Ok(())
    }
}

impl GuestTypeTransparent for i64 {
    fn validate<M: GuestMemory>(mem: &M, ptr: &GuestPtr<Self>) -> (r: Result<(), GuestError>) {
        Ok(())
    }
}

} // verus!
