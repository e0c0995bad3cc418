use vstd::prelude::*;
use crate::error::GuestError;
use crate::memory::{GuestMemory, validate_spec, splice, lemma_splice};
use crate::pointer::{GuestPtr, Pointee};

verus! {

/// What reading a `T` at guest offset `offset` must return, for a buffer
/// with the bytes `contents` that is mapped at host address `base`: the
/// error of the bounds and alignment check, or else what the bytes decode to.
pub open spec fn read_spec<T: GuestType>(base: usize, contents: Seq<u8>, offset: u32) -> Result<
    T,
    GuestError,
> {
    match validate_spec(base, contents.len(), offset, T::align_spec(), T::size_spec()) {
        Err(e) => Err(e),
        Ok(_) => T::decode(contents.subrange(offset as int, offset + T::size_spec())),
    }
}

/// What writing `val` at guest offset `offset` must leave in a buffer that
/// held the bytes `contents`: the encoding of `val` at that place where the
/// bounds and alignment check passes, and the buffer untouched where it fails.
pub open spec fn write_spec<T: GuestType>(base: usize, contents: Seq<u8>, offset: u32, val: T) -> (
    Result<(), GuestError>,
    Seq<u8>,
) {
    match validate_spec(base, contents.len(), offset, T::align_spec(), T::size_spec()) {
        Err(e) => (Err(e), contents),
        Ok(_) => (Ok(()), splice(contents, offset as int, val.encode())),
    }
}

/// A type whose values can be stored in guest memory.
///
/// Such a type has a size and an alignment in guest memory, an encoding of
/// each value as bytes, and a decoding that may refuse bytes that stand for
/// no value.
pub trait GuestType: Sized + Pointee<Pointer = u32> {
    /// The number of guest bytes that a value takes.
    spec fn size_spec() -> u32;

    /// The alignment of a value in guest memory.
    spec fn align_spec() -> usize;

    /// The value that `bytes` stand for, or why they stand for none.
    spec fn decode(bytes: Seq<u8>) -> Result<Self, GuestError>;

    /// The bytes that stand for the value, in guest byte order.
    spec fn encode(self) -> Seq<u8>;

    /// The alignment is not zero, an encoding has the size of the type, and
    /// decoding it gives the value back.
    proof fn lemma_layout(v: Self)
        ensures
            Self::align_spec() > 0,
            v.encode().len() == Self::size_spec(),
            Self::decode(v.encode()) == Ok::<Self, GuestError>(v),
    ;

    fn guest_size() -> (r: u32)
        ensures
            r == Self::size_spec(),
    ;

    fn guest_align() -> (r: usize)
        ensures
            r == Self::align_spec(),
            r > 0,
    ;

    /// Reads the value that `ptr` points to.
    fn read<M: GuestMemory>(mem: &M, ptr: &GuestPtr<Self>) -> (r: Result<Self, GuestError>)
        ensures
            r == (match validate_spec(
                mem.base_addr(),
                mem.contents().len(),
                ptr.offset_spec(),
                Self::align_spec(),
                Self::size_spec(),
            ) {
                Err(e) => Err(e),
                Ok(_) => Self::decode(
                    mem.contents().subrange(
                        ptr.offset_spec() as int,
                        ptr.offset_spec() + Self::size_spec(),
                    ),
                ),
            }),
    ;

    /// Writes `val` to the place that `ptr` points to.
    fn write<M: GuestMemory>(mem: &mut M, ptr: &GuestPtr<Self>, val: Self) -> (r: Result<
        (),
        GuestError,
    >)
        ensures
            (r, final(mem).contents()) == (match validate_spec(
                old(mem).base_addr(),
                old(mem).contents().len(),
                ptr.offset_spec(),
                Self::align_spec(),
                Self::size_spec(),
            ) {
                Err(e) => (Err::<(), GuestError>(e), old(mem).contents()),
                Ok(_) => (
                    Ok::<(), GuestError>(()),
                    splice(old(mem).contents(), ptr.offset_spec() as int, val.encode()),
                ),
            }),
            final(mem).base_addr() == old(mem).base_addr(),
    ;
}

/// A type of which every run of `size_spec()` bytes can be handed to the
/// host as it lies in guest memory, once `validate` has accepted it.
pub trait GuestTypeTransparent: GuestType {
    /// Checks that the bytes that `ptr` points to stand for a value.
    fn validate<M: GuestMemory>(mem: &M, ptr: &GuestPtr<Self>) -> (r: Result<(), GuestError>)
        requires
            ptr.offset_spec() + Self::size_spec() <= mem.contents().len(),
        ensures
            r == (match Self::decode(
                mem.contents().subrange(
                    ptr.offset_spec() as int,
                    ptr.offset_spec() + Self::size_spec(),
                ),
            ) {
                Ok(_) => Ok::<(), GuestError>(()),
                Err(e) => Err::<(), GuestError>(e),
            }),
    ;
}

/// The type of the codes that an imported function returns to the guest.
///
/// The handlers of the imported functions return such codes themselves. A
/// failure of the access layer is turned into a code by `from_error`, which
/// may also note the failure in the context that the handlers share.
pub trait GuestErrorType: Sized {
    /// What the handlers keep between calls.
    type Context;

    /// The code that stands for success.
    spec fn success_spec() -> Self;

    /// Whether `from_error` may answer the failure `e` with the code `r`,
    /// turning the context `before` into `after`.
    spec fn from_error_spec(e: GuestError, before: Self::Context, after: Self::Context, r: Self) -> bool;

    fn success() -> (r: Self)
        ensures
            r == Self::success_spec(),
    ;

    fn from_error(e: GuestError, ctx: &mut Self::Context) -> (r: Self)
        ensures
            Self::from_error_spec(e, *old(ctx), *final(ctx), r),
    ;
}

/// A value that was written is the value that is read back: where writing
/// `v` at `offset` succeeds, reading at `offset` from the buffer that the
/// write left returns `v`.
pub proof fn lemma_write_then_read<T: GuestType>(base: usize, contents: Seq<u8>, offset: u32, v: T)
    requires
        write_spec::<T>(base, contents, offset, v).0 is Ok,
    ensures
        read_spec::<T>(base, write_spec::<T>(base, contents, offset, v).1, offset) == Ok::<
            T,
            GuestError,
        >(v),
{
    T::lemma_layout(v);
    lemma_splice(contents, offset as int, v.encode());
}

/// A write that succeeds changes no byte outside the region it was made to.
pub proof fn lemma_write_frame<T: GuestType>(base: usize, contents: Seq<u8>, offset: u32, v: T, i: int)
    requires
        0 <= i < contents.len(),
        !(offset <= i < offset + T::size_spec()),
    ensures
        write_spec::<T>(base, contents, offset, v).1.len() == contents.len(),
        write_spec::<T>(base, contents, offset, v).1[i] == contents[i],
{
    T::lemma_layout(v);
    if write_spec::<T>(base, contents, offset, v).0 is Ok {
        lemma_splice(contents, offset as int, v.encode());
    }
}

} // verus!
