use vstd::prelude::*;
use vstd::string::StringSliceAdditionalSpecFns;
use vstd::utf8::valid_utf8;
use vstd::bytes::{spec_u32_from_le_bytes, spec_u32_to_le_bytes, lemma_auto_spec_u32_to_from_le_bytes, u32_from_le_bytes, u32_to_le_bytes};
use crate::borrow::{GuestBorrows, borrow_spec};
use crate::error::GuestError;
use crate::guest_type::{GuestType, GuestTypeTransparent};
use crate::memory::{GuestMemory, validate_spec, read_bytes, write_bytes};
use crate::region::Region;
use crate::sealed::Sealed;

verus! {

/// Types that a `GuestPtr` can point to.
///
/// Every sized type can; its pointer is a `u32` offset. Slices and strings
/// have a pair for a pointer: the offset of the first element and the
/// number of elements or bytes.
pub trait Pointee: Sealed {
    type Pointer;
}

impl<T> Pointee for T {
    type Pointer = u32;
}

impl<T> Pointee for [T] {
    type Pointer = (u32, u32);
}

impl Pointee for str {
    type Pointer = (u32, u32);
}

/// A pointer of the guest: an offset into guest memory, with the type of
/// what it points to.
///
/// A `GuestPtr` is a plain value. Making one checks nothing: it may be out
/// of bounds or misaligned. The checks are made when it is read through,
/// written through or borrowed, against the memory handed to that call.
pub struct GuestPtr<T: ?Sized + Pointee> {
    pointer: T::Pointer,
    _marker: core::marker::PhantomData<T>,
}

/// The host-side place of a run of guest elements that passed every check:
/// the host address of the first one, and how many there are.
#[derive(Debug, Copy, Clone, PartialEq, Eq, Structural)]
pub struct RawSlice {
    pub addr: usize,
    pub len: u32,
}

/// Where a pointer at `offset` lands after moving `amt` elements of `size`
/// bytes forward: `None` where the distance or the new offset leaves `u32`.
pub open spec fn add_spec(offset: u32, amt: u32, size: u32) -> Option<u32> {
    if amt * size > u32::MAX || offset + amt * size > u32::MAX {
        None
    } else {
        Some((offset + amt * size) as u32)
    }
}

/// The result that the elements `from..count` of a slice at `start` give
/// when each is checked in turn: the error of the first that stands for no
/// value, or `Ok` where all do.
pub open spec fn validate_elems_spec<T: GuestType>(
    contents: Seq<u8>,
    start: u32,
    from: int,
    count: int,
) -> Result<(), GuestError>
    decreases count - from,
{
    if from >= count {
        Ok(())
    } else {
        match T::decode(
            contents.subrange(start + from * T::size_spec(), start + (from + 1) * T::size_spec()),
        ) {
            Err(e) => Err(e),
            Ok(_) => validate_elems_spec::<T>(contents, start, from + 1, count),
        }
    }
}

/// What borrowing a slice of `count` elements of `T` at `start` must return,
/// and the regions that are held afterwards.
///
/// The checks come in this order: the size in bytes fits `u32`; the bytes
/// lie inside the buffer, aligned for `T`; the region overlaps none that is
/// held, and is recorded; every element stands for a value. A failure of the
/// last check leaves the region recorded.
pub open spec fn slice_as_raw_spec<T: GuestType>(
    base: usize,
    contents: Seq<u8>,
    held: Seq<Region>,
    start: u32,
    count: u32,
) -> (Result<RawSlice, GuestError>, Seq<Region>) {
    if count * T::size_spec() > u32::MAX {
        (Err(GuestError::PtrOverflow), held)
    } else {
        let len = (count * T::size_spec()) as u32;
        let region = Region { start, len };
        match validate_spec(base, contents.len(), start, T::align_spec(), len) {
            Err(e) => (Err(e), held),
            Ok(addr) => match borrow_spec(held, region) {
                None => (Err(GuestError::PtrBorrowed(region)), held),
                Some(after) => match validate_elems_spec::<T>(contents, start, 0, count as int) {
                    Err(e) => (Err(e), after),
                    Ok(_) => (Ok(RawSlice { addr, len: count }), after),
                },
            },
        }
    }
}

/// What borrowing a string of `len` bytes at `start` must return, and the
/// regions that are held afterwards.
///
/// The checks come in this order: the bytes lie inside the buffer; the
/// region overlaps none that is held, and is recorded; the bytes are valid
/// UTF-8. A failure of the last check leaves the region recorded.
pub open spec fn str_as_raw_spec(
    base: usize,
    contents: Seq<u8>,
    held: Seq<Region>,
    start: u32,
    len: u32,
) -> (Result<RawSlice, GuestError>, Seq<Region>) {
    let region = Region { start, len };
    match validate_spec(base, contents.len(), start, 1, len) {
        Err(e) => (Err(e), held),
        Ok(addr) => match borrow_spec(held, region) {
            None => (Err(GuestError::PtrBorrowed(region)), held),
            Some(after) => if valid_utf8(contents.subrange(start as int, start + len)) {
                (Ok(RawSlice { addr, len }), after)
            } else {
                (Err(GuestError::InvalidUtf8), after)
            },
        },
    }
}

impl<T: ?Sized + Pointee> GuestPtr<T> {
    /// The offset that the pointer holds; for slices and strings, the pair
    /// of offset and length.
    pub closed spec fn offset_spec(&self) -> T::Pointer {
        self.pointer
    }

    /// Two pointers to the same type with the same offset are equal.
    pub proof fn lemma_same_offset(self, other: Self)
        requires
            self.offset_spec() == other.offset_spec(),
        ensures
            self == other,
    {
    }

    /// Makes a pointer from an offset; for slices and strings, from the
    /// pair of offset and length.
    pub fn new(pointer: T::Pointer) -> (p: GuestPtr<T>)
        ensures
            p.offset_spec() == pointer,
    {
        GuestPtr { pointer, _marker: core::marker::PhantomData }
    }

    /// Returns the offset of the pointer in guest memory; for slices and
    /// strings, the pair of offset and length.
    pub fn offset(&self) -> (r: T::Pointer) where T::Pointer: Copy
        ensures
            r == self.offset_spec(),
    {
        self.pointer
    }
}

impl<T: Pointee<Pointer = u32>> GuestPtr<T> {
    /// The pointer with the offset `offset`.
    pub closed spec fn at(offset: u32) -> GuestPtr<T> {
        GuestPtr { pointer: offset, _marker: core::marker::PhantomData }
    }

    /// `at` gives a pointer with the offset asked for.
    pub proof fn lemma_at(offset: u32)
        ensures
            Self::at(offset).offset_spec() == offset,
    {
    }

    /// Every pointer is what `at` gives for its offset.
    pub proof fn lemma_at_offset(self)
        ensures
            Self::at(self.offset_spec()) == self,
    {
    }

    /// Reinterprets the pointer as one to another type, at the same offset.
    pub fn cast<U: Pointee<Pointer = u32>>(&self) -> (p: GuestPtr<U>)
        ensures
            p.offset_spec() == self.offset_spec(),
    {
        GuestPtr::new(self.pointer)
    }

    /// Reads the value that the pointer points to in `mem`.
    pub fn read<M: GuestMemory>(&self, mem: &M) -> (r: Result<T, GuestError>) where T: GuestType
        ensures
            r == crate::guest_type::read_spec::<T>(
                mem.base_addr(),
                mem.contents(),
                self.offset_spec(),
            ),
    {
        T::read(mem, self)
    }

    /// Writes `val` to the place that the pointer points to in `mem`.
    pub fn write<M: GuestMemory>(&self, mem: &mut M, val: T) -> (r: Result<
        (),
        GuestError,
    >) where T: GuestType
        ensures
            (r, final(mem).contents()) == crate::guest_type::write_spec::<T>(
                old(mem).base_addr(),
                old(mem).contents(),
                self.offset_spec(),
                val,
            ),
            final(mem).base_addr() == old(mem).base_addr(),
    {
        T::write(mem, self, val)
    }

    /// Moves the pointer `amt` elements forward.
    pub fn add(&self, amt: u32) -> (r: Result<GuestPtr<T>, GuestError>) where T: GuestType
        ensures
            match add_spec(self.offset_spec(), amt, T::size_spec()) {
                Some(offset) => r matches Ok(p) && p.offset_spec() == offset,
                None => r == Err::<GuestPtr<T>, GuestError>(GuestError::PtrOverflow),
            },
    {
        let offset = match amt.checked_mul(T::guest_size()) {
            Some(o) => self.pointer.checked_add(o),
            None => None,
        };
        match offset {
            Some(o) => Ok(GuestPtr::new(o)),
            None => Err(GuestError::PtrOverflow),
        }
    }

    /// Returns a pointer to the slice of `elems` elements that starts where
    /// this pointer points to.
    pub fn as_array(&self, elems: u32) -> (p: GuestPtr<[T]>) where T: GuestType
        ensures
            p.offset_spec() == (self.offset_spec(), elems),
    {
        GuestPtr::new((self.pointer, elems))
    }
}

impl<T: Pointee<Pointer = u32>> GuestPtr<[T]> {
    /// Returns the offset of the first element.
    pub fn offset_base(&self) -> (r: u32)
        ensures
            r == self.offset_spec().0,
    {
        self.pointer.0
    }

    /// Returns the number of elements.
    pub fn len(&self) -> (r: u32)
        ensures
            r == self.offset_spec().1,
    {
        self.pointer.1
    }

    /// Returns a pointer to the first element.
    pub fn as_ptr(&self) -> (p: GuestPtr<T>)
        ensures
            p.offset_spec() == self.offset_spec().0,
    {
        GuestPtr::new(self.offset_base())
    }

    /// Returns, for each element in turn, a pointer to it, or
    /// `PtrOverflow` where its offset does not fit `u32`.
    pub fn iter(&self) -> (v: Vec<Result<GuestPtr<T>, GuestError>>) where T: GuestType
        ensures
            v@.len() == self.offset_spec().1,
            forall|i: int|
                0 <= i < v@.len() ==> match add_spec(
                    self.offset_spec().0,
                    i as u32,
                    T::size_spec(),
                ) {
                    Some(offset) => (#[trigger] v@[i]) matches Ok(p) && p.offset_spec() == offset,
                    None => v@[i] == Err::<GuestPtr<T>, GuestError>(GuestError::PtrOverflow),
                },
    {
        let base = self.as_ptr();
        let n = self.len();
        let mut v: Vec<Result<GuestPtr<T>, GuestError>> = Vec::new();
        let mut i: u32 = 0;
        while i < n
            invariant
                i <= n,
                v@.len() == i,
                base.offset_spec() == self.offset_spec().0,
                forall|k: int|
                    0 <= k < v@.len() ==> match add_spec(
                        self.offset_spec().0,
                        k as u32,
                        T::size_spec(),
                    ) {
                        Some(offset) => (#[trigger] v@[k]) matches Ok(p) && p.offset_spec()
                            == offset,
                        None => v@[k] == Err::<GuestPtr<T>, GuestError>(GuestError::PtrOverflow),
                    },
            decreases n - i,
        {
            v.push(base.add(i));
            i = i + 1;
        }
        v
    }

    /// Borrows the slice for raw access by the host.
    ///
    /// The ledger `bc` must be the one through which every raw reference
    /// into `mem` that is still alive was taken.
    #[verifier::loop_isolation(false)]
    pub fn as_raw<M: GuestMemory>(&self, mem: &M, bc: &mut GuestBorrows) -> (r: Result<
        RawSlice,
        GuestError,
    >) where T: GuestTypeTransparent
        ensures
            (r, final(bc)@) == slice_as_raw_spec::<T>(
                mem.base_addr(),
                mem.contents(),
                old(bc)@,
                self.offset_spec().0,
                self.offset_spec().1,
            ),
            old(bc).wf() ==> final(bc).wf(),
    {
        let start = self.pointer.0;
        let count = self.pointer.1;
        let size = T::guest_size();
        let len = match count.checked_mul(size) {
            Some(l) => l,
            None => { return Err(GuestError::PtrOverflow); },
        };
        let addr = match mem.validate_size_align(start, T::guest_align(), len) {
            Ok(a) => a,
            Err(e) => { return Err(e); },
        };
        match bc.borrow(Region { start, len }) {
            Ok(_) => {},
            Err(e) => { return Err(e); },
        }
        let ghost held = bc@;
        let mut i: u32 = 0;
        while i < count
            invariant
                i <= count,
                bc@ == held,
                validate_elems_spec::<T>(mem.contents(), start, 0, count as int)
                    == validate_elems_spec::<T>(mem.contents(), start, i as int, count as int),
            decreases count - i,
        {
            assert(i * size + size <= count * size) by (nonlinear_arith)
                requires
                    i < count,
            ;
            assert((i + 1) * size == i * size + size) by (nonlinear_arith);
            let elem: GuestPtr<T> = GuestPtr::new(start + i * size);
            match T::validate(mem, &elem) {
                Ok(_) => {},
                Err(e) => { return Err(e); },
            }
            i = i + 1;
        }
        Ok(RawSlice { addr, len: count })
    }
}

impl GuestPtr<str> {
    /// Returns the offset of the first byte.
    pub fn offset_base(&self) -> (r: u32)
        ensures
            r == self.offset_spec().0,
    {
        self.pointer.0
    }

    /// Returns the length of the string in bytes.
    pub fn len(&self) -> (r: u32)
        ensures
            r == self.offset_spec().1,
    {
        self.pointer.1
    }

    /// Returns a pointer to the bytes of the string.
    pub fn as_bytes(&self) -> (p: GuestPtr<[u8]>)
        ensures
            p.offset_spec() == self.offset_spec(),
    {
        GuestPtr::new(self.pointer)
    }

    /// Borrows the string for raw access by the host.
    ///
    /// The ledger `bc` must be the one through which every raw reference
    /// into `mem` that is still alive was taken.
    pub fn as_raw<M: GuestMemory>(&self, mem: &M, bc: &mut GuestBorrows) -> (r: Result<
        RawSlice,
        GuestError,
    >)
        ensures
            (r, final(bc)@) == str_as_raw_spec(
                mem.base_addr(),
                mem.contents(),
                old(bc)@,
                self.offset_spec().0,
                self.offset_spec().1,
            ),
            old(bc).wf() ==> final(bc).wf(),
    {
        let start = self.pointer.0;
        let len = self.pointer.1;
        let addr = match mem.validate_size_align(start, 1, len) {
            Ok(a) => a,
            Err(e) => { return Err(e); },
        };
        match bc.borrow(Region { start, len }) {
            Ok(_) => {},
            Err(e) => { return Err(e); },
        }
        let bytes = read_bytes(mem, start, len);
        match str_from_utf8(bytes.as_slice()) {
            Some(_) => Ok(RawSlice { addr, len }),
            None => Err(GuestError::InvalidUtf8),
        }
    }
}

/// Calls `std::str::from_utf8`, which returns the bytes as a string slice
/// where they are well-formed UTF-8 and an error where they are not.
#[verifier::external_body]
pub(crate) fn str_from_utf8(bytes: &[u8]) -> (r: Option<&str>)
    ensures
        r is Some <==> valid_utf8(bytes@),
        r matches Some(s) ==> s.spec_bytes() == bytes@,
{
    match std::str::from_utf8(bytes) {
        Ok(s) => Some(s),
        Err(_) => None,
    }
}

impl<T: ?Sized + Pointee> Clone for GuestPtr<T> where T::Pointer: Copy {
    fn clone(&self) -> (r: Self)
        ensures
            r == *self,
    {
        GuestPtr { pointer: self.pointer, _marker: core::marker::PhantomData }
    }
}

impl<T: ?Sized + Pointee> Copy for GuestPtr<T> where T::Pointer: Copy {
}

// A pointer of the guest lies in guest memory as its 32-bit offset.
impl<T: Pointee<Pointer = u32>> GuestType for GuestPtr<T> {
    open spec fn size_spec() -> u32 {
        4
    }

    open spec fn align_spec() -> usize {
        4
    }

    open spec fn decode(bytes: Seq<u8>) -> Result<Self, GuestError> {
        Ok(GuestPtr::at(spec_u32_from_le_bytes(bytes)))
    }

    open spec fn encode(self) -> Seq<u8> {
        spec_u32_to_le_bytes(self.offset_spec())
    }

    proof fn lemma_layout(v: Self) {
        lemma_auto_spec_u32_to_from_le_bytes();
        v.lemma_at_offset();
    }

    fn guest_size() -> (r: u32) {
        4
    }

    fn guest_align() -> (r: usize) {
        4
    }

    fn read<M: GuestMemory>(mem: &M, ptr: &GuestPtr<Self>) -> (r: Result<Self, GuestError>) {
        let offset = ptr.offset();
        match mem.validate_size_align(offset, 4, 4) {
            Err(e) => Err(e),
            Ok(_) => {
                let bytes = read_bytes(mem, offset, 4);
                Ok(GuestPtr::new(u32_from_le_bytes(bytes.as_slice())))
            },
        }
    }

    fn write<M: GuestMemory>(mem: &mut M, ptr: &GuestPtr<Self>, val: Self) -> (r: Result<
        (),
        GuestError,
    >) {
        let offset = ptr.offset();
        match mem.validate_size_align(offset, 4, 4) {
            Err(e) => Err(e),
            Ok(_) => {
                let bytes = u32_to_le_bytes(val.offset());
                write_bytes(mem, offset, &bytes);
                Ok(())
            },
        }
    }
}

impl<T: Pointee<Pointer = u32>> GuestPtr<[T]> {
    /// The pointer with the offset `offset` and the length `len`.
    pub closed spec fn spanning(offset: u32, len: u32) -> GuestPtr<[T]> {
        GuestPtr { pointer: (offset, len), _marker: core::marker::PhantomData }
    }

    /// `spanning` gives a pointer with the offset and the length asked for.
    pub proof fn lemma_spanning(offset: u32, len: u32)
        ensures
            Self::spanning(offset, len).offset_spec() == (offset, len),
    {
    }

    /// Every pointer is what `spanning` gives for its offset and length.
    pub proof fn lemma_spanning_offset(self)
        ensures
            Self::spanning(self.offset_spec().0, self.offset_spec().1) == self,
    {
    }
}

// A pointer of the guest to a run of elements lies in guest memory as its
// 32-bit offset, followed by its 32-bit length.
impl<T: Pointee<Pointer = u32>> GuestType for GuestPtr<[T]> {
    open spec fn size_spec() -> u32 {
        8
    }

    open spec fn align_spec() -> usize {
        4
    }

    open spec fn decode(bytes: Seq<u8>) -> Result<Self, GuestError> {
        Ok(
            Self::spanning(
                spec_u32_from_le_bytes(bytes.subrange(0, 4)),
                spec_u32_from_le_bytes(bytes.subrange(4, 8)),
            ),
        )
    }

    open spec fn encode(self) -> Seq<u8> {
        spec_u32_to_le_bytes(self.offset_spec().0) + spec_u32_to_le_bytes(self.offset_spec().1)
    }

    proof fn lemma_layout(v: Self) {
        lemma_auto_spec_u32_to_from_le_bytes();
        let first = spec_u32_to_le_bytes(v.offset_spec().0);
        let second = spec_u32_to_le_bytes(v.offset_spec().1);
        assert((first + second).subrange(0, 4) =~= first);
        assert((first + second).subrange(4, 8) =~= second);
        v.lemma_spanning_offset();
    }

    fn guest_size() -> (r: u32) {
        8
    }

    fn guest_align() -> (r: usize) {
        4
    }

    fn read<M: GuestMemory>(mem: &M, ptr: &GuestPtr<Self>) -> (r: Result<Self, GuestError>) {
        let offset = ptr.offset();
        match mem.validate_size_align(offset, 4, 8) {
            Err(e) => Err(e),
            Ok(_) => {
                let first = read_bytes(mem, offset, 4);
                let second = read_bytes(mem, offset + 4, 4);
                proof {
                    let all = mem.contents().subrange(offset as int, offset + 8);
                    assert(all.subrange(0, 4) =~= first@);
                    assert(all.subrange(4, 8) =~= second@);
                }
                Ok(
                    GuestPtr::new(
                        (u32_from_le_bytes(first.as_slice()), u32_from_le_bytes(second.as_slice())),
                    ),
                )
            },
        }
    }

    fn write<M: GuestMemory>(mem: &mut M, ptr: &GuestPtr<Self>, val: Self) -> (r: Result<
        (),
        GuestError,
    >) {
        let offset = ptr.offset();
        match mem.validate_size_align(offset, 4, 8) {
            Err(e) => Err(e),
            Ok(_) => {
                let mut bytes = u32_to_le_bytes(val.pointer.0);
                let mut second = u32_to_le_bytes(val.pointer.1);
                bytes.append(&mut second);
                write_bytes(mem, offset, &bytes);
                Ok(())
            },
        }
    }
}

impl GuestPtr<str> {
    /// The pointer with the offset `offset` and the length `len`.
    pub closed spec fn spanning(offset: u32, len: u32) -> GuestPtr<str> {
        GuestPtr { pointer: (offset, len), _marker: core::marker::PhantomData }
    }

    /// `spanning` gives a pointer with the offset and the length asked for.
    pub proof fn lemma_spanning(offset: u32, len: u32)
        ensures
            Self::spanning(offset, len).offset_spec() == (offset, len),
    {
    }

    /// Every pointer is what `spanning` gives for its offset and length.
    pub proof fn lemma_spanning_offset(self)
        ensures
            Self::spanning(self.offset_spec().0, self.offset_spec().1) == self,
    {
    }
}

// A pointer of the guest to a run of bytes that are a string lies in guest memory as its
// 32-bit offset, followed by its 32-bit length.
impl GuestType for GuestPtr<str> {
    open spec fn size_spec() -> u32 {
        8
    }

    open spec fn align_spec() -> usize {
        4
    }

    open spec fn decode(bytes: Seq<u8>) -> Result<Self, GuestError> {
        Ok(
            Self::spanning(
                spec_u32_from_le_bytes(bytes.subrange(0, 4)),
                spec_u32_from_le_bytes(bytes.subrange(4, 8)),
            ),
        )
    }

    open spec fn encode(self) -> Seq<u8> {
        spec_u32_to_le_bytes(self.offset_spec().0) + spec_u32_to_le_bytes(self.offset_spec().1)
    }

    proof fn lemma_layout(v: Self) {
        lemma_auto_spec_u32_to_from_le_bytes();
        let first = spec_u32_to_le_bytes(v.offset_spec().0);
        let second = spec_u32_to_le_bytes(v.offset_spec().1);
        assert((first + second).subrange(0, 4) =~= first);
        assert((first + second).subrange(4, 8) =~= second);
        v.lemma_spanning_offset();
    }

    fn guest_size() -> (r: u32) {
        8
    }

    fn guest_align() -> (r: usize) {
        4
    }

    fn read<M: GuestMemory>(mem: &M, ptr: &GuestPtr<Self>) -> (r: Result<Self, GuestError>) {
        let offset = ptr.offset();
        match mem.validate_size_align(offset, 4, 8) {
            Err(e) => Err(e),
            Ok(_) => {
                let first = read_bytes(mem, offset, 4);
                let second = read_bytes(mem, offset + 4, 4);
                proof {
                    let all = mem.contents().subrange(offset as int, offset + 8);
                    assert(all.subrange(0, 4) =~= first@);
                    assert(all.subrange(4, 8) =~= second@);
                }
                Ok(
                    GuestPtr::new(
                        (u32_from_le_bytes(first.as_slice()), u32_from_le_bytes(second.as_slice())),
                    ),
                )
            },
        }
    }

    fn write<M: GuestMemory>(mem: &mut M, ptr: &GuestPtr<Self>, val: Self) -> (r: Result<
        (),
        GuestError,
    >) {
        let offset = ptr.offset();
        match mem.validate_size_align(offset, 4, 8) {
            Err(e) => Err(e),
            Ok(_) => {
                let mut bytes = u32_to_le_bytes(val.pointer.0);
                let mut second = u32_to_le_bytes(val.pointer.1);
                bytes.append(&mut second);
                write_bytes(mem, offset, &bytes);
                Ok(())
            },
        }
    }
}

/// With the bytes of a string inside the buffer, borrowing it succeeds
/// exactly when its region overlaps no region that is held and its bytes are
/// valid UTF-8.
pub proof fn lemma_str_as_raw_ok_iff(
    base: usize,
    contents: Seq<u8>,
    held: Seq<Region>,
    start: u32,
    len: u32,
)
    requires
        validate_spec(base, contents.len(), start, 1, len) is Ok,
    ensures
        str_as_raw_spec(base, contents, held, start, len).0 is Ok <==> valid_utf8(
            contents.subrange(start as int, start + len),
        ) && !crate::borrow::is_borrowed_spec(held, Region { start, len }),
{
}

/// Borrowing a slice without elements succeeds wherever the slice starts
/// inside the buffer at a host address that is aligned for its elements,
/// whatever regions are held. The region that is recorded is empty, so it
/// stands in the way of no later borrow.
pub proof fn lemma_empty_slice_as_raw<T: GuestType>(
    base: usize,
    contents: Seq<u8>,
    held: Seq<Region>,
    start: u32,
)
    requires
        validate_spec(base, contents.len(), start, T::align_spec(), 0) is Ok,
    ensures
        slice_as_raw_spec::<T>(base, contents, held, start, 0) == (
            Ok::<RawSlice, GuestError>(RawSlice { addr: (base + start) as usize, len: 0 }),
            held.push(Region { start, len: 0 }),
        ),
        forall|r: Region|
            crate::borrow::is_borrowed_spec(held.push(Region { start, len: 0 }), r)
                == crate::borrow::is_borrowed_spec(held, r),
{
    assert(0 * T::size_spec() == 0) by (nonlinear_arith);
    let after = held.push(Region { start, len: 0 });
    assert forall|r: Region|
        crate::borrow::is_borrowed_spec(after, r) == crate::borrow::is_borrowed_spec(held, r) by {
        if crate::borrow::is_borrowed_spec(after, r) {
            let i = choose|i: int| 0 <= i < after.len() && (#[trigger] after[i]).overlaps_spec(r);
            assert(i < held.len());
            assert(held[i].overlaps_spec(r));
        }
        if crate::borrow::is_borrowed_spec(held, r) {
            let i = choose|i: int| 0 <= i < held.len() && (#[trigger] held[i]).overlaps_spec(r);
            assert(after[i].overlaps_spec(r));
        }
    }
}

/// A pointer moved forward fails with `PtrOverflow` exactly when the
/// distance in bytes, or the offset it would reach, does not fit `u32`.
pub proof fn lemma_add_overflow_iff(offset: u32, amt: u32, size: u32)
    ensures
        add_spec(offset, amt, size) is None <==> amt * size > u32::MAX || offset + amt * size
            > u32::MAX,
        add_spec(offset, amt, size) matches Some(o) ==> o == offset + amt * size,
{
}

/// A pointer at the highest offset cannot be moved forward by any number
/// of elements that take up space.
pub proof fn lemma_add_at_max_offset(amt: u32, size: u32)
    requires
        amt > 0,
        size > 0,
    ensures
        add_spec(u32::MAX, amt, size) is None,
{
    assert(amt * size > 0) by (nonlinear_arith)
        requires
            amt > 0,
            size > 0,
    ;
}

} // verus!
