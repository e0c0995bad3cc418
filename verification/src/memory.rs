use vstd::prelude::*;
use crate::error::GuestError;
use crate::pointer::{GuestPtr, Pointee};
use crate::region::Region;

verus! {

/// The outcome that checking an access of `len` bytes at guest offset `offset`
/// must have, for a guest buffer of `size` bytes mapped at host address `base`:
/// the host address of the first byte, or the first check that fails.
pub open spec fn validate_spec(base: usize, size: nat, offset: u32, align: usize, len: u32) -> Result<
    usize,
    GuestError,
> {
    let region = Region { start: offset, len };
    if base + offset + len > usize::MAX {
        Err(GuestError::PtrOverflow)
    } else if offset + len > size {
        Err(GuestError::PtrOutOfBounds(region))
    } else if (base + offset) % (align as int) != 0 {
        Err(GuestError::PtrNotAligned(region, align as u32))
    } else {
        Ok((base + offset) as usize)
    }
}

/// A handle on the linear memory of one guest.
///
/// The guest addresses its memory by 32-bit offsets; the host sees the same
/// bytes as a buffer mapped at some host address. An implementation reports
/// that address and the buffer's length, and gives access to single bytes.
pub trait GuestMemory {
    /// The host address at which the first guest byte is mapped.
    spec fn base_addr(&self) -> usize;

    /// The bytes of the guest buffer, by guest offset.
    spec fn contents(&self) -> Seq<u8>;

    /// Returns the host address of the buffer and its length in bytes,
    /// which fits the guest's 32-bit offsets.
    fn base(&self) -> (r: (usize, u32))
        ensures
            r.0 == self.base_addr(),
            r.1 == self.contents().len(),
    ;

    /// Returns the byte at guest offset `offset`.
    fn load(&self, offset: u32) -> (b: u8)
        requires
            offset < self.contents().len(),
        ensures
            b == self.contents()[offset as int],
    ;

    /// Replaces the byte at guest offset `offset`; the buffer is neither moved nor resized.
    fn store(&mut self, offset: u32, b: u8)
        requires
            offset < old(self).contents().len(),
        ensures
            final(self).contents() == old(self).contents().update(offset as int, b),
            final(self).base_addr() == old(self).base_addr(),
    ;

    /// Checks that the `len` bytes at guest offset `offset` lie inside the
    /// buffer and that their host address is a multiple of `align`, and
    /// returns that host address.
    fn validate_size_align(&self, offset: u32, align: usize, len: u32) -> (r: Result<usize, GuestError>)
        requires
            align > 0,
        ensures
            r == validate_spec(self.base_addr(), self.contents().len(), offset, align, len),
            self.contents().len() <= u32::MAX,
    {
        let (base_ptr, base_len) = self.base();
        validate(base_ptr, base_len, offset, align, len)
    }

    /// Makes a pointer into this memory from an offset; for slices and
    /// strings, from the pair of offset and length. Nothing is checked.
    fn ptr<T: ?Sized + Pointee>(&self, offset: T::Pointer) -> (p: GuestPtr<T>)
        ensures
            p.offset_spec() == offset,
    {
        GuestPtr::new(offset)
    }
}

/// Checks an access of `len` bytes at guest offset `offset` against a
/// buffer of `base_len` bytes that is mapped at host address `base_ptr`:
/// the bytes must lie inside the buffer, and their host address must be a
/// multiple of `align`. Returns that host address.
pub fn validate(base_ptr: usize, base_len: u32, offset: u32, align: usize, len: u32) -> (r: Result<
    usize,
    GuestError,
>)
    requires
        align > 0,
    ensures
        r == validate_spec(base_ptr, base_len as nat, offset, align, len),
{
    let region = Region { start: offset, len };
    let start = match base_ptr.checked_add(offset as usize) {
        Some(ptr) => ptr,
        None => { return Err(GuestError::PtrOverflow); },
    };
    let end = match start.checked_add(len as usize) {
        Some(ptr) => ptr,
        None => { return Err(GuestError::PtrOverflow); },
    };
    if end - base_ptr > base_len as usize {
        return Err(GuestError::PtrOutOfBounds(region));
    }
    if start % align != 0 {
        return Err(GuestError::PtrNotAligned(region, #[verifier::truncate] (align as u32)));
    }
    Ok(start)
}

/// The buffer `s` with the bytes `data` written over it from offset `at` on.
pub open spec fn splice(s: Seq<u8>, at: int, data: Seq<u8>) -> Seq<u8> {
    s.subrange(0, at) + data + s.subrange(at + data.len(), s.len() as int)
}

/// Writing over a buffer keeps its length, shows the written bytes at the
/// place they were written to, and leaves every other byte as it was.
pub proof fn lemma_splice(s: Seq<u8>, at: int, data: Seq<u8>)
    requires
        0 <= at,
        at + data.len() <= s.len(),
    ensures
        splice(s, at, data).len() == s.len(),
        splice(s, at, data).subrange(at, at + data.len()) == data,
        forall|i: int| 0 <= i < at ==> splice(s, at, data)[i] == s[i],
        forall|i: int| at + data.len() <= i < s.len() ==> splice(s, at, data)[i] == s[i],
{
    assert(splice(s, at, data).subrange(at, at + data.len()) =~= data);
}

/// Copies `len` bytes out of the guest buffer, from offset `offset` on.
pub fn read_bytes<M: GuestMemory>(mem: &M, offset: u32, len: u32) -> (v: Vec<u8>)
    requires
        offset + len <= mem.contents().len(),
    ensures
        v@ == mem.contents().subrange(offset as int, offset + len),
{
    let _ = mem.base();
    let mut v: Vec<u8> = Vec::new();
    let mut i: u32 = 0;
    while i < len
        invariant
            i <= len,
            offset + len <= mem.contents().len() <= u32::MAX,
            v@ == mem.contents().subrange(offset as int, offset + i),
        decreases len - i,
    {
        let b = mem.load(offset + i);
        v.push(b);
        i = i + 1;
        assert(v@ =~= mem.contents().subrange(offset as int, offset + i));
    }
    v
}

/// Copies `data` into the guest buffer, from offset `offset` on.
pub fn write_bytes<M: GuestMemory>(mem: &mut M, offset: u32, data: &Vec<u8>)
    requires
        offset + data.len() <= old(mem).contents().len(),
    ensures
        final(mem).contents() == splice(old(mem).contents(), offset as int, data@),
        final(mem).base_addr() == old(mem).base_addr(),
{
    let n = data.len();
    let mut i: usize = 0;
    let ghost before = mem.contents();
    let _ = mem.base();
    assert(mem.contents() =~= splice(before, offset as int, data@.subrange(0, 0)));
    while i < n
        invariant
            i <= n,
            n == data.len(),
            offset + n <= before.len() <= u32::MAX,
            mem.contents().len() == before.len(),
            mem.contents() == splice(before, offset as int, data@.subrange(0, i as int)),
            mem.base_addr() == old(mem).base_addr(),
        decreases n - i,
    {
        mem.store(offset + i as u32, data[i]);
        i = i + 1;
        assert(mem.contents() =~= splice(before, offset as int, data@.subrange(0, i as int)));
    }
    assert(data@.subrange(0, n as int) =~= data@);
}

/// An access that ends inside the buffer, at a host address that is no
/// multiple of the alignment, is refused as not aligned.
pub proof fn lemma_validate_unaligned(base: usize, size: nat, offset: u32, align: usize, len: u32)
    requires
        base + size <= usize::MAX,
        offset + len <= size,
        align > 0,
        (base + offset) % (align as int) != 0,
    ensures
        validate_spec(base, size, offset, align, len) == Err::<usize, GuestError>(
            GuestError::PtrNotAligned(Region { start: offset, len }, align as u32),
        ),
{
}

/// An access at the highest guest offset is refused as an overflow
/// wherever the host address of its end does not fit the host's address
/// space: on a host with 32-bit addresses, that is every access of at
/// least one byte, and every access to a buffer that is not mapped at
/// address zero.
pub proof fn lemma_validate_at_max_offset(base: usize, size: nat, align: usize, len: u32)
    requires
        base + len > usize::MAX - u32::MAX,
    ensures
        validate_spec(base, size, u32::MAX, align, len) == Err::<usize, GuestError>(
            GuestError::PtrOverflow,
        ),
{
}

/// When the whole buffer lies inside the host address space, an access is
/// accepted exactly when it ends inside the buffer and starts at a multiple
/// of the alignment.
pub proof fn lemma_validate_ok_iff(base: usize, size: nat, offset: u32, align: usize, len: u32)
    requires
        base + size <= usize::MAX,
        align > 0,
    ensures
        validate_spec(base, size, offset, align, len) is Ok <==> offset + len <= size && (base
            + offset) % (align as int) == 0,
        validate_spec(base, size, offset, align, len) is Ok ==> validate_spec(
            base,
            size,
            offset,
            align,
            len,
        ) == Ok::<usize, GuestError>((base + offset) as usize),
{
}

/// The number of bytes in a `HostMemory`, which is also the alignment of
/// the address that `HostMemory::new` reports.
pub const HOST_MEMORY_SIZE: u32 = 4096;

/// A guest buffer of `HOST_MEMORY_SIZE` bytes that the host holds in its own
/// memory, together with the host address that it stands for.
pub struct HostMemory {
    base: usize,
    buffer: [u8; 4096],
}

impl HostMemory {
    /// A buffer of zero bytes at an address that is a multiple of
    /// `HOST_MEMORY_SIZE`.
    pub fn new() -> (m: HostMemory)
        ensures
            m.base_addr() == HOST_MEMORY_SIZE,
            m.contents() == Seq::new(HOST_MEMORY_SIZE as nat, |i: int| 0u8),
    {
        HostMemory::at(HOST_MEMORY_SIZE as usize)
    }

    /// A buffer of zero bytes that reports the host address `base`.
    pub fn at(base: usize) -> (m: HostMemory)
        ensures
            m.base_addr() == base,
            m.contents() == Seq::new(HOST_MEMORY_SIZE as nat, |i: int| 0u8),
    {
        let m = HostMemory { base, buffer: [0u8; 4096] };
        assert(m.buffer@ =~= Seq::new(HOST_MEMORY_SIZE as nat, |i: int| 0u8));
        m
    }
}

impl GuestMemory for HostMemory {
    closed spec fn base_addr(&self) -> usize {
        self.base
    }

    closed spec fn contents(&self) -> Seq<u8> {
        self.buffer@
    }

    fn base(&self) -> (r: (usize, u32)) {
        (self.base, HOST_MEMORY_SIZE)
    }

    fn load(&self, offset: u32) -> (b: u8) {
        self.buffer[offset as usize]
    }

    fn store(&mut self, offset: u32, b: u8) {
        self.buffer[offset as usize] = b;
    }
}

/// A guest buffer of any length up to `u32::MAX` bytes that the host
/// holds in a vector, together with the host address that it stands for.
pub struct BufferMemory {
    base: usize,
    buffer: Vec<u8>,
}

impl BufferMemory {
    #[verifier::type_invariant]
    spec fn fits(self) -> bool {
        self.buffer@.len() <= u32::MAX
    }

    /// The buffer with the bytes `bytes` that reports the host address
    /// `base`; `None` where there are more bytes than a guest can address.
    pub fn new(base: usize, bytes: Vec<u8>) -> (r: Option<BufferMemory>)
        ensures
            match r {
                Some(m) => bytes@.len() <= u32::MAX && m.base_addr() == base && m.contents()
                    == bytes@,
                None => bytes@.len() > u32::MAX,
            },
    {
        if bytes.len() > u32::MAX as usize {
            None
        } else {
            Some(BufferMemory { base, buffer: bytes })
        }
    }

    /// Gives the bytes of the buffer back.
    pub fn into_bytes(self) -> (bytes: Vec<u8>)
        ensures
            bytes@ == self.contents(),
    {
        self.buffer
    }
}

impl GuestMemory for BufferMemory {
    closed spec fn base_addr(&self) -> usize {
        self.base
    }

    closed spec fn contents(&self) -> Seq<u8> {
        self.buffer@
    }

    fn base(&self) -> (r: (usize, u32)) {
        proof {
            use_type_invariant(self);
        }
        (self.base, self.buffer.len() as u32)
    }

    fn load(&self, offset: u32) -> (b: u8) {
        self.buffer[offset as usize]
    }

    fn store(&mut self, offset: u32, b: u8) {
        proof {
            use_type_invariant(&*self);
        }
        self.buffer[offset as usize] = b;
    }
}

} // verus!
