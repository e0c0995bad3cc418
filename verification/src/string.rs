use vstd::prelude::*;
use vstd::string::StringSliceAdditionalSpecFns;
use vstd::utf8::{encode_utf8, valid_utf8};
use crate::error::GuestError;
use crate::memory::{GuestMemory, validate_spec, read_bytes};
use crate::pointer::{GuestPtr, str_from_utf8};

verus! {

/// A string of the guest: the place of its bytes in guest memory, given by
/// offset and length. Whether the bytes are there, and whether they are
/// UTF-8, is found out when the string is read.
pub struct GuestString {
    ptr: GuestPtr<str>,
}

/// The bytes of a guest string, copied out of guest memory.
pub struct GuestStringRef {
    bytes: Vec<u8>,
}

impl View for GuestStringRef {
    type V = Seq<u8>;

    closed spec fn view(&self) -> Seq<u8> {
        self.bytes@
    }
}

/// What reading the `len` bytes of a string at `start` must return: the
/// error of the bounds check, or else the bytes.
pub open spec fn string_bytes_spec(base: usize, contents: Seq<u8>, start: u32, len: u32) -> Result<
    Seq<u8>,
    GuestError,
> {
    match validate_spec(base, contents.len(), start, 1, len) {
        Err(e) => Err(e),
        Ok(_) => Ok(contents.subrange(start as int, start + len)),
    }
}

impl GuestString {
    /// The pair of offset and length in bytes.
    pub closed spec fn span(&self) -> (u32, u32) {
        self.ptr.offset_spec()
    }

    /// The guest string that `ptr` points to.
    pub fn new(ptr: GuestPtr<str>) -> (s: GuestString)
        ensures
            s.span() == ptr.offset_spec(),
    {
        GuestString { ptr }
    }

    /// Copies the bytes of the string out of `mem`.
    pub fn as_ref<M: GuestMemory>(&self, mem: &M) -> (r: Result<GuestStringRef, GuestError>)
        ensures
            match string_bytes_spec(mem.base_addr(), mem.contents(), self.span().0, self.span().1) {
                Err(e) => r == Err::<GuestStringRef, GuestError>(e),
                Ok(bytes) => r matches Ok(s) && s@ == bytes,
            },
    {
        let start = self.ptr.offset_base();
        let len = self.ptr.len();
        match mem.validate_size_align(start, 1, len) {
            Err(e) => Err(e),
            Ok(_) => Ok(GuestStringRef { bytes: read_bytes(mem, start, len) }),
        }
    }

    /// Reads the string out of `mem` as a host string.
    pub fn to_string<M: GuestMemory>(&self, mem: &M) -> (r: Result<String, GuestError>)
        ensures
            match string_bytes_spec(mem.base_addr(), mem.contents(), self.span().0, self.span().1) {
                Err(e) => r == Err::<String, GuestError>(e),
                Ok(bytes) => if valid_utf8(bytes) {
                    r matches Ok(s) && encode_utf8(s@) == bytes
                } else {
                    r == Err::<String, GuestError>(GuestError::InvalidUtf8)
                },
            },
    {
        let bytes = match self.as_ref(mem) {
            Ok(b) => b,
            Err(e) => { return Err(e); },
        };
        match bytes.as_str() {
            Ok(s) => Ok(s.to_owned()),
            Err(e) => Err(e),
        }
    }
}

impl GuestStringRef {
    /// The bytes as a string slice, where they are valid UTF-8.
    pub fn as_str(&self) -> (r: Result<&str, GuestError>)
        ensures
            r is Ok <==> valid_utf8(self@),
            r matches Ok(s) ==> s.spec_bytes() == self@,
            r matches Err(e) ==> e == GuestError::InvalidUtf8,
    {
        match str_from_utf8(self.bytes.as_slice()) {
            Some(s) => Ok(s),
            None => Err(GuestError::InvalidUtf8),
        }
    }
}

} // verus!
