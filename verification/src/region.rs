use vstd::prelude::*;

verus! {

/// A half-open range of guest addresses: the `len` bytes from `start` on.
#[derive(Debug, Copy, Clone, PartialEq, Eq, Structural)]
pub struct Region {
    pub start: u32,
    pub len: u32,
}

impl Region {
    /// The first address past the region. It may exceed `u32::MAX`, so it is an `int`.
    pub open spec fn end(self) -> int {
        self.start + self.len
    }

    /// Whether the byte at `addr` lies inside the region.
    pub open spec fn contains(self, addr: int) -> bool {
        self.start <= addr < self.end()
    }

    /// Two regions overlap when both hold at least one byte and each starts
    /// before the other ends. An empty region overlaps nothing.
    pub open spec fn overlaps_spec(&self, rhs: Region) -> bool {
        &&& self.len > 0
        &&& rhs.len > 0
        &&& self.start < rhs.end()
        &&& rhs.start < self.end()
    }

    pub fn new(start: u32, len: u32) -> (r: Region)
        ensures
            r == (Region { start, len }),
    {
        Region { start, len }
    }

    /// Decides whether the two regions share a byte.
    #[verifier::when_used_as_spec(overlaps_spec)]
    pub fn overlaps(&self, rhs: Region) -> (b: bool)
        ensures
            b == self.overlaps_spec(rhs),
    {
        if self.len == 0 || rhs.len == 0 {
            return false;
        }
        let self_start: u64 = self.start as u64;
        let self_end: u64 = self_start + self.len as u64;
        let rhs_start: u64 = rhs.start as u64;
        let rhs_end: u64 = rhs_start + rhs.len as u64;
        self_start < rhs_end && rhs_start < self_end
    }
}

/// Overlap is the same as sharing a byte: two regions overlap exactly when
/// some address lies inside both.
pub proof fn lemma_overlap_is_shared_byte(a: Region, b: Region)
    ensures
        a.overlaps_spec(b) <==> exists|addr: int| a.contains(addr) && b.contains(addr),
{
    if a.overlaps_spec(b) {
        let addr: int = if a.start >= b.start {
            a.start as int
        } else {
            b.start as int
        };
        assert(a.contains(addr) && b.contains(addr));
    }
}

/// Overlap does not depend on the order of the two regions.
pub proof fn lemma_overlap_symmetric(a: Region, b: Region)
    ensures
        a.overlaps_spec(b) == b.overlaps_spec(a),
{
}

/// A region that holds at least one byte overlaps itself; an empty one
/// overlaps nothing, itself included.
pub proof fn lemma_overlap_self(a: Region, b: Region)
    ensures
        a.len > 0 ==> a.overlaps_spec(a),
        a.len == 0 ==> !a.overlaps_spec(b) && !b.overlaps_spec(a),
{
}

} // verus!
