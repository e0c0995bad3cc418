use vstd::prelude::*;
use crate::error::GuestError;
use crate::guest_type::GuestType;
use crate::pointer::GuestPtr;
use crate::region::{Region, lemma_overlap_is_shared_byte};

verus! {

/// Whether `r` overlaps one of the regions in `held`.
pub open spec fn is_borrowed_spec(held: Seq<Region>, r: Region) -> bool {
    exists|i: int| 0 <= i < held.len() && (#[trigger] held[i]).overlaps_spec(r)
}

/// The regions held after an attempt to borrow `r` while `held` are held:
/// `None` where `r` overlaps one of them, else `held` with `r` at its end.
pub open spec fn borrow_spec(held: Seq<Region>, r: Region) -> Option<Seq<Region>> {
    if is_borrowed_spec(held, r) {
        None
    } else {
        Some(held.push(r))
    }
}

/// No two of the regions overlap.
pub open spec fn pairwise_disjoint(held: Seq<Region>) -> bool {
    forall|i: int, j: int|
        0 <= i < j < held.len() ==> !(#[trigger] held[i]).overlaps_spec(#[trigger] held[j])
}

/// The regions of guest memory that the host holds raw references into.
///
/// Regions are only ever added, and only when they overlap none of those
/// already held, so no two regions of a ledger overlap.
#[derive(Debug)]
pub struct GuestBorrows {
    borrows: Vec<Region>,
}

impl View for GuestBorrows {
    type V = Seq<Region>;

    closed spec fn view(&self) -> Seq<Region> {
        self.borrows@
    }
}

impl GuestBorrows {
    /// No two of the held regions overlap.
    pub open spec fn wf(&self) -> bool {
        pairwise_disjoint(self@)
    }

    /// A ledger that holds no region.
    pub fn new() -> (b: GuestBorrows)
        ensures
            b@ == Seq::<Region>::empty(),
            b.wf(),
    {
        GuestBorrows { borrows: Vec::new() }
    }

    /// Decides whether `r` overlaps a region that is held.
    pub fn is_borrowed(&self, r: Region) -> (b: bool)
        ensures
            b == is_borrowed_spec(self@, r),
    {
        let mut i: usize = 0;
        while i < self.borrows.len()
            invariant
                i <= self.borrows.len(),
                forall|k: int| 0 <= k < i ==> !(#[trigger] self.borrows@[k]).overlaps_spec(r),
            decreases self.borrows.len() - i,
        {
            if self.borrows[i].overlaps(r) {
                return true;
            }
            i = i + 1;
        }
        false
    }

    /// Records `r` as held, unless it overlaps a region that is held already:
    /// then the ledger stays as it was and the error names `r`.
    pub fn borrow(&mut self, r: Region) -> (res: Result<(), GuestError>)
        ensures
            res == (match borrow_spec(old(self)@, r) {
                Some(_) => Ok::<(), GuestError>(()),
                None => Err::<(), GuestError>(GuestError::PtrBorrowed(r)),
            }),
            final(self)@ == (match borrow_spec(old(self)@, r) {
                Some(held) => held,
                None => old(self)@,
            }),
            old(self).wf() ==> final(self).wf(),
    {
        if self.is_borrowed(r) {
            Err(GuestError::PtrBorrowed(r))
        } else {
            self.borrows.push(r);
            proof {
                if old(self).wf() {
                    lemma_borrow_keeps_disjoint(old(self)@, r);
                }
            }
            Ok(())
        }
    }

    /// Records the bytes of the value that `p` points to as held.
    pub fn borrow_pointee<T: GuestType>(&mut self, p: &GuestPtr<T>) -> (res: Result<(), GuestError>)
        ensures
            res == (match borrow_spec(old(self)@, pointee_region::<T>(p.offset_spec())) {
                Some(_) => Ok::<(), GuestError>(()),
                None => Err::<(), GuestError>(
                    GuestError::PtrBorrowed(pointee_region::<T>(p.offset_spec())),
                ),
            }),
            final(self)@ == (match borrow_spec(old(self)@, pointee_region::<T>(p.offset_spec())) {
                Some(held) => held,
                None => old(self)@,
            }),
            old(self).wf() ==> final(self).wf(),
    {
        self.borrow(Region { start: p.offset(), len: T::guest_size() })
    }
}

/// The region that a value of type `T` at guest offset `offset` takes.
pub open spec fn pointee_region<T: GuestType>(offset: u32) -> Region {
    Region { start: offset, len: T::size_spec() }
}

/// A borrow that is granted leaves the ledger without overlapping regions.
pub proof fn lemma_borrow_keeps_disjoint(held: Seq<Region>, r: Region)
    requires
        pairwise_disjoint(held),
        !is_borrowed_spec(held, r),
    ensures
        pairwise_disjoint(held.push(r)),
{
    let after = held.push(r);
    assert forall|i: int, j: int| 0 <= i < j < after.len() implies !(#[trigger] after[i]).overlaps_spec(
        #[trigger] after[j],
    ) by {
        if j < held.len() {
            assert(!held[i].overlaps_spec(held[j]));
        } else {
            assert(!held[i].overlaps_spec(r));
        }
    }
}

/// An empty ledger grants the first of two borrows, and then the second
/// exactly when the two regions share no byte.
pub proof fn lemma_two_borrows(r1: Region, r2: Region)
    ensures
        borrow_spec(Seq::empty(), r1) == Some(seq![r1]),
        borrow_spec(seq![r1], r2) is Some <==> !r1.overlaps_spec(r2),
        borrow_spec(seq![r1], r2) is Some <==> forall|addr: int|
            !(r1.contains(addr) && r2.contains(addr)),
{
    assert(Seq::<Region>::empty().push(r1) =~= seq![r1]);
    lemma_overlap_is_shared_byte(r1, r2);
    if r1.overlaps_spec(r2) {
        assert(seq![r1][0].overlaps_spec(r2));
    }
}

/// A region that holds a byte cannot be borrowed while it is held; an empty
/// region can always be borrowed.
pub proof fn lemma_borrow_again(held: Seq<Region>, r: Region)
    ensures
        r.len > 0 ==> borrow_spec(held.push(r), r) is None,
        r.len == 0 ==> borrow_spec(held, r) is Some,
{
    if r.len > 0 {
        assert(held.push(r)[held.len() as int].overlaps_spec(r));
    }
}

} // verus!
