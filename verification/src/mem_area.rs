use vstd::prelude::*;
use crate::memory::{HostMemory, HOST_MEMORY_SIZE};

verus! {

/// An area of guest memory: the `len` bytes from `ptr` on.
#[derive(Debug, Copy, Clone, PartialEq, Eq, PartialOrd, Ord, Structural)]
pub struct MemArea {
    pub ptr: u32,
    pub len: u32,
}

/// The order of areas in a set: by where they start, and among areas that
/// start at the same place by their length.
pub open spec fn area_lt(a: MemArea, b: MemArea) -> bool {
    a.ptr < b.ptr || (a.ptr == b.ptr && a.len < b.len)
}

/// Each area comes before every later one in the order of areas.
pub open spec fn strictly_sorted(areas: Seq<MemArea>) -> bool {
    forall|i: int, j: int| 0 <= i < j < areas.len() ==> area_lt(areas[i], areas[j])
}

/// Whether the byte at `addr` lies in one of the areas.
pub open spec fn covers(areas: Seq<MemArea>, addr: int) -> bool {
    exists|i: int| 0 <= i < areas.len() && (#[trigger] areas[i]).holds(addr)
}

/// Each area ends inside the address space, and at or before the start
/// of the area after it.
pub open spec fn chained(areas: Seq<MemArea>) -> bool {
    &&& forall|i: int| 0 <= i < areas.len() ==> (#[trigger] areas[i]).end() <= u32::MAX
    &&& forall|i: int, j: int|
        0 <= i < j < areas.len() ==> (#[trigger] areas[i]).end() <= (#[trigger] areas[j]).ptr
}

/// A set of areas, kept in the order of areas.
#[derive(Debug)]
pub struct MemSet {
    areas: Vec<MemArea>,
}

impl View for MemSet {
    type V = Seq<MemArea>;

    closed spec fn view(&self) -> Seq<MemArea> {
        self.areas@
    }
}

impl MemSet {
    /// The areas are in order, and none occurs twice.
    pub open spec fn wf(&self) -> bool {
        strictly_sorted(self@)
    }

    /// The set without areas.
    pub fn new() -> (s: MemSet)
        ensures
            s@ == Seq::<MemArea>::empty(),
            s.wf(),
    {
        MemSet { areas: Vec::new() }
    }

    /// Returns the number of areas.
    pub fn len(&self) -> (n: usize)
        ensures
            n == self@.len(),
    {
        self.areas.len()
    }

    /// Returns the area at position `i` in the order of areas.
    pub fn get(&self, i: usize) -> (a: MemArea)
        requires
            i < self@.len(),
        ensures
            a == self@[i as int],
    {
        self.areas[i]
    }

    /// Returns the areas in order.
    pub fn to_vec(&self) -> (v: Vec<MemArea>)
        ensures
            v@ == self@,
    {
        let mut v: Vec<MemArea> = Vec::new();
        let mut i: usize = 0;
        while i < self.areas.len()
            invariant
                i <= self.areas@.len(),
                v@ == self.areas@.subrange(0, i as int),
            decreases self.areas@.len() - i,
        {
            v.push(self.areas[i]);
            i = i + 1;
            assert(v@ =~= self.areas@.subrange(0, i as int));
        }
        assert(self.areas@.subrange(0, self.areas@.len() as int) =~= self.areas@);
        v
    }

    /// Adds an area at its place in the order, unless the set holds it
    /// already. Returns whether the area was added.
    pub fn insert(&mut self, area: MemArea) -> (added: bool)
        requires
            old(self).wf(),
        ensures
            final(self).wf(),
            added == !old(self)@.contains(area),
            forall|a: MemArea|
                final(self)@.contains(a) <==> (old(self)@.contains(a) || a == area),
            final(self)@.len() == old(self)@.len() + (if added {
                1int
            } else {
                0int
            }),
    {
        let mut i: usize = 0;
        while i < self.areas.len() && (self.areas[i].ptr < area.ptr || (self.areas[i].ptr
            == area.ptr && self.areas[i].len < area.len))
            invariant
                i <= self.areas@.len(),
                self.areas@ == old(self).areas@,
                strictly_sorted(self.areas@),
                forall|k: int| 0 <= k < i ==> area_lt(#[trigger] self.areas@[k], area),
            decreases self.areas@.len() - i,
        {
            i = i + 1;
        }
        if i < self.areas.len() && self.areas[i].ptr == area.ptr && self.areas[i].len == area.len {
            assert(old(self)@[i as int] == area);
            return false;
        }
        proof {
            let before = self.areas@;
            assert(!before.contains(area)) by {
                if before.contains(area) {
                    let k = choose|k: int| 0 <= k < before.len() && before[k] == area;
                    if k >= i {
                        assert(i < before.len());
                        assert(area_lt(area, before[i as int]));
                        if k > i {
                            assert(area_lt(before[i as int], before[k]));
                        }
                    }
                }
            }
        }
        let ghost before = self.areas@;
        self.areas.insert(i, area);
        proof {
            let after = self.areas@;
            assert(after == before.insert(i as int, area));
            assert forall|a: MemArea| after.contains(a) <==> (before.contains(a) || a == area) by {
                if after.contains(a) {
                    let k = choose|k: int| 0 <= k < after.len() && after[k] == a;
                    if k < i {
                        assert(before[k] == a);
                    } else if k > i {
                        assert(before[k - 1] == a);
                    }
                }
                if before.contains(a) {
                    let k = choose|k: int| 0 <= k < before.len() && before[k] == a;
                    if k < i {
                        assert(after[k] == a);
                    } else {
                        assert(after[k + 1] == a);
                    }
                }
                if a == area {
                    assert(after[i as int] == a);
                }
            }
            assert forall|x: int, y: int| 0 <= x < y < after.len() implies area_lt(
                after[x],
                after[y],
            ) by {
                if y < i {
                    assert(area_lt(before[x], before[y]));
                } else if y == i {
                    assert(area_lt(before[x], area));
                } else if x < i {
                    assert(area_lt(before[x], before[y - 1]));
                } else if x == i {
                    assert(area_lt(area, before[i as int]));
                    if y - 1 > i {
                        assert(area_lt(before[i as int], before[y - 1]));
                    }
                } else {
                    assert(area_lt(before[x - 1], before[y - 1]));
                }
            }
        }
        true
    }
}

impl MemArea {
    /// The first address past the area.
    pub open spec fn end(self) -> int {
        self.ptr + self.len
    }

    /// Whether the byte at `addr` lies in the area.
    pub open spec fn holds(self, addr: int) -> bool {
        self.ptr <= addr < self.end()
    }

    /// Whether some byte lies in both areas.
    pub open spec fn overlapping_spec(&self, b: MemArea) -> bool {
        exists|addr: int| self.holds(addr) && b.holds(addr)
    }

    /// Tests whether some byte lies in both areas, by looking at every
    /// byte of each. Both areas must end inside the address space.
    pub fn overlapping(&self, b: MemArea) -> (r: bool)
        requires
            self.end() <= u32::MAX,
            b.end() <= u32::MAX,
        ensures
            r == self.overlapping_spec(b),
    {
        let a_start = self.ptr;
        let a_end = self.ptr + self.len;
        let b_start = b.ptr;
        let b_end = b.ptr + b.len;
        let mut b_elem = b_start;
        while b_elem < b_end
            invariant
                b_start <= b_elem <= b_end || b_end < b_start,
                a_start == self.ptr,
                a_end == self.end(),
                b_start == b.ptr,
                b_end == b.end(),
                forall|x: int| b_start <= x < b_elem ==> !(self.holds(x) && b.holds(x)),
            decreases b_end - b_elem,
        {
            if a_start <= b_elem && b_elem < a_end {
                assert(self.holds(b_elem as int) && b.holds(b_elem as int));
                return true;
            }
            b_elem = b_elem + 1;
        }
        let mut a_elem = a_start;
        while a_elem < a_end
            invariant
                a_start <= a_elem <= a_end || a_end < a_start,
                a_start == self.ptr,
                a_end == self.end(),
                b_start == b.ptr,
                b_end == b.end(),
                forall|x: int| !(self.holds(x) && b.holds(x)),
            decreases a_end - a_elem,
        {
            if b_start <= a_elem && a_elem < b_end {
                assert(self.holds(a_elem as int) && b.holds(a_elem as int));
                return true;
            }
            a_elem = a_elem + 1;
        }
        false
    }

    /// Whether no two different areas of the set share a byte.
    pub open spec fn non_overlapping_set_spec(areas: Seq<MemArea>) -> bool {
        forall|i: int, j: int|
            0 <= i < areas.len() && 0 <= j < areas.len() && i != j ==> !(#[trigger] areas[i]).overlapping_spec(
                #[trigger] areas[j],
            )
    }

    /// Tests whether no two different areas of the set share a byte. All
    /// areas must end inside the address space.
    pub fn non_overlapping_set(areas: &MemSet) -> (r: bool)
        requires
            forall|i: int| 0 <= i < areas@.len() ==> (#[trigger] areas@[i]).end() <= u32::MAX,
        ensures
            r == Self::non_overlapping_set_spec(areas@),
    {
        let n = areas.len();
        let mut i: usize = 0;
        while i < n
            invariant
                i <= n,
                n == areas@.len(),
                forall|k: int| 0 <= k < areas@.len() ==> (#[trigger] areas@[k]).end() <= u32::MAX,
                forall|x: int, y: int|
                    0 <= x < i && 0 <= y < n && x != y ==> !(#[trigger] areas@[x]).overlapping_spec(
                        #[trigger] areas@[y],
                    ),
            decreases n - i,
        {
            let a = areas.get(i);
            let mut j: usize = 0;
            while j < n
                invariant
                    j <= n,
                    i < n,
                    n == areas@.len(),
                    a == areas@[i as int],
                    forall|k: int|
                        0 <= k < areas@.len() ==> (#[trigger] areas@[k]).end() <= u32::MAX,
                    forall|y: int|
                        0 <= y < j && y != i ==> !a.overlapping_spec(#[trigger] areas@[y]),
                decreases n - j,
            {
                if j != i {
                    let b = areas.get(j);
                    if a.overlapping(b) {
                        return false;
                    }
                }
                j = j + 1;
            }
            i = i + 1;
        }
        true
    }

    /// Returns the areas of `len` bytes that start at this area's start or
    /// up to `len - self.len - 1` bytes behind it, in order: none where
    /// `len` is not above this area's length.
    pub fn inside(&self, len: u32) -> (v: Vec<MemArea>)
        requires
            len > self.len ==> self.ptr + (len - self.len) - 1 <= u32::MAX,
        ensures
            v@ == inside_spec(*self, len),
            v@.len() == (if len > self.len {
                len - self.len
            } else {
                0
            }),
            forall|i: int|
                0 <= i < v@.len() ==> (#[trigger] v@[i]) == (MemArea {
                    ptr: (self.ptr + i) as u32,
                    len,
                }),
    {
        let mut v: Vec<MemArea> = Vec::new();
        if len <= self.len {
            assert(v@ =~= inside_spec(*self, len));
            return v;
        }
        let end: u32 = len - self.len;
        let start = self.ptr;
        let mut i: u32 = 0;
        while i < end
            invariant
                i <= end,
                start == self.ptr,
                start + end - 1 <= u32::MAX,
                v@.len() == i,
                forall|k: int|
                    0 <= k < v@.len() ==> (#[trigger] v@[k]) == (MemArea {
                        ptr: (start + k) as u32,
                        len,
                    }),
            decreases end - i,
        {
            v.push(MemArea { ptr: start + i, len });
            i = i + 1;
        }
        assert(v@ =~= inside_spec(*self, len));
        v
    }

    /// The area that a check of the access layer is made on for the
    /// number `p`: `align` bytes at the multiple of `align` at or below `p`,
    /// folded into the buffer; `None` where that area does not end before
    /// the last byte of the buffer.
    pub open spec fn for_seed_spec(p: u32, align: u32) -> Option<MemArea> {
        let p_aligned = p - (p % align);
        let ptr = p_aligned % (HOST_MEMORY_SIZE as int);
        if ptr + align < HOST_MEMORY_SIZE {
            Some(MemArea { ptr: ptr as u32, len: align })
        } else {
            None
        }
    }

    /// Picks the area for the number `p`.
    pub fn for_seed(p: u32, align: u32) -> (r: Option<MemArea>)
        requires
            align > 0,
        ensures
            r == Self::for_seed_spec(p, align),
    {
        assert(p % align <= p) by (nonlinear_arith)
            requires
                align > 0,
        ;
        let p_aligned = p - (p % align);
        let ptr = p_aligned % HOST_MEMORY_SIZE;
        if align < HOST_MEMORY_SIZE && ptr + align < HOST_MEMORY_SIZE {
            Some(MemArea { ptr, len: align })
        } else {
            None
        }
    }
}

impl HostMemory {
    /// Returns the parts of memory that the areas in `regions` leave
    /// free, in order: what lies between them, and what lies between the
    /// last of them and the end of the buffer.
    pub fn invert(regions: &MemSet) -> (out: MemSet)
        requires
            chained(regions@),
        ensures
            out@ == invert_spec(regions@),
            out.wf(),
            is_inverse(regions@, out@),
    {
        let n = regions.len();
        let mut out: Vec<MemArea> = Vec::new();
        let mut start: u32 = 0;
        let mut i: usize = 0;
        while i < n
            invariant
                i <= n,
                n == regions@.len(),
                chained(regions@),
                start == (if i == 0 {
                    0
                } else {
                    regions@[i - 1].end()
                }),
                out@ == gaps(regions@, i as int),
                strictly_sorted(out@),
                chained(out@),
                forall|k: int| 0 <= k < out@.len() ==> (#[trigger] out@[k]).len > 0,
                forall|k: int| 0 <= k < out@.len() ==> (#[trigger] out@[k]).end() <= start,
                forall|addr: int|
                    covers(out@, addr) <==> 0 <= addr < start && !covers(
                        regions@.subrange(0, i as int),
                        addr,
                    ),
            decreases n - i,
        {
            let r = regions.get(i);
            proof {
                if i > 0 {
                    assert(regions@[i - 1].end() <= regions@[i as int].ptr);
                }
            }
            let len = r.ptr - start;
            let ghost before = out@;
            let ghost seen = regions@.subrange(0, i as int);
            if len > 0 {
                let gap = MemArea { ptr: start, len };
                out.push(gap);
                proof {
                    assert forall|x: int, y: int| 0 <= x < y < out@.len() implies area_lt(
                        out@[x],
                        out@[y],
                    ) by {
                        if y < before.len() {
                            assert(area_lt(before[x], before[y]));
                        } else {
                            assert(before[x].end() <= start);
                            assert(before[x].len > 0);
                        }
                    }
                    assert forall|x: int, y: int| 0 <= x < y < out@.len() implies (
                    #[trigger] out@[x]).end() <= (#[trigger] out@[y]).ptr by {
                        if y < before.len() {
                            assert(before[x].end() <= before[y].ptr);
                        } else {
                            assert(before[x].end() <= start);
                        }
                    }
                }
            }
            let ghost old_start = start;
            start = r.ptr + r.len;
            i = i + 1;
            proof {
                let now = regions@.subrange(0, i as int);
                assert forall|addr: int| covers(out@, addr) <==> 0 <= addr < start && !covers(
                    now,
                    addr,
                ) by {
                    // what the regions seen before cover, the regions seen now cover
                    if covers(seen, addr) {
                        let k = choose|k: int| 0 <= k < seen.len() && (#[trigger] seen[k]).holds(addr);
                        assert(now[k].holds(addr));
                        assert(regions@[k].end() <= r.ptr);
                    }
                    if covers(now, addr) {
                        let k = choose|k: int| 0 <= k < now.len() && (#[trigger] now[k]).holds(addr);
                        if k < seen.len() {
                            assert(seen[k].holds(addr));
                        } else {
                            assert(now[k] == r);
                        }
                    }
                    if r.holds(addr) {
                        assert(now[i - 1].holds(addr));
                    }
                    if covers(before, addr) {
                        let k = choose|k: int|
                            0 <= k < before.len() && (#[trigger] before[k]).holds(addr);
                        assert(out@[k].holds(addr));
                        assert(before[k].end() <= old_start);
                    }
                    if covers(out@, addr) {
                        let k = choose|k: int| 0 <= k < out@.len() && (#[trigger] out@[k]).holds(addr);
                        if k < before.len() {
                            assert(before[k].holds(addr));
                        }
                    }
                    if len > 0 && old_start <= addr < r.ptr {
                        assert(out@[out@.len() - 1].holds(addr));
                    }
                }
            }
        }
        assert(regions@.subrange(0, n as int) =~= regions@);
        if start < HOST_MEMORY_SIZE {
            let ghost before = out@;
            let rest = MemArea { ptr: start, len: HOST_MEMORY_SIZE - start };
            out.push(rest);
            proof {
                assert forall|x: int, y: int| 0 <= x < y < out@.len() implies area_lt(
                    out@[x],
                    out@[y],
                ) by {
                    if y < before.len() {
                        assert(area_lt(before[x], before[y]));
                    } else {
                        assert(before[x].end() <= start);
                        assert(before[x].len > 0);
                    }
                }
                assert forall|x: int, y: int| 0 <= x < y < out@.len() implies (
                #[trigger] out@[x]).end() <= (#[trigger] out@[y]).ptr by {
                    if y < before.len() {
                        assert(before[x].end() <= before[y].ptr);
                    } else {
                        assert(before[x].end() <= start);
                    }
                }
                assert forall|addr: int| covers(out@, addr) <==> 0 <= addr < invert_limit(
                    regions@,
                ) && !covers(regions@, addr) by {
                    if covers(regions@, addr) {
                        let k = choose|k: int|
                            0 <= k < regions@.len() && (#[trigger] regions@[k]).holds(addr);
                        assert(regions@[k].end() <= regions@[n - 1].end());
                    }
                    if covers(before, addr) {
                        let k = choose|k: int|
                            0 <= k < before.len() && (#[trigger] before[k]).holds(addr);
                        assert(out@[k].holds(addr));
                    }
                    if covers(out@, addr) {
                        let k = choose|k: int| 0 <= k < out@.len() && (#[trigger] out@[k]).holds(addr);
                        if k < before.len() {
                            assert(before[k].holds(addr));
                        }
                    }
                    if start <= addr < HOST_MEMORY_SIZE {
                        assert(out@[out@.len() - 1].holds(addr));
                    }
                }
            }
        }
        MemSet { areas: out }
    }

    /// Returns the areas of `size` bytes that `MemArea::inside` finds in
    /// the parts of memory that the areas in `exclude` leave free, part by
    /// part. The areas in `exclude` must lie inside the buffer.
    pub fn byte_slices(size: u32, exclude: &MemSet) -> (v: Vec<MemArea>)
        requires
            chained(exclude@),
            forall|i: int| 0 <= i < exclude@.len() ==> (#[trigger] exclude@[i]).end() <= HOST_MEMORY_SIZE,
            size <= HOST_MEMORY_SIZE,
        ensures
            v@ == inside_all(invert_spec(exclude@), invert_spec(exclude@).len() as int, size),
    {
        let free = HostMemory::invert(exclude);
        let mut v: Vec<MemArea> = Vec::new();
        let mut i: usize = 0;
        while i < free.len()
            invariant
                i <= free@.len(),
                size <= HOST_MEMORY_SIZE,
                invert_limit(exclude@) == HOST_MEMORY_SIZE,
                forall|k: int| 0 <= k < free@.len() ==> (#[trigger] free@[k]).len > 0,
                forall|addr: int|
                    covers(free@, addr) <==> 0 <= addr < invert_limit(exclude@) && !covers(
                        exclude@,
                        addr,
                    ),
                v@ == inside_all(free@, i as int, size),
            decreases free@.len() - i,
        {
            let a = free.get(i);
            proof {
                assert(free@[i as int].holds(a.ptr as int));
                assert(covers(free@, a.ptr as int));
            }
            let mut found = a.inside(size);
            proof {
                assert(found@ =~= inside_spec(a, size));
            }
            v.append(&mut found);
            i = i + 1;
        }
        v
    }
}

/// The parts of memory that lie before each of the first `n` areas of
/// `regions`, behind the area before it: one for each area that does not
/// start where the area before it ends, in order.
pub open spec fn gaps(regions: Seq<MemArea>, n: int) -> Seq<MemArea>
    decreases n,
{
    if n <= 0 {
        Seq::empty()
    } else {
        let start = if n == 1 {
            0
        } else {
            regions[n - 2].end()
        };
        if regions[n - 1].ptr > start {
            gaps(regions, n - 1).push(
                MemArea { ptr: start as u32, len: (regions[n - 1].ptr - start) as u32 },
            )
        } else {
            gaps(regions, n - 1)
        }
    }
}

/// The parts of memory that `HostMemory::invert` returns: those that lie
/// before the areas of `regions`, and what lies between the last area and
/// the end of the buffer.
pub open spec fn invert_spec(regions: Seq<MemArea>) -> Seq<MemArea> {
    let start = if regions.len() == 0 {
        0
    } else {
        regions[regions.len() - 1].end()
    };
    if start < HOST_MEMORY_SIZE {
        gaps(regions, regions.len() as int).push(
            MemArea { ptr: start as u32, len: (HOST_MEMORY_SIZE - start) as u32 },
        )
    } else {
        gaps(regions, regions.len() as int)
    }
}

/// Whether `free` are the parts of the buffer that the areas in `regions`
/// leave free: in order, none empty, and covering the bytes of the buffer
/// that no area in `regions` covers.
pub open spec fn is_inverse(regions: Seq<MemArea>, free: Seq<MemArea>) -> bool {
    &&& strictly_sorted(free)
    &&& chained(free)
    &&& forall|i: int| 0 <= i < free.len() ==> (#[trigger] free[i]).len > 0
    &&& forall|addr: int|
        covers(free, addr) <==> 0 <= addr < invert_limit(regions) && !covers(regions, addr)
}

/// The areas that `MemArea::inside` returns for the area `a` and the
/// length `len`.
pub open spec fn inside_spec(a: MemArea, len: u32) -> Seq<MemArea> {
    Seq::new(
        if len > a.len {
            (len - a.len) as nat
        } else {
            0
        },
        |i: int| MemArea { ptr: (a.ptr + i) as u32, len },
    )
}

/// The areas that `MemArea::inside` returns for the first `n` of `areas`,
/// one area after the other.
pub open spec fn inside_all(areas: Seq<MemArea>, n: int, len: u32) -> Seq<MemArea>
    decreases n,
{
    if n <= 0 {
        Seq::empty()
    } else {
        inside_all(areas, n - 1, len) + inside_spec(areas[n - 1], len)
    }
}

/// Where the parts that `HostMemory::invert` returns end: at the end of
/// the buffer, or at the end of the last area where that lies behind it.
pub open spec fn invert_limit(regions: Seq<MemArea>) -> int {
    if regions.len() > 0 && regions[regions.len() - 1].end() >= HOST_MEMORY_SIZE {
        regions[regions.len() - 1].end()
    } else {
        HOST_MEMORY_SIZE as int
    }
}

} // verus!
