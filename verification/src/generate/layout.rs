use vstd::prelude::*;
use crate::generate::schema::{BuiltinType, IntRepr, Member, StructDatatype, Type, TypeRef};

verus! {

/// The size and the alignment of a type in guest memory, in bytes.
#[derive(Copy, Clone, Debug, PartialEq, Eq, Structural)]
pub struct SizeAlign {
    pub size: u32,
    pub align: u32,
}

/// The least multiple of `alignment` that is not below `offs`.
pub open spec fn align_to_spec(offs: int, alignment: int) -> int {
    offs + alignment - 1 - ((offs + alignment - 1) % alignment)
}

/// `align_to_spec` gives a multiple of the alignment that is at least the
/// offset and less than one alignment above it.
pub proof fn lemma_align_to(offs: int, alignment: int)
    requires
        offs >= 0,
        alignment > 0,
    ensures
        align_to_spec(offs, alignment) % alignment == 0,
        offs <= align_to_spec(offs, alignment) < offs + alignment,
{
    let x = offs + alignment - 1;
    vstd::arithmetic::div_mod::lemma_fundamental_div_mod(x, alignment);
    vstd::arithmetic::div_mod::lemma_mod_bound(x, alignment);
    let q = x / alignment;
    assert(align_to_spec(offs, alignment) == alignment * q);
    vstd::arithmetic::div_mod::lemma_mod_multiples_basic(q, alignment);
    assert(alignment * q == q * alignment) by (nonlinear_arith);
}

/// No multiple of the alignment lies between the offset and what
/// `align_to_spec` gives.
pub proof fn lemma_align_to_least(offs: int, alignment: int, m: int)
    requires
        offs >= 0,
        alignment > 0,
        m >= offs,
        m % alignment == 0,
    ensures
        align_to_spec(offs, alignment) <= m,
{
    let x = offs + alignment - 1;
    vstd::arithmetic::div_mod::lemma_fundamental_div_mod(x, alignment);
    vstd::arithmetic::div_mod::lemma_mod_bound(x, alignment);
    let q = x / alignment;
    assert(align_to_spec(offs, alignment) == alignment * q);
    vstd::arithmetic::div_mod::lemma_fundamental_div_mod(m, alignment);
    let k = m / alignment;
    assert(m == alignment * k);
    assert(q <= k) by {
        if k < q {
            assert(alignment * k <= alignment * (q - 1)) by (nonlinear_arith)
                requires
                    k <= q - 1,
                    alignment > 0,
            ;
            assert(alignment * (q - 1) == alignment * q - alignment) by (nonlinear_arith);
        }
    }
    assert(alignment * q <= alignment * k) by (nonlinear_arith)
        requires
            q <= k,
            alignment > 0,
    ;
}

/// The size and alignment of an integer of representation `repr`.
pub open spec fn repr_layout_spec(repr: IntRepr) -> (int, int) {
    (repr.size_spec() as int, repr.size_spec() as int)
}

/// The size and alignment of a builtin type in guest memory. A string is
/// a pair of pointer and length; a size is as wide as a pointer.
pub open spec fn builtin_layout_spec(b: BuiltinType) -> (int, int) {
    match b {
        BuiltinType::String => (8, 4),
        BuiltinType::U8 | BuiltinType::S8 | BuiltinType::Char8 => (1, 1),
        BuiltinType::U16 | BuiltinType::S16 => (2, 2),
        BuiltinType::USize | BuiltinType::U32 | BuiltinType::S32 | BuiltinType::F32 => (4, 4),
        BuiltinType::U64 | BuiltinType::S64 | BuiltinType::F64 => (8, 8),
    }
}

/// The size and alignment in guest memory of the type referred to.
pub open spec fn tref_layout_spec(tref: TypeRef) -> (int, int)
    decreases tref, 0int,
{
    match tref {
        TypeRef::Name(nt) => tref_layout_spec(nt.tref),
        TypeRef::Value(t) => type_layout_spec(*t),
    }
}

/// The size and alignment of a type in guest memory.
///
/// A record has its fields one after the other, each at the next multiple
/// of its alignment; a union has its arms on top of each other. Either is
/// aligned as its most aligned member, and its size is a multiple of that
/// alignment. A pointer is a 32-bit offset, an array a pair of offset and
/// length.
pub open spec fn type_layout_spec(ty: Type) -> (int, int)
    decreases ty, 0int,
{
    match ty {
        Type::Enum(e) => repr_layout_spec(e.repr),
        Type::Int(i) => repr_layout_spec(i.repr),
        Type::Flags(f) => repr_layout_spec(f.repr),
        Type::Struct(s) => {
            let align = members_align_spec(s.members@, s.members@.len() as int);
            (align_to_spec(struct_end_spec(s.members@, s.members@.len() as int), align), align)
        },
        Type::Union(u) => {
            let align = members_align_spec(u.variants@, u.variants@.len() as int);
            (align_to_spec(members_size_spec(u.variants@, u.variants@.len() as int), align), align)
        },
        Type::Handle(_) => (4, 4),
        Type::Array(_) => (8, 4),
        Type::Pointer(_) | Type::ConstPointer(_) => (4, 4),
        Type::Builtin(b) => builtin_layout_spec(b),
    }
}

/// The offset of the member at position `i` in a record with these
/// members: the end of the member before it, rounded up to the alignment
/// of this one.
pub open spec fn field_offset_spec(members: Seq<Member>, i: int) -> int
    decreases members, 2 * i + 1,
{
    if 0 <= i < members.len() {
        align_to_spec(struct_end_spec(members, i), tref_layout_spec(members[i].tref).1)
    } else {
        0
    }
}

/// The offset just past the first `n` members of a record.
pub open spec fn struct_end_spec(members: Seq<Member>, n: int) -> int
    decreases members, 2 * n,
{
    if n <= 0 || n > members.len() {
        0
    } else {
        field_offset_spec(members, n - 1) + tref_layout_spec(members[n - 1].tref).0
    }
}

/// The greatest alignment among the first `n` members, and 1 where there
/// is none.
pub open spec fn members_align_spec(members: Seq<Member>, n: int) -> int
    decreases members, n,
{
    if n <= 0 || n > members.len() {
        1
    } else {
        let rest = members_align_spec(members, n - 1);
        let this = tref_layout_spec(members[n - 1].tref).1;
        if this > rest {
            this
        } else {
            rest
        }
    }
}

/// The greatest size among the first `n` members, and 0 where there is
/// none.
pub open spec fn members_size_spec(members: Seq<Member>, n: int) -> int
    decreases members, n,
{
    if n <= 0 || n > members.len() {
        0
    } else {
        let rest = members_size_spec(members, n - 1);
        let this = tref_layout_spec(members[n - 1].tref).0;
        if this > rest {
            this
        } else {
            rest
        }
    }
}

/// Whether `a` is one of the alignments that a type can have.
pub open spec fn is_alignment(a: int) -> bool {
    a == 1 || a == 2 || a == 4 || a == 8
}

/// Every type has a size that is not negative and an alignment of 1, 2, 4
/// or 8 bytes.
pub proof fn lemma_tref_layout_bounds(tref: TypeRef)
    ensures
        tref_layout_spec(tref).0 >= 0,
        is_alignment(tref_layout_spec(tref).1),
    decreases tref, 0int,
{
    match tref {
        TypeRef::Name(nt) => {
            lemma_tref_layout_bounds(nt.tref);
        },
        TypeRef::Value(t) => {
            lemma_type_layout_bounds(*t);
        },
    }
}

/// Every type has a size that is not negative and an alignment of 1, 2, 4
/// or 8 bytes.
pub proof fn lemma_type_layout_bounds(ty: Type)
    ensures
        type_layout_spec(ty).0 >= 0,
        is_alignment(type_layout_spec(ty).1),
    decreases ty, 0int,
{
    match ty {
        Type::Struct(s) => {
            let n = s.members@.len() as int;
            lemma_members_bounds(s.members@, n);
            lemma_align_to(struct_end_spec(s.members@, n), members_align_spec(s.members@, n));
        },
        Type::Union(u) => {
            let n = u.variants@.len() as int;
            lemma_members_bounds(u.variants@, n);
            lemma_align_to(members_size_spec(u.variants@, n), members_align_spec(u.variants@, n));
        },
        _ => {},
    }
}

/// The end, the greatest size and the greatest alignment of the first `n`
/// members are not negative, and the alignment is one of 1, 2, 4 and 8.
pub proof fn lemma_members_bounds(members: Seq<Member>, n: int)
    requires
        0 <= n <= members.len(),
    ensures
        struct_end_spec(members, n) >= 0,
        members_size_spec(members, n) >= 0,
        is_alignment(members_align_spec(members, n)),
        n > 0 ==> struct_end_spec(members, n) >= struct_end_spec(members, n - 1)
            + tref_layout_spec(members[n - 1].tref).0,
        n > 0 ==> field_offset_spec(members, n - 1) >= struct_end_spec(members, n - 1),
        n > 0 ==> field_offset_spec(members, n - 1) % tref_layout_spec(members[n - 1].tref).1 == 0,
    decreases members, n,
{
    if n > 0 {
        lemma_members_bounds(members, n - 1);
        lemma_tref_layout_bounds(members[n - 1].tref);
        lemma_align_to(struct_end_spec(members, n - 1), tref_layout_spec(members[n - 1].tref).1);
    }
}

/// The end of the first `k` members is not past the end of the first `n`,
/// for `k` up to `n`.
pub proof fn lemma_struct_end_monotone(members: Seq<Member>, k: int, n: int)
    requires
        0 <= k <= n <= members.len(),
    ensures
        struct_end_spec(members, k) <= struct_end_spec(members, n),
    decreases n - k,
{
    if k < n {
        lemma_struct_end_monotone(members, k, n - 1);
        lemma_members_bounds(members, n);
        lemma_tref_layout_bounds(members[n - 1].tref);
    }
}

/// The greatest size among the first `k` members is not above that among
/// the first `n`, for `k` up to `n`.
pub proof fn lemma_members_size_monotone(members: Seq<Member>, k: int, n: int)
    requires
        0 <= k <= n <= members.len(),
    ensures
        members_size_spec(members, k) <= members_size_spec(members, n),
    decreases n - k,
{
    if k < n {
        lemma_members_size_monotone(members, k, n - 1);
    }
}

/// The fields of a record lie one behind the other: each ends where the
/// next starts, or before.
pub proof fn lemma_fields_in_order(members: Seq<Member>, i: int, j: int)
    requires
        0 <= i < j < members.len(),
    ensures
        field_offset_spec(members, i) + tref_layout_spec(members[i].tref).0 <= field_offset_spec(
            members,
            j,
        ),
{
    lemma_struct_end_monotone(members, i + 1, j);
    lemma_members_bounds(members, j + 1);
}

/// Every field of a record starts at a multiple of its own alignment and
/// ends inside the record, and the size of the record is a multiple of
/// its alignment.
pub proof fn lemma_record_layout(members: Seq<Member>, i: int)
    requires
        0 <= i < members.len(),
    ensures
        field_offset_spec(members, i) >= 0,
        field_offset_spec(members, i) % tref_layout_spec(members[i].tref).1 == 0,
        field_offset_spec(members, i) + tref_layout_spec(members[i].tref).0 <= record_layout_spec(
            members,
        ).0,
        record_layout_spec(members).0 % record_layout_spec(members).1 == 0,
{
    let n = members.len() as int;
    lemma_members_bounds(members, i + 1);
    lemma_members_bounds(members, i);
    lemma_struct_end_monotone(members, i + 1, n);
    lemma_members_bounds(members, n);
    lemma_align_to(struct_end_spec(members, n), members_align_spec(members, n));
}

/// Rounds `offs` up to the next multiple of `alignment`.
pub fn align_to(offs: u64, alignment: u64) -> (r: u64)
    requires
        alignment > 0,
        offs + alignment <= u64::MAX,
    ensures
        r == align_to_spec(offs as int, alignment as int),
{
    offs + alignment - 1 - ((offs + alignment - 1) % alignment)
}

/// What a computed layout says: the layout itself, or that the size does
/// not fit 32 bits.
pub open spec fn is_layout(r: Option<SizeAlign>, layout: (int, int)) -> bool {
    match r {
        Some(l) => l.size == layout.0 && l.align == layout.1,
        None => layout.0 > u32::MAX,
    }
}

/// Returns the size and alignment of an integer of representation `repr`.
pub fn repr_layout(repr: IntRepr) -> (l: SizeAlign)
    ensures
        (l.size as int, l.align as int) == repr_layout_spec(repr),
{
    let size = repr.guest_size();
    SizeAlign { size, align: size }
}

/// Returns the size and alignment of a builtin type.
pub fn builtin_layout(b: BuiltinType) -> (l: SizeAlign)
    ensures
        (l.size as int, l.align as int) == builtin_layout_spec(b),
{
    match b {
        BuiltinType::String => SizeAlign { size: 8, align: 4 },
        BuiltinType::U8 | BuiltinType::S8 | BuiltinType::Char8 => SizeAlign { size: 1, align: 1 },
        BuiltinType::U16 | BuiltinType::S16 => SizeAlign { size: 2, align: 2 },
        BuiltinType::USize | BuiltinType::U32 | BuiltinType::S32 | BuiltinType::F32 => SizeAlign {
            size: 4,
            align: 4,
        },
        BuiltinType::U64 | BuiltinType::S64 | BuiltinType::F64 => SizeAlign { size: 8, align: 8 },
    }
}

/// Returns the size and alignment of the type referred to, or `None`
/// where the size does not fit 32 bits.
pub fn tref_layout(tref: &TypeRef) -> (r: Option<SizeAlign>)
    ensures
        is_layout(r, tref_layout_spec(*tref)),
    decreases tref, 0int,
{
    match tref {
        TypeRef::Name(nt) => tref_layout(&nt.tref),
        TypeRef::Value(t) => type_layout(t),
    }
}

/// Returns the size and alignment of the type, or `None` where the size
/// does not fit 32 bits.
pub fn type_layout(ty: &Type) -> (r: Option<SizeAlign>)
    ensures
        is_layout(r, type_layout_spec(*ty)),
    decreases ty, 0int,
{
    match ty {
        Type::Enum(e) => Some(repr_layout(e.repr)),
        Type::Int(i) => Some(repr_layout(i.repr)),
        Type::Flags(f) => Some(repr_layout(f.repr)),
        Type::Struct(s) => match record_layout(&s.members) {
            Some(l) => Some(l.1),
            None => None,
        },
        Type::Union(u) => union_layout(&u.variants),
        Type::Handle(_) => Some(SizeAlign { size: 4, align: 4 }),
        Type::Array(_) => Some(SizeAlign { size: 8, align: 4 }),
        Type::Pointer(_) | Type::ConstPointer(_) => Some(SizeAlign { size: 4, align: 4 }),
        Type::Builtin(b) => Some(builtin_layout(*b)),
    }
}

/// The size and alignment of a record with these members.
pub open spec fn record_layout_spec(members: Seq<Member>) -> (int, int) {
    let align = members_align_spec(members, members.len() as int);
    (align_to_spec(struct_end_spec(members, members.len() as int), align), align)
}

/// The size and alignment of a union with these arms.
pub open spec fn union_layout_spec(members: Seq<Member>) -> (int, int) {
    let align = members_align_spec(members, members.len() as int);
    (align_to_spec(members_size_spec(members, members.len() as int), align), align)
}

/// Lays out the fields of a record: returns the offset of each field and
/// the size and alignment of the record, or `None` where the size does not
/// fit 32 bits.
pub fn record_layout(members: &Vec<Member>) -> (r: Option<(Vec<u32>, SizeAlign)>)
    ensures
        match r {
            Some((offsets, l)) => {
                &&& (l.size as int, l.align as int) == record_layout_spec(members@)
                &&& offsets@.len() == members@.len()
                &&& forall|i: int|
                    0 <= i < members@.len() ==> (#[trigger] offsets@[i]) == field_offset_spec(
                        members@,
                        i,
                    )
            },
            None => record_layout_spec(members@).0 > u32::MAX,
        },
    decreases members, 0int,
{
    let n = members.len();
    let mut offsets: Vec<u32> = Vec::new();
    let mut end: u64 = 0;
    let mut align: u32 = 1;
    let mut i: usize = 0;
    while i < n
        invariant
            i <= n,
            n == members@.len(),
            end == struct_end_spec(members@, i as int),
            end <= u32::MAX,
            align == members_align_spec(members@, i as int),
            is_alignment(align as int),
            offsets@.len() == i,
            forall|k: int|
                0 <= k < i ==> (#[trigger] offsets@[k]) == field_offset_spec(members@, k),
        decreases n - i,
    {
        proof {
            lemma_members_bounds(members@, i as int + 1);
            lemma_tref_layout_bounds(members@[i as int].tref);
            lemma_struct_end_monotone(members@, i as int + 1, n as int);
            lemma_members_bounds(members@, n as int);
            lemma_align_to(
                struct_end_spec(members@, n as int),
                members_align_spec(members@, n as int),
            );
        }
        let l = match tref_layout(&members[i].tref) {
            Some(l) => l,
            None => { return None; },
        };
        let offset = align_to(end, l.align as u64);
        proof {
            lemma_align_to(end as int, l.align as int);
        }
        let next = offset + l.size as u64;
        if next > u32::MAX as u64 {
            return None;
        }
        offsets.push(offset as u32);
        end = next;
        if l.align > align {
            align = l.align;
        }
        i = i + 1;
    }
    let size = align_to(end, align as u64);
    if size > u32::MAX as u64 {
        return None;
    }
    Some((offsets, SizeAlign { size: size as u32, align }))
}

/// Returns the size and alignment of a union with these arms, or `None`
/// where the size does not fit 32 bits.
pub fn union_layout(members: &Vec<Member>) -> (r: Option<SizeAlign>)
    ensures
        is_layout(r, union_layout_spec(members@)),
    decreases members, 0int,
{
    let n = members.len();
    let mut widest: u32 = 0;
    let mut align: u32 = 1;
    let mut i: usize = 0;
    while i < n
        invariant
            i <= n,
            n == members@.len(),
            widest == members_size_spec(members@, i as int),
            align == members_align_spec(members@, i as int),
            is_alignment(align as int),
        decreases n - i,
    {
        proof {
            lemma_tref_layout_bounds(members@[i as int].tref);
            lemma_members_size_monotone(members@, i as int + 1, n as int);
            lemma_members_bounds(members@, n as int);
            lemma_align_to(
                members_size_spec(members@, n as int),
                members_align_spec(members@, n as int),
            );
        }
        let l = match tref_layout(&members[i].tref) {
            Some(l) => l,
            None => { return None; },
        };
        if l.size > widest {
            widest = l.size;
        }
        if l.align > align {
            align = l.align;
        }
        i = i + 1;
    }
    let size = align_to(widest as u64, align as u64);
    if size > u32::MAX as u64 {
        return None;
    }
    Some(SizeAlign { size: size as u32, align })
}

/// Returns the offset of each field of the record, in the order of the
/// fields, or `None` where the size of the record does not fit 32 bits.
pub fn member_layout(s: &StructDatatype) -> (r: Option<Vec<u32>>)
    ensures
        match r {
            Some(offsets) => {
                &&& offsets@.len() == s.members@.len()
                &&& forall|i: int|
                    0 <= i < s.members@.len() ==> (#[trigger] offsets@[i]) == field_offset_spec(
                        s.members@,
                        i,
                    )
            },
            None => record_layout_spec(s.members@).0 > u32::MAX,
        },
{
    match record_layout(&s.members) {
        Some(l) => Some(l.0),
        None => None,
    }
}

} // verus!
