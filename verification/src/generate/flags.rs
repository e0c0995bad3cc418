use vstd::prelude::*;
use crate::display::{binary, tagged, tagged_spec, to_binary};
use crate::error::GuestError;
use crate::generate::error::GenError;
use crate::generate::names::{flag_member_name, shouty_snake_case, type_ident, camel_case};
use crate::generate::repr::{
    AtomType, repr_read_spec, repr_write_spec, lemma_repr_write_then_read,
};
use crate::generate::schema::{FlagsDatatype, IntRepr};
use crate::memory::GuestMemory;
use crate::pointer::GuestPtr;

verus! {

/// The most flags that a flag set can declare.
pub const MAX_FLAGS: usize = 64;

/// A named flag with the bit that stands for it.
#[derive(Debug)]
pub struct FlagConst {
    pub name: String,
    pub value: u64,
}

/// What is emitted for a flag set: the name of the type, the integers that
/// stand for it in memory and at the call boundary, the constant of each
/// flag, and the mask of all of them.
#[derive(Debug)]
pub struct FlagsDef {
    pub name: String,
    pub repr: IntRepr,
    pub abi: AtomType,
    pub members: Vec<FlagConst>,
    pub all_flags: u64,
}

/// A value of a flag set: the bits that are set.
#[derive(Copy, Clone, Debug, PartialEq, Eq, Structural)]
pub struct Flags {
    pub bits: u64,
}

/// The bit that stands for the flag at position `i`.
pub open spec fn flag_bit(i: nat) -> u64 {
    1u64 << (i as u64)
}

/// The bits of the first `n` flags together.
pub open spec fn flags_mask(n: nat) -> u64
    decreases n,
{
    if n == 0 {
        0
    } else {
        flags_mask((n - 1) as nat) | flag_bit((n - 1) as nat)
    }
}

/// Whether `def` is what is emitted for the flag set `f` that the
/// interface description calls `name`.
pub open spec fn is_flags_def(name: Seq<char>, f: FlagsDatatype, def: FlagsDef) -> bool {
    &&& def.name@ == camel_case(name)
    &&& def.repr == f.repr
    &&& def.abi == f.repr.abi_spec()
    &&& def.members@.len() == f.flags@.len()
    &&& forall|i: int|
        0 <= i < f.flags@.len() ==> (#[trigger] def.members@[i]).name@ == shouty_snake_case(
            f.flags@[i]@,
        ) && def.members@[i].value == flag_bit(i as nat)
    &&& def.all_flags == flags_mask(f.flags@.len())
}

/// Works out what is emitted for a flag set. A set with more than
/// `MAX_FLAGS` flags is refused.
pub fn define_flags(name: &str, f: &FlagsDatatype) -> (r: Result<FlagsDef, GenError>)
    ensures
        f.flags@.len() > MAX_FLAGS ==> r == Err::<FlagsDef, GenError>(GenError::FlagOverflow),
        f.flags@.len() <= MAX_FLAGS ==> (r matches Ok(def) && is_flags_def(name@, *f, def)),
{
    if f.flags.len() > MAX_FLAGS {
        return Err(GenError::FlagOverflow);
    }
    let ident = type_ident(name);
    let mut members: Vec<FlagConst> = Vec::new();
    let mut all_values: u64 = 0;
    let mut i: usize = 0;
    while i < f.flags.len()
        invariant
            i <= f.flags@.len() <= MAX_FLAGS,
            members@.len() == i,
            forall|k: int|
                0 <= k < i ==> (#[trigger] members@[k]).name@ == shouty_snake_case(f.flags@[k]@)
                    && members@[k].value == flag_bit(k as nat),
            all_values == flags_mask(i as nat),
        decreases f.flags@.len() - i,
    {
        let member_name = flag_member_name(f.flags[i].as_str());
        let value: u64 = 1u64 << (i as u64);
        members.push(FlagConst { name: member_name, value });
        all_values = all_values | value;
        i = i + 1;
    }
    Ok(FlagsDef { name: ident, repr: f.repr, abi: f.repr.abi(), members, all_flags: all_values })
}

impl Flags {
    /// The flags that are in both sets.
    pub fn and(self, rhs: Flags) -> (r: Flags)
        ensures
            r.bits == self.bits & rhs.bits,
    {
        Flags { bits: self.bits & rhs.bits }
    }

    /// The flags that are in either set.
    pub fn or(self, rhs: Flags) -> (r: Flags)
        ensures
            r.bits == self.bits | rhs.bits,
    {
        Flags { bits: self.bits | rhs.bits }
    }

    /// The flags that are in exactly one of the sets.
    pub fn xor(self, rhs: Flags) -> (r: Flags)
        ensures
            r.bits == self.bits ^ rhs.bits,
    {
        Flags { bits: self.bits ^ rhs.bits }
    }

    /// Keeps the flags that are in `rhs` too.
    pub fn and_assign(&mut self, rhs: Flags)
        ensures
            final(self).bits == old(self).bits & rhs.bits,
    {
        self.bits = self.bits & rhs.bits;
    }

    /// Adds the flags of `rhs`.
    pub fn or_assign(&mut self, rhs: Flags)
        ensures
            final(self).bits == old(self).bits | rhs.bits,
    {
        self.bits = self.bits | rhs.bits;
    }

    /// Flips the flags of `rhs`.
    pub fn xor_assign(&mut self, rhs: Flags)
        ensures
            final(self).bits == old(self).bits ^ rhs.bits,
    {
        self.bits = self.bits ^ rhs.bits;
    }

    /// Whether `other` has no flag that this set lacks.
    pub open spec fn contains_spec(&self, other: &Flags) -> bool {
        !self.bits & other.bits == 0
    }

    /// Tests whether every flag of `other` is in this set. The empty set
    /// is contained in every set.
    #[verifier::when_used_as_spec(contains_spec)]
    pub fn contains(&self, other: &Flags) -> (b: bool)
        ensures
            b == self.contains_spec(other),
    {
        (!self.bits & other.bits) == 0
    }
}

impl FlagsDef {
    /// The value of the flag set that `value` stands for: `value` itself,
    /// where it fits the representation and has no bit outside the mask of
    /// all flags.
    pub open spec fn try_from_spec(&self, value: u64) -> Result<Flags, GuestError> {
        if value > self.repr.max_spec() || value & !self.all_flags != 0 {
            Err(GuestError::InvalidFlagValue(self.name))
        } else {
            Ok(Flags { bits: value })
        }
    }

    /// Whether `v` is a value of this flag set.
    pub open spec fn valid(&self, v: Flags) -> bool {
        self.try_from_spec(v.bits) is Ok
    }

    /// The set without any flag.
    pub fn empty_flags(&self) -> (r: Flags)
        ensures
            r.bits == 0,
    {
        Flags { bits: 0 }
    }

    /// The set of all flags.
    pub fn all_flags(&self) -> (r: Flags)
        ensures
            r.bits == self.all_flags,
    {
        Flags { bits: self.all_flags }
    }

    /// The bits of the representation that are not in `v`.
    pub fn not(&self, v: Flags) -> (r: Flags)
        ensures
            r.bits == !v.bits & self.repr.max_spec(),
    {
        Flags { bits: !v.bits & self.repr.max_value() }
    }

    /// Makes a value of the flag set from an integer, which must fit the
    /// representation and must not have a bit that stands for no flag.
    pub fn try_from(&self, value: u64) -> (r: Result<Flags, GuestError>)
        ensures
            r == self.try_from_spec(value),
            value <= self.repr.max_spec() ==> (r is Ok <==> value & !self.all_flags == 0),
    {
        if value > self.repr.max_value() || (value & !self.all_flags) != 0 {
            Err(GuestError::InvalidFlagValue(self.name.clone()))
        } else {
            Ok(Flags { bits: value })
        }
    }

    /// Makes a value of the flag set from the integer that crossed the
    /// call boundary, of which the bits of the representation count.
    pub fn try_from_abi(&self, value: i64) -> (r: Result<Flags, GuestError>)
        ensures
            r == self.try_from_spec((value as u64) & self.repr.max_spec()),
    {
        self.try_from((#[verifier::truncate] (value as u64)) & self.repr.max_value())
    }

    /// Shows a value of the flag set: the name of the type, and the bits
    /// in binary in round brackets.
    pub fn display(&self, v: Flags) -> (s: String)
        ensures
            s@ == tagged_spec(self.name@, binary(v.bits as nat)),
    {
        tagged(self.name.as_str(), to_binary(v.bits).as_str())
    }

    /// What reading a value of the flag set at `offset` must return.
    pub open spec fn read_spec(&self, base: usize, contents: Seq<u8>, offset: u32) -> Result<
        Flags,
        GuestError,
    > {
        match repr_read_spec(self.repr, base, contents, offset) {
            Err(e) => Err(e),
            Ok(v) => self.try_from_spec(v),
        }
    }

    /// Reads the value that `ptr` points to, and checks that it is one of
    /// the flag set.
    pub fn read<M: GuestMemory>(&self, mem: &M, ptr: &GuestPtr<Flags>) -> (r: Result<
        Flags,
        GuestError,
    >)
        ensures
            r == self.read_spec(mem.base_addr(), mem.contents(), ptr.offset_spec()),
    {
        match self.repr.read(mem, ptr.offset()) {
            Err(e) => Err(e),
            Ok(v) => self.try_from(v),
        }
    }

    /// Writes the bits of `val` to the place that `ptr` points to.
    pub fn write<M: GuestMemory>(&self, mem: &mut M, ptr: &GuestPtr<Flags>, val: Flags) -> (r:
        Result<(), GuestError>)
        ensures
            (r, final(mem).contents()) == repr_write_spec(
                self.repr,
                old(mem).base_addr(),
                old(mem).contents(),
                ptr.offset_spec(),
                val.bits,
            ),
            final(mem).base_addr() == old(mem).base_addr(),
    {
        self.repr.write(mem, ptr.offset(), val.bits)
    }
}

/// A value of the flag set that was written is the value that is read back.
pub proof fn lemma_flags_write_then_read(
    def: FlagsDef,
    base: usize,
    contents: Seq<u8>,
    offset: u32,
    val: Flags,
)
    requires
        def.valid(val),
        repr_write_spec(def.repr, base, contents, offset, val.bits).0 is Ok,
    ensures
        def.read_spec(
            base,
            repr_write_spec(def.repr, base, contents, offset, val.bits).1,
            offset,
        ) == Ok::<Flags, GuestError>(val),
{
    lemma_repr_write_then_read(def.repr, base, contents, offset, val.bits);
}

/// The bits of the first `n` flags together are the `n` lowest bits.
pub proof fn lemma_flags_mask(n: nat)
    requires
        n <= MAX_FLAGS,
    ensures
        n < 64 ==> flags_mask(n) == ((1u64 << (n as u64)) - 1) as u64,
        n == 64 ==> flags_mask(n) == u64::MAX,
    decreases n,
{
    if n == 0 {
        assert(((1u64 << 0u64) - 1) as u64 == 0) by (bit_vector);
    } else {
        lemma_flags_mask((n - 1) as nat);
        let k = (n - 1) as u64;
        let lower = flags_mask((n - 1) as nat);
        assert(k < 63 ==> (((1u64 << k) - 1) as u64 | (1u64 << k)) == ((1u64 << ((k + 1) as u64))
            - 1) as u64) by (bit_vector);
        assert(k == 63 ==> (((1u64 << k) - 1) as u64 | (1u64 << k)) == 0xffff_ffff_ffff_ffffu64)
            by (bit_vector);
    }
}

/// With fewer than 64 flags, an integer has no bit outside the mask of
/// the first `n` flags exactly when it is below the bit of the flag at
/// position `n`: when each of its bits is the bit of a flag.
pub proof fn lemma_in_mask_iff_below(n: nat, value: u64)
    requires
        n < MAX_FLAGS,
    ensures
        value & !flags_mask(n) == 0 <==> value < (1u64 << (n as u64)),
{
    lemma_flags_mask(n);
    let k = n as u64;
    assert(k < 64 ==> ((value & !(((1u64 << k) - 1) as u64) == 0) <==> value < (1u64 << k)))
        by (bit_vector);
}

/// The empty set is contained in every set, and every set contains itself.
pub proof fn lemma_contains_empty(a: Flags)
    ensures
        a.contains_spec(&Flags { bits: 0 }),
        a.contains_spec(&a),
{
    let x = a.bits;
    assert(!x & 0u64 == 0) by (bit_vector);
    assert(!x & x == 0) by (bit_vector);
}

} // verus!
