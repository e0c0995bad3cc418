use vstd::prelude::*;
use crate::error::GuestError;
use crate::generate::names::{camel_case, mixed_case, variant_name_spec, enum_variant_name, type_ident};
use crate::generate::repr::{
    AtomType, repr_read_spec, repr_write_spec, lemma_repr_write_then_read,
};
use crate::generate::schema::{EnumDatatype, IntRepr};
use crate::memory::GuestMemory;
use crate::pointer::GuestPtr;

verus! {

/// What is emitted for an enum: the name of the type, the integers that
/// stand for it in memory and at the call boundary, and the names of the
/// variants in the order of their ordinals.
#[derive(Debug)]
pub struct EnumDef {
    pub name: String,
    pub repr: IntRepr,
    pub abi: AtomType,
    pub variants: Vec<String>,
}

/// A value of an enum: the ordinal of a variant.
#[derive(Copy, Clone, Debug, PartialEq, Eq, Structural)]
pub struct EnumValue {
    pub ordinal: u64,
}

/// Whether `def` is what is emitted for the enum `e` that the interface
/// description calls `name`.
pub open spec fn is_enum_def(name: Seq<char>, e: EnumDatatype, def: EnumDef) -> bool {
    &&& def.name@ == camel_case(name)
    &&& def.repr == e.repr
    &&& def.abi == e.repr.abi_spec()
    &&& def.variants@.len() == e.variants@.len()
    &&& forall|i: int|
        0 <= i < e.variants@.len() ==> (#[trigger] def.variants@[i])@ == variant_name_spec(
            name,
            camel_case(e.variants@[i]@),
            mixed_case(e.variants@[i]@),
        )
}

/// Works out what is emitted for an enum.
pub fn define_enum(name: &str, e: &EnumDatatype) -> (def: EnumDef)
    ensures
        is_enum_def(name@, *e, def),
{
    let mut variants: Vec<String> = Vec::new();
    let mut i: usize = 0;
    while i < e.variants.len()
        invariant
            i <= e.variants@.len(),
            variants@.len() == i,
            forall|k: int|
                0 <= k < i ==> (#[trigger] variants@[k])@ == variant_name_spec(
                    name@,
                    camel_case(e.variants@[k]@),
                    mixed_case(e.variants@[k]@),
                ),
        decreases e.variants@.len() - i,
    {
        variants.push(enum_variant_name(name, e.variants[i].as_str()));
        i = i + 1;
    }
    EnumDef { name: type_ident(name), repr: e.repr, abi: e.repr.abi(), variants }
}

impl EnumDef {
    /// The value of the enum that `value` stands for: the variant with
    /// that ordinal, where there is one.
    pub open spec fn try_from_spec(&self, value: u64) -> Result<EnumValue, GuestError> {
        if value > self.repr.max_spec() || value >= self.variants@.len() {
            Err(GuestError::InvalidEnumValue(self.name))
        } else {
            Ok(EnumValue { ordinal: value })
        }
    }

    /// Whether `v` is a value of this enum.
    pub open spec fn valid(&self, v: EnumValue) -> bool {
        self.try_from_spec(v.ordinal) is Ok
    }

    /// Makes a value of the enum from an integer, which must fit the
    /// representation and must be the ordinal of a variant.
    pub fn try_from(&self, value: u64) -> (r: Result<EnumValue, GuestError>)
        ensures
            r == self.try_from_spec(value),
            value <= self.repr.max_spec() ==> (r is Ok <==> value < self.variants@.len()),
    {
        if value > self.repr.max_value() || value >= self.variants.len() as u64 {
            Err(GuestError::InvalidEnumValue(self.name.clone()))
        } else {
            Ok(EnumValue { ordinal: value })
        }
    }

    /// Makes a value of the enum from the integer that crossed the call
    /// boundary, of which the bits of the representation count.
    pub fn try_from_abi(&self, value: i64) -> (r: Result<EnumValue, GuestError>)
        ensures
            r == self.try_from_spec((value as u64) & self.repr.max_spec()),
    {
        self.try_from((#[verifier::truncate] (value as u64)) & self.repr.max_value())
    }

    /// Returns the name of the variant that `v` stands for.
    pub fn variant_name(&self, v: EnumValue) -> (r: Option<&String>)
        ensures
            r == (if v.ordinal < self.variants@.len() {
                Some(&self.variants@[v.ordinal as int])
            } else {
                None
            }),
    {
        if v.ordinal < self.variants.len() as u64 {
            Some(&self.variants[v.ordinal as usize])
        } else {
            None
        }
    }

    /// What reading a value of the enum at `offset` must return.
    pub open spec fn read_spec(&self, base: usize, contents: Seq<u8>, offset: u32) -> Result<
        EnumValue,
        GuestError,
    > {
        match repr_read_spec(self.repr, base, contents, offset) {
            Err(e) => Err(e),
            Ok(v) => self.try_from_spec(v),
        }
    }

    /// Reads the value that `ptr` points to, and checks that it is the
    /// ordinal of a variant.
    pub fn read<M: GuestMemory>(&self, mem: &M, ptr: &GuestPtr<EnumValue>) -> (r: Result<
        EnumValue,
        GuestError,
    >)
        ensures
            r == self.read_spec(mem.base_addr(), mem.contents(), ptr.offset_spec()),
    {
        match self.repr.read(mem, ptr.offset()) {
            Err(e) => Err(e),
            Ok(v) => self.try_from(v),
        }
    }

    /// Writes the ordinal of `val` to the place that `ptr` points to.
    pub fn write<M: GuestMemory>(&self, mem: &mut M, ptr: &GuestPtr<EnumValue>, val: EnumValue) -> (r:
        Result<(), GuestError>)
        ensures
            (r, final(mem).contents()) == repr_write_spec(
                self.repr,
                old(mem).base_addr(),
                old(mem).contents(),
                ptr.offset_spec(),
                val.ordinal,
            ),
            final(mem).base_addr() == old(mem).base_addr(),
    {
        self.repr.write(mem, ptr.offset(), val.ordinal)
    }
}

/// A value of the enum that was written is the value that is read back.
pub proof fn lemma_enum_write_then_read(
    def: EnumDef,
    base: usize,
    contents: Seq<u8>,
    offset: u32,
    val: EnumValue,
)
    requires
        def.valid(val),
        repr_write_spec(def.repr, base, contents, offset, val.ordinal).0 is Ok,
    ensures
        def.read_spec(
            base,
            repr_write_spec(def.repr, base, contents, offset, val.ordinal).1,
            offset,
        ) == Ok::<EnumValue, GuestError>(val),
{
    lemma_repr_write_then_read(def.repr, base, contents, offset, val.ordinal);
}

} // verus!
