use vstd::prelude::*;
use crate::display::{decimal, tagged, tagged_spec, to_decimal};
use crate::error::GuestError;
use crate::generate::names::{camel_case, shouty_snake_case, int_member_name, type_ident};
use crate::generate::repr::{
    AtomType, repr_read_spec, repr_write_spec, lemma_repr_write_then_read,
};
use crate::generate::schema::{IntDatatype, IntRepr};
use crate::memory::GuestMemory;
use crate::pointer::GuestPtr;

verus! {

/// A named constant of a tagged integer, under the name it is emitted with.
#[derive(Debug)]
pub struct IntConstDef {
    pub name: String,
    pub value: u64,
}

/// What is emitted for a tagged integer: the name of the type, the
/// integers that stand for it in memory and at the call boundary, and its
/// named constants.
#[derive(Debug)]
pub struct IntDef {
    pub name: String,
    pub repr: IntRepr,
    pub abi: AtomType,
    pub consts: Vec<IntConstDef>,
}

/// A value of a tagged integer.
#[derive(Copy, Clone, Debug, PartialEq, Eq, Structural)]
pub struct TaggedInt {
    pub value: u64,
}

/// Whether `def` is what is emitted for the tagged integer `i` that the
/// interface description calls `name`.
pub open spec fn is_int_def(name: Seq<char>, i: IntDatatype, def: IntDef) -> bool {
    &&& def.name@ == camel_case(name)
    &&& def.repr == i.repr
    &&& def.abi == i.repr.abi_spec()
    &&& def.consts@.len() == i.consts@.len()
    &&& forall|k: int|
        0 <= k < i.consts@.len() ==> (#[trigger] def.consts@[k]).name@ == shouty_snake_case(
            i.consts@[k].name@,
        ) && def.consts@[k].value == i.consts@[k].value
}

/// Works out what is emitted for a tagged integer.
pub fn define_int(name: &str, i: &IntDatatype) -> (def: IntDef)
    ensures
        is_int_def(name@, *i, def),
{
    let mut consts: Vec<IntConstDef> = Vec::new();
    let mut k: usize = 0;
    while k < i.consts.len()
        invariant
            k <= i.consts@.len(),
            consts@.len() == k,
            forall|j: int|
                0 <= j < k ==> (#[trigger] consts@[j]).name@ == shouty_snake_case(
                    i.consts@[j].name@,
                ) && consts@[j].value == i.consts@[j].value,
        decreases i.consts@.len() - k,
    {
        let c = &i.consts[k];
        consts.push(IntConstDef { name: int_member_name(c.name.as_str()), value: c.value });
        k = k + 1;
    }
    IntDef { name: type_ident(name), repr: i.repr, abi: i.repr.abi(), consts }
}

impl IntDef {
    /// Makes a value of the tagged integer from the bits of the
    /// representation in `value`. Every such integer is a value.
    pub fn try_from(&self, value: u64) -> (r: Result<TaggedInt, GuestError>)
        ensures
            r == Ok::<TaggedInt, GuestError>(TaggedInt { value: value & self.repr.max_spec() }),
    {
        Ok(TaggedInt { value: value & self.repr.max_value() })
    }

    /// Makes a value of the tagged integer from the integer that crossed
    /// the call boundary, of which the bits of the representation count.
    pub fn try_from_abi(&self, value: i64) -> (r: Result<TaggedInt, GuestError>)
        ensures
            r == Ok::<TaggedInt, GuestError>(
                TaggedInt { value: (value as u64) & self.repr.max_spec() },
            ),
    {
        self.try_from(#[verifier::truncate] (value as u64))
    }

    /// Shows a value of the tagged integer: the name of the type, and the
    /// value in decimal in round brackets.
    pub fn display(&self, v: TaggedInt) -> (s: String)
        ensures
            s@ == tagged_spec(self.name@, decimal(v.value as nat)),
    {
        tagged(self.name.as_str(), to_decimal(v.value).as_str())
    }

    /// What reading a value of the tagged integer at `offset` must return.
    pub open spec fn read_spec(&self, base: usize, contents: Seq<u8>, offset: u32) -> Result<
        TaggedInt,
        GuestError,
    > {
        match repr_read_spec(self.repr, base, contents, offset) {
            Err(e) => Err(e),
            Ok(v) => Ok(TaggedInt { value: v }),
        }
    }

    /// Reads the value that `ptr` points to.
    pub fn read<M: GuestMemory>(&self, mem: &M, ptr: &GuestPtr<TaggedInt>) -> (r: Result<
        TaggedInt,
        GuestError,
    >)
        ensures
            r == self.read_spec(mem.base_addr(), mem.contents(), ptr.offset_spec()),
    {
        match self.repr.read(mem, ptr.offset()) {
            Err(e) => Err(e),
            Ok(v) => Ok(TaggedInt { value: v }),
        }
    }

    /// Writes `val` to the place that `ptr` points to.
    pub fn write<M: GuestMemory>(&self, mem: &mut M, ptr: &GuestPtr<TaggedInt>, val: TaggedInt) -> (r:
        Result<(), GuestError>)
        ensures
            (r, final(mem).contents()) == repr_write_spec(
                self.repr,
                old(mem).base_addr(),
                old(mem).contents(),
                ptr.offset_spec(),
                val.value,
            ),
            final(mem).base_addr() == old(mem).base_addr(),
    {
        self.repr.write(mem, ptr.offset(), val.value)
    }
}

/// A value that fits the representation and was written is the value that
/// is read back.
pub proof fn lemma_int_write_then_read(
    def: IntDef,
    base: usize,
    contents: Seq<u8>,
    offset: u32,
    val: TaggedInt,
)
    requires
        val.value <= def.repr.max_spec(),
        repr_write_spec(def.repr, base, contents, offset, val.value).0 is Ok,
    ensures
        def.read_spec(base, repr_write_spec(def.repr, base, contents, offset, val.value).1, offset)
            == Ok::<TaggedInt, GuestError>(val),
{
    lemma_repr_write_then_read(def.repr, base, contents, offset, val.value);
}

} // verus!
