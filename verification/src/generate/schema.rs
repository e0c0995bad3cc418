use vstd::prelude::*;

verus! {

/// The unsigned integer that stands for a value of an enum, a flag set or
/// a tagged integer in guest memory.
#[derive(Copy, Clone, Debug, PartialEq, Eq, Structural)]
pub enum IntRepr {
    U8,
    U16,
    U32,
    U64,
}

/// The types that every interface description starts out with.
#[derive(Copy, Clone, Debug, PartialEq, Eq, Structural)]
pub enum BuiltinType {
    String,
    Char8,
    USize,
    U8,
    U16,
    U32,
    U64,
    S8,
    S16,
    S32,
    S64,
    F32,
    F64,
}

/// A use of a type: by the name it was declared with, or written out in place.
#[derive(Debug)]
pub enum TypeRef {
    Name(Box<NamedType>),
    Value(Box<Type>),
}

/// A type together with the name that the interface description gives it.
#[derive(Debug)]
pub struct NamedType {
    pub name: String,
    pub tref: TypeRef,
}

/// A type of the interface description.
#[derive(Debug)]
pub enum Type {
    Enum(EnumDatatype),
    Int(IntDatatype),
    Flags(FlagsDatatype),
    Struct(StructDatatype),
    Union(UnionDatatype),
    Handle(HandleDatatype),
    Array(TypeRef),
    Pointer(TypeRef),
    ConstPointer(TypeRef),
    Builtin(BuiltinType),
}

/// Named variants; the variant at position `i` has the ordinal `i`.
#[derive(Debug)]
pub struct EnumDatatype {
    pub repr: IntRepr,
    pub variants: Vec<String>,
}

/// A named constant of a tagged integer.
#[derive(Debug)]
pub struct IntConst {
    pub name: String,
    pub value: u64,
}

/// An integer with named constants; every value of the integer is legal.
#[derive(Debug)]
pub struct IntDatatype {
    pub repr: IntRepr,
    pub consts: Vec<IntConst>,
}

/// Named flags; the flag at position `i` is the bit `1 << i`.
#[derive(Debug)]
pub struct FlagsDatatype {
    pub repr: IntRepr,
    pub flags: Vec<String>,
}

/// A field of a record, or an arm of a union.
#[derive(Debug)]
pub struct Member {
    pub name: String,
    pub tref: TypeRef,
}

/// Fields laid out one after the other, in the order given.
#[derive(Debug)]
pub struct StructDatatype {
    pub members: Vec<Member>,
}

/// Arms laid out on top of each other. Which arm is in use is not part of
/// the union: a field beside it says so.
#[derive(Debug)]
pub struct UnionDatatype {
    pub variants: Vec<Member>,
}

/// An identifier without structure.
#[derive(Debug)]
pub struct HandleDatatype {
}

/// A function that the guest imports: its name, its parameters and its
/// results, each with a name and a type.
#[derive(Debug)]
pub struct InterfaceFunc {
    pub name: String,
    pub params: Vec<Member>,
    pub results: Vec<Member>,
}

impl TypeRef {
    /// The type that is referred to, behind all names.
    pub open spec fn resolve(&self) -> Type
        decreases self,
    {
        match self {
            TypeRef::Name(nt) => nt.tref.resolve(),
            TypeRef::Value(t) => **t,
        }
    }

    /// Returns the type that is referred to, behind all names.
    pub fn type_(&self) -> (t: &Type)
        ensures
            *t == self.resolve(),
        decreases self,
    {
        match self {
            TypeRef::Name(nt) => nt.tref.type_(),
            TypeRef::Value(t) => &**t,
        }
    }
}

/// Whether the record has a union among its fields, or among the fields
/// of a record that is one of its fields, and so on.
pub open spec fn struct_has_union_spec(s: StructDatatype) -> bool
    decreases s,
{
    exists|i: int| 0 <= i < s.members@.len() && tref_holds_union(#[trigger] s.members@[i].tref)
}

/// Whether the type referred to is a union, or a record that has one.
pub open spec fn tref_holds_union(tref: TypeRef) -> bool
    decreases tref,
{
    match tref {
        TypeRef::Name(nt) => tref_holds_union(nt.tref),
        TypeRef::Value(t) => match *t {
            Type::Union(_) => true,
            Type::Struct(inner) => struct_has_union_spec(inner),
            _ => false,
        },
    }
}

/// Tests whether the record has a union among its fields, directly or
/// through the records that are its fields.
pub fn struct_has_union(s: &StructDatatype) -> (b: bool)
    ensures
        b == struct_has_union_spec(*s),
    decreases s,
{
    let mut i: usize = 0;
    while i < s.members.len()
        invariant
            i <= s.members.len(),
            forall|k: int| 0 <= k < i ==> !tref_holds_union(#[trigger] s.members@[k].tref),
        decreases s.members.len() - i,
    {
        if tref_has_union(&s.members[i].tref) {
            return true;
        }
        i = i + 1;
    }
    false
}

/// Tests whether the type referred to is a union, or a record that has one.
pub fn tref_has_union(tref: &TypeRef) -> (b: bool)
    ensures
        b == tref_holds_union(*tref),
    decreases tref,
{
    match tref {
        TypeRef::Name(nt) => tref_has_union(&nt.tref),
        TypeRef::Value(t) => match &**t {
            Type::Union(_) => true,
            Type::Struct(inner) => struct_has_union(inner),
            _ => false,
        },
    }
}

/// The name of the type that stands for a size, which every target
/// makes as wide as its pointers.
pub open spec fn size_type_name() -> Seq<char> {
    "size"@
}

/// Whether the size of the type referred to depends on the target.
pub open spec fn tref_has_target_size_spec(tref: TypeRef) -> bool
    decreases tref,
{
    match tref {
        TypeRef::Name(nt) => namedtype_has_target_size_spec(*nt),
        TypeRef::Value(t) => type_has_target_size_spec(*t),
    }
}

/// Whether the size of the named type depends on the target: it is the
/// size type itself, or what it names is such a type.
pub open spec fn namedtype_has_target_size_spec(nt: NamedType) -> bool
    decreases nt,
{
    nt.name@ == size_type_name() || tref_has_target_size_spec(nt.tref)
}

/// Whether the size of the type depends on the target: it is a size, a
/// string, a pointer or an array, or it holds a type of that kind.
pub open spec fn type_has_target_size_spec(ty: Type) -> bool
    decreases ty,
{
    match ty {
        Type::Builtin(BuiltinType::String) | Type::Builtin(BuiltinType::USize) => true,
        Type::Pointer(_) | Type::ConstPointer(_) | Type::Array(_) => true,
        Type::Struct(s) => exists|i: int|
            0 <= i < s.members@.len() && tref_has_target_size_spec(#[trigger] s.members@[i].tref),
        Type::Union(u) => exists|i: int|
            0 <= i < u.variants@.len() && tref_has_target_size_spec(
                #[trigger] u.variants@[i].tref,
            ),
        _ => false,
    }
}

/// Tests whether the size of the type referred to depends on the target.
pub fn tref_has_target_size(tref: &TypeRef) -> (b: bool)
    ensures
        b == tref_has_target_size_spec(*tref),
    decreases tref,
{
    match tref {
        TypeRef::Name(nt) => namedtype_has_target_size(nt),
        TypeRef::Value(t) => type_has_target_size(t),
    }
}

/// Tests whether the size of the named type depends on the target.
pub fn namedtype_has_target_size(nt: &NamedType) -> (b: bool)
    ensures
        b == namedtype_has_target_size_spec(*nt),
    decreases nt,
{
    if is_size_type_name(&nt.name) {
        true
    } else {
        tref_has_target_size(&nt.tref)
    }
}

/// Tests whether `name` is the name of the size type.
pub fn is_size_type_name(name: &String) -> (b: bool)
    ensures
        b == (name@ == size_type_name()),
{
    let size = "size".to_owned();
    name.eq(&size)
}

/// Tests whether one of the members has a size that depends on the target.
fn members_have_target_size(members: &Vec<Member>) -> (b: bool)
    ensures
        b == exists|i: int|
            0 <= i < members@.len() && tref_has_target_size_spec(#[trigger] members@[i].tref),
    decreases members,
{
    let mut i: usize = 0;
    while i < members.len()
        invariant
            i <= members.len(),
            forall|k: int| 0 <= k < i ==> !tref_has_target_size_spec(#[trigger] members@[k].tref),
        decreases members.len() - i,
    {
        if tref_has_target_size(&members[i].tref) {
            return true;
        }
        i = i + 1;
    }
    false
}

/// Tests whether the size of the type depends on the target.
pub fn type_has_target_size(ty: &Type) -> (b: bool)
    ensures
        b == type_has_target_size_spec(*ty),
    decreases ty,
{
    match ty {
        Type::Builtin(BuiltinType::String) | Type::Builtin(BuiltinType::USize) => true,
        Type::Pointer(_) | Type::ConstPointer(_) | Type::Array(_) => true,
        Type::Struct(s) => members_have_target_size(&s.members),
        Type::Union(u) => members_have_target_size(&u.variants),
        _ => false,
    }
}

} // verus!
