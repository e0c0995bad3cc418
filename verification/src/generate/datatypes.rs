use vstd::prelude::*;
use crate::generate::enums::{EnumDef, define_enum, is_enum_def};
use crate::generate::error::GenError;
use crate::generate::flags::{FlagsDef, define_flags, is_flags_def, MAX_FLAGS};
use crate::generate::handle::{HandleDef, define_handle};
use crate::generate::mode::Mode;
use crate::generate::names::{camel_case, type_ident};
use crate::generate::schema::{
    Member, NamedType, Type, TypeRef, is_size_type_name, size_type_name,
    struct_has_union, struct_has_union_spec, namedtype_has_target_size,
    namedtype_has_target_size_spec, tref_has_target_size_spec, type_has_target_size_spec,
};
use crate::generate::tagged_int::{IntDef, define_int, is_int_def};
use crate::generate::tokens::{
    TypeExpr, TypeExprView, builtin_tokens, builtin_tokens_spec, tref_tokens, tref_tokens_spec,
};

verus! {

/// A name for another type.
#[derive(Debug)]
pub struct AliasDef {
    pub name: String,
    pub target: TypeExpr,
}

/// A field of an emitted record, or an arm of an emitted union.
#[derive(Debug)]
pub struct FieldDef {
    pub name: String,
    pub ty: TypeExpr,
}

/// What is emitted for a record: its name, its fields in order, and
/// whether it can be compared, hashed and printed. A record that holds a
/// union cannot: nothing in it says which arm of the union is in use.
#[derive(Debug)]
pub struct RecordDef {
    pub name: String,
    pub comparable: bool,
    pub fields: Vec<FieldDef>,
}

/// What is emitted for a union: its name and its arms, which lie on top
/// of each other. A union can only be copied.
#[derive(Debug)]
pub struct UnionDef {
    pub name: String,
    pub arms: Vec<FieldDef>,
}

/// What is emitted for one named type.
#[derive(Debug)]
pub enum Item {
    Alias(AliasDef),
    Enum(EnumDef),
    Flags(FlagsDef),
    Int(IntDef),
    Handle(HandleDef),
    Record(RecordDef),
    Union(UnionDef),
}

/// The first reason why one of the first `n` members cannot be written
/// in the emitted code, if there is one.
pub open spec fn members_error(mode: Mode, members: Seq<Member>, n: int) -> Option<GenError>
    decreases n,
{
    if n <= 0 {
        None
    } else {
        match members_error(mode, members, n - 1) {
            Some(e) => Some(e),
            None => match tref_tokens_spec(mode, members[n - 1].tref) {
                Err(e) => Some(e),
                Ok(_) => None,
            },
        }
    }
}

/// Whether `fields` are the members as they are emitted: each under its
/// own name, with its type as the emitted code writes it.
pub open spec fn are_fields(mode: Mode, members: Seq<Member>, fields: Seq<FieldDef>) -> bool {
    &&& fields.len() == members.len()
    &&& forall|i: int|
        0 <= i < members.len() ==> (#[trigger] fields[i]).name@ == members[i].name@
            && tref_tokens_spec(mode, members[i].tref) == Ok::<TypeExprView, GenError>(
            fields[i].ty@,
        )
}

/// The type that is emitted under the name `size` for the target, where
/// the target has one.
pub open spec fn size_tokens_spec(mode: Mode) -> Result<TypeExprView, GenError> {
    match mode {
        Mode::Host => Ok(TypeExprView::Usize),
        Mode::Wasi => Err(GenError::TargetSpecificSize),
        Mode::Wasi32 => Ok(TypeExprView::U32),
    }
}

/// The type that a named type is emitted as a name for, where it is
/// emitted as one: a name for another named type stands for what that
/// type is defined as; a builtin type, a pointer or an array is written as
/// the target has it.
pub open spec fn alias_target_spec(mode: Mode, nt: NamedType) -> Option<
    Result<TypeExprView, GenError>,
> {
    match nt.tref {
        TypeRef::Name(alias_to) => Some(tref_tokens_spec(mode, alias_to.tref)),
        TypeRef::Value(v) => match *v {
            Type::Builtin(b) => if nt.name@ == size_type_name() {
                Some(size_tokens_spec(mode))
            } else {
                Some(builtin_tokens_spec(mode, b))
            },
            Type::Pointer(_) | Type::ConstPointer(_) | Type::Array(_) => Some(
                tref_tokens_spec(mode, nt.tref),
            ),
            _ => None,
        },
    }
}

/// Why nothing can be emitted for the named type, if that is so.
pub open spec fn gen_datatype_error(mode: Mode, nt: NamedType) -> Option<GenError> {
    match alias_target_spec(mode, nt) {
        Some(Err(e)) => Some(e),
        Some(Ok(_)) => None,
        None => match nt.tref {
            TypeRef::Value(v) => match *v {
                Type::Flags(f) => if f.flags@.len() > MAX_FLAGS {
                    Some(GenError::FlagOverflow)
                } else {
                    None
                },
                Type::Struct(s) => members_error(mode, s.members@, s.members@.len() as int),
                Type::Union(u) => members_error(mode, u.variants@, u.variants@.len() as int),
                _ => None,
            },
            _ => None,
        },
    }
}

/// Whether `item` is what is emitted for the named type.
pub open spec fn is_item_for(mode: Mode, nt: NamedType, item: Item) -> bool {
    match alias_target_spec(mode, nt) {
        Some(target) => item matches Item::Alias(a) && a.name@ == camel_case(nt.name@) && target
            == Ok::<TypeExprView, GenError>(a.target@),
        None => match nt.tref {
            TypeRef::Value(v) => match *v {
                Type::Enum(e) => item matches Item::Enum(d) && is_enum_def(nt.name@, e, d),
                Type::Int(i) => item matches Item::Int(d) && is_int_def(nt.name@, i, d),
                Type::Flags(f) => item matches Item::Flags(d) && is_flags_def(nt.name@, f, d),
                Type::Handle(h) => item matches Item::Handle(d) && d.name@ == camel_case(nt.name@)
                    && d.size == 4 && d.align == 4,
                Type::Struct(s) => item matches Item::Record(d) && d.name@ == camel_case(nt.name@)
                    && d.comparable == !struct_has_union_spec(s) && are_fields(
                    mode,
                    s.members@,
                    d.fields@,
                ),
                Type::Union(u) => item matches Item::Union(d) && d.name@ == camel_case(nt.name@)
                    && are_fields(mode, u.variants@, d.arms@),
                _ => false,
            },
            _ => false,
        },
    }
}

/// Writes each member as a field of the emitted code.
fn gen_fields(mode: Mode, members: &Vec<Member>) -> (r: Result<Vec<FieldDef>, GenError>)
    ensures
        match members_error(mode, members@, members@.len() as int) {
            Some(e) => r == Err::<Vec<FieldDef>, GenError>(e),
            None => r matches Ok(fields) && are_fields(mode, members@, fields@),
        },
{
    let mut fields: Vec<FieldDef> = Vec::new();
    let mut i: usize = 0;
    while i < members.len()
        invariant
            i <= members@.len(),
            members_error(mode, members@, i as int) is None,
            fields@.len() == i,
            forall|k: int|
                0 <= k < i ==> (#[trigger] fields@[k]).name@ == members@[k].name@
                    && tref_tokens_spec(mode, members@[k].tref) == Ok::<TypeExprView, GenError>(
                    fields@[k].ty@,
                ),
        decreases members@.len() - i,
    {
        let m = &members[i];
        let ty = match tref_tokens(mode, &m.tref) {
            Ok(t) => t,
            Err(e) => {
                proof {
                    lemma_members_error_stays(mode, members@, i as int + 1, members@.len() as int);
                }
                return Err(e);
            },
        };
        fields.push(FieldDef { name: m.name.clone(), ty });
        i = i + 1;
    }
    Ok(fields)
}

/// An error among the first `n` members is the error among the first `m`
/// members, for every `m` from `n` on.
pub proof fn lemma_members_error_stays(mode: Mode, members: Seq<Member>, n: int, m: int)
    requires
        n <= m,
        members_error(mode, members, n) is Some,
    ensures
        members_error(mode, members, m) == members_error(mode, members, n),
    decreases m - n,
{
    if n < m {
        lemma_members_error_stays(mode, members, n, m - 1);
    }
}

/// Works out what to emit for one named type.
pub fn gen_datatype(mode: Mode, namedtype: &NamedType) -> (r: Result<Item, GenError>)
    ensures
        match gen_datatype_error(mode, *namedtype) {
            Some(e) => r == Err::<Item, GenError>(e),
            None => r matches Ok(item) && is_item_for(mode, *namedtype, item),
        },
{
    let name = namedtype.name.as_str();
    match &namedtype.tref {
        TypeRef::Name(alias_to) => {
            match tref_tokens(mode, &alias_to.tref) {
                Ok(target) => Ok(Item::Alias(AliasDef { name: type_ident(name), target })),
                Err(e) => Err(e),
            }
        },
        TypeRef::Value(v) => match &**v {
            Type::Enum(e) => Ok(Item::Enum(define_enum(name, e))),
            Type::Int(i) => Ok(Item::Int(define_int(name, i))),
            Type::Flags(f) => match define_flags(name, f) {
                Ok(d) => Ok(Item::Flags(d)),
                Err(e) => Err(e),
            },
            Type::Struct(s) => match gen_fields(mode, &s.members) {
                Ok(fields) => Ok(
                    Item::Record(
                        RecordDef {
                            name: type_ident(name),
                            comparable: !struct_has_union(s),
                            fields,
                        },
                    ),
                ),
                Err(e) => Err(e),
            },
            Type::Union(u) => match gen_fields(mode, &u.variants) {
                Ok(arms) => Ok(Item::Union(UnionDef { name: type_ident(name), arms })),
                Err(e) => Err(e),
            },
            Type::Handle(h) => Ok(Item::Handle(define_handle(name, h))),
            Type::Builtin(b) => {
                let target = if is_size_type_name(&namedtype.name) {
                    match mode {
                        Mode::Host => Ok(TypeExpr::Usize),
                        Mode::Wasi => Err(GenError::TargetSpecificSize),
                        Mode::Wasi32 => Ok(TypeExpr::U32),
                    }
                } else {
                    builtin_tokens(mode, *b)
                };
                match target {
                    Ok(target) => Ok(Item::Alias(AliasDef { name: type_ident(name), target })),
                    Err(e) => Err(e),
                }
            },
            Type::Pointer(_) | Type::ConstPointer(_) | Type::Array(_) => {
                match tref_tokens(mode, &namedtype.tref) {
                    Ok(target) => Ok(Item::Alias(AliasDef { name: type_ident(name), target })),
                    Err(e) => Err(e),
                }
            },
        },
    }
}

/// Whether the named type is emitted for the target: the targets with
/// types of their own get the types whose size depends on the target,
/// and the target that all guests share gets the others.
pub open spec fn is_selected(mode: Mode, nt: NamedType) -> bool {
    mode.include_target_types_spec() == namedtype_has_target_size_spec(nt)
}

/// The first reason why one of the first `n` named types that are emitted
/// for the target cannot be emitted, if there is one.
pub open spec fn gen_datatypes_error(mode: Mode, types: Seq<NamedType>, n: int) -> Option<GenError>
    decreases n,
{
    if n <= 0 {
        None
    } else {
        match gen_datatypes_error(mode, types, n - 1) {
            Some(e) => Some(e),
            None => if is_selected(mode, types[n - 1]) {
                gen_datatype_error(mode, types[n - 1])
            } else {
                None
            },
        }
    }
}

/// The positions among the first `n` named types of those that are
/// emitted for the target, in order.
pub open spec fn selected_indices(mode: Mode, types: Seq<NamedType>, n: int) -> Seq<int>
    decreases n,
{
    if n <= 0 {
        Seq::empty()
    } else if is_selected(mode, types[n - 1]) {
        selected_indices(mode, types, n - 1).push(n - 1)
    } else {
        selected_indices(mode, types, n - 1)
    }
}

/// Whether `items` are what is emitted for the first `n` named types:
/// one item for each type that is emitted for the target, in order.
pub open spec fn are_items_for(mode: Mode, types: Seq<NamedType>, n: int, items: Seq<Item>) -> bool {
    &&& items.len() == selected_indices(mode, types, n).len()
    &&& forall|k: int|
        0 <= k < items.len() ==> is_item_for(
            mode,
            types[selected_indices(mode, types, n)[k]],
            #[trigger] items[k],
        )
}

/// An error among the first `n` named types is the error among the first
/// `m`, for every `m` from `n` on.
pub proof fn lemma_gen_datatypes_error_stays(mode: Mode, types: Seq<NamedType>, n: int, m: int)
    requires
        n <= m,
        gen_datatypes_error(mode, types, n) is Some,
    ensures
        gen_datatypes_error(mode, types, m) == gen_datatypes_error(mode, types, n),
    decreases m - n,
{
    if n < m {
        lemma_gen_datatypes_error_stays(mode, types, n, m - 1);
    }
}

/// Works out what to emit for the named types of an interface
/// description, for one target. It stops at the first type that is
/// emitted for the target and cannot be.
pub fn gen_datatypes(types: &Vec<NamedType>, mode: Mode) -> (r: Result<Vec<Item>, GenError>)
    ensures
        match gen_datatypes_error(mode, types@, types@.len() as int) {
            Some(e) => r == Err::<Vec<Item>, GenError>(e),
            None => r matches Ok(items) && are_items_for(
                mode,
                types@,
                types@.len() as int,
                items@,
            ),
        },
{
    let mut items: Vec<Item> = Vec::new();
    let mut i: usize = 0;
    while i < types.len()
        invariant
            i <= types@.len(),
            gen_datatypes_error(mode, types@, i as int) is None,
            are_items_for(mode, types@, i as int, items@),
        decreases types@.len() - i,
    {
        let namedtype = &types[i];
        if mode.include_target_types() == namedtype_has_target_size(namedtype) {
            match gen_datatype(mode, namedtype) {
                Ok(item) => {
                    items.push(item);
                },
                Err(e) => {
                    proof {
                        lemma_gen_datatypes_error_stays(
                            mode,
                            types@,
                            i as int + 1,
                            types@.len() as int,
                        );
                    }
                    return Err(e);
                },
            }
        }
        i = i + 1;
    }
    Ok(items)
}

/// A use of a type whose size does not depend on the target can be written
/// for every target, unless it is a type that cannot be written in place.
pub proof fn lemma_tref_tokens_without_target_size(mode: Mode, tref: TypeRef)
    requires
        !tref_has_target_size_spec(tref),
    ensures
        tref_tokens_spec(mode, tref) != Err::<TypeExprView, GenError>(GenError::TargetSpecificSize),
{
}

/// A use of a type can be written for the targets that have types of
/// their own, unless it is, or points to, a type that cannot be written
/// in place.
pub proof fn lemma_tref_tokens_with_target_types(mode: Mode, tref: TypeRef)
    requires
        mode.include_target_types_spec(),
    ensures
        tref_tokens_spec(mode, tref) != Err::<TypeExprView, GenError>(GenError::TargetSpecificSize),
    decreases tref,
{
    match tref {
        TypeRef::Name(_) => {},
        TypeRef::Value(t) => match *t {
            Type::Pointer(p) => {
                lemma_tref_tokens_with_target_types(mode, p);
            },
            Type::ConstPointer(p) => {
                lemma_tref_tokens_with_target_types(mode, p);
            },
            Type::Array(p) => {
                lemma_tref_tokens_with_target_types(mode, p);
            },
            _ => {},
        },
    }
}

/// Members of which none is refused for its size are not refused for
/// their size as a whole.
proof fn lemma_members_error_not_target_size(mode: Mode, members: Seq<Member>, n: int)
    requires
        n <= members.len(),
        forall|i: int|
            0 <= i < n ==> tref_tokens_spec(mode, #[trigger] members[i].tref) != Err::<
                TypeExprView,
                GenError,
            >(GenError::TargetSpecificSize),
    ensures
        members_error(mode, members, n) != Some(GenError::TargetSpecificSize),
    decreases n,
{
    if n > 0 {
        lemma_members_error_not_target_size(mode, members, n - 1);
    }
}

/// The choice of the types that are emitted for a target leaves out every
/// type that the target cannot hold: a type that is emitted for the target
/// is never refused because its size depends on the target.
pub proof fn lemma_selected_fits_target(mode: Mode, nt: NamedType)
    requires
        is_selected(mode, nt),
    ensures
        gen_datatype_error(mode, nt) != Some(GenError::TargetSpecificSize),
{
    if mode.include_target_types_spec() {
        match nt.tref {
            TypeRef::Name(alias_to) => {
                lemma_tref_tokens_with_target_types(mode, alias_to.tref);
            },
            TypeRef::Value(v) => {
                lemma_tref_tokens_with_target_types(mode, nt.tref);
                match *v {
                    Type::Struct(s) => {
                        assert forall|i: int| 0 <= i < s.members@.len() implies tref_tokens_spec(
                            mode,
                            #[trigger] s.members@[i].tref,
                        ) != Err::<TypeExprView, GenError>(GenError::TargetSpecificSize) by {
                            lemma_tref_tokens_with_target_types(mode, s.members@[i].tref);
                        }
                        lemma_members_error_not_target_size(
                            mode,
                            s.members@,
                            s.members@.len() as int,
                        );
                    },
                    Type::Union(u) => {
                        assert forall|i: int| 0 <= i < u.variants@.len() implies tref_tokens_spec(
                            mode,
                            #[trigger] u.variants@[i].tref,
                        ) != Err::<TypeExprView, GenError>(GenError::TargetSpecificSize) by {
                            lemma_tref_tokens_with_target_types(mode, u.variants@[i].tref);
                        }
                        lemma_members_error_not_target_size(
                            mode,
                            u.variants@,
                            u.variants@.len() as int,
                        );
                    },
                    _ => {},
                }
            },
        }
    } else {
        assert(!tref_has_target_size_spec(nt.tref));
        match nt.tref {
            TypeRef::Name(alias_to) => {
                assert(!namedtype_has_target_size_spec(*alias_to));
                assert(!tref_has_target_size_spec(alias_to.tref));
                lemma_tref_tokens_without_target_size(mode, alias_to.tref);
            },
            TypeRef::Value(v) => match *v {
                Type::Struct(s) => {
                    assert(!type_has_target_size_spec(*v));
                    assert forall|i: int| 0 <= i < s.members@.len() implies tref_tokens_spec(
                        mode,
                        #[trigger] s.members@[i].tref,
                    ) != Err::<TypeExprView, GenError>(GenError::TargetSpecificSize) by {
                        assert(!tref_has_target_size_spec(s.members@[i].tref));
                        lemma_tref_tokens_without_target_size(mode, s.members@[i].tref);
                    }
                    lemma_members_error_not_target_size(mode, s.members@, s.members@.len() as int);
                },
                Type::Union(u) => {
                    assert(!type_has_target_size_spec(*v));
                    assert forall|i: int| 0 <= i < u.variants@.len() implies tref_tokens_spec(
                        mode,
                        #[trigger] u.variants@[i].tref,
                    ) != Err::<TypeExprView, GenError>(GenError::TargetSpecificSize) by {
                        assert(!tref_has_target_size_spec(u.variants@[i].tref));
                        lemma_tref_tokens_without_target_size(mode, u.variants@[i].tref);
                    }
                    lemma_members_error_not_target_size(
                        mode,
                        u.variants@,
                        u.variants@.len() as int,
                    );
                },
                _ => {},
            },
        }
    }
}

/// Emitting the types of an interface description for a target never
/// fails because the size of a type depends on the target.
pub proof fn lemma_gen_datatypes_fits_target(mode: Mode, types: Seq<NamedType>, n: int)
    requires
        n <= types.len(),
    ensures
        gen_datatypes_error(mode, types, n) != Some(GenError::TargetSpecificSize),
    decreases n,
{
    if n > 0 {
        lemma_gen_datatypes_fits_target(mode, types, n - 1);
        if is_selected(mode, types[n - 1]) {
            lemma_selected_fits_target(mode, types[n - 1]);
        }
    }
}

} // verus!
