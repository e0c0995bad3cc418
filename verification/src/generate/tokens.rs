use vstd::prelude::*;
use crate::generate::error::GenError;
use crate::generate::mode::Mode;
use crate::generate::names::{camel_case, type_ident};
use crate::generate::schema::{BuiltinType, IntRepr, Type, TypeRef};

verus! {

/// A type as it is written in the emitted code.
#[derive(Debug)]
pub enum TypeExpr {
    U8,
    U16,
    U32,
    U64,
    I8,
    I16,
    I32,
    I64,
    F32,
    F64,
    Char,
    Usize,
    /// A type that was emitted under this name.
    Named(String),
    /// A host pointer through which the pointee can be changed.
    MutPtr(Box<TypeExpr>),
    /// A host pointer through which the pointee can only be read.
    ConstPtr(Box<TypeExpr>),
    /// A pair of two types.
    Pair(Box<TypeExpr>, Box<TypeExpr>),
    /// A pointer of the guest to a value of the type.
    GuestPtr(Box<TypeExpr>),
    /// A pointer of the guest to a run of values of the type: an offset
    /// and a length.
    GuestSlice(Box<TypeExpr>),
}

/// A `TypeExpr` with its name as a sequence of characters.
pub enum TypeExprView {
    U8,
    U16,
    U32,
    U64,
    I8,
    I16,
    I32,
    I64,
    F32,
    F64,
    Char,
    Usize,
    Named(Seq<char>),
    MutPtr(Box<TypeExprView>),
    ConstPtr(Box<TypeExprView>),
    Pair(Box<TypeExprView>, Box<TypeExprView>),
    GuestPtr(Box<TypeExprView>),
    GuestSlice(Box<TypeExprView>),
}

impl TypeExpr {
    /// The type expression with its names as sequences of characters.
    pub open spec fn shape(&self) -> TypeExprView
        decreases self,
    {
        match self {
            TypeExpr::U8 => TypeExprView::U8,
            TypeExpr::U16 => TypeExprView::U16,
            TypeExpr::U32 => TypeExprView::U32,
            TypeExpr::U64 => TypeExprView::U64,
            TypeExpr::I8 => TypeExprView::I8,
            TypeExpr::I16 => TypeExprView::I16,
            TypeExpr::I32 => TypeExprView::I32,
            TypeExpr::I64 => TypeExprView::I64,
            TypeExpr::F32 => TypeExprView::F32,
            TypeExpr::F64 => TypeExprView::F64,
            TypeExpr::Char => TypeExprView::Char,
            TypeExpr::Usize => TypeExprView::Usize,
            TypeExpr::Named(n) => TypeExprView::Named(n@),
            TypeExpr::MutPtr(p) => TypeExprView::MutPtr(Box::new(p.shape())),
            TypeExpr::ConstPtr(p) => TypeExprView::ConstPtr(Box::new(p.shape())),
            TypeExpr::Pair(a, b) => TypeExprView::Pair(Box::new(a.shape()), Box::new(b.shape())),
            TypeExpr::GuestPtr(p) => TypeExprView::GuestPtr(Box::new(p.shape())),
            TypeExpr::GuestSlice(p) => TypeExprView::GuestSlice(Box::new(p.shape())),
        }
    }
}

impl View for TypeExpr {
    type V = TypeExprView;

    open spec fn view(&self) -> TypeExprView {
        self.shape()
    }
}

/// The unsigned integer type of the emitted code for a representation.
pub open spec fn int_repr_tokens_spec(repr: IntRepr) -> TypeExprView {
    match repr {
        IntRepr::U8 => TypeExprView::U8,
        IntRepr::U16 => TypeExprView::U16,
        IntRepr::U32 => TypeExprView::U32,
        IntRepr::U64 => TypeExprView::U64,
    }
}

/// The type of the emitted code for a builtin type. A string is a run of
/// bytes: for the host a pair of pointer and length, for the 32-bit guest
/// a guest pointer to the bytes. A size is as wide as the pointers of the
/// target. The target that all guests share has neither.
pub open spec fn builtin_tokens_spec(mode: Mode, builtin: BuiltinType) -> Result<
    TypeExprView,
    GenError,
> {
    match builtin {
        BuiltinType::String => match mode {
            Mode::Host => Ok(
                TypeExprView::Pair(
                    Box::new(TypeExprView::ConstPtr(Box::new(TypeExprView::U8))),
                    Box::new(TypeExprView::Usize),
                ),
            ),
            Mode::Wasi => Err(GenError::TargetSpecificSize),
            Mode::Wasi32 => Ok(TypeExprView::GuestSlice(Box::new(TypeExprView::U8))),
        },
        BuiltinType::U8 => Ok(TypeExprView::U8),
        BuiltinType::U16 => Ok(TypeExprView::U16),
        BuiltinType::U32 => Ok(TypeExprView::U32),
        BuiltinType::U64 => Ok(TypeExprView::U64),
        BuiltinType::S8 => Ok(TypeExprView::I8),
        BuiltinType::S16 => Ok(TypeExprView::I16),
        BuiltinType::S32 => Ok(TypeExprView::I32),
        BuiltinType::S64 => Ok(TypeExprView::I64),
        BuiltinType::F32 => Ok(TypeExprView::F32),
        BuiltinType::F64 => Ok(TypeExprView::F64),
        BuiltinType::Char8 => Ok(TypeExprView::Char),
        BuiltinType::USize => match mode {
            Mode::Host => Ok(TypeExprView::Usize),
            Mode::Wasi => Err(GenError::TargetSpecificSize),
            Mode::Wasi32 => Ok(TypeExprView::U32),
        },
    }
}

/// The type of the emitted code for a use of a type.
///
/// A named type is written by its name. A builtin type is written out. A
/// pointer or an array is written as the target has it, once its pointee
/// or element could be written: for the host as a host pointer, with a
/// length for an array; for the 32-bit guest as a guest pointer to the
/// pointee, or to the run of elements. The target that all guests share
/// has neither. No other type can be written in place.
pub open spec fn tref_tokens_spec(mode: Mode, tref: TypeRef) -> Result<TypeExprView, GenError>
    decreases tref,
{
    match tref {
        TypeRef::Name(nt) => Ok(TypeExprView::Named(camel_case(nt.name@))),
        TypeRef::Value(t) => match *t {
            Type::Builtin(b) => builtin_tokens_spec(mode, b),
            Type::Pointer(pointee) => match tref_tokens_spec(mode, pointee) {
                Err(e) => Err(e),
                Ok(p) => match mode {
                    Mode::Host => Ok(TypeExprView::MutPtr(Box::new(p))),
                    Mode::Wasi => Err(GenError::TargetSpecificSize),
                    Mode::Wasi32 => Ok(TypeExprView::GuestPtr(Box::new(p))),
                },
            },
            Type::ConstPointer(pointee) => match tref_tokens_spec(mode, pointee) {
                Err(e) => Err(e),
                Ok(p) => match mode {
                    Mode::Host => Ok(TypeExprView::ConstPtr(Box::new(p))),
                    Mode::Wasi => Err(GenError::TargetSpecificSize),
                    Mode::Wasi32 => Ok(TypeExprView::GuestPtr(Box::new(p))),
                },
            },
            Type::Array(element) => match tref_tokens_spec(mode, element) {
                Err(e) => Err(e),
                Ok(el) => match mode {
                    Mode::Host => Ok(
                        TypeExprView::Pair(
                            Box::new(TypeExprView::ConstPtr(Box::new(el))),
                            Box::new(TypeExprView::Usize),
                        ),
                    ),
                    Mode::Wasi => Err(GenError::TargetSpecificSize),
                    Mode::Wasi32 => Ok(TypeExprView::GuestSlice(Box::new(el))),
                },
            },
            _ => Err(GenError::AnonymousType),
        },
    }
}

/// What `r` says, with names as sequences of characters.
pub open spec fn tokens_view(r: Result<TypeExpr, GenError>) -> Result<TypeExprView, GenError> {
    match r {
        Ok(t) => Ok(t@),
        Err(e) => Err(e),
    }
}

pub fn int_repr_tokens(int_repr: IntRepr) -> (t: TypeExpr)
    ensures
        t@ == int_repr_tokens_spec(int_repr),
{
    match int_repr {
        IntRepr::U8 => TypeExpr::U8,
        IntRepr::U16 => TypeExpr::U16,
        IntRepr::U32 => TypeExpr::U32,
        IntRepr::U64 => TypeExpr::U64,
    }
}

pub fn builtin_tokens(mode: Mode, builtin: BuiltinType) -> (r: Result<TypeExpr, GenError>)
    ensures
        tokens_view(r) == builtin_tokens_spec(mode, builtin),
{
    proof {
        reveal_with_fuel(TypeExpr::shape, 4);
    }
    match builtin {
        BuiltinType::String => match mode {
            Mode::Host => Ok(
                TypeExpr::Pair(
                    Box::new(TypeExpr::ConstPtr(Box::new(TypeExpr::U8))),
                    Box::new(TypeExpr::Usize),
                ),
            ),
            Mode::Wasi => Err(GenError::TargetSpecificSize),
            Mode::Wasi32 => Ok(TypeExpr::GuestSlice(Box::new(TypeExpr::U8))),
        },
        BuiltinType::U8 => Ok(TypeExpr::U8),
        BuiltinType::U16 => Ok(TypeExpr::U16),
        BuiltinType::U32 => Ok(TypeExpr::U32),
        BuiltinType::U64 => Ok(TypeExpr::U64),
        BuiltinType::S8 => Ok(TypeExpr::I8),
        BuiltinType::S16 => Ok(TypeExpr::I16),
        BuiltinType::S32 => Ok(TypeExpr::I32),
        BuiltinType::S64 => Ok(TypeExpr::I64),
        BuiltinType::F32 => Ok(TypeExpr::F32),
        BuiltinType::F64 => Ok(TypeExpr::F64),
        BuiltinType::Char8 => Ok(TypeExpr::Char),
        BuiltinType::USize => match mode {
            Mode::Host => Ok(TypeExpr::Usize),
            Mode::Wasi => Err(GenError::TargetSpecificSize),
            Mode::Wasi32 => Ok(TypeExpr::U32),
        },
    }
}

pub fn tref_tokens(mode: Mode, tref: &TypeRef) -> (r: Result<TypeExpr, GenError>)
    ensures
        tokens_view(r) == tref_tokens_spec(mode, *tref),
    decreases tref,
{
    proof {
        reveal_with_fuel(TypeExpr::shape, 4);
    }
    match tref {
        TypeRef::Name(n) => Ok(TypeExpr::Named(type_ident(n.name.as_str()))),
        TypeRef::Value(v) => match &**v {
            Type::Builtin(b) => builtin_tokens(mode, *b),
            Type::Pointer(pointee) => {
                let pointee = match tref_tokens(mode, pointee) {
                    Ok(p) => p,
                    Err(e) => { return Err(e); },
                };
                match mode {
                    Mode::Host => Ok(TypeExpr::MutPtr(Box::new(pointee))),
                    Mode::Wasi => Err(GenError::TargetSpecificSize),
                    Mode::Wasi32 => Ok(TypeExpr::GuestPtr(Box::new(pointee))),
                }
            },
            Type::ConstPointer(pointee) => {
                let pointee = match tref_tokens(mode, pointee) {
                    Ok(p) => p,
                    Err(e) => { return Err(e); },
                };
                match mode {
                    Mode::Host => Ok(TypeExpr::ConstPtr(Box::new(pointee))),
                    Mode::Wasi => Err(GenError::TargetSpecificSize),
                    Mode::Wasi32 => Ok(TypeExpr::GuestPtr(Box::new(pointee))),
                }
            },
            Type::Array(element) => {
                let element_name = match tref_tokens(mode, element) {
                    Ok(p) => p,
                    Err(e) => { return Err(e); },
                };
                match mode {
                    Mode::Host => Ok(
                        TypeExpr::Pair(
                            Box::new(TypeExpr::ConstPtr(Box::new(element_name))),
                            Box::new(TypeExpr::Usize),
                        ),
                    ),
                    Mode::Wasi => Err(GenError::TargetSpecificSize),
                    Mode::Wasi32 => Ok(TypeExpr::GuestSlice(Box::new(element_name))),
                }
            },
            _ => Err(GenError::AnonymousType),
        },
    }
}

} // verus!
