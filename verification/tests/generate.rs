use wiggle::generate::datatypes::{gen_datatype, gen_datatypes, Item};
use wiggle::generate::enums::{define_enum, EnumValue};
use wiggle::generate::error::GenError;
use wiggle::generate::flags::{define_flags, Flags};
use wiggle::generate::handle::{define_handle, Handle};
use wiggle::generate::layout::{
    align_to, member_layout, record_layout, tref_layout, type_layout, union_layout, SizeAlign,
};
use wiggle::generate::mode::Mode;
use wiggle::generate::names::{
    enum_variant_name, flag_member_name, int_member_name, pick_variant_name, type_ident,
};
use wiggle::generate::repr::AtomType;
use wiggle::generate::schema::{
    is_size_type_name, namedtype_has_target_size, struct_has_union, tref_has_target_size,
    tref_has_union, type_has_target_size, BuiltinType, EnumDatatype, FlagsDatatype,
    HandleDatatype, IntConst, IntDatatype, IntRepr, Member, NamedType, StructDatatype, Type,
    TypeRef, UnionDatatype,
};
use wiggle::generate::tagged_int::{define_int, TaggedInt};
use wiggle::generate::tokens::{builtin_tokens, int_repr_tokens, tref_tokens, TypeExpr};
use wiggle::{GuestError, GuestPtr, HostMemory, Region};

fn builtin(b: BuiltinType) -> TypeRef {
    TypeRef::Value(Box::new(Type::Builtin(b)))
}

fn named(name: &str, tref: TypeRef) -> NamedType {
    NamedType { name: name.to_string(), tref }
}

fn by_name(name: &str, tref: TypeRef) -> TypeRef {
    TypeRef::Name(Box::new(named(name, tref)))
}

fn member(name: &str, tref: TypeRef) -> Member {
    Member { name: name.to_string(), tref }
}

fn record(members: Vec<Member>) -> TypeRef {
    TypeRef::Value(Box::new(Type::Struct(StructDatatype { members })))
}

fn union(variants: Vec<Member>) -> TypeRef {
    TypeRef::Value(Box::new(Type::Union(UnionDatatype { variants })))
}

fn flags(repr: IntRepr, names: &[&str]) -> FlagsDatatype {
    FlagsDatatype { repr, flags: names.iter().map(|s| s.to_string()).collect() }
}

fn enumeration(repr: IntRepr, names: &[&str]) -> EnumDatatype {
    EnumDatatype { repr, variants: names.iter().map(|s| s.to_string()).collect() }
}

fn show(t: &TypeExpr) -> String {
    match t {
        TypeExpr::U8 => "u8".to_string(),
        TypeExpr::U16 => "u16".to_string(),
        TypeExpr::U32 => "u32".to_string(),
        TypeExpr::U64 => "u64".to_string(),
        TypeExpr::I8 => "i8".to_string(),
        TypeExpr::I16 => "i16".to_string(),
        TypeExpr::I32 => "i32".to_string(),
        TypeExpr::I64 => "i64".to_string(),
        TypeExpr::F32 => "f32".to_string(),
        TypeExpr::F64 => "f64".to_string(),
        TypeExpr::Char => "char".to_string(),
        TypeExpr::Usize => "usize".to_string(),
        TypeExpr::Named(n) => n.clone(),
        TypeExpr::MutPtr(p) => format!("*mut {}", show(p)),
        TypeExpr::ConstPtr(p) => format!("*const {}", show(p)),
        TypeExpr::Pair(a, b) => format!("({}, {})", show(a), show(b)),
        TypeExpr::GuestPtr(p) => format!("GuestPtr<{}>", show(p)),
        TypeExpr::GuestSlice(p) => format!("GuestPtr<[{}]>", show(p)),
    }
}

fn shown(r: Result<TypeExpr, GenError>) -> Result<String, GenError> {
    r.map(|t| show(&t))
}

#[test]
fn mode_include_target_types() {
    assert!(Mode::Host.include_target_types());
    assert!(Mode::Wasi32.include_target_types());
    assert!(!Mode::Wasi.include_target_types());
}

#[test]
fn names_follow_the_case_conventions() {
    assert_eq!(type_ident("car_config"), "CarConfig");
    assert_eq!(type_ident("errno"), "Errno");
    assert_eq!(flag_member_name("fd_datasync"), "FD_DATASYNC");
    assert_eq!(flag_member_name("automatic"), "AUTOMATIC");
    assert_eq!(int_member_name("start"), "START");
    assert_eq!(enum_variant_name("excuse", "dog_ate"), "DogAte");
    assert_eq!(enum_variant_name("excuse", "sleeping"), "Sleeping");
}

#[test]
fn names_of_error_codes_are_prefixed() {
    assert_eq!(enum_variant_name("errno", "invalid_arg"), "EinvalidArg");
    assert_eq!(enum_variant_name("errno", "ok"), "Eok");
    assert_eq!(enum_variant_name("errno", "2big"), "E2big");
    assert_eq!(enum_variant_name("errno2", "ok"), "Ok");
    assert_eq!(
        pick_variant_name(true, "Camel".to_string(), "mixed".to_string()),
        "Emixed"
    );
    assert_eq!(
        pick_variant_name(false, "Camel".to_string(), "mixed".to_string()),
        "Camel"
    );
}

#[test]
fn flags_get_one_bit_each() {
    let f = flags(IntRepr::U8, &["automatic", "awd", "suv"]);
    let def = define_flags("car_config", &f).expect("three flags fit");
    assert_eq!(def.name, "CarConfig");
    assert_eq!(def.repr, IntRepr::U8);
    assert_eq!(def.abi, AtomType::I32);
    let members: Vec<(&str, u64)> =
        def.members.iter().map(|m| (m.name.as_str(), m.value)).collect();
    assert_eq!(members, vec![("AUTOMATIC", 1), ("AWD", 2), ("SUV", 4)]);
    assert_eq!(def.all_flags, 0b111);
    assert_eq!(def.all_flags(), Flags { bits: 7 });
    assert_eq!(def.empty_flags(), Flags { bits: 0 });
}

#[test]
fn flags_of_a_wide_set() {
    let names: Vec<String> = (0..64).map(|i| format!("f{}", i)).collect();
    let refs: Vec<&str> = names.iter().map(|s| s.as_str()).collect();
    let def = define_flags("wide", &flags(IntRepr::U64, &refs)).expect("64 flags fit");
    assert_eq!(def.abi, AtomType::I64);
    assert_eq!(def.members.len(), 64);
    assert_eq!(def.members[63].value, 1u64 << 63);
    assert_eq!(def.all_flags, u64::MAX);
    let none = define_flags("none", &flags(IntRepr::U16, &[])).expect("no flags fit");
    assert_eq!(none.all_flags, 0);
    assert_eq!(none.try_from(0), Ok(Flags { bits: 0 }));
    assert_eq!(
        none.try_from(1),
        Err(GuestError::InvalidFlagValue("None".to_string()))
    );
}

#[test]
fn flags_overflow() {
    let names: Vec<String> = (0..65).map(|i| format!("f{}", i)).collect();
    let refs: Vec<&str> = names.iter().map(|s| s.as_str()).collect();
    assert_eq!(
        define_flags("wide", &flags(IntRepr::U64, &refs)).map(|d| d.all_flags),
        Err(GenError::FlagOverflow)
    );
}

#[test]
fn flags_try_from_accepts_subsets_of_the_mask() {
    let def = define_flags("car_config", &flags(IntRepr::U8, &["a", "b", "c"])).unwrap();
    for x in 0u64..=255 {
        let r = def.try_from(x);
        if x & !0b111 == 0 {
            assert_eq!(r, Ok(Flags { bits: x }));
        } else {
            assert_eq!(r, Err(GuestError::InvalidFlagValue("CarConfig".to_string())));
        }
    }
    assert_eq!(
        def.try_from(256),
        Err(GuestError::InvalidFlagValue("CarConfig".to_string()))
    );
}

#[test]
fn flags_try_from_abi_takes_the_bits_of_the_representation() {
    let def = define_flags("car_config", &flags(IntRepr::U8, &["a", "b", "c"])).unwrap();
    assert_eq!(def.try_from_abi(5), Ok(Flags { bits: 5 }));
    assert_eq!(def.try_from_abi(0x105), Ok(Flags { bits: 5 }));
    assert!(def.try_from_abi(-1).is_err());
    assert!(def.try_from_abi(8).is_err());
}

#[test]
fn flags_operators() {
    let def = define_flags("car_config", &flags(IntRepr::U8, &["a", "b", "c"])).unwrap();
    let a = Flags { bits: 0b0101 };
    let b = Flags { bits: 0b0011 };
    assert_eq!(a.and(b), Flags { bits: 0b0001 });
    assert_eq!(a.or(b), Flags { bits: 0b0111 });
    assert_eq!(a.xor(b), Flags { bits: 0b0110 });
    assert_eq!(def.not(a), Flags { bits: 0b1111_1010 });
    let mut c = a;
    c.and_assign(b);
    assert_eq!(c, Flags { bits: 0b0001 });
    let mut c = a;
    c.or_assign(b);
    assert_eq!(c, Flags { bits: 0b0111 });
    let mut c = a;
    c.xor_assign(b);
    assert_eq!(c, Flags { bits: 0b0110 });
    let wide = define_flags("wide", &flags(IntRepr::U64, &["a"])).unwrap();
    assert_eq!(wide.not(Flags { bits: 1 }), Flags { bits: u64::MAX - 1 });
}

#[test]
fn flags_contains() {
    let a = Flags { bits: 0b0101 };
    assert!(a.contains(&Flags { bits: 0b0100 }));
    assert!(a.contains(&Flags { bits: 0b0101 }));
    assert!(!a.contains(&Flags { bits: 0b0010 }));
    assert!(!a.contains(&Flags { bits: 0b0111 }));
    // the empty set is contained in every set
    assert!(a.contains(&Flags { bits: 0 }));
    assert!(Flags { bits: 0 }.contains(&Flags { bits: 0 }));
}

#[test]
fn flags_read_and_write() {
    let def = define_flags("car_config", &flags(IntRepr::U8, &["a", "b", "c"])).unwrap();
    let mut mem = HostMemory::new();
    let ptr: GuestPtr<Flags> = GuestPtr::new(9);
    assert_eq!(def.write(&mut mem, &ptr, Flags { bits: 0b110 }), Ok(()));
    assert_eq!(def.read(&mem, &ptr), Ok(Flags { bits: 0b110 }));
    // a value with a bit outside the mask can be written, and is refused when read
    assert_eq!(def.write(&mut mem, &ptr, def.not(Flags { bits: 1 })), Ok(()));
    assert_eq!(
        def.read(&mem, &ptr),
        Err(GuestError::InvalidFlagValue("CarConfig".to_string()))
    );
    let out: GuestPtr<Flags> = GuestPtr::new(4096);
    assert_eq!(
        def.read(&mem, &out),
        Err(GuestError::PtrOutOfBounds(Region::new(4096, 1)))
    );
    let wide = define_flags("wide", &flags(IntRepr::U32, &["a", "b"])).unwrap();
    let odd: GuestPtr<Flags> = GuestPtr::new(2);
    assert_eq!(
        wide.write(&mut mem, &odd, Flags { bits: 1 }),
        Err(GuestError::PtrNotAligned(Region::new(2, 4), 4))
    );
}

#[test]
fn enum_variants_keep_their_order() {
    let e = enumeration(IntRepr::U8, &["dog_ate", "traffic", "sleeping"]);
    let def = define_enum("excuse", &e);
    assert_eq!(def.name, "Excuse");
    assert_eq!(def.repr, IntRepr::U8);
    assert_eq!(def.abi, AtomType::I32);
    assert_eq!(def.variants, vec!["DogAte", "Traffic", "Sleeping"]);
    assert_eq!(
        def.variant_name(EnumValue { ordinal: 2 }).map(|s| s.as_str()),
        Some("Sleeping")
    );
    assert_eq!(def.variant_name(EnumValue { ordinal: 3 }), None);
    let errno = define_enum("errno", &enumeration(IntRepr::U16, &["ok", "invalid_arg"]));
    assert_eq!(errno.variants, vec!["Eok", "EinvalidArg"]);
}

#[test]
fn enum_try_from_accepts_ordinals() {
    let def = define_enum("excuse", &enumeration(IntRepr::U8, &["a", "b", "c"]));
    for x in 0u64..=255 {
        let r = def.try_from(x);
        if x < 3 {
            assert_eq!(r, Ok(EnumValue { ordinal: x }));
        } else {
            assert_eq!(r, Err(GuestError::InvalidEnumValue("Excuse".to_string())));
        }
    }
    let none = define_enum("never", &enumeration(IntRepr::U32, &[]));
    assert_eq!(
        none.try_from(0),
        Err(GuestError::InvalidEnumValue("Never".to_string()))
    );
    assert_eq!(def.try_from_abi(2), Ok(EnumValue { ordinal: 2 }));
    assert_eq!(def.try_from_abi(0x102), Ok(EnumValue { ordinal: 2 }));
    assert!(def.try_from_abi(-1).is_err());
}

#[test]
fn enum_with_more_variants_than_the_representation_has_values() {
    let names: Vec<String> = (0..300).map(|i| format!("v{}", i)).collect();
    let refs: Vec<&str> = names.iter().map(|s| s.as_str()).collect();
    let def = define_enum("many", &enumeration(IntRepr::U8, &refs));
    assert_eq!(def.try_from(255), Ok(EnumValue { ordinal: 255 }));
    assert_eq!(
        def.try_from(256),
        Err(GuestError::InvalidEnumValue("Many".to_string()))
    );
}

#[test]
fn enum_read_and_write() {
    let def = define_enum("excuse", &enumeration(IntRepr::U32, &["a", "b", "c"]));
    let mut mem = HostMemory::new();
    let ptr: GuestPtr<EnumValue> = GuestPtr::new(12);
    assert_eq!(def.write(&mut mem, &ptr, EnumValue { ordinal: 2 }), Ok(()));
    assert_eq!(def.read(&mem, &ptr), Ok(EnumValue { ordinal: 2 }));
    assert_eq!(GuestPtr::<u32>::new(12).read(&mem), Ok(2));
    assert_eq!(GuestPtr::<u32>::new(12).write(&mut mem, 3), Ok(()));
    assert_eq!(
        def.read(&mem, &ptr),
        Err(GuestError::InvalidEnumValue("Excuse".to_string()))
    );
    let odd: GuestPtr<EnumValue> = GuestPtr::new(13);
    assert_eq!(
        def.read(&mem, &odd),
        Err(GuestError::PtrNotAligned(Region::new(13, 4), 4))
    );
}

#[test]
fn tagged_int_takes_every_value() {
    let i = IntDatatype {
        repr: IntRepr::U64,
        consts: vec![
            IntConst { name: "start".to_string(), value: 0 },
            IntConst { name: "the_end".to_string(), value: 900 },
        ],
    };
    let def = define_int("cookie", &i);
    assert_eq!(def.name, "Cookie");
    assert_eq!(def.repr, IntRepr::U64);
    assert_eq!(def.abi, AtomType::I64);
    let consts: Vec<(&str, u64)> =
        def.consts.iter().map(|c| (c.name.as_str(), c.value)).collect();
    assert_eq!(consts, vec![("START", 0), ("THE_END", 900)]);
    assert_eq!(def.try_from(u64::MAX), Ok(TaggedInt { value: u64::MAX }));
    assert_eq!(def.try_from_abi(-1), Ok(TaggedInt { value: u64::MAX }));
    let narrow = define_int("small", &IntDatatype { repr: IntRepr::U8, consts: vec![] });
    assert_eq!(narrow.abi, AtomType::I32);
    assert_eq!(narrow.try_from(0x1ff), Ok(TaggedInt { value: 0xff }));
    assert_eq!(narrow.try_from_abi(-2), Ok(TaggedInt { value: 0xfe }));
    let mut mem = HostMemory::new();
    let ptr: GuestPtr<TaggedInt> = GuestPtr::new(16);
    assert_eq!(def.write(&mut mem, &ptr, TaggedInt { value: 900 }), Ok(()));
    assert_eq!(def.read(&mem, &ptr), Ok(TaggedInt { value: 900 }));
    assert_eq!(narrow.read(&mem, &ptr), Ok(TaggedInt { value: 900 & 0xff }));
}

#[test]
fn handle_is_a_u32() {
    let def = define_handle("fd", &HandleDatatype {});
    assert_eq!(def.name, "Fd");
    assert_eq!(def.size, 4);
    assert_eq!(def.align, 4);
    assert_eq!(Handle::from_u32(7).to_u32(), 7);
    assert_eq!(Handle::from_i32(-1).to_u32(), u32::MAX);
    assert_eq!(Handle::from_u32(u32::MAX).to_i32(), -1);
    assert_eq!(Handle::from_i32(i32::MIN).to_i32(), i32::MIN);
    let mut mem = HostMemory::new();
    let ptr: GuestPtr<Handle> = GuestPtr::new(20);
    assert_eq!(ptr.write(&mut mem, Handle::from_u32(0xdead_beef)), Ok(()));
    assert_eq!(ptr.read(&mem), Ok(Handle { raw: 0xdead_beef }));
    assert_eq!(GuestPtr::<u8>::new(20).read(&mem), Ok(0xef));
    let odd: GuestPtr<Handle> = GuestPtr::new(21);
    assert_eq!(
        odd.read(&mem),
        Err(GuestError::PtrNotAligned(Region::new(21, 4), 4))
    );
}

#[test]
fn tokens_of_integer_representations() {
    assert_eq!(show(&int_repr_tokens(IntRepr::U8)), "u8");
    assert_eq!(show(&int_repr_tokens(IntRepr::U16)), "u16");
    assert_eq!(show(&int_repr_tokens(IntRepr::U32)), "u32");
    assert_eq!(show(&int_repr_tokens(IntRepr::U64)), "u64");
}

#[test]
fn tokens_of_builtin_types() {
    let all = [
        (BuiltinType::U8, "u8"),
        (BuiltinType::U16, "u16"),
        (BuiltinType::U32, "u32"),
        (BuiltinType::U64, "u64"),
        (BuiltinType::S8, "i8"),
        (BuiltinType::S16, "i16"),
        (BuiltinType::S32, "i32"),
        (BuiltinType::S64, "i64"),
        (BuiltinType::F32, "f32"),
        (BuiltinType::F64, "f64"),
        (BuiltinType::Char8, "char"),
    ];
    for mode in [Mode::Host, Mode::Wasi32, Mode::Wasi] {
        for (b, s) in all.iter() {
            assert_eq!(shown(builtin_tokens(mode, *b)), Ok(s.to_string()));
        }
    }
    assert_eq!(shown(builtin_tokens(Mode::Host, BuiltinType::USize)), Ok("usize".to_string()));
    assert_eq!(shown(builtin_tokens(Mode::Wasi32, BuiltinType::USize)), Ok("u32".to_string()));
    assert_eq!(
        shown(builtin_tokens(Mode::Wasi, BuiltinType::USize)),
        Err(GenError::TargetSpecificSize)
    );
    assert_eq!(
        shown(builtin_tokens(Mode::Host, BuiltinType::String)),
        Ok("(*const u8, usize)".to_string())
    );
    assert_eq!(
        shown(builtin_tokens(Mode::Wasi32, BuiltinType::String)),
        Ok("GuestPtr<[u8]>".to_string())
    );
    assert_eq!(
        shown(builtin_tokens(Mode::Wasi, BuiltinType::String)),
        Err(GenError::TargetSpecificSize)
    );
}

#[test]
fn tokens_of_type_references() {
    let excuse = by_name(
        "the_excuse",
        TypeRef::Value(Box::new(Type::Enum(enumeration(IntRepr::U8, &["a"])))),
    );
    assert_eq!(shown(tref_tokens(Mode::Wasi, &excuse)), Ok("TheExcuse".to_string()));
    let ptr = TypeRef::Value(Box::new(Type::Pointer(by_name("the_excuse", builtin(BuiltinType::U8)))));
    assert_eq!(shown(tref_tokens(Mode::Host, &ptr)), Ok("*mut TheExcuse".to_string()));
    assert_eq!(
        shown(tref_tokens(Mode::Wasi32, &ptr)),
        Ok("GuestPtr<TheExcuse>".to_string())
    );
    assert_eq!(shown(tref_tokens(Mode::Wasi, &ptr)), Err(GenError::TargetSpecificSize));
    let cptr = TypeRef::Value(Box::new(Type::ConstPointer(builtin(BuiltinType::S64))));
    assert_eq!(shown(tref_tokens(Mode::Host, &cptr)), Ok("*const i64".to_string()));
    assert_eq!(shown(tref_tokens(Mode::Wasi32, &cptr)), Ok("GuestPtr<i64>".to_string()));
    let arr = TypeRef::Value(Box::new(Type::Array(builtin(BuiltinType::U16))));
    assert_eq!(
        shown(tref_tokens(Mode::Host, &arr)),
        Ok("(*const u16, usize)".to_string())
    );
    assert_eq!(shown(tref_tokens(Mode::Wasi32, &arr)), Ok("GuestPtr<[u16]>".to_string()));
    assert_eq!(shown(tref_tokens(Mode::Wasi, &arr)), Err(GenError::TargetSpecificSize));
    let anon = TypeRef::Value(Box::new(Type::Handle(HandleDatatype {})));
    assert_eq!(shown(tref_tokens(Mode::Host, &anon)), Err(GenError::AnonymousType));
    // the pointee is looked at before the pointer
    let ptr_to_anon = TypeRef::Value(Box::new(Type::Pointer(TypeRef::Value(Box::new(
        Type::Handle(HandleDatatype {}),
    )))));
    assert_eq!(shown(tref_tokens(Mode::Wasi, &ptr_to_anon)), Err(GenError::AnonymousType));
    let ptr_to_str = TypeRef::Value(Box::new(Type::Pointer(builtin(BuiltinType::String))));
    assert_eq!(
        shown(tref_tokens(Mode::Host, &ptr_to_str)),
        Ok("*mut (*const u8, usize)".to_string())
    );
    assert_eq!(
        shown(tref_tokens(Mode::Wasi32, &ptr_to_str)),
        Ok("GuestPtr<GuestPtr<[u8]>>".to_string())
    );
}

#[test]
fn target_size_of_types() {
    assert!(is_size_type_name(&"size".to_string()));
    assert!(!is_size_type_name(&"sizes".to_string()));
    assert!(type_has_target_size(&Type::Builtin(BuiltinType::String)));
    assert!(!type_has_target_size(&Type::Builtin(BuiltinType::U32)));
    assert!(type_has_target_size(&Type::Builtin(BuiltinType::USize)));
    assert!(type_has_target_size(&Type::Pointer(builtin(BuiltinType::U8))));
    assert!(type_has_target_size(&Type::ConstPointer(builtin(BuiltinType::U8))));
    assert!(type_has_target_size(&Type::Array(builtin(BuiltinType::U8))));
    assert!(!type_has_target_size(&Type::Handle(HandleDatatype {})));
    assert!(namedtype_has_target_size(&named("size", builtin(BuiltinType::U32))));
    assert!(!namedtype_has_target_size(&named("count", builtin(BuiltinType::U32))));
    assert!(tref_has_target_size(&by_name("size", builtin(BuiltinType::U32))));
    assert!(tref_has_target_size(&by_name(
        "len",
        by_name("size", builtin(BuiltinType::U32))
    )));
    let plain = record(vec![
        member("a", builtin(BuiltinType::U8)),
        member("b", builtin(BuiltinType::F64)),
    ]);
    assert!(!tref_has_target_size(&plain));
    let with_ptr = record(vec![
        member("a", builtin(BuiltinType::U8)),
        member("b", record(vec![member("p", builtin(BuiltinType::String))])),
    ]);
    assert!(tref_has_target_size(&with_ptr));
    let un = union(vec![
        member("a", builtin(BuiltinType::U8)),
        member("n", by_name("size", builtin(BuiltinType::U32))),
    ]);
    assert!(tref_has_target_size(&un));
    assert!(!tref_has_target_size(&union(vec![])));
}

#[test]
fn unions_inside_records() {
    let un = || union(vec![member("a", builtin(BuiltinType::U8))]);
    assert!(!struct_has_union(&StructDatatype { members: vec![] }));
    assert!(!struct_has_union(&StructDatatype {
        members: vec![member("a", builtin(BuiltinType::U8))]
    }));
    assert!(struct_has_union(&StructDatatype { members: vec![member("u", un())] }));
    assert!(struct_has_union(&StructDatatype {
        members: vec![
            member("a", builtin(BuiltinType::U8)),
            member("r", by_name("inner", record(vec![member("u", by_name("un", un()))]))),
        ]
    }));
    assert!(tref_has_union(&un()));
    assert!(!tref_has_union(&builtin(BuiltinType::U8)));
    // a pointer to a union is no union
    assert!(!struct_has_union(&StructDatatype {
        members: vec![member("p", TypeRef::Value(Box::new(Type::Pointer(un()))))]
    }));
}

#[test]
fn gen_datatype_of_each_kind() {
    let e = named(
        "excuse",
        TypeRef::Value(Box::new(Type::Enum(enumeration(IntRepr::U8, &["dog_ate"])))),
    );
    match gen_datatype(Mode::Wasi, &e) {
        Ok(Item::Enum(d)) => {
            assert_eq!(d.name, "Excuse");
            assert_eq!(d.variants, vec!["DogAte"]);
        }
        other => panic!("{:?}", other),
    }
    let f = named(
        "car_config",
        TypeRef::Value(Box::new(Type::Flags(flags(IntRepr::U8, &["automatic", "awd"])))),
    );
    match gen_datatype(Mode::Wasi, &f) {
        Ok(Item::Flags(d)) => {
            assert_eq!(d.name, "CarConfig");
            assert_eq!(d.all_flags, 3);
        }
        other => panic!("{:?}", other),
    }
    let i = named(
        "cookie",
        TypeRef::Value(Box::new(Type::Int(IntDatatype { repr: IntRepr::U64, consts: vec![] }))),
    );
    match gen_datatype(Mode::Wasi, &i) {
        Ok(Item::Int(d)) => assert_eq!(d.name, "Cookie"),
        other => panic!("{:?}", other),
    }
    let h = named("fd", TypeRef::Value(Box::new(Type::Handle(HandleDatatype {}))));
    match gen_datatype(Mode::Wasi, &h) {
        Ok(Item::Handle(d)) => {
            assert_eq!(d.name, "Fd");
            assert_eq!((d.size, d.align), (4, 4));
        }
        other => panic!("{:?}", other),
    }
    let b = named("my_count", builtin(BuiltinType::S16));
    match gen_datatype(Mode::Wasi, &b) {
        Ok(Item::Alias(d)) => {
            assert_eq!(d.name, "MyCount");
            assert_eq!(show(&d.target), "i16");
        }
        other => panic!("{:?}", other),
    }
}

#[test]
fn gen_datatype_of_flags_with_too_many_members() {
    let names: Vec<String> = (0..65).map(|i| format!("f{}", i)).collect();
    let refs: Vec<&str> = names.iter().map(|s| s.as_str()).collect();
    let f = named("wide", TypeRef::Value(Box::new(Type::Flags(flags(IntRepr::U64, &refs)))));
    assert!(matches!(gen_datatype(Mode::Wasi, &f), Err(GenError::FlagOverflow)));
}

#[test]
fn gen_datatype_of_records_and_unions() {
    let pair = named(
        "pair_ints",
        record(vec![
            member("first", builtin(BuiltinType::S32)),
            member("second", by_name("my_int", builtin(BuiltinType::S32))),
        ]),
    );
    match gen_datatype(Mode::Wasi, &pair) {
        Ok(Item::Record(d)) => {
            assert_eq!(d.name, "PairInts");
            assert!(d.comparable);
            let fields: Vec<(String, String)> =
                d.fields.iter().map(|f| (f.name.clone(), show(&f.ty))).collect();
            assert_eq!(
                fields,
                vec![
                    ("first".to_string(), "i32".to_string()),
                    ("second".to_string(), "MyInt".to_string())
                ]
            );
        }
        other => panic!("{:?}", other),
    }
    let un = named(
        "either",
        union(vec![
            member("small", builtin(BuiltinType::U8)),
            member("big", builtin(BuiltinType::U64)),
        ]),
    );
    match gen_datatype(Mode::Wasi, &un) {
        Ok(Item::Union(d)) => {
            assert_eq!(d.name, "Either");
            let arms: Vec<(String, String)> =
                d.arms.iter().map(|f| (f.name.clone(), show(&f.ty))).collect();
            assert_eq!(
                arms,
                vec![
                    ("small".to_string(), "u8".to_string()),
                    ("big".to_string(), "u64".to_string())
                ]
            );
        }
        other => panic!("{:?}", other),
    }
    let holder = named(
        "holder",
        record(vec![member(
            "e",
            by_name("either", union(vec![member("small", builtin(BuiltinType::U8))])),
        )]),
    );
    match gen_datatype(Mode::Wasi, &holder) {
        Ok(Item::Record(d)) => assert!(!d.comparable),
        other => panic!("{:?}", other),
    }
    // the first field that cannot be written decides the error
    let bad = named(
        "bad",
        record(vec![
            member("ok", builtin(BuiltinType::U8)),
            member("anon", TypeRef::Value(Box::new(Type::Handle(HandleDatatype {})))),
            member("text", builtin(BuiltinType::String)),
        ]),
    );
    assert!(matches!(gen_datatype(Mode::Wasi, &bad), Err(GenError::AnonymousType)));
    let bad = named(
        "bad",
        record(vec![
            member("text", builtin(BuiltinType::String)),
            member("anon", TypeRef::Value(Box::new(Type::Handle(HandleDatatype {})))),
        ]),
    );
    assert!(matches!(gen_datatype(Mode::Wasi, &bad), Err(GenError::TargetSpecificSize)));
}

#[test]
fn gen_datatype_of_names_for_other_types() {
    // a name for a named type stands for what that type is defined as
    let alias = named("my_len", by_name("length", builtin(BuiltinType::U32)));
    match gen_datatype(Mode::Wasi, &alias) {
        Ok(Item::Alias(d)) => {
            assert_eq!(d.name, "MyLen");
            assert_eq!(show(&d.target), "u32");
        }
        other => panic!("{:?}", other),
    }
    let alias = named("my_len", by_name("length", by_name("inner", builtin(BuiltinType::U32))));
    match gen_datatype(Mode::Wasi, &alias) {
        Ok(Item::Alias(d)) => assert_eq!(show(&d.target), "Inner"),
        other => panic!("{:?}", other),
    }
    let size = |mode| gen_datatype(mode, &named("size", builtin(BuiltinType::U32)));
    match size(Mode::Host) {
        Ok(Item::Alias(d)) => {
            assert_eq!(d.name, "Size");
            assert_eq!(show(&d.target), "usize");
        }
        other => panic!("{:?}", other),
    }
    match size(Mode::Wasi32) {
        Ok(Item::Alias(d)) => assert_eq!(show(&d.target), "u32"),
        other => panic!("{:?}", other),
    }
    assert!(matches!(size(Mode::Wasi), Err(GenError::TargetSpecificSize)));
    let ptr = named(
        "byte_ptr",
        TypeRef::Value(Box::new(Type::Pointer(builtin(BuiltinType::U8)))),
    );
    match gen_datatype(Mode::Host, &ptr) {
        Ok(Item::Alias(d)) => assert_eq!(show(&d.target), "*mut u8"),
        other => panic!("{:?}", other),
    }
    match gen_datatype(Mode::Wasi32, &ptr) {
        Ok(Item::Alias(d)) => assert_eq!(show(&d.target), "GuestPtr<u8>"),
        other => panic!("{:?}", other),
    }
    assert!(matches!(gen_datatype(Mode::Wasi, &ptr), Err(GenError::TargetSpecificSize)));
}

fn sample_types() -> Vec<NamedType> {
    vec![
        named("size", builtin(BuiltinType::U32)),
        named(
            "excuse",
            TypeRef::Value(Box::new(Type::Enum(enumeration(IntRepr::U8, &["dog_ate"])))),
        ),
        named("text", builtin(BuiltinType::String)),
        named("fd", TypeRef::Value(Box::new(Type::Handle(HandleDatatype {})))),
        named(
            "excuse_array",
            TypeRef::Value(Box::new(Type::Array(by_name("excuse", builtin(BuiltinType::U8))))),
        ),
    ]
}

fn item_name(item: &Item) -> String {
    match item {
        Item::Alias(d) => d.name.clone(),
        Item::Enum(d) => d.name.clone(),
        Item::Flags(d) => d.name.clone(),
        Item::Int(d) => d.name.clone(),
        Item::Handle(d) => d.name.clone(),
        Item::Record(d) => d.name.clone(),
        Item::Union(d) => d.name.clone(),
    }
}

#[test]
fn gen_datatypes_picks_the_types_of_the_target() {
    let types = sample_types();
    let shared: Vec<String> =
        gen_datatypes(&types, Mode::Wasi).expect("emits").iter().map(item_name).collect();
    assert_eq!(shared, vec!["Excuse", "Fd"]);
    let guest: Vec<String> =
        gen_datatypes(&types, Mode::Wasi32).expect("emits").iter().map(item_name).collect();
    assert_eq!(guest, vec!["Size", "Text", "ExcuseArray"]);
    let host: Vec<String> =
        gen_datatypes(&types, Mode::Host).expect("emits").iter().map(item_name).collect();
    assert_eq!(host, vec!["Size", "Text", "ExcuseArray"]);
    assert_eq!(gen_datatypes(&vec![], Mode::Wasi).expect("emits").len(), 0);
}

#[test]
fn gen_datatypes_stops_at_the_first_failure() {
    let names: Vec<String> = (0..65).map(|i| format!("f{}", i)).collect();
    let refs: Vec<&str> = names.iter().map(|s| s.as_str()).collect();
    let mut types = sample_types();
    types.push(named("wide", TypeRef::Value(Box::new(Type::Flags(flags(IntRepr::U64, &refs))))));
    types.push(named(
        "bad",
        record(vec![member("anon", TypeRef::Value(Box::new(Type::Handle(HandleDatatype {}))))]),
    ));
    assert!(matches!(gen_datatypes(&types, Mode::Wasi), Err(GenError::FlagOverflow)));
    // neither of the two is a type of the 32-bit target
    assert_eq!(gen_datatypes(&types, Mode::Wasi32).expect("emits").len(), 3);
}

#[test]
fn align() {
    assert_eq!(0, align_to(0, 1));
    assert_eq!(0, align_to(0, 2));
    assert_eq!(0, align_to(0, 4));
    assert_eq!(0, align_to(0, 8));

    assert_eq!(1, align_to(1, 1));
    assert_eq!(2, align_to(1, 2));
    assert_eq!(4, align_to(1, 4));
    assert_eq!(8, align_to(1, 8));

    assert_eq!(2, align_to(2, 1));
    assert_eq!(2, align_to(2, 2));
    assert_eq!(4, align_to(2, 4));
    assert_eq!(8, align_to(2, 8));

    assert_eq!(5, align_to(5, 1));
    assert_eq!(6, align_to(5, 2));
    assert_eq!(8, align_to(5, 4));
    assert_eq!(8, align_to(5, 8));
}

#[test]
fn layout_of_simple_types() {
    let sa = |size, align| Some(SizeAlign { size, align });
    assert_eq!(tref_layout(&builtin(BuiltinType::U8)), sa(1, 1));
    assert_eq!(tref_layout(&builtin(BuiltinType::Char8)), sa(1, 1));
    assert_eq!(tref_layout(&builtin(BuiltinType::S16)), sa(2, 2));
    assert_eq!(tref_layout(&builtin(BuiltinType::F32)), sa(4, 4));
    assert_eq!(tref_layout(&builtin(BuiltinType::USize)), sa(4, 4));
    assert_eq!(tref_layout(&builtin(BuiltinType::F64)), sa(8, 8));
    assert_eq!(tref_layout(&builtin(BuiltinType::String)), sa(8, 4));
    assert_eq!(type_layout(&Type::Handle(HandleDatatype {})), sa(4, 4));
    assert_eq!(type_layout(&Type::Pointer(builtin(BuiltinType::U64))), sa(4, 4));
    assert_eq!(type_layout(&Type::ConstPointer(builtin(BuiltinType::U64))), sa(4, 4));
    assert_eq!(type_layout(&Type::Array(builtin(BuiltinType::U64))), sa(8, 4));
    assert_eq!(type_layout(&Type::Enum(enumeration(IntRepr::U16, &["a"]))), sa(2, 2));
    assert_eq!(type_layout(&Type::Flags(flags(IntRepr::U64, &["a"]))), sa(8, 8));
    assert_eq!(
        type_layout(&Type::Int(IntDatatype { repr: IntRepr::U8, consts: vec![] })),
        sa(1, 1)
    );
    assert_eq!(tref_layout(&by_name("n", by_name("m", builtin(BuiltinType::U16)))), sa(2, 2));
}

#[test]
fn layout_of_records() {
    let members = vec![
        member("a", builtin(BuiltinType::U8)),
        member("b", builtin(BuiltinType::U32)),
        member("c", builtin(BuiltinType::U8)),
        member("d", builtin(BuiltinType::U64)),
        member("e", builtin(BuiltinType::U16)),
    ];
    assert_eq!(
        record_layout(&members),
        Some((vec![0, 4, 8, 16, 24], SizeAlign { size: 32, align: 8 }))
    );
    assert_eq!(
        member_layout(&StructDatatype { members }),
        Some(vec![0, 4, 8, 16, 24])
    );
    let pair = vec![
        member("first", builtin(BuiltinType::S32)),
        member("second", builtin(BuiltinType::S32)),
    ];
    assert_eq!(record_layout(&pair), Some((vec![0, 4], SizeAlign { size: 8, align: 4 })));
    assert_eq!(record_layout(&vec![]), Some((vec![], SizeAlign { size: 0, align: 1 })));
    let nested = vec![
        member("tag", builtin(BuiltinType::U8)),
        member(
            "inner",
            record(vec![
                member("x", builtin(BuiltinType::U16)),
                member("y", builtin(BuiltinType::U8)),
            ]),
        ),
        member("last", builtin(BuiltinType::U8)),
    ];
    assert_eq!(
        record_layout(&nested),
        Some((vec![0, 2, 6], SizeAlign { size: 8, align: 2 }))
    );
}

#[test]
fn layout_of_unions() {
    let arms = vec![
        member("a", builtin(BuiltinType::U8)),
        member("b", builtin(BuiltinType::U32)),
        member(
            "c",
            record(vec![
                member("x", builtin(BuiltinType::U16)),
                member("y", builtin(BuiltinType::U16)),
                member("z", builtin(BuiltinType::U16)),
            ]),
        ),
    ];
    // the widest arm has 6 bytes, the most aligned is aligned to 4
    assert_eq!(union_layout(&arms), Some(SizeAlign { size: 8, align: 4 }));
    assert_eq!(union_layout(&vec![]), Some(SizeAlign { size: 0, align: 1 }));
    assert_eq!(
        type_layout(&Type::Union(UnionDatatype { variants: arms })),
        Some(SizeAlign { size: 8, align: 4 })
    );
}
