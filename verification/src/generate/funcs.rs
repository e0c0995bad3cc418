use vstd::prelude::*;
use crate::generate::error::GenError;
use crate::generate::repr::AtomType;
use crate::generate::schema::{BuiltinType, InterfaceFunc, Member, Type, TypeRef};

verus! {

/// How a value of a type crosses the call boundary.
#[derive(Copy, Clone, Debug, PartialEq, Eq, Structural)]
pub enum TypePassedBy {
    /// As one value of the given type.
    Value(AtomType),
    /// As the offset of the value in guest memory.
    Pointer,
    /// As the offset of the first element in guest memory, and the
    /// number of elements.
    PointerLengthPair,
}

/// What an argument at the call boundary stands for.
#[derive(Copy, Clone, Debug, PartialEq, Eq, Structural)]
pub enum CoreParamSignifies {
    /// The value itself.
    Value(AtomType),
    /// The offset of the value in guest memory.
    PointerTo,
    /// The number of elements behind the offset in the argument before.
    LengthOf,
}

/// The parameter or result of the function that an argument at the call
/// boundary belongs to, by its position among the parameters or results.
#[derive(Copy, Clone, Debug, PartialEq, Eq, Structural)]
pub enum ParamSource {
    Param(usize),
    Result(usize),
}

/// An argument at the call boundary.
#[derive(Copy, Clone, Debug, PartialEq, Eq, Structural)]
pub struct CoreParam {
    pub source: ParamSource,
    pub signifies: CoreParamSignifies,
}

/// The signature of a function at the call boundary: its arguments in
/// order, and the type of the value it returns, if it returns one.
#[derive(Debug)]
pub struct CoreFuncType {
    pub args: Vec<CoreParam>,
    pub ret: Option<AtomType>,
}

impl CoreParamSignifies {
    /// The type of the argument: that of the value, or the 32-bit integer
    /// for an offset or a length.
    pub open spec fn repr_spec(self) -> AtomType {
        match self {
            CoreParamSignifies::Value(a) => a,
            CoreParamSignifies::PointerTo | CoreParamSignifies::LengthOf => AtomType::I32,
        }
    }

    #[verifier::when_used_as_spec(repr_spec)]
    pub fn repr(self) -> (a: AtomType)
        ensures
            a == self.repr_spec(),
    {
        match self {
            CoreParamSignifies::Value(a) => a,
            CoreParamSignifies::PointerTo | CoreParamSignifies::LengthOf => AtomType::I32,
        }
    }
}

/// How a value of the type crosses the call boundary: a number as
/// itself, widened to 32 bits where it is narrower; an enum, a flag set or
/// a tagged integer as its representation, widened likewise; a pointer or
/// a handle as a 32-bit integer; a string or an array as offset and
/// length; a record or a union as its offset.
pub open spec fn passed_by_spec(ty: Type) -> TypePassedBy {
    match ty {
        Type::Builtin(b) => match b {
            BuiltinType::String => TypePassedBy::PointerLengthPair,
            BuiltinType::U64 | BuiltinType::S64 => TypePassedBy::Value(AtomType::I64),
            BuiltinType::F32 => TypePassedBy::Value(AtomType::F32),
            BuiltinType::F64 => TypePassedBy::Value(AtomType::F64),
            _ => TypePassedBy::Value(AtomType::I32),
        },
        Type::Array(_) => TypePassedBy::PointerLengthPair,
        Type::Pointer(_) | Type::ConstPointer(_) => TypePassedBy::Value(AtomType::I32),
        Type::Enum(e) => TypePassedBy::Value(e.repr.abi_spec()),
        Type::Int(i) => TypePassedBy::Value(i.repr.abi_spec()),
        Type::Flags(f) => TypePassedBy::Value(f.repr.abi_spec()),
        Type::Struct(_) | Type::Union(_) => TypePassedBy::Pointer,
        Type::Handle(_) => TypePassedBy::Value(AtomType::I32),
    }
}

/// The arguments that stand for a parameter: the value where the type is
/// passed as one, else its offset, with the length where the type is a
/// string or an array.
pub open spec fn param_args_spec(source: ParamSource, ty: Type) -> Seq<CoreParam> {
    match passed_by_spec(ty) {
        TypePassedBy::Value(a) => seq![CoreParam { source, signifies: CoreParamSignifies::Value(a) }],
        TypePassedBy::Pointer => seq![CoreParam { source, signifies: CoreParamSignifies::PointerTo }],
        TypePassedBy::PointerLengthPair => seq![
            CoreParam { source, signifies: CoreParamSignifies::PointerTo },
            CoreParam { source, signifies: CoreParamSignifies::LengthOf },
        ],
    }
}

/// The arguments through which a result is handed back: the offset of
/// the place it is written to, with the length where the type is a string
/// or an array.
pub open spec fn result_args_spec(source: ParamSource, ty: Type) -> Seq<CoreParam> {
    match passed_by_spec(ty) {
        TypePassedBy::PointerLengthPair => seq![
            CoreParam { source, signifies: CoreParamSignifies::PointerTo },
            CoreParam { source, signifies: CoreParamSignifies::LengthOf },
        ],
        _ => seq![CoreParam { source, signifies: CoreParamSignifies::PointerTo }],
    }
}

/// The arguments that stand for the first `n` parameters, in order.
pub open spec fn params_args_spec(params: Seq<Member>, n: int) -> Seq<CoreParam>
    decreases n,
{
    if n <= 0 {
        Seq::empty()
    } else {
        params_args_spec(params, n - 1) + param_args_spec(
            ParamSource::Param((n - 1) as usize),
            params[n - 1].tref.resolve(),
        )
    }
}

/// The arguments through which the results at the positions from 1 up to
/// `n` are handed back, in order. The result at position 0 is returned.
pub open spec fn results_args_spec(results: Seq<Member>, n: int) -> Seq<CoreParam>
    decreases n,
{
    if n <= 1 {
        Seq::empty()
    } else {
        results_args_spec(results, n - 1) + result_args_spec(
            ParamSource::Result((n - 1) as usize),
            results[n - 1].tref.resolve(),
        )
    }
}

/// The arguments of a function at the call boundary: those of its
/// parameters, then those of its results but the first.
pub open spec fn core_args_spec(func: InterfaceFunc) -> Seq<CoreParam> {
    params_args_spec(func.params@, func.params@.len() as int) + results_args_spec(
        func.results@,
        func.results@.len() as int,
    )
}

/// What a function returns at the call boundary: its first result, which
/// must be of a type that is passed as one value; nothing where it has no
/// result.
pub open spec fn core_ret_spec(func: InterfaceFunc) -> Result<Option<AtomType>, GenError> {
    if func.results@.len() == 0 {
        Ok(None)
    } else {
        match passed_by_spec(func.results@[0].tref.resolve()) {
            TypePassedBy::Value(a) => Ok(Some(a)),
            _ => Err(GenError::ResultNotByValue),
        }
    }
}

/// Returns how a value of the type crosses the call boundary.
pub fn passed_by(ty: &Type) -> (r: TypePassedBy)
    ensures
        r == passed_by_spec(*ty),
{
    match ty {
        Type::Builtin(b) => match b {
            BuiltinType::String => TypePassedBy::PointerLengthPair,
            BuiltinType::U8
            | BuiltinType::U16
            | BuiltinType::U32
            | BuiltinType::S8
            | BuiltinType::S16
            | BuiltinType::S32
            | BuiltinType::Char8
            | BuiltinType::USize => TypePassedBy::Value(AtomType::I32),
            BuiltinType::U64 | BuiltinType::S64 => TypePassedBy::Value(AtomType::I64),
            BuiltinType::F32 => TypePassedBy::Value(AtomType::F32),
            BuiltinType::F64 => TypePassedBy::Value(AtomType::F64),
        },
        Type::Array(_) => TypePassedBy::PointerLengthPair,
        Type::Pointer(_) | Type::ConstPointer(_) => TypePassedBy::Value(AtomType::I32),
        Type::Enum(e) => TypePassedBy::Value(e.repr.abi()),
        Type::Int(i) => TypePassedBy::Value(i.repr.abi()),
        Type::Flags(f) => TypePassedBy::Value(f.repr.abi()),
        Type::Struct(_) | Type::Union(_) => TypePassedBy::Pointer,
        Type::Handle(_) => TypePassedBy::Value(AtomType::I32),
    }
}

/// Adds the arguments `args` to the end of `to`.
fn push_args(to: &mut Vec<CoreParam>, source: ParamSource, by_value: bool, tref: &TypeRef)
    ensures
        final(to)@ == old(to)@ + (if by_value {
            param_args_spec(source, tref.resolve())
        } else {
            result_args_spec(source, tref.resolve())
        }),
{
    let pointer = CoreParam { source, signifies: CoreParamSignifies::PointerTo };
    let length = CoreParam { source, signifies: CoreParamSignifies::LengthOf };
    let ghost before = to@;
    match passed_by(tref.type_()) {
        TypePassedBy::Value(a) => {
            if by_value {
                to.push(CoreParam { source, signifies: CoreParamSignifies::Value(a) });
                assert(to@ =~= before + param_args_spec(source, tref.resolve()));
            } else {
                to.push(pointer);
                assert(to@ =~= before + result_args_spec(source, tref.resolve()));
            }
        },
        TypePassedBy::Pointer => {
            to.push(pointer);
            assert(to@ =~= before + seq![pointer]);
        },
        TypePassedBy::PointerLengthPair => {
            to.push(pointer);
            to.push(length);
            assert(to@ =~= before + seq![pointer, length]);
        },
    }
}

/// Works out the signature of a function at the call boundary.
pub fn core_type(func: &InterfaceFunc) -> (r: Result<CoreFuncType, GenError>)
    ensures
        match core_ret_spec(*func) {
            Err(e) => r == Err::<CoreFuncType, GenError>(e),
            Ok(ret) => r matches Ok(t) && t.ret == ret && t.args@ == core_args_spec(*func),
        },
{
    let ret = if func.results.len() == 0 {
        None
    } else {
        match passed_by(func.results[0].tref.type_()) {
            TypePassedBy::Value(a) => Some(a),
            _ => { return Err(GenError::ResultNotByValue); },
        }
    };
    let mut args: Vec<CoreParam> = Vec::new();
    let mut i: usize = 0;
    while i < func.params.len()
        invariant
            i <= func.params@.len(),
            args@ == params_args_spec(func.params@, i as int),
        decreases func.params@.len() - i,
    {
        push_args(&mut args, ParamSource::Param(i), true, &func.params[i].tref);
        i = i + 1;
    }
    assert(args@ =~= args@ + results_args_spec(func.results@, 1));
    let mut k: usize = 1;
    while k < func.results.len()
        invariant
            1 <= k,
            k <= func.results@.len() || (func.results@.len() == 0 && k == 1),
            args@ == params_args_spec(func.params@, func.params@.len() as int) + results_args_spec(
                func.results@,
                k as int,
            ),
        decreases func.results@.len() - k,
    {
        let ghost before = args@;
        push_args(&mut args, ParamSource::Result(k), false, &func.results[k].tref);
        k = k + 1;
        assert(args@ =~= params_args_spec(func.params@, func.params@.len() as int)
            + results_args_spec(func.results@, k as int));
    }
    assert(results_args_spec(func.results@, k as int) == results_args_spec(
        func.results@,
        func.results@.len() as int,
    ));
    Ok(CoreFuncType { args, ret })
}

/// How the trampoline of a function makes one argument of the handler
/// from the arguments at the call boundary.
#[derive(Debug)]
pub struct ParamPlan {
    /// The name of the parameter.
    pub name: String,
    /// How the parameter crosses the call boundary.
    pub passed_by: TypePassedBy,
    /// The position of the first argument that stands for the parameter.
    pub first_arg: usize,
    /// Whether making the handler's argument can fail, so that the
    /// trampoline must be ready to return early with an error code.
    pub checked: bool,
}

/// How the trampoline of a function hands back one result of the handler.
#[derive(Debug)]
pub struct ResultPlan {
    /// The name of the result.
    pub name: String,
    /// The position of the argument that holds the offset to write the
    /// result to; `None` for the result that the trampoline returns.
    pub out_arg: Option<usize>,
}

/// What is emitted for a function: its signature at the call boundary, and
/// for each parameter and result how the trampoline deals with it. The
/// trampoline makes the handler's arguments in the order of the
/// parameters, calls the handler, writes the results in their order, and
/// returns the code for success.
#[derive(Debug)]
pub struct FuncDef {
    pub name: String,
    pub signature: CoreFuncType,
    pub params: Vec<ParamPlan>,
    pub results: Vec<ResultPlan>,
}

/// Whether an argument of the handler of this type can fail to be made:
/// an enum or a flag set must hold a legal value, and a record or a
/// union is read out of guest memory.
pub open spec fn is_checked_spec(ty: Type) -> bool {
    ty is Enum || ty is Flags || ty is Struct || ty is Union
}

/// Tests whether an argument of the handler of this type can fail to be
/// made.
pub fn is_checked(ty: &Type) -> (b: bool)
    ensures
        b == is_checked_spec(*ty),
{
    match ty {
        Type::Enum(_) | Type::Flags(_) | Type::Struct(_) | Type::Union(_) => true,
        _ => false,
    }
}

/// Whether `plans` say how the trampoline deals with the first `n`
/// parameters.
pub open spec fn are_param_plans(params: Seq<Member>, n: int, plans: Seq<ParamPlan>) -> bool {
    &&& plans.len() == n
    &&& forall|i: int|
        0 <= i < n ==> {
            let plan = #[trigger] plans[i];
            let ty = params[i].tref.resolve();
            &&& plan.name@ == params[i].name@
            &&& plan.passed_by == passed_by_spec(ty)
            &&& plan.first_arg == params_args_spec(params, i).len()
            &&& plan.checked == is_checked_spec(ty)
        }
}

/// Whether `plans` say how the trampoline deals with the first `n`
/// results of the function.
pub open spec fn are_result_plans(func: InterfaceFunc, n: int, plans: Seq<ResultPlan>) -> bool {
    &&& plans.len() == n
    &&& forall|k: int|
        0 <= k < n ==> {
            let plan = #[trigger] plans[k];
            &&& plan.name@ == func.results@[k].name@
            &&& plan.out_arg == (if k == 0 {
                None
            } else {
                Some(
                    (params_args_spec(func.params@, func.params@.len() as int).len()
                        + results_args_spec(func.results@, k).len()) as usize,
                )
            })
        }
}

/// Works out what is emitted for a function.
pub fn define_func(func: &InterfaceFunc) -> (r: Result<FuncDef, GenError>)
    ensures
        match core_ret_spec(*func) {
            Err(e) => r == Err::<FuncDef, GenError>(e),
            Ok(ret) => r matches Ok(def) && def.name@ == func.name@ && def.signature.ret == ret
                && def.signature.args@ == core_args_spec(*func) && are_param_plans(
                func.params@,
                func.params@.len() as int,
                def.params@,
            ) && are_result_plans(*func, func.results@.len() as int, def.results@),
        },
{
    let signature = match core_type(func) {
        Ok(s) => s,
        Err(e) => { return Err(e); },
    };
    let total = signature.args.len();
    let mut params: Vec<ParamPlan> = Vec::new();
    let mut next: usize = 0;
    let mut i: usize = 0;
    while i < func.params.len()
        invariant
            i <= func.params@.len(),
            next == params_args_spec(func.params@, i as int).len(),
            total == core_args_spec(*func).len(),
            are_param_plans(func.params@, i as int, params@),
        decreases func.params@.len() - i,
    {
        let p = &func.params[i];
        let ty = p.tref.type_();
        let by = passed_by(ty);
        proof {
            lemma_core_params(ParamSource::Param(i), *ty);
            lemma_params_args_prefix(func.params@, i as int + 1, func.params@.len() as int);
            assert(params_args_spec(func.params@, i as int + 1).len() == next + param_args_spec(
                ParamSource::Param(i),
                *ty,
            ).len());
            assert(params_args_spec(func.params@, i as int + 1).len() <= total);
        }
        params.push(
            ParamPlan { name: p.name.clone(), passed_by: by, first_arg: next, checked: is_checked(ty) },
        );
        next = match by {
            TypePassedBy::PointerLengthPair => next + 2,
            _ => next + 1,
        };
        i = i + 1;
    }
    let mut results: Vec<ResultPlan> = Vec::new();
    let mut k: usize = 0;
    while k < func.results.len()
        invariant
            k <= func.results@.len(),
            next == params_args_spec(func.params@, func.params@.len() as int).len() + (if k == 0 {
                0
            } else {
                results_args_spec(func.results@, k as int).len()
            }),
            total == core_args_spec(*func).len(),
            are_result_plans(*func, k as int, results@),
        decreases func.results@.len() - k,
    {
        let r = &func.results[k];
        if k == 0 {
            results.push(ResultPlan { name: r.name.clone(), out_arg: None });
            assert(results_args_spec(func.results@, 1).len() == 0);
        } else {
            let ty = r.tref.type_();
            proof {
                lemma_core_params(ParamSource::Result(k), *ty);
                lemma_results_args_prefix(func.results@, k as int + 1, func.results@.len() as int);
                assert(results_args_spec(func.results@, k as int + 1).len() == results_args_spec(
                    func.results@,
                    k as int,
                ).len() + result_args_spec(ParamSource::Result(k), *ty).len());
            }
            results.push(ResultPlan { name: r.name.clone(), out_arg: Some(next) });
            next = match passed_by(ty) {
                TypePassedBy::PointerLengthPair => next + 2,
                _ => next + 1,
            };
        }
        k = k + 1;
    }
    Ok(FuncDef { name: func.name.clone(), signature, params, results })
}

/// The arguments of a parameter start where its plan says: at the
/// position `first_arg` of the plan of the parameter at position `i`, the
/// signature has an argument that stands for that parameter, and it is
/// the first such argument.
pub proof fn lemma_first_arg(func: InterfaceFunc, i: usize)
    requires
        i < func.params@.len(),
    ensures
        params_args_spec(func.params@, i as int).len() < core_args_spec(func).len(),
        core_args_spec(func)[params_args_spec(func.params@, i as int).len() as int].source
            == ParamSource::Param(i),
        forall|j: int|
            0 <= j < params_args_spec(func.params@, i as int).len() ==> (#[trigger] core_args_spec(
                func,
            )[j]).source != ParamSource::Param(i),
{
    let n = func.params@.len() as int;
    lemma_params_args_prefix(func.params@, i + 1, n);
    lemma_core_params(ParamSource::Param(i), func.params@[i as int].tref.resolve());
    lemma_params_args_sources(func.params@, i as int);
    let upto = params_args_spec(func.params@, i as int);
    let this = param_args_spec(ParamSource::Param(i), func.params@[i as int].tref.resolve());
    let next = params_args_spec(func.params@, i + 1);
    let all = params_args_spec(func.params@, n);
    assert(next == upto + this);
    assert(next[upto.len() as int] == this[0]);
    assert(all[upto.len() as int] == next[upto.len() as int]);
    assert forall|j: int| 0 <= j < upto.len() implies (#[trigger] core_args_spec(func)[j]).source
        != ParamSource::Param(i) by {
        assert(core_args_spec(func)[j] == all[j]);
        assert(all[j] == next[j]);
        assert(next[j] == upto[j]);
        assert(upto[j].source matches ParamSource::Param(p) && p < i);
    }
}

/// The place that a result is written to is handed over where its plan
/// says: for a result behind the first, the signature has at the position
/// `out_arg` of its plan the offset of the place for that result.
pub proof fn lemma_out_arg(func: InterfaceFunc, k: usize)
    requires
        1 <= k < func.results@.len(),
    ensures
        ({
            let at = (params_args_spec(func.params@, func.params@.len() as int).len()
                + results_args_spec(func.results@, k as int).len()) as int;
            at < core_args_spec(func).len() && core_args_spec(func)[at] == (CoreParam {
                source: ParamSource::Result(k),
                signifies: CoreParamSignifies::PointerTo,
            })
        }),
{
    let n = func.results@.len() as int;
    let params = params_args_spec(func.params@, func.params@.len() as int);
    lemma_results_args_prefix(func.results@, k + 1, n);
    lemma_core_params(ParamSource::Result(k), func.results@[k as int].tref.resolve());
    let upto = results_args_spec(func.results@, k as int);
    let this = result_args_spec(ParamSource::Result(k), func.results@[k as int].tref.resolve());
    let next = results_args_spec(func.results@, k + 1);
    let all = results_args_spec(func.results@, n);
    assert(next == upto + this);
    assert(next[upto.len() as int] == this[0]);
    assert(all[upto.len() as int] == next[upto.len() as int]);
    assert(core_args_spec(func)[(params.len() + upto.len()) as int] == all[upto.len() as int]);
}

/// The arguments of the results up to position `k` are the first of
/// those of the results up to position `n`, for `k` up to `n`.
pub proof fn lemma_results_args_prefix(results: Seq<Member>, k: int, n: int)
    requires
        0 <= k <= n,
    ensures
        results_args_spec(results, k).len() <= results_args_spec(results, n).len(),
        forall|j: int|
            0 <= j < results_args_spec(results, k).len() ==> (#[trigger] results_args_spec(
                results,
                n,
            )[j]) == results_args_spec(results, k)[j],
    decreases n - k,
{
    if k < n {
        lemma_results_args_prefix(results, k, n - 1);
    }
}

/// The arguments of the first `k` parameters are the first of the
/// arguments of the first `n`, for `k` up to `n`.
pub proof fn lemma_params_args_prefix(params: Seq<Member>, k: int, n: int)
    requires
        0 <= k <= n,
    ensures
        params_args_spec(params, k).len() <= params_args_spec(params, n).len(),
        forall|j: int|
            0 <= j < params_args_spec(params, k).len() ==> (#[trigger] params_args_spec(
                params,
                n,
            )[j]) == params_args_spec(params, k)[j],
    decreases n - k,
{
    if k < n {
        lemma_params_args_prefix(params, k, n - 1);
    }
}

/// Each argument of the first `n` parameters stands for one of them.
pub proof fn lemma_params_args_sources(params: Seq<Member>, n: int)
    requires
        0 <= n <= usize::MAX,
    ensures
        forall|j: int|
            0 <= j < params_args_spec(params, n).len() ==> ((#[trigger] params_args_spec(
                params,
                n,
            )[j]).source matches ParamSource::Param(p) && p < n),
    decreases n,
{
    if n > 0 {
        lemma_params_args_sources(params, n - 1);
        lemma_core_params(ParamSource::Param((n - 1) as usize), params[n - 1].tref.resolve());
    }
}

/// Every argument that is an offset or a length is a 32-bit integer, and
/// a parameter or result takes at most two arguments.
pub proof fn lemma_core_params(source: ParamSource, ty: Type)
    ensures
        1 <= param_args_spec(source, ty).len() <= 2,
        1 <= result_args_spec(source, ty).len() <= 2,
        forall|i: int|
            0 <= i < result_args_spec(source, ty).len() ==> (#[trigger] result_args_spec(
                source,
                ty,
            )[i]).signifies.repr_spec() == AtomType::I32,
        passed_by_spec(ty) is Value <==> param_args_spec(source, ty).len() == 1 && param_args_spec(
            source,
            ty,
        )[0].signifies is Value,
{
}

} // verus!
