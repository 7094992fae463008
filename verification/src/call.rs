//! The entry point: resolving a call or `new` expression.
use vstd::prelude::*;

use crate::arity::is_rest_pat;
use crate::candidates::{callee_candidates, extract_callee_candidates};
use crate::env::{SpecEnv, TypeEnv};
use crate::errors::ErrorKind;
use crate::model::{
    call_args_model, candidates_model, opt_type_params_model, opt_types_model, params_model,
    type_params_model, types_model, SpecArg, SpecFnParam, SpecType, SpecTypeParam,
};
use crate::names::{NUMBER, STRING, TO_STRING};
use crate::narrow::{facts_model, Fact};
use crate::property::{call_property, property_called};
use crate::relations::TypeRelations;
use crate::resolve::{extract, extracted, CallOpts};
use crate::return_type::{arg_patches, patches_for_arg};
use crate::site::{
    patches_model, CallSite, Outcome, Pass, Patch, ReevalMode, Run, SpecCallSite, SpecOutcome,
    SpecPatch, SpecRun,
};
use crate::span::Span;
use crate::spread::{spread, spread_args, SpecSpreadArgs};
use crate::subst::TypeMap;
use crate::transform::{rewrite, rewritten, Rewrite, SpecRewrite};
use crate::types::{Arg, ExtractKind, Key, Keyword, Name, Type, TypeParam};
use crate::unions::{make_union, new_union_without_dedup};

verus! {

/// The callee of a call, as far as its form matters.
#[derive(Clone, Debug, PartialEq, Eq)]
pub enum Callee {
    /// The built-in function `Symbol`.
    SymbolConstructor,
    /// The member `prop` of an object of type `obj`.
    Member { obj: Type, prop: Key },
    /// Any other expression, of type `ty`; `implicit` where that type is an
    /// `any` that nobody wrote.
    Value { ty: Type, implicit: bool },
}

/// The model of [`Callee`].
pub enum SpecCallee {
    SymbolConstructor,
    Member { obj: SpecType, prop: Key },
    Value { ty: SpecType, implicit: bool },
}

impl View for Callee {
    type V = SpecCallee;

    open spec fn view(&self) -> SpecCallee {
        match self {
            Callee::SymbolConstructor => SpecCallee::SymbolConstructor,
            Callee::Member { obj, prop } => SpecCallee::Member { obj: obj@, prop: *prop },
            Callee::Value { ty, implicit } => SpecCallee::Value { ty: ty@, implicit: *implicit },
        }
    }
}

/// A call or `new` expression whose callee and arguments have been given
/// their types.
#[derive(Clone, Debug, PartialEq, Eq)]
pub struct Call {
    pub span: Span,
    pub kind: ExtractKind,
    pub callee: Callee,
    pub args: Vec<Arg>,
    pub type_args: Option<Vec<Type>>,
    pub type_ann: Option<Type>,
    pub pass: Pass,
    pub reeval: ReevalMode,
    pub is_calling_iife: bool,
}

/// The model of [`Call`].
pub struct SpecCall {
    pub span: Span,
    pub kind: ExtractKind,
    pub callee: SpecCallee,
    pub args: Seq<SpecArg>,
    pub type_args: Option<Seq<SpecType>>,
    pub type_ann: Option<SpecType>,
    pub pass: Pass,
    pub reeval: ReevalMode,
    pub is_calling_iife: bool,
}

impl View for Call {
    type V = SpecCall;

    open spec fn view(&self) -> SpecCall {
        SpecCall {
            span: self.span,
            kind: self.kind,
            callee: self.callee@,
            args: call_args_model(self.args),
            type_args: opt_types_model(self.type_args),
            type_ann: match self.type_ann {
                Some(t) => Some(t@),
                None => None,
            },
            pass: self.pass,
            reeval: self.reeval,
            is_calling_iife: self.is_calling_iife,
        }
    }
}

/// The call site of a call whose spreads are worked out.
pub open spec fn site_of(
    env: SpecEnv,
    vars: Map<Name, SpecType>,
    call: SpecCall,
    spread: SpecSpreadArgs,
) -> SpecCallSite {
    SpecCallSite {
        env,
        vars,
        span: call.span,
        kind: call.kind,
        args: call.args,
        spread_arg_types: spread.types,
        arg_count_unknown: spread.arg_count_unknown,
        type_args: call.type_args,
        type_ann: call.type_ann,
        this: None,
        pass: call.pass,
        reeval: call.reeval,
        is_calling_iife: call.is_calling_iife,
        is_instantiating_class: false,
    }
}

/// The first `n` of `ts` without the namespaces among them.
pub open spec fn without_namespaces(ts: Seq<SpecType>, n: nat) -> Seq<SpecType>
    decreases n,
{
    if n == 0 {
        Seq::empty()
    } else {
        let before = without_namespaces(ts, (n - 1) as nat);
        if ts[n - 1] is Namespace {
            before
        } else {
            before.push(ts[n - 1])
        }
    }
}

/// The bindings of the first `n` type parameters to the explicit type
/// arguments at their positions.
pub open spec fn explicit_bindings(
    params: Seq<SpecTypeParam>,
    type_args: Seq<SpecType>,
    n: nat,
) -> Map<Name, SpecType>
    decreases n,
{
    if n == 0 {
        Map::empty()
    } else {
        explicit_bindings(params, type_args, (n - 1) as nat).insert(
            params[n - 1].name,
            type_args[n - 1],
        )
    }
}

/// The smaller of two lengths.
pub open spec fn shorter(a: nat, b: nat) -> nat {
    if a <= b {
        a
    } else {
        b
    }
}

/// The type of the callee as it is resolved: a union loses its namespaces,
/// and a generic function takes the explicit type arguments.
pub open spec fn prepared_callee<R: TypeRelations>(
    rel: &R,
    env: SpecEnv,
    ty: SpecType,
    type_args: Option<Seq<SpecType>>,
) -> SpecType {
    let callable = match ty {
        SpecType::Union(ts) => make_union(without_namespaces(ts, ts.len())),
        _ => ty,
    };
    match (type_args, callable) {
        (Some(ta), SpecType::Function(sig)) => match sig.type_params {
            Some(ps) => rewritten(
                rel,
                env,
                SpecRewrite::Substitute(explicit_bindings(ps, ta, shorter(ps.len(), ta.len()))),
                callable,
            ),
            None => callable,
        },
        _ => callable,
    }
}

/// The type on which a member is looked up: literals are widened, and
/// numbers and strings stand for the built-in types `Number` and `String`.
pub open spec fn receiver<R: TypeRelations>(rel: &R, env: SpecEnv, obj: SpecType) -> SpecType {
    let wide = rewritten(rel, env, SpecRewrite::Generalize, obj);
    match env.normal(wide) {
        SpecType::Keyword(Keyword::Number) => match env.type_of(NUMBER) {
            Some(t) => t,
            None => wide,
        },
        SpecType::Keyword(Keyword::String) => match env.type_of(STRING) {
            Some(t) => t,
            None => wide,
        },
        _ => wide,
    }
}

/// What is reported of a callee of type `any` that is given type arguments.
pub open spec fn any_callee_errors(
    env: SpecEnv,
    call: SpecCall,
    ty: SpecType,
    implicit: bool,
) -> Seq<ErrorKind> {
    if env.normal(ty) == SpecType::Keyword(Keyword::Any) && call.type_args.is_some() && !implicit {
        seq![ErrorKind::AnyTypeUsedAsCalleeWithTypeArgs { span: call.span }]
    } else {
        Seq::empty()
    }
}

/// The resolution of a call of the built-in `Symbol`: a symbol; `new` on it
/// is reported.
pub open spec fn symbol_call(call: SpecCall) -> SpecRun {
    SpecRun {
        outcome: SpecOutcome::Resolved(SpecType::Keyword(Keyword::Symbol)),
        errors: if call.kind == ExtractKind::New {
            seq![ErrorKind::CannotCallWithNewNonVoidFunction { span: call.span }]
        } else {
            Seq::empty()
        },
        facts: Seq::empty(),
    }
}

/// The resolution of a call of a member: `toString` yields a string on every
/// object; any other member is looked up on the receiver.
pub open spec fn member_call<R: TypeRelations>(
    rel: &R,
    env: SpecEnv,
    vars: Map<Name, SpecType>,
    call: SpecCall,
    obj: SpecType,
    prop: Key,
) -> SpecRun {
    if prop.name == TO_STRING {
        SpecRun::of(SpecOutcome::Resolved(SpecType::Keyword(Keyword::String)))
    } else {
        let on = receiver(rel, env, obj);
        match spread(env, rel, call.args) {
            Ok(s) => property_called(rel, site_of(env, vars, call, s), on, on, prop, CallOpts::plain()),
            Err(e) => SpecRun::of(SpecOutcome::Failed(e)),
        }
    }
}

/// The resolution of a call of a value.
pub open spec fn value_call<R: TypeRelations>(
    rel: &R,
    env: SpecEnv,
    vars: Map<Name, SpecType>,
    call: SpecCall,
    ty: SpecType,
    implicit: bool,
) -> SpecRun {
    (match spread(env, rel, call.args) {
        Ok(s) => extracted(
            rel,
            site_of(env, vars, call, s),
            prepared_callee(rel, env, ty, call.type_args),
            CallOpts::plain(),
        ),
        Err(e) => SpecRun::of(SpecOutcome::Failed(e)),
    }).after_errors(any_callee_errors(env, call, ty, implicit))
}

/// The resolution of a call or `new` expression.
pub open spec fn resolved<R: TypeRelations>(
    rel: &R,
    env: SpecEnv,
    vars: Map<Name, SpecType>,
    call: SpecCall,
) -> SpecRun {
    match call.callee {
        SpecCallee::SymbolConstructor => symbol_call(call),
        SpecCallee::Member { obj, prop } => member_call(rel, env, vars, call, obj, prop),
        SpecCallee::Value { ty, implicit } => value_call(rel, env, vars, call, ty, implicit),
    }
}

/// The patches for the function literals among the first `n` arguments, each
/// held against its parameter; an argument that is spread, or that goes to a
/// rest parameter, ends the list.
pub open spec fn contextual_patches_upto(
    args: Seq<SpecArg>,
    params: Seq<SpecFnParam>,
    n: nat,
) -> Seq<SpecPatch>
    decreases n,
{
    if n == 0 {
        Seq::empty()
    } else if stops_before(args, params, n) {
        contextual_patches_upto(args, params, (n - 1) as nat)
    } else {
        contextual_patches_upto(args, params, (n - 1) as nat) + arg_patches(args, params, n - 1)
    }
}

/// Whether one of the first `n` arguments is spread or goes to a rest
/// parameter.
pub open spec fn stops_before(args: Seq<SpecArg>, params: Seq<SpecFnParam>, n: nat) -> bool {
    exists|i: int| 0 <= i < n && stops_at(args, params, i)
}

/// Whether the argument at `i` is spread or goes to a rest parameter.
pub open spec fn stops_at(args: Seq<SpecArg>, params: Seq<SpecFnParam>, i: int) -> bool {
    args[i].spread.is_some() || is_rest_pat(params[i].pat)
}

/// The types that the parameters of the function literals among the
/// arguments get from the callee before the arguments are given their types:
/// those of the parameters of its one signature, where it offers exactly one
/// and that one is not generic.
pub open spec fn contextual_patches(
    env: SpecEnv,
    kind: ExtractKind,
    args: Seq<SpecArg>,
    callee: SpecType,
) -> Seq<SpecPatch> {
    let cs = callee_candidates(env, kind, callee);
    if cs.len() == 1 && cs[0].type_params.is_none() {
        contextual_patches_upto(args, cs[0].params, shorter(args.len(), cs[0].params.len()))
    } else {
        Seq::empty()
    }
}

/// Works out the types that the function literals among the arguments get
/// from the callee.
#[verifier::loop_isolation(false)]
pub fn apply_type_ann_from_callee(
    env: &TypeEnv,
    kind: ExtractKind,
    args: &Vec<Arg>,
    callee: &Type,
) -> (r: Vec<Patch>)
    ensures
        patches_model(r) == contextual_patches(env@, kind, call_args_model(*args), callee@),
{
    let cs = extract_callee_candidates(env, kind, callee);
    let mut out: Vec<Patch> = Vec::new();
    assert(patches_model(out) =~= Seq::empty());
    if cs.len() != 1 {
        return out;
    }
    let c = &cs[0];
    assert(candidates_model(cs)[0] == c@);
    if c.type_params.is_some() {
        return out;
    }
    let ghost am = call_args_model(*args);
    let ghost pm = params_model(c.params);
    let n = if args.len() <= c.params.len() {
        args.len()
    } else {
        c.params.len()
    };
    let mut i: usize = 0;
    while i < n
        invariant
            i <= n,
            n <= args.len(),
            n <= c.params.len(),
            am == call_args_model(*args),
            pm == params_model(c.params),
            !stops_before(am, pm, i as nat),
            patches_model(out) == contextual_patches_upto(am, pm, i as nat),
        decreases n - i,
    {
        assert(am[i as int] == args[i as int]@);
        assert(pm[i as int] == c.params[i as int]@);
        if args[i].spread.is_some() || c.params[i].pat.is_rest() {
            proof {
                assert(stops_at(am, pm, i as int));
                lemma_patches_stop(am, pm, i as nat, n as nat);
            }
            return out;
        }
        let ghost before = patches_model(out);
        let mut more = patches_for_arg(args, &c.params, i);
        let ghost mv = patches_model(more);
        out.append(&mut more);
        assert(patches_model(out) =~= before + mv);
        assert(!stops_before(am, pm, (i + 1) as nat)) by {
            if stops_before(am, pm, (i + 1) as nat) {
                let k = choose|k: int| 0 <= k < i + 1 && stops_at(am, pm, k);
                assert(k < i ==> stops_before(am, pm, i as nat));
            }
        }
        i += 1;
    }
    out
}

/// Once an argument stops the list, nothing is added to it.
proof fn lemma_patches_stop(args: Seq<SpecArg>, params: Seq<SpecFnParam>, i: nat, n: nat)
    requires
        i < n,
        stops_at(args, params, i as int),
    ensures
        contextual_patches_upto(args, params, n) == contextual_patches_upto(args, params, i),
    decreases n,
{
    assert(stops_before(args, params, n));
    if n > i + 1 {
        lemma_patches_stop(args, params, i, (n - 1) as nat);
    }
}

/// The types without the namespaces among them.
fn drop_namespaces(ts: &Vec<Type>) -> (r: Vec<Type>)
    ensures
        types_model(r) == without_namespaces(types_model(*ts), ts.len() as nat),
{
    let ghost tm = types_model(*ts);
    let mut out: Vec<Type> = Vec::new();
    assert(types_model(out) =~= Seq::empty());
    let mut i: usize = 0;
    while i < ts.len()
        invariant
            i <= ts.len(),
            tm == types_model(*ts),
            types_model(out) == without_namespaces(tm, i as nat),
        decreases ts.len() - i,
    {
        let ghost before = types_model(out);
        assert(tm[i as int] == ts[i as int]@);
        if !matches!(&ts[i], Type::Namespace(_)) {
            out.push(ts[i].clone());
            assert(types_model(out) =~= before.push(tm[i as int]));
        }
        i += 1;
    }
    out
}

/// Binds the type parameters to the explicit type arguments at their
/// positions.
fn bind_explicit(params: &Vec<TypeParam>, type_args: &Vec<Type>) -> (r: TypeMap)
    ensures
        r@ == explicit_bindings(
            type_params_model(*params),
            types_model(*type_args),
            shorter(params.len() as nat, type_args.len() as nat),
        ),
{
    let ghost pm = type_params_model(*params);
    let ghost tm = types_model(*type_args);
    let n = if params.len() <= type_args.len() {
        params.len()
    } else {
        type_args.len()
    };
    let mut map = TypeMap::new();
    let mut i: usize = 0;
    while i < n
        invariant
            i <= n,
            n <= params.len(),
            n <= type_args.len(),
            pm == type_params_model(*params),
            tm == types_model(*type_args),
            map@ == explicit_bindings(pm, tm, i as nat),
        decreases n - i,
    {
        assert(pm[i as int] == params[i as int]@);
        assert(tm[i as int] == type_args[i as int]@);
        map.insert(params[i].name, type_args[i].clone());
        i += 1;
    }
    map
}

/// The type of the callee as it is resolved.
fn prepare_callee<R: TypeRelations>(
    rel: &R,
    env: &TypeEnv,
    ty: &Type,
    type_args: &Option<Vec<Type>>,
) -> (r: Type)
    ensures
        r@ == prepared_callee(rel, env@, ty@, opt_types_model(*type_args)),
{
    let callable = match ty {
        Type::Union(ts) => new_union_without_dedup(drop_namespaces(ts)),
        _ => ty.clone(),
    };
    match (type_args, &callable) {
        (Some(ta), Type::Function(sig)) => {
            assert(sig@.type_params == opt_type_params_model(sig.type_params));
            match &sig.type_params {
                Some(ps) => {
                    let map = bind_explicit(ps, ta);
                    rewrite(rel, env, &Rewrite::Substitute(&map), &callable)
                },
                None => callable,
            }
        },
        _ => callable,
    }
}

/// The type on which a member is looked up.
fn receiver_type<R: TypeRelations>(rel: &R, env: &TypeEnv, obj: &Type) -> (r: Type)
    ensures
        r@ == receiver(rel, env@, obj@),
{
    let wide = rewrite(rel, env, &Rewrite::Generalize, obj);
    let boxed = match env.normalize(&wide) {
        Type::Keyword(Keyword::Number) => match env.find_type(NUMBER) {
            Some(t) => Some(t.clone()),
            None => None,
        },
        Type::Keyword(Keyword::String) => match env.find_type(STRING) {
            Some(t) => Some(t.clone()),
            None => None,
        },
        _ => None,
    };
    match boxed {
        Some(t) => t,
        None => wide,
    }
}

/// Resolves a call of the built-in `Symbol`.
fn resolve_symbol(call: &Call) -> (r: Run)
    ensures
        r@ == symbol_call(call@),
{
    let mut errors: Vec<ErrorKind> = Vec::new();
    if call.kind == ExtractKind::New {
        errors.push(ErrorKind::CannotCallWithNewNonVoidFunction { span: call.span });
    }
    let facts: Vec<Fact> = Vec::new();
    assert(facts_model(facts) =~= Seq::empty());
    assert(errors@ =~= symbol_call(call@).errors);
    Run { outcome: Outcome::Resolved(Type::Keyword(Keyword::Symbol)), errors, facts }
}

/// Resolves a call of a member of an object.
fn resolve_member<R: TypeRelations>(
    rel: &R,
    env: &TypeEnv,
    vars: &TypeMap,
    call: &Call,
    obj: &Type,
    prop: Key,
) -> (r: Run)
    ensures
        r@ == member_call(rel, env@, vars@, call@, obj@, prop),
{
    if prop.name == TO_STRING {
        return Run::resolved(Type::Keyword(Keyword::String));
    }
    let on = receiver_type(rel, env, obj);
    match spread_args(env, rel, &call.args) {
        Ok(s) => {
            let site = CallSite {
                env,
                vars,
                span: call.span,
                kind: call.kind,
                args: &call.args,
                spread_arg_types: &s.types,
                arg_count_unknown: s.arg_count_unknown,
                type_args: &call.type_args,
                type_ann: call.type_ann.as_ref(),
                this: None,
                pass: call.pass,
                reeval: call.reeval,
                is_calling_iife: call.is_calling_iife,
                is_instantiating_class: false,
            };
            assert(site@ == site_of(env@, vars@, call@, s@));
            call_property(rel, &site, &on, &on, prop, CallOpts::default())
        },
        Err(e) => Run::failed(e),
    }
}

/// Resolves a call of a value.
fn resolve_value<R: TypeRelations>(
    rel: &R,
    env: &TypeEnv,
    vars: &TypeMap,
    call: &Call,
    ty: &Type,
    implicit: bool,
) -> (r: Run)
    ensures
        r@ == value_call(rel, env@, vars@, call@, ty@, implicit),
{
    let mut first: Vec<ErrorKind> = Vec::new();
    if env.normalize(ty).is_any() && call.type_args.is_some() && !implicit {
        first.push(ErrorKind::AnyTypeUsedAsCalleeWithTypeArgs { span: call.span });
    }
    assert(first@ =~= any_callee_errors(env@, call@, ty@, implicit));
    let run = match spread_args(env, rel, &call.args) {
        Ok(s) => {
            let callee = prepare_callee(rel, env, ty, &call.type_args);
            let site = CallSite {
                env,
                vars,
                span: call.span,
                kind: call.kind,
                args: &call.args,
                spread_arg_types: &s.types,
                arg_count_unknown: s.arg_count_unknown,
                type_args: &call.type_args,
                type_ann: call.type_ann.as_ref(),
                this: None,
                pass: call.pass,
                reeval: call.reeval,
                is_calling_iife: call.is_calling_iife,
                is_instantiating_class: false,
            };
            assert(site@ == site_of(env@, vars@, call@, s@));
            extract(rel, &site, &callee, CallOpts::default())
        },
        Err(e) => Run::failed(e),
    };
    run.after_errors(first)
}

/// Resolves a call or `new` expression: chooses the signature that is
/// invoked, checks the arguments against it and works out the type of the
/// result.
pub fn resolve_call<R: TypeRelations>(
    rel: &R,
    env: &TypeEnv,
    vars: &TypeMap,
    call: &Call,
) -> (r: Run)
    ensures
        r@ == resolved(rel, env@, vars@, call@),
{
    match &call.callee {
        Callee::SymbolConstructor => resolve_symbol(call),
        Callee::Member { obj, prop } => resolve_member(rel, env, vars, call, obj, *prop),
        Callee::Value { ty, implicit } => resolve_value(rel, env, vars, call, ty, *implicit),
    }
}

} // verus!
