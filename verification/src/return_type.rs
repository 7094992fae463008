//! The type of a call once its signature is chosen.
use vstd::prelude::*;

use crate::arity::{arity_check, type_args_check, validate_arg_count, validate_type_args_count};
use crate::copy::clone_params;
use crate::env::{SpecEnv, TypeEnv};
use crate::errors::ErrorKind;
use crate::model::{
    any, args_model, call_args_model, opt_type_model, opt_type_params_model, params_model,
    type_params_model, types_model, unknown, SpecArg, SpecArgExpr, SpecFnParam, SpecSignature,
    SpecType, SpecTypeOrSpread, SpecTypeParam,
};
use crate::narrow::{add_call_facts, call_facts, facts_model, Fact};
use crate::relations::TypeRelations;
use crate::site::{
    opt_ref_model, patches_model, CallSite, Outcome, Pass, Patch, ReevalMode, Run, SpecCallSite,
    SpecOutcome, SpecPatch, SpecRun,
};
use crate::spread::{plain_entry, tuple_entries};
use crate::subst::TypeMap;
use crate::transform::{rewrite, rewrite_params, rewritten, rewritten_params, Rewrite, SpecRewrite};
use crate::type_params::{add_required_type_params, with_required_type_params};
use crate::types::{
    Arg, ArgExpr, ExtractKind, FnParam, Keyword, Name, Signature, Type, TypeOrSpread, TypeParam,
};
use crate::validate::{arg_type_errors, validate_arg_types};

verus! {

/// The error of a check as a list of reports.
pub open spec fn errors_of(r: Result<(), ErrorKind>) -> Seq<ErrorKind> {
    match r {
        Ok(_) => Seq::empty(),
        Err(e) => seq![e],
    }
}

/// The parameters with the receiver type put in, where it is known.
pub open spec fn with_this<R: TypeRelations>(
    rel: &R,
    env: SpecEnv,
    this: Option<SpecType>,
    params: Seq<SpecFnParam>,
) -> Seq<SpecFnParam> {
    match this {
        Some(t) => rewritten_params(rel, env, SpecRewrite::ExpandThis(t), params),
        None => params,
    }
}

/// The type with the receiver type put in, where it is known.
pub open spec fn type_with_this<R: TypeRelations>(
    rel: &R,
    env: SpecEnv,
    this: Option<SpecType>,
    ty: SpecType,
) -> SpecType {
    match this {
        Some(t) => rewritten(rel, env, SpecRewrite::ExpandThis(t), ty),
        None => ty,
    }
}

/// `map` with the first `n` of `params` bound to `unknown`.
pub open spec fn with_unknown(
    map: Map<Name, SpecType>,
    params: Seq<SpecTypeParam>,
    n: nat,
) -> Map<Name, SpecType>
    decreases n,
{
    if n == 0 {
        map
    } else {
        with_unknown(map, params, (n - 1) as nat).insert(params[n - 1].name, unknown())
    }
}

/// `unknown` for the type parameters of the function types among the first
/// `n` arguments.
pub open spec fn fn_defaults(args: Seq<SpecTypeOrSpread>, n: nat) -> Map<Name, SpecType>
    decreases n,
{
    if n == 0 {
        Map::empty()
    } else {
        let before = fn_defaults(args, (n - 1) as nat);
        match args[n - 1].ty {
            SpecType::Function(sig) => match sig.type_params {
                Some(ps) => with_unknown(before, ps, ps.len()),
                None => before,
            },
            _ => before,
        }
    }
}

/// `map` with `unknown` for those of the first `n` of `params` that it does
/// not bind.
pub open spec fn with_missing(
    map: Map<Name, SpecType>,
    params: Seq<SpecTypeParam>,
    n: nat,
) -> Map<Name, SpecType>
    decreases n,
{
    if n == 0 {
        map
    } else {
        let before = with_missing(map, params, (n - 1) as nat);
        if before.contains_key(params[n - 1].name) {
            before
        } else {
            before.insert(params[n - 1].name, unknown())
        }
    }
}

/// `map` with the first `n` of `names` bound to `unknown`.
pub open spec fn with_errored(
    map: Map<Name, SpecType>,
    names: Seq<Name>,
    n: nat,
) -> Map<Name, SpecType>
    decreases n,
{
    if n == 0 {
        map
    } else {
        with_errored(map, names, (n - 1) as nat).insert(names[n - 1], unknown())
    }
}

/// The patches for the first `n` parameters of a function literal that is
/// passed where the function type with parameters `expected` is wanted: each
/// parameter that was written without a type gets the expected one.
pub open spec fn literal_patches(
    arg: usize,
    implicit_any: Seq<bool>,
    expected: Seq<SpecFnParam>,
    n: nat,
) -> Seq<SpecPatch>
    decreases n,
{
    if n == 0 {
        Seq::empty()
    } else {
        let before = literal_patches(arg, implicit_any, expected, (n - 1) as nat);
        if n - 1 < expected.len() && implicit_any[n - 1] {
            before.push(SpecPatch { arg, param: (n - 1) as usize, ty: expected[n - 1].ty })
        } else {
            before
        }
    }
}

/// The patches that the argument at `i` asks for.
pub open spec fn arg_patches(
    args: Seq<SpecArg>,
    params: Seq<SpecFnParam>,
    i: int,
) -> Seq<SpecPatch> {
    match (params[i].ty, args[i].expr) {
        (SpecType::Function(sig), SpecArgExpr::Function { implicit_any }) => literal_patches(
            i as usize,
            implicit_any,
            sig.params,
            implicit_any.len(),
        ),
        _ => Seq::empty(),
    }
}

/// The patches that the first `n` arguments ask for.
pub open spec fn patches_upto(
    args: Seq<SpecArg>,
    params: Seq<SpecFnParam>,
    n: nat,
) -> Seq<SpecPatch>
    decreases n,
{
    if n == 0 {
        Seq::empty()
    } else {
        patches_upto(args, params, (n - 1) as nat) + arg_patches(args, params, n - 1)
    }
}

/// The patches of a call: those of each argument that has a parameter.
pub open spec fn patches(args: Seq<SpecArg>, params: Seq<SpecFnParam>) -> Seq<SpecPatch> {
    patches_upto(
        args,
        params,
        if args.len() <= params.len() {
            args.len()
        } else {
            params.len()
        },
    )
}

/// What an argument becomes when the spreads are worked out again: a spread
/// tuple gives its elements, anything else stays.
pub open spec fn respread_one(arg: SpecArg) -> Seq<SpecTypeOrSpread> {
    match (arg.spread, arg.ty) {
        (Some(at), SpecType::Tuple(elems)) => tuple_entries(at, elems),
        _ => seq![plain_entry(arg)],
    }
}

/// What the first `n` arguments become when the spreads are worked out again.
pub open spec fn respread(args: Seq<SpecArg>, n: nat) -> Seq<SpecTypeOrSpread>
    decreases n,
{
    if n == 0 {
        Seq::empty()
    } else {
        respread(args, (n - 1) as nat) + respread_one(args[n - 1])
    }
}

/// The type of a call of a signature without type parameters: the arguments
/// are held against the parameters, every error is reported, and the return
/// type is simplified and given the type parameters that it still needs.
pub open spec fn plain_return<R: TypeRelations>(
    rel: &R,
    site: SpecCallSite,
    params: Seq<SpecFnParam>,
    ret_ty: SpecType,
) -> SpecRun {
    let ty = with_required_type_params(rewritten(rel, site.env, SpecRewrite::Simplify, ret_ty));
    SpecRun {
        outcome: SpecOutcome::Resolved(ty),
        errors: arg_type_errors(site.env, rel, params, site.spread_arg_types, false),
        facts: if site.kind == ExtractKind::Call {
            call_facts(site.env, rel, site.vars, params, site.args, ty)
        } else {
            Seq::empty()
        },
    }
}

/// The parameters of a generic signature with the type arguments put in that
/// the expected result type and the arguments determine.
pub open spec fn instantiated_params<R: TypeRelations>(
    rel: &R,
    site: SpecCallSite,
    type_params: Seq<SpecTypeParam>,
    params: Seq<SpecFnParam>,
    ret_ty: SpecType,
) -> Seq<SpecFnParam> {
    let hinted = hinted_params(rel, site, type_params, params, ret_ty);
    let inferred = rel.inferred(
        site.type_args,
        type_params,
        hinted,
        site.spread_arg_types,
        site.type_ann.is_some(),
    );
    rewritten_params(rel, site.env, SpecRewrite::Substitute(inferred.types), hinted)
}

/// The parameters with the type arguments put in that the expected result
/// type determines; this is done on the first pass only.
pub open spec fn hinted_params<R: TypeRelations>(
    rel: &R,
    site: SpecCallSite,
    type_params: Seq<SpecTypeParam>,
    params: Seq<SpecFnParam>,
    ret_ty: SpecType,
) -> Seq<SpecFnParam> {
    match site.type_ann {
        Some(ann) => if site.pass is FirstPass {
            rewritten_params(
                rel,
                site.env,
                SpecRewrite::Substitute(rel.inferred_from_types(type_params, ret_ty, ann)),
                params,
            )
        } else {
            params
        },
        None => params,
    }
}

/// The bindings with which the return type of a generic signature is
/// instantiated: what inference found, with `unknown` for what it could not
/// resolve and, where a class is instantiated, for what it left out.
pub open spec fn final_bindings<R: TypeRelations>(
    rel: &R,
    site: SpecCallSite,
    type_params: Seq<SpecTypeParam>,
    params: Seq<SpecFnParam>,
    ret_ty: SpecType,
) -> Map<Name, SpecType> {
    let hinted = hinted_params(rel, site, type_params, params, ret_ty);
    let inferred = rel.inferred(
        site.type_args,
        type_params,
        hinted,
        site.spread_arg_types,
        site.type_ann.is_some(),
    );
    let filled = if site.is_instantiating_class {
        with_missing(inferred.types, type_params, type_params.len())
    } else {
        inferred.types
    };
    with_errored(filled, inferred.errored, inferred.errored.len())
}

/// The return type of a generic signature for this call: instantiated,
/// simplified, its literals widened, given the type parameters that it still
/// needs, and the type parameters of function arguments that nothing
/// determines set to `unknown`.
pub open spec fn instantiated_return<R: TypeRelations>(
    rel: &R,
    site: SpecCallSite,
    type_params: Seq<SpecTypeParam>,
    params: Seq<SpecFnParam>,
    ret_ty: SpecType,
) -> SpecType {
    let bound = rewritten(
        rel,
        site.env,
        SpecRewrite::Substitute(final_bindings(rel, site, type_params, params, ret_ty)),
        ret_ty,
    );
    let simple = rewritten(rel, site.env, SpecRewrite::Simplify, bound);
    let wide = with_required_type_params(
        rewritten(rel, site.env, SpecRewrite::Generalize, simple),
    );
    if site.type_ann.is_none() {
        let defaults = if site.pass is Reevaluating {
            fn_defaults(site.spread_arg_types, site.spread_arg_types.len())
        } else {
            Map::empty()
        };
        rewritten(rel, site.env, SpecRewrite::Substitute(defaults), wide)
    } else {
        wide
    }
}

/// Whether the call is to be checked again: on the first pass of a call that
/// can be checked again, where a function literal among the arguments has a
/// parameter whose type is now known.
pub open spec fn wants_reevaluation(site: SpecCallSite, expanded: Seq<SpecFnParam>) -> bool {
    site.pass is FirstPass && !(site.reeval is NoReeval) && patches(site.args, expanded).len() > 0
}

/// The type of a call of a generic signature.
pub open spec fn generic_return<R: TypeRelations>(
    rel: &R,
    site: SpecCallSite,
    type_params: Seq<SpecTypeParam>,
    params: Seq<SpecFnParam>,
    ret_ty: SpecType,
) -> SpecRun {
    let expanded = instantiated_params(rel, site, type_params, params, ret_ty);
    if wants_reevaluation(site, expanded) {
        SpecRun::of(SpecOutcome::Reevaluate(patches(site.args, expanded)))
    } else {
        let ty = instantiated_return(rel, site, type_params, params, ret_ty);
        SpecRun {
            outcome: SpecOutcome::Resolved(ty),
            errors: arg_type_errors(
                site.env,
                rel,
                expanded,
                respread(site.args, site.args.len()),
                true,
            ),
            facts: if site.kind == ExtractKind::Call {
                call_facts(site.env, rel, site.vars, expanded, site.args, ty)
            } else {
                Seq::empty()
            },
        }
    }
}

/// The type of a call of the signature `(type_params, params, ret_ty)`.
///
/// The receiver type is put into the signature. A wrong number of arguments
/// or of type arguments is reported, and the resolution goes on.
pub open spec fn return_type<R: TypeRelations>(
    rel: &R,
    site: SpecCallSite,
    type_params: Option<Seq<SpecTypeParam>>,
    params: Seq<SpecFnParam>,
    ret_ty: SpecType,
) -> SpecRun {
    let params = with_this(rel, site.env, site.this, params);
    let ret_ty = type_with_this(rel, site.env, site.this, ret_ty);
    let counts = errors_of(arity_check(rel, site.span, params, site.args, site.is_calling_iife))
        + errors_of(type_args_check(site.span, type_params, site.type_args));
    (match type_params {
        Some(tps) => generic_return(rel, site, tps, params, ret_ty),
        None => plain_return(rel, site, params, ret_ty),
    }).after_errors(counts)
}

/// A call is checked again at most once: on the second pass no resolution
/// asks for another.
pub proof fn law_reevaluation_happens_once<R: TypeRelations>(
    rel: &R,
    site: SpecCallSite,
    type_params: Option<Seq<SpecTypeParam>>,
    params: Seq<SpecFnParam>,
    ret_ty: SpecType,
)
    requires
        site.pass is Reevaluating,
    ensures
        !(return_type(rel, site, type_params, params, ret_ty).outcome is Reevaluate),
{
    reveal(return_type);
}

/// The error of a check as a list of reports.
fn errors_from(r: Result<(), ErrorKind>) -> (errs: Vec<ErrorKind>)
    ensures
        errs@ == errors_of(r),
{
    let mut errs: Vec<ErrorKind> = Vec::new();
    match r {
        Ok(_) => {},
        Err(e) => {
            errs.push(e);
        },
    }
    assert(errs@ =~= errors_of(r));
    errs
}

/// The parameters with the receiver type put in, where it is known.
fn expand_this_params<R: TypeRelations>(
    rel: &R,
    env: &TypeEnv,
    this: Option<&Type>,
    params: &Vec<FnParam>,
) -> (r: Vec<FnParam>)
    ensures
        params_model(r) == with_this(rel, env@, opt_ref_model(this), params_model(*params)),
{
    match this {
        Some(t) => rewrite_params(rel, env, &Rewrite::ExpandThis(t), params),
        None => clone_params(params),
    }
}

/// The type with the receiver type put in, where it is known.
fn expand_this_type<R: TypeRelations>(
    rel: &R,
    env: &TypeEnv,
    this: Option<&Type>,
    ty: &Type,
) -> (r: Type)
    ensures
        r@ == type_with_this(rel, env@, opt_ref_model(this), ty@),
{
    match this {
        Some(t) => rewrite(rel, env, &Rewrite::ExpandThis(t), ty),
        None => ty.clone(),
    }
}

/// Binds each of `params` to `unknown`.
fn insert_unknown(map: &mut TypeMap, params: &Vec<TypeParam>)
    ensures
        final(map)@ == with_unknown(old(map)@, type_params_model(*params), params.len() as nat),
{
    let ghost pm = type_params_model(*params);
    let ghost start = map@;
    let mut i: usize = 0;
    while i < params.len()
        invariant
            i <= params.len(),
            pm == type_params_model(*params),
            map@ == with_unknown(start, pm, i as nat),
        decreases params.len() - i,
    {
        assert(pm[i as int] == params[i as int]@);
        map.insert(params[i].name, Type::Keyword(Keyword::Unknown));
        i += 1;
    }
}

/// `unknown` for the type parameters of the function types among the
/// arguments.
fn collect_fn_defaults(args: &Vec<TypeOrSpread>) -> (map: TypeMap)
    ensures
        map@ == fn_defaults(args_model(*args), args.len() as nat),
{
    let ghost am = args_model(*args);
    let mut map = TypeMap::new();
    let mut i: usize = 0;
    while i < args.len()
        invariant
            i <= args.len(),
            am == args_model(*args),
            map@ == fn_defaults(am, i as nat),
        decreases args.len() - i,
    {
        assert(am[i as int] == args[i as int]@);
        match &args[i].ty {
            Type::Function(sig) => {
                assert(args[i as int].ty@ == SpecType::Function(sig@));
                assert(sig@.type_params == opt_type_params_model(sig.type_params));
                match &sig.type_params {
                    Some(ps) => {
                        insert_unknown(&mut map, ps);
                    },
                    None => {},
                }
            },
            _ => {},
        }
        i += 1;
    }
    map
}

/// Binds to `unknown` those of `params` that the map does not bind.
fn fill_missing(map: &mut TypeMap, params: &Vec<TypeParam>)
    ensures
        final(map)@ == with_missing(old(map)@, type_params_model(*params), params.len() as nat),
{
    let ghost pm = type_params_model(*params);
    let ghost start = map@;
    let mut i: usize = 0;
    while i < params.len()
        invariant
            i <= params.len(),
            pm == type_params_model(*params),
            map@ == with_missing(start, pm, i as nat),
        decreases params.len() - i,
    {
        assert(pm[i as int] == params[i as int]@);
        if !map.contains_key(params[i].name) {
            map.insert(params[i].name, Type::Keyword(Keyword::Unknown));
        }
        i += 1;
    }
}

/// Binds each of `names` to `unknown`.
fn fill_errored(map: &mut TypeMap, names: &Vec<Name>)
    ensures
        final(map)@ == with_errored(old(map)@, names@, names.len() as nat),
{
    let ghost start = map@;
    let mut i: usize = 0;
    while i < names.len()
        invariant
            i <= names.len(),
            map@ == with_errored(start, names@, i as nat),
        decreases names.len() - i,
    {
        map.insert(names[i], Type::Keyword(Keyword::Unknown));
        i += 1;
    }
}

/// The patches for the parameters of one function literal.
fn collect_literal_patches(
    arg: usize,
    implicit_any: &Vec<bool>,
    expected: &Vec<FnParam>,
) -> (r: Vec<Patch>)
    ensures
        patches_model(r) == literal_patches(
            arg,
            implicit_any@,
            params_model(*expected),
            implicit_any.len() as nat,
        ),
{
    let ghost em = params_model(*expected);
    let mut out: Vec<Patch> = Vec::new();
    let mut i: usize = 0;
    assert(patches_model(out) =~= Seq::empty());
    while i < implicit_any.len()
        invariant
            i <= implicit_any.len(),
            em == params_model(*expected),
            patches_model(out) == literal_patches(arg, implicit_any@, em, i as nat),
        decreases implicit_any.len() - i,
    {
        let ghost before = patches_model(out);
        if i < expected.len() && implicit_any[i] {
            assert(em[i as int] == expected[i as int]@);
            let p = Patch { arg, param: i, ty: expected[i].ty.clone() };
            let ghost pv = p@;
            out.push(p);
            assert(patches_model(out) =~= before.push(pv));
        }
        i += 1;
    }
    out
}

/// The patches that the argument at `i` asks for.
pub fn patches_for_arg(args: &Vec<Arg>, params: &Vec<FnParam>, i: usize) -> (r: Vec<Patch>)
    requires
        i < args.len(),
        i < params.len(),
    ensures
        patches_model(r) == arg_patches(call_args_model(*args), params_model(*params), i as int),
{
    assert(call_args_model(*args)[i as int] == args[i as int]@);
    assert(params_model(*params)[i as int] == params[i as int]@);
    match (&params[i].ty, &args[i].expr) {
        (Type::Function(sig), ArgExpr::Function { implicit_any }) => {
            assert(params[i as int].ty@ == SpecType::Function(sig@));
            assert(sig@.params == params_model(sig.params));
            collect_literal_patches(i, implicit_any, &sig.params)
        },
        _ => {
            let out: Vec<Patch> = Vec::new();
            assert(patches_model(out) =~= Seq::empty());
            out
        },
    }
}

/// The types that the parameters of the function literals among the
/// arguments are to get.
pub fn collect_patches(args: &Vec<Arg>, params: &Vec<FnParam>) -> (r: Vec<Patch>)
    ensures
        patches_model(r) == patches(call_args_model(*args), params_model(*params)),
{
    let ghost am = call_args_model(*args);
    let ghost pm = params_model(*params);
    let n = if args.len() <= params.len() {
        args.len()
    } else {
        params.len()
    };
    let mut out: Vec<Patch> = Vec::new();
    let mut i: usize = 0;
    assert(patches_model(out) =~= Seq::empty());
    while i < n
        invariant
            i <= n,
            n <= args.len(),
            n <= params.len(),
            am == call_args_model(*args),
            pm == params_model(*params),
            patches_model(out) == patches_upto(am, pm, i as nat),
        decreases n - i,
    {
        let ghost before = patches_model(out);
        let mut more = patches_for_arg(args, params, i);
        let ghost mv = patches_model(more);
        out.append(&mut more);
        assert(patches_model(out) =~= before + mv);
        i += 1;
    }
    out
}

/// Works out the spreads of the arguments again, from their types as they
/// stand.
pub fn respread_args(args: &Vec<Arg>) -> (r: Vec<TypeOrSpread>)
    ensures
        args_model(r) == respread(call_args_model(*args), args.len() as nat),
{
    let ghost am = call_args_model(*args);
    let mut out: Vec<TypeOrSpread> = Vec::new();
    let mut i: usize = 0;
    assert(args_model(out) =~= Seq::empty());
    while i < args.len()
        invariant
            i <= args.len(),
            am == call_args_model(*args),
            args_model(out) == respread(am, i as nat),
        decreases args.len() - i,
    {
        let ghost before = args_model(out);
        let arg = &args[i];
        assert(am[i as int] == arg@);
        let mut done = false;
        match (arg.spread, &arg.ty) {
            (Some(at), Type::Tuple(elems)) => {
                let ghost em = types_model(*elems);
                let mut k: usize = 0;
                while k < elems.len()
                    invariant
                        k <= elems.len(),
                        em == types_model(*elems),
                        args_model(out) == before + tuple_entries(at, em).subrange(0, k as int),
                    decreases elems.len() - k,
                {
                    let ghost prev = args_model(out);
                    out.push(TypeOrSpread { span: at, spread: None, ty: elems[k].clone() });
                    assert(args_model(out) =~= prev + seq![tuple_entries(at, em)[k as int]]);
                    assert(args_model(out) =~= before + tuple_entries(at, em).subrange(0, k + 1));
                    k += 1;
                }
                assert(tuple_entries(at, em).subrange(0, k as int) =~= tuple_entries(at, em));
                done = true;
            },
            _ => {},
        }
        if !done {
            out.push(TypeOrSpread { span: arg.span, spread: arg.spread, ty: arg.ty.clone() });
            assert(args_model(out) =~= before + seq![plain_entry(arg@)]);
        }
        i += 1;
    }
    out
}

/// Works out the type of a call of a signature without type parameters.
fn get_plain_return_type<R: TypeRelations>(
    rel: &R,
    site: &CallSite,
    params: &Vec<FnParam>,
    ret_ty: &Type,
) -> (r: Run)
    ensures
        r@ == plain_return(rel, site@, params_model(*params), ret_ty@),
{
    let errors = validate_arg_types(site.env, rel, params, site.spread_arg_types, false);
    let ty = add_required_type_params(rewrite(rel, site.env, &Rewrite::Simplify, ret_ty));
    let facts = if site.kind == ExtractKind::Call {
        add_call_facts(site.env, rel, site.vars, params, site.args, &ty)
    } else {
        let f: Vec<Fact> = Vec::new();
        assert(facts_model(f) =~= Seq::empty());
        f
    };
    Run { outcome: Outcome::Resolved(ty), errors, facts }
}

/// Works out the type of a call of a generic signature.
fn get_generic_return_type<R: TypeRelations>(
    rel: &R,
    site: &CallSite,
    type_params: &Vec<TypeParam>,
    params: &Vec<FnParam>,
    ret_ty: &Type,
) -> (r: Run)
    ensures
        r@ == generic_return(
            rel,
            site@,
            type_params_model(*type_params),
            params_model(*params),
            ret_ty@,
        ),
{
    let first_pass = matches!(site.pass, Pass::FirstPass);
    let hinted = match site.type_ann {
        Some(ann) => if first_pass {
            let map = rel.infer_type_with_types(type_params, ret_ty, ann);
            rewrite_params(rel, site.env, &Rewrite::Substitute(&map), params)
        } else {
            clone_params(params)
        },
        None => clone_params(params),
    };
    let inferred = rel.infer_arg_types(
        site.type_args,
        type_params,
        &hinted,
        site.spread_arg_types,
        site.type_ann.is_some(),
    );
    let expanded = rewrite_params(rel, site.env, &Rewrite::Substitute(&inferred.types), &hinted);
    let found = collect_patches(site.args, &expanded);
    if first_pass && !matches!(site.reeval, ReevalMode::NoReeval) && found.len() > 0 {
        return Run::of(Outcome::Reevaluate(found));
    }
    let spread = respread_args(site.args);
    let errors = validate_arg_types(site.env, rel, &expanded, &spread, true);
    let mut bindings = inferred.types;
    if site.is_instantiating_class {
        fill_missing(&mut bindings, type_params);
    }
    fill_errored(&mut bindings, &inferred.errored);
    let bound = rewrite(rel, site.env, &Rewrite::Substitute(&bindings), ret_ty);
    let simple = rewrite(rel, site.env, &Rewrite::Simplify, &bound);
    let wide = add_required_type_params(rewrite(rel, site.env, &Rewrite::Generalize, &simple));
    let ty = if site.type_ann.is_none() {
        let defaults = if first_pass {
            TypeMap::new()
        } else {
            collect_fn_defaults(site.spread_arg_types)
        };
        rewrite(rel, site.env, &Rewrite::Substitute(&defaults), &wide)
    } else {
        wide
    };
    let facts = if site.kind == ExtractKind::Call {
        add_call_facts(site.env, rel, site.vars, &expanded, site.args, &ty)
    } else {
        let f: Vec<Fact> = Vec::new();
        assert(facts_model(f) =~= Seq::empty());
        f
    };
    Run { outcome: Outcome::Resolved(ty), errors, facts }
}

/// Works out the type of a call of the signature
/// `(type_params, params, ret_ty)`.
pub fn get_return_type<R: TypeRelations>(
    rel: &R,
    site: &CallSite,
    type_params: &Option<Vec<TypeParam>>,
    params: &Vec<FnParam>,
    ret_ty: &Type,
) -> (r: Run)
    ensures
        r@ == return_type(
            rel,
            site@,
            opt_type_params_model(*type_params),
            params_model(*params),
            ret_ty@,
        ),
{
    reveal(return_type);
    let params = expand_this_params(rel, site.env, site.this, params);
    let ret_ty = expand_this_type(rel, site.env, site.this, ret_ty);
    let mut counts = errors_from(
        validate_arg_count(rel, site.span, &params, site.args, site.is_calling_iife),
    );
    let mut more = errors_from(validate_type_args_count(site.span, type_params, site.type_args));
    counts.append(&mut more);
    let run = match type_params {
        Some(tps) => get_generic_return_type(rel, site, tps, &params, &ret_ty),
        None => get_plain_return_type(rel, site, &params, &ret_ty),
    };
    run.after_errors(counts)
}

/// The resolution of a call of a method signature: that of a call of its
/// signature, whatever the kind of the call site.
pub open spec fn method_return<R: TypeRelations>(
    rel: &R,
    site: SpecCallSite,
    sig: SpecSignature,
) -> SpecRun {
    return_type(
        rel,
        SpecCallSite { kind: ExtractKind::Call, ..site },
        sig.type_params,
        sig.params,
        match sig.ret {
            Some(t) => *t,
            None => any(),
        },
    )
}

/// Works out the type of a call of a method with the signature `sig`.
pub fn check_method_call<R: TypeRelations>(rel: &R, site: &CallSite, sig: &Signature) -> (r: Run)
    ensures
        r@ == method_return(rel, site@, sig@),
{
    let site = CallSite {
        env: site.env,
        vars: site.vars,
        span: site.span,
        kind: ExtractKind::Call,
        args: site.args,
        spread_arg_types: site.spread_arg_types,
        arg_count_unknown: site.arg_count_unknown,
        type_args: site.type_args,
        type_ann: site.type_ann,
        this: site.this,
        pass: site.pass,
        reeval: site.reeval,
        is_calling_iife: site.is_calling_iife,
        is_instantiating_class: site.is_instantiating_class,
    };
    assert(sig@.ret == opt_type_model(sig.ret));
    let ret = match &sig.ret {
        Some(t) => (**t).clone(),
        None => Type::Keyword(Keyword::Any),
    };
    get_return_type(rel, &site, &sig.type_params, &sig.params, &ret)
}

} // verus!
