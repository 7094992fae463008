//! Resolving `obj.prop(...)` and `new obj.Prop(...)`.
use vstd::prelude::*;

use crate::candidates::{
    append_candidates, callee_candidates, candidate_of, extract_callee_candidates,
};
use crate::env::{SpecEnv, TypeEnv};
use crate::errors::ErrorKind;
use crate::model::{
    any, candidates_model, elements_model, members_model, opt_type_model, opt_types_model,
    types_model, SpecCandidate, SpecClassDef, SpecClassMember, SpecInterface, SpecType,
    SpecTypeElement,
};
use crate::names::{ARRAY, OBJECT, SYMBOL};
use crate::narrow::{facts_model, materialized, Fact};
use crate::relations::TypeRelations;
use crate::resolve::{extract, extracted, Attempt, CallOpts, SpecAttempt};
use crate::select::{best_return, get_best_return_type, select_and_invoke, selection};
use crate::site::{
    lemma_after_is_associative, CallSite, Outcome, Run, SpecCallSite,
    SpecOutcome, SpecRun,
};
use crate::types::{
    CallCandidate, ClassDef, ClassMember, ExtractKind, Interface, Key, Keyword, Name, Type,
    TypeElement,
};
use crate::unions::{union, union_of};

verus! {

/// The error of an object that has no member of that name to call or to
/// construct.
pub open spec fn no_property(site: SpecCallSite, key: Key) -> ErrorKind {
    match site.kind {
        ExtractKind::Call => ErrorKind::NoCallablePropertyWithName { span: site.span, key },
        ExtractKind::New => ErrorKind::NoSuchConstructor { span: site.span, key },
    }
}

/// The candidate of a property of type `any`: it takes anything and yields
/// `any`.
pub open spec fn any_candidate() -> SpecCandidate {
    SpecCandidate { type_params: None, params: Seq::empty(), ret_ty: any() }
}

/// The candidates that a property of type `ty` offers.
pub open spec fn property_type_candidates(
    env: SpecEnv,
    kind: ExtractKind,
    ty: SpecType,
) -> Seq<SpecCandidate> {
    match env.normal(ty) {
        SpecType::Keyword(Keyword::Any) => seq![any_candidate()],
        SpecType::Function(sig) => if kind == ExtractKind::Call {
            seq![candidate_of(sig, any())]
        } else {
            callee_candidates(env, kind, env.normal(ty))
        },
        _ => callee_candidates(env, kind, env.normal(ty)),
    }
}

/// The candidates that one member of a type literal offers to a call of the
/// member named `prop`: a method of that name, or what a property of that
/// name offers.
pub open spec fn member_candidates(
    env: SpecEnv,
    kind: ExtractKind,
    m: SpecTypeElement,
    prop: Key,
    opts: CallOpts,
) -> Seq<SpecCandidate> {
    match m {
        SpecTypeElement::Method { key, optional, sig } => if kind == ExtractKind::Call && !(
        opts.disallow_optional_object_property && optional) && (opts.allow_private_names || !(
        key.private || prop.private)) && key.name == prop.name {
            seq![candidate_of(sig, any())]
        } else {
            Seq::empty()
        },
        SpecTypeElement::Property { key, optional, ty } => if !(
        opts.disallow_optional_object_property && optional) && key == prop {
            property_type_candidates(
                env,
                kind,
                match ty {
                    Some(t) => *t,
                    None => any(),
                },
            )
        } else {
            Seq::empty()
        },
        _ => Seq::empty(),
    }
}

/// The candidates that the first `n` members offer.
pub open spec fn members_candidates(
    env: SpecEnv,
    kind: ExtractKind,
    members: Seq<SpecTypeElement>,
    prop: Key,
    opts: CallOpts,
    n: nat,
) -> Seq<SpecCandidate>
    decreases n,
{
    if n == 0 {
        Seq::empty()
    } else {
        members_candidates(env, kind, members, prop, opts, (n - 1) as nat) + member_candidates(
            env,
            kind,
            members[n - 1],
            prop,
            opts,
        )
    }
}

/// The members of the built-in interface `Object`.
pub open spec fn object_members(env: SpecEnv) -> Seq<SpecTypeElement> {
    match env.type_of(OBJECT) {
        Some(SpecType::Interface(i)) => i.body,
        _ => Seq::empty(),
    }
}

/// The resolution of a call of the member `prop` among `members`; the
/// members of `Object` are at hand as well.
#[verifier::opaque]
pub open spec fn elements_property<R: TypeRelations>(
    rel: &R,
    site: SpecCallSite,
    members: Seq<SpecTypeElement>,
    prop: Key,
    opts: CallOpts,
) -> SpecRun {
    let builtin = object_members(site.env);
    let cs = members_candidates(site.env, site.kind, members, prop, opts, members.len())
        + members_candidates(site.env, site.kind, builtin, prop, opts, builtin.len());
    match selection(rel, site, cs) {
        Some(run) => run,
        None => SpecRun::of(SpecOutcome::Failed(ErrorKind::NoSuchProperty { span: site.span, key: prop })),
    }
}

/// The error of a member that is there but cannot be called or constructed.
pub open spec fn as_property_error(site: SpecCallSite, key: Key, o: SpecOutcome) -> SpecOutcome {
    match o {
        SpecOutcome::Failed(ErrorKind::NoCallSignature { span }) => SpecOutcome::Failed(
            ErrorKind::NoCallablePropertyWithName { span, key },
        ),
        SpecOutcome::Failed(ErrorKind::NoNewSignature { span }) => SpecOutcome::Failed(
            ErrorKind::NoConstructablePropertyWithName { span, key },
        ),
        _ => o,
    }
}

/// The last resort: the member is looked up like any property, and what is
/// found is called. An instance of a class has no such resort. An abstract
/// class found that way is reported.
#[verifier::opaque]
pub open spec fn last_resort<R: TypeRelations>(
    rel: &R,
    site: SpecCallSite,
    obj: SpecType,
    prop: Key,
) -> SpecRun {
    if obj is Class {
        SpecRun::of(SpecOutcome::Failed(no_property(site, prop)))
    } else {
        match rel.member(obj, prop) {
            None => SpecRun::of(
                SpecOutcome::Failed(ErrorKind::NoSuchProperty { span: site.span, key: prop }),
            ),
            Some(callee) => {
                let c = site.env.normal(callee);
                let run = best_return(rel, site, c);
                SpecRun {
                    outcome: as_property_error(site, prop, run.outcome),
                    errors: run.errors,
                    facts: run.facts,
                }.after_errors(
                    if is_abstract_class(c) {
                        seq![ErrorKind::CannotCreateInstanceOfAbstractClass { span: site.span }]
                    } else {
                        Seq::empty()
                    },
                )
            },
        }
    }
}

/// Whether the type is an abstract class.
pub open spec fn is_abstract_class(t: SpecType) -> bool {
    match t {
        SpecType::ClassDef(cls) => cls.is_abstract,
        _ => false,
    }
}

/// The type of the first property among the members from `k` on that is
/// named `prop`, is static or not as asked, and has a type.
pub open spec fn callable_property(
    body: Seq<SpecClassMember>,
    prop: Key,
    is_static: bool,
    k: nat,
) -> Option<SpecType>
    decreases body.len() - k,
{
    if k >= body.len() {
        None
    } else {
        match body[k as int] {
            SpecClassMember::Property { key, is_static: s, value: Some(ty) } => if s == is_static
                && key == prop {
                Some(*ty)
            } else {
                callable_property(body, prop, is_static, k + 1)
            },
            _ => callable_property(body, prop, is_static, k + 1),
        }
    }
}

/// The candidates of the methods named `prop` among the first `n` members.
pub open spec fn method_candidates(
    body: Seq<SpecClassMember>,
    prop: Key,
    is_static: bool,
    n: nat,
) -> Seq<SpecCandidate>
    decreases n,
{
    if n == 0 {
        Seq::empty()
    } else {
        let before = method_candidates(body, prop, is_static, (n - 1) as nat);
        match body[n - 1] {
            SpecClassMember::Method { key, is_static: s, sig } => if s == is_static && key == prop {
                before.push(candidate_of(sig, any()))
            } else {
                before
            },
            _ => before,
        }
    }
}

/// What the first `n` members of a class offer to a call of the member
/// `prop`: the methods of that name, and what the properties of that name
/// offer as values.
pub open spec fn class_callables(
    env: SpecEnv,
    kind: ExtractKind,
    body: Seq<SpecClassMember>,
    prop: Key,
    is_static: bool,
    n: nat,
) -> Seq<SpecCandidate>
    decreases n,
{
    if n == 0 {
        Seq::empty()
    } else {
        class_callables(env, kind, body, prop, is_static, (n - 1) as nat) + match body[n - 1] {
            SpecClassMember::Method { key, is_static: s, sig } => if s == is_static && key == prop {
                seq![candidate_of(sig, any())]
            } else {
                Seq::empty()
            },
            SpecClassMember::Property { key, is_static: s, value: Some(ty) } => if s == is_static
                && key == prop {
                callee_candidates(env, kind, *ty)
            } else {
                Seq::empty()
            },
            _ => Seq::empty(),
        }
    }
}

/// Whether the type is the built-in interface `Object`.
pub open spec fn is_object_interface(t: SpecType) -> bool {
    match t {
        SpecType::Interface(i) => i.name == OBJECT,
        _ => false,
    }
}

/// A reference to the built-in interface `Object`.
pub open spec fn object_ref() -> SpecType {
    SpecType::Ref { name: OBJECT, type_args: None }
}

/// A reference to the built-in interface `Array` of `elem`.
pub open spec fn array_ref(elem: SpecType) -> SpecType {
    SpecType::Ref { name: ARRAY, type_args: Some(seq![elem]) }
}

/// The resolution on the members of an intersection from `k` on, `found`
/// holding the types of the members before: the union of the types of all
/// members on which the call resolves; a member that asks for the call to be
/// checked again has it checked again, and one that fails for good fails the
/// call.
pub open spec fn members_property<R: TypeRelations>(
    rel: &R,
    site: SpecCallSite,
    ts: Seq<SpecType>,
    k: nat,
    found: Seq<SpecType>,
    prop: Key,
    opts: CallOpts,
    fuel: nat,
) -> SpecRun
    decreases fuel, 1nat, ts.len() - k,
{
    if k >= ts.len() {
        if found.len() == 0 {
            SpecRun::of(SpecOutcome::Failed(no_property(site, prop)))
        } else {
            SpecRun::of(SpecOutcome::Resolved(union_of(found)))
        }
    } else {
        let run = property_call(rel, site, ts[k as int], prop, opts, fuel);
        match run.outcome {
            SpecOutcome::Reevaluate(_) => run,
            SpecOutcome::Resolved(t) => members_property(
                rel,
                site,
                ts,
                k + 1,
                found.push(t),
                prop,
                opts,
                fuel,
            ).after(run),
            SpecOutcome::Failed(_) => if run.failed_hard() {
                run
            } else {
                members_property(rel, site, ts, k + 1, found, prop, opts, fuel).after(run)
            },
        }
    }
}

/// The resolution on the parents of an interface from `k` on: that of the
/// first on which it settles; `fallback` where it settles on none.
pub open spec fn parents_property<R: TypeRelations>(
    rel: &R,
    site: SpecCallSite,
    parents: Seq<Name>,
    k: nat,
    fallback: SpecOutcome,
    prop: Key,
    opts: CallOpts,
    fuel: nat,
) -> SpecRun
    decreases fuel, 1nat, parents.len() - k,
{
    if k >= parents.len() {
        SpecRun::of(fallback)
    } else {
        let next = parents_property(rel, site, parents, k + 1, fallback, prop, opts, fuel);
        match site.env.type_of(parents[k as int]) {
            Some(p) => property_call(rel, site, p, prop, opts, fuel).or_else(next),
            None => next,
        }
    }
}

/// The resolution on an interface: its own members first, so that they
/// shadow inherited ones, then its parents in turn.
pub open spec fn interface_property<R: TypeRelations>(
    rel: &R,
    site: SpecCallSite,
    i: SpecInterface,
    prop: Key,
    opts: CallOpts,
    fuel: nat,
) -> SpecRun
    decreases fuel, 2nat, 0nat,
{
    let first = elements_property(rel, site, i.body, prop, opts);
    first.or_else(parents_property(rel, site, i.extends, 0, first.outcome, prop, opts, fuel))
}

/// The resolution on a class: a property of that name is called as a value;
/// otherwise the best of the methods of that name; otherwise the super
/// class is asked, its instances where an instance is the receiver.
pub open spec fn class_property<R: TypeRelations>(
    rel: &R,
    site: SpecCallSite,
    cls: SpecClassDef,
    prop: Key,
    is_static: bool,
    opts: CallOpts,
    fuel: nat,
) -> SpecAttempt
    decreases fuel, 2nat, 0nat,
{
    match callable_property(cls.body, prop, is_static, 0) {
        Some(ty) => SpecAttempt::found(extracted(rel, site, ty, opts)),
        None => match selection(
            rel,
            site,
            method_candidates(cls.body, prop, is_static, cls.body.len()),
        ) {
            Some(run) => SpecAttempt::found(run),
            None => match cls.super_class {
                Some(sc) => SpecAttempt::settled_only(
                    property_call(
                        rel,
                        site,
                        if is_static {
                            *sc
                        } else {
                            materialized(site.env.normal(*sc))
                        },
                        prop,
                        opts,
                        fuel,
                    ),
                ),
                None => SpecAttempt::nothing(SpecRun::of(SpecOutcome::Failed(no_property(site, prop)))),
            },
        },
    }
}

/// What is tried when the shape of the object gave nothing: the members of
/// `Object`, then the last resort.
pub open spec fn fallback_property<R: TypeRelations>(
    rel: &R,
    site: SpecCallSite,
    obj: SpecType,
    prop: Key,
    opts: CallOpts,
    fuel: nat,
) -> SpecRun
    decreases fuel, 2nat, 0nat,
{
    let last = last_resort(rel, site, obj, prop);
    if !is_object_interface(obj) && !opts.do_not_check_object {
        property_call(
            rel,
            site,
            object_ref(),
            prop,
            CallOpts { do_not_check_object: true, ..opts },
            fuel,
        ).or_else(last)
    } else {
        last
    }
}

/// What an attempt on a class comes to: its run where something was found,
/// the fallback after its reports where not.
pub open spec fn class_or_fallback<R: TypeRelations>(
    rel: &R,
    site: SpecCallSite,
    obj: SpecType,
    cls: SpecClassDef,
    is_static: bool,
    prop: Key,
    opts: CallOpts,
    fuel: nat,
) -> SpecRun
    decreases fuel, 3nat, 0nat,
{
    let attempt = class_property(rel, site, cls, prop, is_static, opts, fuel);
    if attempt.found {
        attempt.run
    } else {
        fallback_property(rel, site, obj, prop, opts, fuel).after(attempt.run)
    }
}

/// The resolution of a call of the member `prop` of an object of type
/// `obj_type`, following at most `fuel` parents, super classes and built-in
/// types in a row.
pub open spec fn property_call<R: TypeRelations>(
    rel: &R,
    site: SpecCallSite,
    obj_type: SpecType,
    prop: Key,
    opts: CallOpts,
    fuel: nat,
) -> SpecRun
    decreases fuel, 0nat, 0nat,
{
    if fuel == 0 {
        SpecRun::of(SpecOutcome::Failed(ErrorKind::TooDeep { span: site.span }))
    } else {
        let rest = (fuel - 1) as nat;
        let obj = site.env.normal(obj_type);
        match obj {
            SpecType::Keyword(Keyword::Any) => SpecRun::of(SpecOutcome::Resolved(any())),
            SpecType::Array(elem) => property_call(rel, site, array_ref(*elem), prop, opts, rest),
            SpecType::Intersection(ts) => members_property(
                rel,
                site,
                ts,
                0,
                Seq::empty(),
                prop,
                opts,
                rest,
            ),
            SpecType::Interface(i) => interface_property(rel, site, i, prop, opts, rest),
            SpecType::TypeLit(members) => elements_property(rel, site, members, prop, opts),
            SpecType::ClassDef(cls) => class_or_fallback(rel, site, obj, cls, true, prop, opts, rest),
            SpecType::Class(cls) => class_or_fallback(rel, site, obj, cls, false, prop, opts, rest),
            SpecType::Keyword(Keyword::Symbol) => match site.env.type_of(SYMBOL) {
                Some(t) => SpecRun::of(SpecOutcome::Resolved(t)),
                None => fallback_property(rel, site, obj, prop, opts, rest),
            },
            _ => fallback_property(rel, site, obj, prop, opts, rest),
        }
    }
}

/// The resolution of `this.prop(...)` with `this` of type `this` and `prop`
/// looked up on `obj_type`.
pub open spec fn property_called<R: TypeRelations>(
    rel: &R,
    site: SpecCallSite,
    this: SpecType,
    obj_type: SpecType,
    prop: Key,
    opts: CallOpts,
) -> SpecRun {
    property_call(rel, site.with_this(this), obj_type, prop, opts, site.env.depth_limit)
}

/// The error of an object that has no member of that name to call or to
/// construct.
pub fn no_property_error(site: &CallSite, key: Key) -> (r: ErrorKind)
    ensures
        r == no_property(site@, key),
{
    match site.kind {
        ExtractKind::Call => ErrorKind::NoCallablePropertyWithName { span: site.span, key },
        ExtractKind::New => ErrorKind::NoSuchConstructor { span: site.span, key },
    }
}

/// The candidates that a property of type `ty` offers.
fn candidates_of_property_type(
    env: &TypeEnv,
    kind: ExtractKind,
    ty: &Type,
) -> (r: Vec<CallCandidate>)
    ensures
        candidates_model(r) == property_type_candidates(env@, kind, ty@),
{
    let t = env.normalize(ty);
    match t {
        Type::Keyword(Keyword::Any) => {
            let mut out: Vec<CallCandidate> = Vec::new();
            let c = CallCandidate {
                type_params: None,
                params: Vec::new(),
                ret_ty: Type::Keyword(Keyword::Any),
            };
            assert(c@.params =~= Seq::empty());
            out.push(c);
            assert(candidates_model(out) =~= seq![any_candidate()]);
            out
        },
        Type::Function(sig) => {
            if kind == ExtractKind::Call {
                let mut out: Vec<CallCandidate> = Vec::new();
                let c = sig.to_candidate(Type::Keyword(Keyword::Any));
                out.push(c);
                assert(candidates_model(out) =~= seq![c@]);
                out
            } else {
                extract_callee_candidates(env, kind, t)
            }
        },
        _ => extract_callee_candidates(env, kind, t),
    }
}

/// The candidates that one member offers to a call of the member named
/// `prop`.
pub fn check_type_element_for_call(
    env: &TypeEnv,
    kind: ExtractKind,
    m: &TypeElement,
    prop: Key,
    opts: CallOpts,
) -> (r: Vec<CallCandidate>)
    ensures
        candidates_model(r) == member_candidates(env@, kind, m@, prop, opts),
{
    let mut out: Vec<CallCandidate> = Vec::new();
    assert(candidates_model(out) =~= Seq::empty());
    match m {
        TypeElement::Method { key, optional, sig } => {
            if kind == ExtractKind::Call && !(opts.disallow_optional_object_property && *optional)
                && (opts.allow_private_names || !(key.private || prop.private)) && key.name
                == prop.name {
                let c = sig.to_candidate(Type::Keyword(Keyword::Any));
                out.push(c);
                assert(candidates_model(out) =~= seq![c@]);
            }
            out
        },
        TypeElement::Property { key, optional, ty } => {
            assert(m@ == SpecTypeElement::Property {
                key: *key,
                optional: *optional,
                ty: opt_type_model(*ty),
            });
            if !(opts.disallow_optional_object_property && *optional) && *key == prop {
                match ty {
                    Some(t) => candidates_of_property_type(env, kind, t),
                    None => candidates_of_property_type(env, kind, &Type::Keyword(Keyword::Any)),
                }
            } else {
                out
            }
        },
        _ => out,
    }
}

/// The candidates that the members offer to a call of the member `prop`.
fn collect_member_candidates(
    env: &TypeEnv,
    kind: ExtractKind,
    members: &Vec<TypeElement>,
    prop: Key,
    opts: CallOpts,
) -> (r: Vec<CallCandidate>)
    ensures
        candidates_model(r) == members_candidates(
            env@,
            kind,
            elements_model(*members),
            prop,
            opts,
            members.len() as nat,
        ),
{
    let ghost mm = elements_model(*members);
    let mut out: Vec<CallCandidate> = Vec::new();
    assert(candidates_model(out) =~= Seq::empty());
    let mut i: usize = 0;
    while i < members.len()
        invariant
            i <= members.len(),
            mm == elements_model(*members),
            candidates_model(out) == members_candidates(env@, kind, mm, prop, opts, i as nat),
        decreases members.len() - i,
    {
        assert(mm[i as int] == members[i as int]@);
        let more = check_type_element_for_call(env, kind, &members[i], prop, opts);
        append_candidates(&mut out, more);
        i += 1;
    }
    out
}

/// Resolves a call of the member `prop` among `members`.
pub fn call_property_of_type_elements<R: TypeRelations>(
    rel: &R,
    site: &CallSite,
    members: &Vec<TypeElement>,
    prop: Key,
    opts: CallOpts,
) -> (r: Run)
    ensures
        r@ == elements_property(rel, site@, elements_model(*members), prop, opts),
{
    reveal(elements_property);
    let mut cs = collect_member_candidates(site.env, site.kind, members, prop, opts);
    match site.env.find_type(OBJECT) {
        Some(Type::Interface(i)) => {
            assert(i@.body == elements_model(i.body));
            let more = collect_member_candidates(site.env, site.kind, &i.body, prop, opts);
            append_candidates(&mut cs, more);
        },
        _ => {
            let ghost before = candidates_model(cs);
            assert(before + Seq::<SpecCandidate>::empty() =~= before);
        },
    }
    match select_and_invoke(rel, site, &cs) {
        Some(run) => run,
        None => Run::failed(ErrorKind::NoSuchProperty { span: site.span, key: prop }),
    }
}

/// Names the member in the error of a member that cannot be called or
/// constructed.
fn convert_property_error(site: &CallSite, key: Key, run: Run) -> (r: Run)
    ensures
        r@ == (SpecRun {
            outcome: as_property_error(site@, key, run@.outcome),
            errors: run@.errors,
            facts: run@.facts,
        }),
{
    let outcome = match run.outcome {
        Outcome::Failed(ErrorKind::NoCallSignature { span }) => Outcome::Failed(
            ErrorKind::NoCallablePropertyWithName { span, key },
        ),
        Outcome::Failed(ErrorKind::NoNewSignature { span }) => Outcome::Failed(
            ErrorKind::NoConstructablePropertyWithName { span, key },
        ),
        o => o,
    };
    Run { outcome, errors: run.errors, facts: run.facts }
}

/// Looks the member up like any property and calls what is found.
fn call_last_resort<R: TypeRelations>(rel: &R, site: &CallSite, obj: &Type, prop: Key) -> (r: Run)
    ensures
        r@ == last_resort(rel, site@, obj@, prop),
{
    reveal(last_resort);
    if matches!(obj, Type::Class(_)) {
        return Run::failed(no_property_error(site, prop));
    }
    match rel.access_property(obj, prop) {
        None => Run::failed(ErrorKind::NoSuchProperty { span: site.span, key: prop }),
        Some(callee) => {
            let c = site.env.normalize(&callee);
            let mut first: Vec<ErrorKind> = Vec::new();
            let is_abstract = match c {
                Type::ClassDef(cls) => {
                    assert(cls@.is_abstract == cls.is_abstract);
                    cls.is_abstract
                },
                _ => false,
            };
            if is_abstract {
                first.push(ErrorKind::CannotCreateInstanceOfAbstractClass { span: site.span });
            }
            assert(first@ =~= if is_abstract_class(c@) {
                seq![ErrorKind::CannotCreateInstanceOfAbstractClass { span: site.span }]
            } else {
                Seq::empty()
            });
            let run = get_best_return_type(rel, site, c);
            convert_property_error(site, prop, run).after_errors(first)
        },
    }
}

/// The type of the first property named `prop` that has a type.
fn find_callable_property<'a>(
    body: &'a Vec<ClassMember>,
    prop: Key,
    is_static: bool,
) -> (r: Option<&'a Type>)
    ensures
        match r {
            Some(t) => callable_property(members_model(*body), prop, is_static, 0) == Some(t@),
            None => callable_property(members_model(*body), prop, is_static, 0).is_none(),
        },
{
    let ghost bm = members_model(*body);
    let mut i: usize = 0;
    while i < body.len()
        invariant
            i <= body.len(),
            bm == members_model(*body),
            callable_property(bm, prop, is_static, 0) == callable_property(
                bm,
                prop,
                is_static,
                i as nat,
            ),
        decreases body.len() - i,
    {
        assert(bm[i as int] == body[i as int]@);
        match &body[i] {
            ClassMember::Property { key, is_static: s, value } => {
                assert(body[i as int]@ == SpecClassMember::Property {
                    key: *key,
                    is_static: *s,
                    value: opt_type_model(*value),
                });
                match value {
                    Some(ty) => {
                        if *s == is_static && *key == prop {
                            return Some(&**ty);
                        }
                    },
                    None => {},
                }
            },
            _ => {},
        }
        i += 1;
    }
    None
}

/// The candidates of the methods named `prop`.
fn collect_method_candidates(
    body: &Vec<ClassMember>,
    prop: Key,
    is_static: bool,
) -> (r: Vec<CallCandidate>)
    ensures
        candidates_model(r) == method_candidates(
            members_model(*body),
            prop,
            is_static,
            body.len() as nat,
        ),
{
    let ghost bm = members_model(*body);
    let mut out: Vec<CallCandidate> = Vec::new();
    assert(candidates_model(out) =~= Seq::empty());
    let mut i: usize = 0;
    while i < body.len()
        invariant
            i <= body.len(),
            bm == members_model(*body),
            candidates_model(out) == method_candidates(bm, prop, is_static, i as nat),
        decreases body.len() - i,
    {
        let ghost before = candidates_model(out);
        assert(bm[i as int] == body[i as int]@);
        match &body[i] {
            ClassMember::Method { key, is_static: s, sig } => {
                if *s == is_static && *key == prop {
                    let c = sig.to_candidate(Type::Keyword(Keyword::Any));
                    out.push(c);
                    assert(candidates_model(out) =~= before.push(c@));
                }
            },
            _ => {},
        }
        i += 1;
    }
    out
}

/// Resolves the call on each member of an intersection.
#[verifier::loop_isolation(false)]
fn call_members<R: TypeRelations>(
    rel: &R,
    site: &CallSite,
    ts: &Vec<Type>,
    prop: Key,
    opts: CallOpts,
    fuel: usize,
) -> (r: Run)
    ensures
        r@ == members_property(
            rel,
            site@,
            types_model(*ts),
            0,
            Seq::empty(),
            prop,
            opts,
            fuel as nat,
        ),
    decreases fuel, 1nat, ts.len(),
{
    let ghost tm = types_model(*ts);
    let ghost target = members_property(rel, site@, tm, 0, Seq::empty(), prop, opts, fuel as nat);
    let mut found: Vec<Type> = Vec::new();
    let mut errors: Vec<ErrorKind> = Vec::new();
    let mut facts: Vec<Fact> = Vec::new();
    let mut k: usize = 0;
    assert(types_model(found) =~= Seq::empty());
    assert(facts_model(facts) =~= Seq::empty());
    assert(target.after_reports(errors@, facts_model(facts)) == target) by {
        assert(errors@ + target.errors =~= target.errors);
        assert(facts_model(facts) + target.facts =~= target.facts);
    }
    while k < ts.len()
        invariant
            k <= ts.len(),
            target == members_property(
                rel,
                site@,
                tm,
                k as nat,
                types_model(found),
                prop,
                opts,
                fuel as nat,
            ).after_reports(errors@, facts_model(facts)),
        decreases ts.len() - k,
    {
        assert(tm[k as int] == ts[k as int]@);
        let ghost before = types_model(found);
        let ghost seen_errors = errors@;
        let ghost seen_facts = facts_model(facts);
        let run = call_property_with_fuel(rel, site, &ts[k], prop, opts, fuel);
        let ghost rv = run@;
        if matches!(&run.outcome, Outcome::Reevaluate(_)) || run.failed_hard() {
            return run.after_reports(errors, facts);
        }
        let Run { outcome, errors: mut more_errors, facts: mut more_facts } = run;
        match outcome {
            Outcome::Resolved(t) => {
                let ghost tv = t@;
                found.push(t);
                assert(types_model(found) =~= before.push(tv));
            },
            _ => {},
        }
        errors.append(&mut more_errors);
        facts.append(&mut more_facts);
        proof {
            let next = members_property(
                rel,
                site@,
                tm,
                (k + 1) as nat,
                types_model(found),
                prop,
                opts,
                fuel as nat,
            );
            assert(facts_model(facts) =~= seen_facts + rv.facts);
            assert(seen_errors + (rv.errors + next.errors) =~= errors@ + next.errors);
            assert(seen_facts + (rv.facts + next.facts) =~= facts_model(facts) + next.facts);
        }
        k += 1;
    }
    if found.len() == 0 {
        Run::failed(no_property_error(site, prop)).after_reports(errors, facts)
    } else {
        Run::resolved(union(found)).after_reports(errors, facts)
    }
}

/// Resolves the call on the parents of an interface in turn, after its own
/// members failed with `first`.
#[verifier::loop_isolation(false)]
fn call_parents<R: TypeRelations>(
    rel: &R,
    site: &CallSite,
    parents: &Vec<Name>,
    first: Run,
    prop: Key,
    opts: CallOpts,
    fuel: usize,
) -> (r: Run)
    requires
        !first@.settled(),
    ensures
        r@ == first@.or_else(
            parents_property(rel, site@, parents@, 0, first@.outcome, prop, opts, fuel as nat),
        ),
    decreases fuel, 1nat, parents.len(),
{
    let ghost fallback = first@.outcome;
    let ghost target = parents_property(rel, site@, parents@, 0, fallback, prop, opts, fuel as nat)
        .after(first@);
    let error = match &first.outcome {
        Outcome::Failed(e) => *e,
        _ => {
            return first;
        },
    };
    let mut reports = first;
    let mut k: usize = 0;
    while k < parents.len()
        invariant
            k <= parents.len(),
            fallback == SpecOutcome::Failed(error),
            target == parents_property(
                rel,
                site@,
                parents@,
                k as nat,
                fallback,
                prop,
                opts,
                fuel as nat,
            ).after(reports@),
        decreases parents.len() - k,
    {
        let ghost next = parents_property(
            rel,
            site@,
            parents@,
            (k + 1) as nat,
            fallback,
            prop,
            opts,
            fuel as nat,
        );
        let ghost here = parents_property(
            rel,
            site@,
            parents@,
            k as nat,
            fallback,
            prop,
            opts,
            fuel as nat,
        );
        match site.env.find_type(parents[k]) {
            Some(p) => {
                let run = call_property_with_fuel(rel, site, p, prop, opts, fuel);
                proof {
                    assert(site@.env.type_of(parents@[k as int]) == Some(p@));
                    assert(here == run@.or_else(next));
                    lemma_after_is_associative(reports@, run@, next);
                }
                let run = run.after(reports);
                if run.settled() {
                    return run;
                }
                reports = run;
            },
            None => {
                assert(site@.env.type_of(parents@[k as int]).is_none());
                assert(here == next);
            },
        }
        k += 1;
    }
    Run::failed(error).after(reports)
}

/// Resolves the call on an interface.
fn call_interface<R: TypeRelations>(
    rel: &R,
    site: &CallSite,
    i: &Interface,
    prop: Key,
    opts: CallOpts,
    fuel: usize,
) -> (r: Run)
    ensures
        r@ == interface_property(rel, site@, i@, prop, opts, fuel as nat),
    decreases fuel, 2nat, 0nat,
{
    assert(i@.body == elements_model(i.body) && i@.extends == i.extends@);
    let first = call_property_of_type_elements(rel, site, &i.body, prop, opts);
    if first.settled() {
        return first;
    }
    call_parents(rel, site, &i.extends, first, prop, opts, fuel)
}

/// Resolves the call on a class, following at most `fuel` super classes.
fn class_property_with_fuel<R: TypeRelations>(
    rel: &R,
    site: &CallSite,
    cls: &ClassDef,
    prop: Key,
    is_static: bool,
    opts: CallOpts,
    fuel: usize,
) -> (r: Attempt)
    ensures
        r@ == class_property(rel, site@, cls@, prop, is_static, opts, fuel as nat),
    decreases fuel, 2nat, 0nat,
{
    assert(cls@.body == members_model(cls.body));
    assert(cls@.super_class == opt_type_model(cls.super_class));
    match find_callable_property(&cls.body, prop, is_static) {
        Some(ty) => {
            return Attempt { found: true, run: extract(rel, site, ty, opts) };
        },
        None => {},
    }
    let cs = collect_method_candidates(&cls.body, prop, is_static);
    match select_and_invoke(rel, site, &cs) {
        Some(run) => {
            return Attempt { found: true, run };
        },
        None => {},
    }
    match &cls.super_class {
        Some(sc) => {
            let run = if is_static {
                call_property_with_fuel(rel, site, sc, prop, opts, fuel)
            } else {
                let target = site.env.normalize(sc).materialize();
                call_property_with_fuel(rel, site, &target, prop, opts, fuel)
            };
            Attempt { found: run.settled(), run }
        },
        None => Attempt { found: false, run: Run::failed(no_property_error(site, prop)) },
    }
}

/// Tries the members of `Object`, then the last resort.
fn call_fallback<R: TypeRelations>(
    rel: &R,
    site: &CallSite,
    obj: &Type,
    prop: Key,
    opts: CallOpts,
    fuel: usize,
) -> (r: Run)
    ensures
        r@ == fallback_property(rel, site@, obj@, prop, opts, fuel as nat),
    decreases fuel, 2nat, 0nat,
{
    let is_object = match obj {
        Type::Interface(i) => {
            assert(i@.name == i.name);
            i.name == OBJECT
        },
        _ => false,
    };
    if !is_object && !opts.do_not_check_object {
        let object = Type::Ref { name: OBJECT, type_args: None };
        assert(object@ == object_ref()) by {
            assert(opt_types_model(None) == None::<Seq<SpecType>>);
        }
        let run = call_property_with_fuel(
            rel,
            site,
            &object,
            prop,
            CallOpts {
                disallow_invoking_implicit_constructors: opts.disallow_invoking_implicit_constructors,
                disallow_optional_object_property: opts.disallow_optional_object_property,
                allow_private_names: opts.allow_private_names,
                do_not_check_object: true,
            },
            fuel,
        );
        if run.settled() {
            return run;
        }
        call_last_resort(rel, site, obj, prop).after(run)
    } else {
        call_last_resort(rel, site, obj, prop)
    }
}

/// Resolves the call on a class, and falls back where the class has no such
/// member.
fn call_class_or_fallback<R: TypeRelations>(
    rel: &R,
    site: &CallSite,
    obj: &Type,
    cls: &ClassDef,
    is_static: bool,
    prop: Key,
    opts: CallOpts,
    fuel: usize,
) -> (r: Run)
    ensures
        r@ == class_or_fallback(rel, site@, obj@, cls@, is_static, prop, opts, fuel as nat),
    decreases fuel, 3nat, 0nat,
{
    let attempt = class_property_with_fuel(rel, site, cls, prop, is_static, opts, fuel);
    if attempt.found {
        attempt.run
    } else {
        call_fallback(rel, site, obj, prop, opts, fuel).after(attempt.run)
    }
}

/// Resolves the call of a member, following at most `fuel` parents, super
/// classes and built-in types in a row.
fn call_property_with_fuel<R: TypeRelations>(
    rel: &R,
    site: &CallSite,
    obj_type: &Type,
    prop: Key,
    opts: CallOpts,
    fuel: usize,
) -> (r: Run)
    ensures
        r@ == property_call(rel, site@, obj_type@, prop, opts, fuel as nat),
    decreases fuel, 0nat, 0nat,
{
    if fuel == 0 {
        return Run::failed(ErrorKind::TooDeep { span: site.span });
    }
    let rest = fuel - 1;
    let obj = site.env.normalize(obj_type);
    match obj {
        Type::Keyword(Keyword::Any) => Run::resolved(Type::Keyword(Keyword::Any)),
        Type::Array(elem) => {
            let mut args: Vec<Type> = Vec::new();
            args.push((**elem).clone());
            assert(types_model(args) =~= seq![elem@]);
            assert(opt_types_model(Some(args)) == Some(types_model(args)));
            let array = Type::Ref { name: ARRAY, type_args: Some(args) };
            call_property_with_fuel(rel, site, &array, prop, opts, rest)
        },
        Type::Intersection(ts) => call_members(rel, site, ts, prop, opts, rest),
        Type::Interface(i) => call_interface(rel, site, i, prop, opts, rest),
        Type::TypeLit(members) => call_property_of_type_elements(rel, site, members, prop, opts),
        Type::ClassDef(cls) => call_class_or_fallback(rel, site, obj, cls, true, prop, opts, rest),
        Type::Class(cls) => call_class_or_fallback(rel, site, obj, cls, false, prop, opts, rest),
        Type::Keyword(Keyword::Symbol) => match site.env.find_type(SYMBOL) {
            Some(t) => Run::resolved(t.clone()),
            None => call_fallback(rel, site, obj, prop, opts, rest),
        },
        _ => call_fallback(rel, site, obj, prop, opts, rest),
    }
}

/// Resolves `this.prop(...)` with `this` of type `this` and `prop` looked up
/// on `obj_type`.
pub fn call_property<R: TypeRelations>(
    rel: &R,
    site: &CallSite,
    this: &Type,
    obj_type: &Type,
    prop: Key,
    opts: CallOpts,
) -> (r: Run)
    ensures
        r@ == property_called(rel, site@, this@, obj_type@, prop, opts),
{
    let site = site.with_this(this);
    call_property_with_fuel(rel, &site, obj_type, prop, opts, site.env.depth_limit)
}

/// The candidates that the members of a class offer to a call of the member
/// `prop`.
pub fn extract_callable_properties_of_class(
    env: &TypeEnv,
    kind: ExtractKind,
    cls: &ClassDef,
    prop: Key,
    is_static_call: bool,
) -> (r: Vec<CallCandidate>)
    ensures
        candidates_model(r) == class_callables(
            env@,
            kind,
            cls@.body,
            prop,
            is_static_call,
            cls.body.len() as nat,
        ),
{
    assert(cls@.body == members_model(cls.body));
    let ghost bm = members_model(cls.body);
    let mut out: Vec<CallCandidate> = Vec::new();
    assert(candidates_model(out) =~= Seq::empty());
    let mut i: usize = 0;
    while i < cls.body.len()
        invariant
            i <= cls.body.len(),
            bm == members_model(cls.body),
            candidates_model(out) == class_callables(env@, kind, bm, prop, is_static_call, i as nat),
        decreases cls.body.len() - i,
    {
        let ghost before = candidates_model(out);
        assert(bm[i as int] == cls.body[i as int]@);
        let mut added = false;
        match &cls.body[i] {
            ClassMember::Method { key, is_static, sig } => {
                if *is_static == is_static_call && *key == prop {
                    let c = sig.to_candidate(Type::Keyword(Keyword::Any));
                    out.push(c);
                    assert(candidates_model(out) =~= before + seq![c@]);
                    added = true;
                }
            },
            ClassMember::Property { key, is_static, value } => {
                assert(cls.body[i as int]@ == SpecClassMember::Property {
                    key: *key,
                    is_static: *is_static,
                    value: opt_type_model(*value),
                });
                match value {
                    Some(ty) => {
                        if *is_static == is_static_call && *key == prop {
                            let more = extract_callee_candidates(env, kind, ty);
                            append_candidates(&mut out, more);
                            added = true;
                        }
                    },
                    None => {},
                }
            },
            _ => {},
        }
        if !added {
            assert(candidates_model(out) =~= before + Seq::empty());
        }
        i += 1;
    }
    out
}

/// Resolves a call of the member `prop` of a class: of the class itself
/// where `is_static_call` is set, of its instances where not.
pub fn call_property_of_class<R: TypeRelations>(
    rel: &R,
    site: &CallSite,
    cls: &ClassDef,
    prop: Key,
    is_static_call: bool,
    opts: CallOpts,
) -> (r: Attempt)
    ensures
        r@ == class_property(rel, site@, cls@, prop, is_static_call, opts, site@.env.depth_limit),
{
    class_property_with_fuel(rel, site, cls, prop, is_static_call, opts, site.env.depth_limit)
}

} // verus!
