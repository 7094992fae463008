//! Resolving a call by the shape of the callee: values that are called or
//! constructed, and members that are called on an object.
use vstd::prelude::*;

use crate::candidates::{
    append_candidates, candidates_of_all, constructors_upto, declared_constructors,
    elements_candidates, extract_callee_candidates, signature_candidates,
};
use crate::copy::{clone_opt_type_params, clone_params, clone_types};
use crate::env::TypeEnv;
use crate::errors::ErrorKind;
use crate::model::{
    any, candidates_model, elements_model, opt_type_model, opt_type_params_model, opt_types_model,
    params_model, type_params_model, types_model, SpecCandidate, SpecClassDef, SpecInterface,
    SpecSignature, SpecType, SpecTypeElement, SpecTypeParam,
};
use crate::names::{ARRAY_CONSTRUCTOR, FUNCTION};
use crate::narrow::{facts_model, Fact};
use crate::relations::{AssignOpts, TypeRelations, UnknownRhs};
use crate::return_type::{get_return_type, return_type};
use crate::select::{
    best_index, best_of, best_return, classify_all, fits, get_best_return_type, no_signature,
    no_signature_error, select_and_invoke, selection,
};
use crate::site::{
    lemma_after_is_associative, CallSite, Outcome, Run, SpecCallSite, SpecOutcome, SpecRun,
};
use crate::types::{
    CallCandidate, ClassDef, ExtractKind, FnParam, Interface, Keyword, Name, Signature, Type,
    TypeElement, TypeParam,
};

verus! {

/// The switches of a resolution.
#[derive(Clone, Copy, Debug, PartialEq, Eq, Structural)]
pub struct CallOpts {
    /// Whether a class without a constructor of its own may not be
    /// instantiated: set while the constructors of a super class are sought.
    pub disallow_invoking_implicit_constructors: bool,
    /// Whether optional members may not be called.
    pub disallow_optional_object_property: bool,
    /// Whether private members may be called.
    pub allow_private_names: bool,
    /// Whether the members of the built-in `Object` are left out: set while
    /// they are being looked at.
    pub do_not_check_object: bool,
}

impl CallOpts {
    /// All switches off.
    pub open spec fn plain() -> CallOpts {
        CallOpts {
            disallow_invoking_implicit_constructors: false,
            disallow_optional_object_property: false,
            allow_private_names: false,
            do_not_check_object: false,
        }
    }
}

impl Default for CallOpts {
    fn default() -> (r: CallOpts)
        ensures
            r == CallOpts::plain(),
    {
        CallOpts {
            disallow_invoking_implicit_constructors: false,
            disallow_optional_object_property: false,
            allow_private_names: false,
            do_not_check_object: false,
        }
    }
}

/// A resolution that may have found nothing to resolve; what it reported
/// stays reported.
pub struct SpecAttempt {
    pub found: bool,
    pub run: SpecRun,
}

/// A resolution that may have found nothing to resolve.
#[derive(Clone, Debug, PartialEq, Eq)]
pub struct Attempt {
    pub found: bool,
    pub run: Run,
}

impl View for Attempt {
    type V = SpecAttempt;

    open spec fn view(&self) -> SpecAttempt {
        SpecAttempt { found: self.found, run: self.run@ }
    }
}

impl SpecAttempt {
    /// Something was found, and resolving it gave `run`.
    pub open spec fn found(run: SpecRun) -> SpecAttempt {
        SpecAttempt { found: true, run }
    }

    /// Nothing found, and what was reported meanwhile.
    pub open spec fn nothing(reports: SpecRun) -> SpecAttempt {
        SpecAttempt { found: false, run: reports }
    }

    /// The attempt if it settled; if it ended in failure, nothing found.
    pub open spec fn settled_only(run: SpecRun) -> SpecAttempt {
        SpecAttempt { found: run.settled(), run }
    }
}

impl SpecCallSite {
    /// The call site with `this` as the type of the receiver.
    pub open spec fn with_this(self, this: SpecType) -> SpecCallSite {
        SpecCallSite { this: Some(this), ..self }
    }

    /// The call site of a class that is instantiated without a constructor.
    pub open spec fn instantiating(self) -> SpecCallSite {
        SpecCallSite { is_instantiating_class: true, ..self }
    }
}

/// The type parameters of a signature, or those of the type that declares it
/// where it has none.
pub open spec fn or_type_params(
    own: Option<Seq<SpecTypeParam>>,
    outer: Option<Seq<SpecTypeParam>>,
) -> Option<Seq<SpecTypeParam>> {
    match own {
        Some(_) => own,
        None => outer,
    }
}

/// The candidates with the type parameters of the declaring type, where
/// they have none of their own.
pub open spec fn with_outer_type_params(
    cs: Seq<SpecCandidate>,
    outer: Option<Seq<SpecTypeParam>>,
) -> Seq<SpecCandidate> {
    Seq::new(
        cs.len(),
        |i: int|
            SpecCandidate {
                type_params: or_type_params(cs[i].type_params, outer),
                params: cs[i].params,
                ret_ty: cs[i].ret_ty,
            },
    )
}

/// The resolution of a call of a value with the call or construct signatures
/// `members`.
#[verifier::opaque]
pub open spec fn type_element_call<R: TypeRelations>(
    rel: &R,
    site: SpecCallSite,
    outer: Option<Seq<SpecTypeParam>>,
    members: Seq<SpecTypeElement>,
) -> SpecRun {
    let cs = with_outer_type_params(elements_candidates(site.kind, members, members.len()), outer);
    match selection(rel, site, cs) {
        Some(run) => run,
        None => SpecRun::of(SpecOutcome::Failed(no_signature(site))),
    }
}

/// The switches with which a type argument is held against a constraint.
pub open spec fn constraint_opts() -> AssignOpts {
    AssignOpts {
        allow_unknown_rhs: UnknownRhs::Default,
        allow_assignment_to_param: false,
        allow_assignment_to_param_constraint: true,
        allow_iterable_on_rhs: false,
        use_missing_fields_for_class: false,
    }
}

/// Whether the explicit type argument at `i` breaks the constraint of the
/// type parameter at `i`.
pub open spec fn breaks_constraint<R: TypeRelations>(
    rel: &R,
    params: Seq<SpecTypeParam>,
    type_args: Seq<SpecType>,
    i: int,
) -> bool {
    match params[i].constraint {
        Some(c) => rel.assignable(*c, type_args[i], constraint_opts()) is Err,
        None => false,
    }
}

/// Whether one of the type arguments breaks the constraint of its type
/// parameter.
pub open spec fn some_constraint_broken<R: TypeRelations>(
    rel: &R,
    params: Seq<SpecTypeParam>,
    type_args: Seq<SpecType>,
) -> bool {
    exists|i: int|
        0 <= i < params.len() && i < type_args.len() && breaks_constraint(rel, params, type_args, i)
}

/// Whether an explicit type argument breaks the constraint of its type
/// parameter.
pub open spec fn constraint_violated<R: TypeRelations>(
    rel: &R,
    type_params: Option<Seq<SpecTypeParam>>,
    type_args: Option<Seq<SpecType>>,
) -> bool {
    match (type_params, type_args) {
        (Some(ps), Some(ts)) => some_constraint_broken(rel, ps, ts),
        _ => false,
    }
}

/// The resolution of `new` on one of the parents of an interface from `k`
/// on: that of the first parent on which it settles; `fallback` where it
/// settles on none.
pub open spec fn parents_extraction<R: TypeRelations>(
    rel: &R,
    site: SpecCallSite,
    parents: Seq<Name>,
    k: nat,
    fallback: SpecOutcome,
    opts: CallOpts,
    fuel: nat,
) -> SpecRun
    decreases fuel, 1nat, parents.len() - k,
{
    if k >= parents.len() {
        SpecRun::of(fallback)
    } else {
        let next = parents_extraction(rel, site, parents, k + 1, fallback, opts, fuel);
        match site.env.type_of(parents[k as int]) {
            Some(p) => extraction(rel, site, p, opts, fuel).or_else(next),
            None => next,
        }
    }
}

/// The resolution of `new` on a class without declared constructors: with
/// the constructors of the super class; without those, with the constructor
/// that takes no arguments, unless that one is ruled out.
pub open spec fn inherited_instantiation<R: TypeRelations>(
    rel: &R,
    site: SpecCallSite,
    cls: SpecClassDef,
    opts: CallOpts,
    fuel: nat,
) -> SpecRun
    decreases fuel, 1nat, 0nat,
{
    let instance = SpecType::Class(cls);
    let implicit = if opts.disallow_invoking_implicit_constructors {
        SpecRun::of(SpecOutcome::Failed(ErrorKind::NoNewSignature { span: site.span }))
    } else {
        return_type(rel, site.instantiating(), cls.type_params, Seq::empty(), instance)
    };
    match cls.super_class {
        Some(sc) => extraction(
            rel,
            site,
            *sc,
            CallOpts { disallow_invoking_implicit_constructors: true, ..opts },
            fuel,
        ).or_else(implicit),
        None => implicit,
    }
}

/// The resolution of `new` with the declared constructor that fits best.
pub open spec fn declared_instantiation<R: TypeRelations>(
    rel: &R,
    site: SpecCallSite,
    cls: SpecClassDef,
    declared: Seq<SpecCandidate>,
) -> SpecRun {
    let c = declared[best_of(fits(rel, site, declared), declared.len())];
    return_type(
        rel,
        site,
        or_type_params(c.type_params, cls.type_params),
        c.params,
        SpecType::Class(cls),
    )
}

/// What instantiating an abstract class yields: the error is reported, and
/// an instance given all the same.
pub open spec fn abstract_instantiation(site: SpecCallSite, cls: SpecClassDef) -> SpecRun {
    SpecRun {
        outcome: SpecOutcome::Resolved(SpecType::Class(cls)),
        errors: seq![ErrorKind::CannotCreateInstanceOfAbstractClass { span: site.span }],
        facts: Seq::empty(),
    }
}

/// The resolution of `new` on a class: an abstract class is reported and an
/// instance given all the same; a type argument that breaks its constraint
/// fails; the declared constructor that fits best is called; without
/// declared constructors those of the super class are; without those the
/// class is instantiated without arguments.
pub open spec fn class_instantiation<R: TypeRelations>(
    rel: &R,
    site: SpecCallSite,
    cls: SpecClassDef,
    opts: CallOpts,
    fuel: nat,
) -> SpecRun
    decreases fuel, 2nat, 0nat,
{
    let site = site.with_this(SpecType::Class(cls));
    if cls.is_abstract {
        if opts.disallow_invoking_implicit_constructors {
            SpecRun::of(SpecOutcome::Failed(ErrorKind::NoNewSignature { span: site.span }))
        } else {
            abstract_instantiation(site, cls)
        }
    } else if constraint_violated(rel, cls.type_params, site.type_args) {
        SpecRun::of(SpecOutcome::Failed(ErrorKind::NotSatisfyConstraint { span: site.span }))
    } else {
        let declared = constructors_upto(cls, cls.body.len());
        if declared.len() > 0 {
            declared_instantiation(rel, site, cls, declared)
        } else {
            inherited_instantiation(rel, site, cls, opts, fuel)
        }
    }
}

/// Whether the call names exactly one type argument.
pub open spec fn single_type_arg(site: SpecCallSite) -> bool {
    match site.type_args {
        Some(ts) => ts.len() == 1,
        None => false,
    }
}

/// The return type of the signature, `any` where it names none.
pub open spec fn ret_or_any(sig: SpecSignature) -> SpecType {
    match sig.ret {
        Some(t) => *t,
        None => any(),
    }
}

/// A run that fails for want of a signature.
pub open spec fn fails_without_signature(site: SpecCallSite) -> SpecRun {
    SpecRun::of(SpecOutcome::Failed(no_signature(site)))
}

/// The resolution on a function type: a call takes its signature; `new`
/// takes its parameters and yields `any`, unless implicit `any` is an error.
pub open spec fn function_extraction<R: TypeRelations>(
    rel: &R,
    site: SpecCallSite,
    sig: SpecSignature,
) -> SpecRun {
    if site.kind == ExtractKind::New {
        if site.env.no_implicit_any {
            SpecRun::of(
                SpecOutcome::Failed(ErrorKind::TargetLacksConstructSignature { span: site.span }),
            )
        } else {
            return_type(rel, site, sig.type_params, sig.params, any())
        }
    } else {
        return_type(rel, site, sig.type_params, sig.params, ret_or_any(sig))
    }
}

/// The resolution on an intersection: `new` yields an instance of it; a call
/// takes the best of the signatures of its members.
pub open spec fn intersection_extraction<R: TypeRelations>(
    rel: &R,
    site: SpecCallSite,
    ts: Seq<SpecType>,
) -> SpecRun {
    if site.kind == ExtractKind::New {
        SpecRun::of(
            SpecOutcome::Resolved(SpecType::Instance(Box::new(SpecType::Intersection(ts)))),
        )
    } else {
        match selection(
            rel,
            site,
            candidates_of_all(site.env, site.kind, ts, ts.len(), site.env.depth_limit),
        ) {
            Some(run) => run,
            None => fails_without_signature(site),
        }
    }
}

/// The resolution on an interface: a call of `Function` yields `any`, `new`
/// on `ArrayConstructor` with one type argument an array of it; otherwise
/// the signatures of the interface are tried, then its parents in turn.
pub open spec fn interface_extraction<R: TypeRelations>(
    rel: &R,
    site: SpecCallSite,
    i: SpecInterface,
    opts: CallOpts,
    fuel: nat,
) -> SpecRun
    decreases fuel, 2nat, 0nat,
{
    if site.kind == ExtractKind::Call && i.name == FUNCTION {
        SpecRun::of(SpecOutcome::Resolved(any()))
    } else if site.kind == ExtractKind::New && i.name == ARRAY_CONSTRUCTOR && single_type_arg(site) {
        SpecRun::of(SpecOutcome::Resolved(SpecType::Array(Box::new(site.type_args.unwrap()[0]))))
    } else {
        let first = type_element_call(rel, site, i.type_params, i.body);
        first.or_else(parents_extraction(rel, site, i.extends, 0, first.outcome, opts, fuel))
    }
}

/// The resolution of a call or `new` on a value of type `ty`, following at
/// most `fuel` constraints, parents and super classes in a row.
pub open spec fn extraction<R: TypeRelations>(
    rel: &R,
    site: SpecCallSite,
    ty: SpecType,
    opts: CallOpts,
    fuel: nat,
) -> SpecRun
    decreases fuel, 0nat, 0nat,
{
    if fuel == 0 {
        SpecRun::of(SpecOutcome::Failed(ErrorKind::TooDeep { span: site.span }))
    } else {
        let rest = (fuel - 1) as nat;
        let is_new = site.kind == ExtractKind::New;
        match site.env.normal(ty) {
            SpecType::ClassDef(cls) => if is_new {
                class_instantiation(rel, site, cls, opts, rest)
            } else {
                fails_without_signature(site)
            },
            SpecType::Constructor(sig) => if is_new {
                return_type(rel, site, sig.type_params, sig.params, ret_or_any(sig))
            } else {
                fails_without_signature(site)
            },
            SpecType::This => if is_new {
                SpecRun::of(SpecOutcome::Resolved(SpecType::Instance(Box::new(SpecType::This))))
            } else {
                fails_without_signature(site)
            },
            SpecType::Function(sig) => function_extraction(rel, site, sig),
            SpecType::Intersection(ts) => intersection_extraction(rel, site, ts),
            SpecType::Keyword(Keyword::Any) => SpecRun::of(SpecOutcome::Resolved(any())),
            SpecType::Keyword(Keyword::Unknown) => SpecRun::of(
                SpecOutcome::Failed(ErrorKind::Unknown { span: site.span }),
            ),
            SpecType::Param(p) => match p.constraint {
                Some(c) => extraction(rel, site, *c, opts, rest),
                None => fails_without_signature(site),
            },
            SpecType::Union(ts) => best_return(rel, site, SpecType::Union(ts)),
            SpecType::Interface(i) => interface_extraction(rel, site, i, opts, rest),
            SpecType::TypeLit(members) => type_element_call(rel, site, None, members),
            _ => fails_without_signature(site),
        }
    }
}

/// The resolution of a call or `new` on a value of type `ty`.
pub open spec fn extracted<R: TypeRelations>(
    rel: &R,
    site: SpecCallSite,
    ty: SpecType,
    opts: CallOpts,
) -> SpecRun {
    extraction(rel, site, ty, opts, site.env.depth_limit)
}

/// Instantiating an abstract class is reported, and yields an instance of
/// the class all the same.
pub proof fn law_abstract_class_is_reported<R: TypeRelations>(
    rel: &R,
    site: SpecCallSite,
    cls: SpecClassDef,
)
    requires
        site.kind == ExtractKind::New,
        site.env.depth_limit > 0,
        cls.is_abstract,
    ensures
        extracted(rel, site, SpecType::ClassDef(cls), CallOpts::plain()) == abstract_instantiation(
            site,
            cls,
        ),
        abstract_instantiation(site, cls).outcome == SpecOutcome::Resolved(SpecType::Class(cls)),
        abstract_instantiation(site, cls).errors == seq![
            ErrorKind::CannotCreateInstanceOfAbstractClass { span: site.span },
        ],
{
    let ty = SpecType::ClassDef(cls);
    assert(site.env.normal(ty) == ty);
    let rest = (site.env.depth_limit - 1) as nat;
    assert(extraction(rel, site, ty, CallOpts::plain(), site.env.depth_limit)
        == class_instantiation(rel, site, cls, CallOpts::plain(), rest));
}

/// Gives each candidate the type parameters of the declaring type, where it
/// has none of its own.
fn add_outer_type_params(
    cs: Vec<CallCandidate>,
    outer: &Option<Vec<TypeParam>>,
) -> (r: Vec<CallCandidate>)
    ensures
        candidates_model(r) == with_outer_type_params(
            candidates_model(cs),
            opt_type_params_model(*outer),
        ),
{
    let ghost cm = candidates_model(cs);
    let mut cs = cs;
    let mut out: Vec<CallCandidate> = Vec::new();
    let mut i: usize = 0;
    while i < cs.len()
        invariant
            i <= cs.len(),
            cm == candidates_model(cs),
            out.len() == i,
            forall|j: int|
                0 <= j < i ==> out[j]@ == with_outer_type_params(cm, opt_type_params_model(*outer))[j],
        decreases cs.len() - i,
    {
        let c = &cs[i];
        assert(cm[i as int] == c@);
        let type_params = match &c.type_params {
            Some(_) => clone_opt_type_params(&c.type_params),
            None => clone_opt_type_params(outer),
        };
        out.push(
            CallCandidate {
                type_params,
                params: clone_params(&c.params),
                ret_ty: c.ret_ty.clone(),
            },
        );
        i += 1;
    }
    assert(candidates_model(out) =~= with_outer_type_params(cm, opt_type_params_model(*outer)));
    out
}

/// Resolves a call of a value with the call or construct signatures
/// `members`.
pub fn call_type_element<R: TypeRelations>(
    rel: &R,
    site: &CallSite,
    type_params_of_type: &Option<Vec<TypeParam>>,
    members: &Vec<TypeElement>,
) -> (r: Run)
    ensures
        r@ == type_element_call(
            rel,
            site@,
            opt_type_params_model(*type_params_of_type),
            elements_model(*members),
        ),
{
    reveal(type_element_call);
    let own = signature_candidates(site.kind, members);
    let cs = add_outer_type_params(own, type_params_of_type);
    match select_and_invoke(rel, site, &cs) {
        Some(run) => run,
        None => Run::failed(no_signature_error(site)),
    }
}

/// Whether an explicit type argument breaks the constraint of its type
/// parameter.
#[verifier::loop_isolation(false)]
fn violates_constraint<R: TypeRelations>(
    rel: &R,
    type_params: &Option<Vec<TypeParam>>,
    type_args: &Option<Vec<Type>>,
) -> (r: bool)
    ensures
        r == constraint_violated(
            rel,
            opt_type_params_model(*type_params),
            opt_types_model(*type_args),
        ),
{
    match (type_params, type_args) {
        (Some(ps), Some(ts)) => {
            let ghost pm = type_params_model(*ps);
            let ghost tm = types_model(*ts);
            assert(opt_type_params_model(*type_params) == Some(pm));
            assert(opt_types_model(*type_args) == Some(tm));
            let opts = AssignOpts {
                allow_unknown_rhs: UnknownRhs::Default,
                allow_assignment_to_param: false,
                allow_assignment_to_param_constraint: true,
                allow_iterable_on_rhs: false,
                use_missing_fields_for_class: false,
            };
            let mut i: usize = 0;
            while i < ps.len() && i < ts.len()
                invariant
                    i <= ps.len(),
                    i <= ts.len(),
                    pm == type_params_model(*ps),
                    tm == types_model(*ts),
                    opts == constraint_opts(),
                    forall|j: int| 0 <= j < i ==> !breaks_constraint(rel, pm, tm, j),
                decreases ps.len() - i,
            {
                assert(pm[i as int] == ps[i as int]@);
                assert(tm[i as int] == ts[i as int]@);
                assert(ps[i as int]@.constraint == opt_type_model(ps[i as int].constraint));
                match &ps[i].constraint {
                    Some(c) => {
                        if rel.assign(c, &ts[i], opts).is_err() {
                            assert(breaks_constraint(rel, pm, tm, i as int));
                            return true;
                        }
                    },
                    None => {},
                }
                i += 1;
            }
            false
        },
        _ => false,
    }
}

/// Instantiates a class without declared constructors.
fn instantiate_inherited<R: TypeRelations>(
    rel: &R,
    site: &CallSite,
    cls: &ClassDef,
    instance: &Type,
    opts: CallOpts,
    fuel: usize,
) -> (r: Run)
    requires
        instance@ == SpecType::Class(cls@),
    ensures
        r@ == inherited_instantiation(rel, site@, cls@, opts, fuel as nat),
    decreases fuel, 1nat, 0nat,
{
    assert(cls@.super_class == opt_type_model(cls.super_class));
    assert(cls@.type_params == opt_type_params_model(cls.type_params));
    let inherited = match &cls.super_class {
        Some(sc) => {
            let run = extract_with_fuel(
                rel,
                site,
                sc,
                CallOpts {
                    disallow_invoking_implicit_constructors: true,
                    disallow_optional_object_property: opts.disallow_optional_object_property,
                    allow_private_names: opts.allow_private_names,
                    do_not_check_object: opts.do_not_check_object,
                },
                fuel,
            );
            if run.settled() {
                return run;
            }
            Some(run)
        },
        None => None,
    };
    let implicit = if opts.disallow_invoking_implicit_constructors {
        Run::failed(ErrorKind::NoNewSignature { span: site.span })
    } else {
        let none: Vec<FnParam> = Vec::new();
        assert(params_model(none) =~= Seq::empty());
        get_return_type(rel, &site.instantiating(), &cls.type_params, &none, instance)
    };
    match inherited {
        Some(run) => implicit.after(run),
        None => implicit,
    }
}

/// Instantiates a class with the declared constructor that fits best.
fn instantiate_declared<R: TypeRelations>(
    rel: &R,
    site: &CallSite,
    cls: &ClassDef,
    instance: &Type,
    declared: &Vec<CallCandidate>,
) -> (r: Run)
    requires
        instance@ == SpecType::Class(cls@),
        declared.len() > 0,
    ensures
        r@ == declared_instantiation(rel, site@, cls@, candidates_model(*declared)),
{
    assert(cls@.type_params == opt_type_params_model(cls.type_params));
    let results = classify_all(rel, site, declared);
    let best = best_index(&results);
    let c = &declared[best];
    assert(candidates_model(*declared)[best as int] == c@);
    let type_params = match &c.type_params {
        Some(_) => clone_opt_type_params(&c.type_params),
        None => clone_opt_type_params(&cls.type_params),
    };
    get_return_type(rel, site, &type_params, &c.params, instance)
}

/// Reports the instantiation of an abstract class and gives an instance all
/// the same.
fn report_abstract(site: &CallSite, cls: &ClassDef) -> (r: Run)
    ensures
        r@ == abstract_instantiation(site@, cls@),
{
    let mut errors: Vec<ErrorKind> = Vec::new();
    errors.push(ErrorKind::CannotCreateInstanceOfAbstractClass { span: site.span });
    let facts: Vec<Fact> = Vec::new();
    assert(facts_model(facts) =~= Seq::empty());
    assert(errors@ =~= seq![ErrorKind::CannotCreateInstanceOfAbstractClass { span: site.span }]);
    Run { outcome: Outcome::Resolved(Type::Class(cls.clone())), errors, facts }
}

/// Resolves `new` on a class.
fn instantiate_class<R: TypeRelations>(
    rel: &R,
    site: &CallSite,
    cls: &ClassDef,
    opts: CallOpts,
    fuel: usize,
) -> (r: Run)
    ensures
        r@ == class_instantiation(rel, site@, cls@, opts, fuel as nat),
    decreases fuel, 2nat, 0nat,
{
    let instance = Type::Class(cls.clone());
    let site = site.with_this(&instance);
    if cls.is_abstract {
        if opts.disallow_invoking_implicit_constructors {
            return Run::failed(ErrorKind::NoNewSignature { span: site.span });
        }
        return report_abstract(&site, cls);
    }
    assert(cls@.type_params == opt_type_params_model(cls.type_params));
    if violates_constraint(rel, &cls.type_params, site.type_args) {
        return Run::failed(ErrorKind::NotSatisfyConstraint { span: site.span });
    }
    let declared = declared_constructors(cls);
    if declared.len() > 0 {
        instantiate_declared(rel, &site, cls, &instance, &declared)
    } else {
        instantiate_inherited(rel, &site, cls, &instance, opts, fuel)
    }
}

/// Resolves the call on the parents of an interface in turn, after its own
/// signatures failed with `first`.
#[verifier::loop_isolation(false)]
fn extract_from_parents<R: TypeRelations>(
    rel: &R,
    site: &CallSite,
    parents: &Vec<Name>,
    first: Run,
    opts: CallOpts,
    fuel: usize,
) -> (r: Run)
    requires
        !first@.settled(),
    ensures
        r@ == first@.or_else(
            parents_extraction(rel, site@, parents@, 0, first@.outcome, opts, fuel as nat),
        ),
    decreases fuel, 1nat, parents.len(),
{
    let ghost fallback = first@.outcome;
    let ghost target = parents_extraction(rel, site@, parents@, 0, fallback, opts, fuel as nat).after(
        first@,
    );
    let error = match &first.outcome {
        Outcome::Failed(e) => *e,
        _ => {
            return first;
        },
    };
    let mut reports = first;
    let mut k: usize = 0;
    while k < parents.len()
        invariant
            k <= parents.len(),
            fallback == SpecOutcome::Failed(error),
            target == parents_extraction(rel, site@, parents@, k as nat, fallback, opts, fuel as nat)
                .after(reports@),
        decreases parents.len() - k,
    {
        let ghost next = parents_extraction(
            rel,
            site@,
            parents@,
            (k + 1) as nat,
            fallback,
            opts,
            fuel as nat,
        );
        let ghost here = parents_extraction(rel, site@, parents@, k as nat, fallback, opts, fuel as nat);
        match site.env.find_type(parents[k]) {
            Some(p) => {
                let run = extract_with_fuel(rel, site, p, opts, fuel);
                proof {
                    assert(site@.env.type_of(parents@[k as int]) == Some(p@));
                    assert(here == run@.or_else(next));
                    lemma_after_is_associative(reports@, run@, next);
                }
                let run = run.after(reports);
                if run.settled() {
                    return run;
                }
                reports = run;
            },
            None => {
                assert(site@.env.type_of(parents@[k as int]).is_none());
                assert(here == next);
            },
        }
        k += 1;
    }
    Run::failed(error).after(reports)
}

/// Resolves the call on a function type.
fn extract_function<R: TypeRelations>(rel: &R, site: &CallSite, sig: &Signature) -> (r: Run)
    ensures
        r@ == function_extraction(rel, site@, sig@),
{
    assert(sig@.ret == opt_type_model(sig.ret));
    if matches!(site.kind, ExtractKind::New) {
        if site.env.no_implicit_any {
            Run::failed(ErrorKind::TargetLacksConstructSignature { span: site.span })
        } else {
            get_return_type(rel, site, &sig.type_params, &sig.params, &Type::Keyword(Keyword::Any))
        }
    } else {
        let ret = match &sig.ret {
            Some(r) => (**r).clone(),
            None => Type::Keyword(Keyword::Any),
        };
        get_return_type(rel, site, &sig.type_params, &sig.params, &ret)
    }
}

/// Resolves `new` on a constructor type.
fn extract_constructor<R: TypeRelations>(rel: &R, site: &CallSite, sig: &Signature) -> (r: Run)
    ensures
        r@ == return_type(rel, site@, sig@.type_params, sig@.params, ret_or_any(sig@)),
{
    assert(sig@.ret == opt_type_model(sig.ret));
    let ret = match &sig.ret {
        Some(r) => (**r).clone(),
        None => Type::Keyword(Keyword::Any),
    };
    get_return_type(rel, site, &sig.type_params, &sig.params, &ret)
}

/// Resolves the call on an intersection.
fn extract_intersection<R: TypeRelations>(rel: &R, site: &CallSite, ts: &Vec<Type>) -> (r: Run)
    ensures
        r@ == intersection_extraction(rel, site@, types_model(*ts)),
{
    if matches!(site.kind, ExtractKind::New) {
        let inner = Type::Intersection(clone_types(ts));
        assert(inner@ == SpecType::Intersection(types_model(*ts)));
        let whole = Type::Instance(Box::new(inner));
        assert(whole@ == SpecType::Instance(Box::new(inner@)));
        Run::resolved(whole)
    } else {
        let cs = candidates_of_members(site.env, site.kind, ts);
        match select_and_invoke(rel, site, &cs) {
            Some(run) => run,
            None => Run::failed(no_signature_error(site)),
        }
    }
}

/// Resolves the call on an interface.
fn extract_interface<R: TypeRelations>(
    rel: &R,
    site: &CallSite,
    i: &Interface,
    opts: CallOpts,
    fuel: usize,
) -> (r: Run)
    ensures
        r@ == interface_extraction(rel, site@, i@, opts, fuel as nat),
    decreases fuel, 2nat, 0nat,
{
    assert(i@.body == elements_model(i.body) && i@.extends == i.extends@ && i@.type_params
        == opt_type_params_model(i.type_params));
    let is_new = matches!(site.kind, ExtractKind::New);
    if !is_new && i.name == FUNCTION {
        return Run::resolved(Type::Keyword(Keyword::Any));
    }
    if is_new && i.name == ARRAY_CONSTRUCTOR {
        match site.type_args {
            Some(ts) => if ts.len() == 1 {
                assert(types_model(*ts)[0] == ts[0]@);
                return Run::resolved(Type::Array(Box::new(ts[0].clone())));
            },
            None => {},
        }
    }
    let first = call_type_element(rel, site, &i.type_params, &i.body);
    if first.settled() {
        return first;
    }
    extract_from_parents(rel, site, &i.extends, first, opts, fuel)
}

/// Resolves a call or `new` on a value of type `ty`, following at most `fuel`
/// constraints, parents and super classes in a row.
fn extract_with_fuel<R: TypeRelations>(
    rel: &R,
    site: &CallSite,
    ty: &Type,
    opts: CallOpts,
    fuel: usize,
) -> (r: Run)
    ensures
        r@ == extraction(rel, site@, ty@, opts, fuel as nat),
    decreases fuel, 0nat, 0nat,
{
    if fuel == 0 {
        return Run::failed(ErrorKind::TooDeep { span: site.span });
    }
    let rest = fuel - 1;
    let t = site.env.normalize(ty);
    let is_new = matches!(site.kind, ExtractKind::New);
    match t {
        Type::ClassDef(cls) => if is_new {
            instantiate_class(rel, site, cls, opts, rest)
        } else {
            Run::failed(no_signature_error(site))
        },
        Type::Constructor(sig) => if is_new {
            extract_constructor(rel, site, sig)
        } else {
            Run::failed(no_signature_error(site))
        },
        Type::This => if is_new {
            Run::resolved(Type::Instance(Box::new(Type::This)))
        } else {
            Run::failed(no_signature_error(site))
        },
        Type::Function(sig) => extract_function(rel, site, sig),
        Type::Intersection(ts) => extract_intersection(rel, site, ts),
        Type::Keyword(Keyword::Any) => Run::resolved(Type::Keyword(Keyword::Any)),
        Type::Keyword(Keyword::Unknown) => Run::failed(ErrorKind::Unknown { span: site.span }),
        Type::Param(p) => {
            assert(p@.constraint == opt_type_model(p.constraint));
            match &p.constraint {
                Some(c) => extract_with_fuel(rel, site, c, opts, rest),
                None => Run::failed(no_signature_error(site)),
            }
        },
        Type::Union(_) => get_best_return_type(rel, site, t),
        Type::Interface(i) => extract_interface(rel, site, i, opts, rest),
        Type::TypeLit(members) => call_type_element(rel, site, &None, members),
        _ => Run::failed(no_signature_error(site)),
    }
}

/// The signatures that the members of an intersection offer.
fn candidates_of_members(
    env: &TypeEnv,
    kind: ExtractKind,
    ts: &Vec<Type>,
) -> (r: Vec<CallCandidate>)
    ensures
        candidates_model(r) == candidates_of_all(
            env@,
            kind,
            types_model(*ts),
            ts.len() as nat,
            env@.depth_limit,
        ),
{
    let ghost tm = types_model(*ts);
    let mut out: Vec<CallCandidate> = Vec::new();
    assert(candidates_model(out) =~= Seq::empty());
    let mut i: usize = 0;
    while i < ts.len()
        invariant
            i <= ts.len(),
            tm == types_model(*ts),
            candidates_model(out) == candidates_of_all(env@, kind, tm, i as nat, env@.depth_limit),
        decreases ts.len() - i,
    {
        assert(tm[i as int] == ts[i as int]@);
        let more = extract_callee_candidates(env, kind, &ts[i]);
        append_candidates(&mut out, more);
        i += 1;
    }
    out
}

/// Resolves a call or `new` on a value of type `ty`.
pub fn extract<R: TypeRelations>(rel: &R, site: &CallSite, ty: &Type, opts: CallOpts) -> (r: Run)
    ensures
        r@ == extracted(rel, site@, ty@, opts),
{
    extract_with_fuel(rel, site, ty, opts, site.env.depth_limit)
}

} // verus!
