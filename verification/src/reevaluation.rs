//! A call is checked again at most once: a resolution on the second pass
//! never asks for another pass.
use vstd::prelude::*;

use crate::call::{prepared_callee, receiver, resolved, site_of, SpecCall, SpecCallee};
use crate::candidates::{
    callee_candidates, candidates_of_all, constructors_upto, elements_candidates,
};
use crate::env::SpecEnv;
use crate::model::{
    any, SpecCandidate, SpecClassDef, SpecInterface, SpecType, SpecTypeElement, SpecTypeParam,
};
use crate::narrow::materialized;
use crate::property::{
    array_ref, callable_property, class_or_fallback, elements_property, fallback_property,
    interface_property, last_resort, members_candidates, members_property, method_candidates,
    object_members, object_ref, parents_property, property_call,
};
use crate::relations::TypeRelations;
use crate::resolve::{
    class_instantiation, extraction, interface_extraction, or_type_params, parents_extraction,
    ret_or_any, type_element_call, with_outer_type_params, CallOpts,
};
use crate::return_type::law_reevaluation_happens_once;
use crate::select::{best_of, best_return, fits, selection};
use crate::site::{SpecCallSite, SpecOutcome, SpecRun};
use crate::spread::spread;
use crate::types::{Key, Name};

verus! {

/// Whether the run ends the resolution: it does unless it asks for the call
/// to be checked again.
pub open spec fn is_final(run: SpecRun) -> bool {
    !(run.outcome is Reevaluate)
}

/// On the second pass, this part of the resolution never asks for another
/// pass.
proof fn lemma_selection_is_final<R: TypeRelations>(
    rel: &R,
    site: SpecCallSite,
    candidates: Seq<SpecCandidate>,
)
    requires
        site.pass is Reevaluating,
    ensures
        match selection(rel, site, candidates) {
            Some(run) => is_final(run),
            None => true,
        },
{
    reveal(selection);
    if candidates.len() > 0 {
        let results = fits(rel, site, candidates);
        let c = candidates[best_of(results, results.len())];
        law_reevaluation_happens_once(rel, site, c.type_params, c.params, c.ret_ty);
    }
}

/// On the second pass, this part of the resolution never asks for another
/// pass.
proof fn lemma_best_return_is_final<R: TypeRelations>(rel: &R, site: SpecCallSite, callee: SpecType)
    requires
        site.pass is Reevaluating,
    ensures
        is_final(best_return(rel, site, callee)),
{
    reveal(best_return);
    lemma_selection_is_final(
        rel,
        site,
        callee_candidates(site.env, site.kind, callee));
}

/// On the second pass, this part of the resolution never asks for another
/// pass.
proof fn lemma_type_element_call_is_final<R: TypeRelations>(
    rel: &R,
    site: SpecCallSite,
    outer: Option<Seq<SpecTypeParam>>,
    members: Seq<SpecTypeElement>,
)
    requires
        site.pass is Reevaluating,
    ensures
        is_final(type_element_call(rel, site, outer, members)),
{
    reveal(type_element_call);
    lemma_selection_is_final(
        rel,
        site,
        with_outer_type_params(
            elements_candidates(site.kind, members, members.len()),
            outer,
        ),
    );
}

/// On the second pass, this part of the resolution never asks for another
/// pass.
proof fn lemma_parents_extraction_is_final<R: TypeRelations>(
    rel: &R,
    site: SpecCallSite,
    parents: Seq<Name>,
    k: nat,
    fallback: SpecOutcome,
    opts: CallOpts,
    fuel: nat,
)
    requires
        site.pass is Reevaluating,
        !(fallback is Reevaluate),
    ensures
        is_final(parents_extraction(rel, site, parents, k, fallback, opts, fuel)),
    decreases fuel, 1nat, parents.len() - k,
{
    if k < parents.len() {
        lemma_parents_extraction_is_final(rel, site, parents, k + 1, fallback, opts, fuel);
        match site.env.type_of(parents[k as int]) {
            Some(p) => {
                lemma_extraction_is_final(rel, site, p, opts, fuel);
            },
            None => {},
        }
    }
}

/// On the second pass, this part of the resolution never asks for another
/// pass.
proof fn lemma_class_instantiation_is_final<R: TypeRelations>(
    rel: &R,
    site: SpecCallSite,
    cls: SpecClassDef,
    opts: CallOpts,
    fuel: nat,
)
    requires
        site.pass is Reevaluating,
    ensures
        is_final(class_instantiation(rel, site, cls, opts, fuel)),
    decreases fuel, 2nat, 0nat,
{
    let instance = SpecType::Class(cls);
    let inner = site.with_this(instance);
    let declared = constructors_upto(cls, cls.body.len());
    if declared.len() > 0 {
        let c = declared[best_of(
            fits(rel, inner, declared),
            declared.len(),
        )];
        law_reevaluation_happens_once(
            rel,
            inner,
            or_type_params(c.type_params, cls.type_params),
            c.params,
            instance,
        );
    } else {
        law_reevaluation_happens_once(
            rel,
            inner.instantiating(),
            cls.type_params,
            Seq::empty(),
            instance,
        );
        match cls.super_class {
            Some(sc) => {
                lemma_extraction_is_final(
                    rel,
                    inner,
                    *sc,
                    CallOpts { disallow_invoking_implicit_constructors: true, ..opts },
                    fuel,
                );
            },
            None => {},
        }
    }
}

/// On the second pass, this part of the resolution never asks for another
/// pass.
proof fn lemma_interface_extraction_is_final<R: TypeRelations>(
    rel: &R,
    site: SpecCallSite,
    i: SpecInterface,
    opts: CallOpts,
    fuel: nat,
)
    requires
        site.pass is Reevaluating,
    ensures
        is_final(interface_extraction(rel, site, i, opts, fuel)),
    decreases fuel, 2nat, 0nat,
{
    let first = type_element_call(rel, site, i.type_params, i.body);
    lemma_type_element_call_is_final(rel, site, i.type_params, i.body);
    lemma_parents_extraction_is_final(rel, site, i.extends, 0, first.outcome, opts, fuel);
}

/// On the second pass, the resolution of a call or `new` on a value never
/// asks for another pass.
pub proof fn lemma_extraction_is_final<R: TypeRelations>(
    rel: &R,
    site: SpecCallSite,
    ty: SpecType,
    opts: CallOpts,
    fuel: nat,
)
    requires
        site.pass is Reevaluating,
    ensures
        is_final(extraction(rel, site, ty, opts, fuel)),
    decreases fuel, 0nat, 0nat,
{
    if fuel > 0 {
        let rest = (fuel - 1) as nat;
        match site.env.normal(ty) {
            SpecType::ClassDef(cls) => {
                lemma_class_instantiation_is_final(rel, site, cls, opts, rest);
            },
            SpecType::Constructor(sig) => {
                law_reevaluation_happens_once(
                    rel,
                    site,
                    sig.type_params,
                    sig.params,
                    ret_or_any(sig),
                );
            },
            SpecType::Function(sig) => {
                law_reevaluation_happens_once(
                    rel,
                    site,
                    sig.type_params,
                    sig.params,
                    ret_or_any(sig),
                );
                law_reevaluation_happens_once(
                    rel,
                    site,
                    sig.type_params,
                    sig.params,
                    any(),
                );
            },
            SpecType::Intersection(ts) => {
                lemma_selection_is_final(
                    rel,
                    site,
                    candidates_of_all(
                        site.env,
                        site.kind,
                        ts,
                        ts.len(),
                        site.env.depth_limit,
                    ));
            },
            SpecType::Param(p) => {
                match p.constraint {
                    Some(c) => {
                        lemma_extraction_is_final(rel, site, *c, opts, rest);
                    },
                    None => {},
                }
            },
            SpecType::Union(ts) => {
                lemma_best_return_is_final(rel, site, SpecType::Union(ts));
            },
            SpecType::Interface(i) => {
                lemma_interface_extraction_is_final(rel, site, i, opts, rest);
            },
            SpecType::TypeLit(members) => {
                lemma_type_element_call_is_final(rel, site, None, members);
            },
            _ => {},
        }
    }
}

/// On the second pass, this part of the resolution never asks for another
/// pass.
proof fn lemma_elements_property_is_final<R: TypeRelations>(
    rel: &R,
    site: SpecCallSite,
    members: Seq<SpecTypeElement>,
    prop: Key,
    opts: CallOpts,
)
    requires
        site.pass is Reevaluating,
    ensures
        is_final(elements_property(rel, site, members, prop, opts)),
{
    reveal(elements_property);
    let builtin = object_members(site.env);
    lemma_selection_is_final(
        rel,
        site,
        members_candidates(
            site.env,
            site.kind,
            members,
            prop,
            opts,
            members.len(),
        ) + members_candidates(
            site.env,
            site.kind,
            builtin,
            prop,
            opts,
            builtin.len(),
        ));
}

/// On the second pass, this part of the resolution never asks for another
/// pass.
proof fn lemma_last_resort_is_final<R: TypeRelations>(
    rel: &R,
    site: SpecCallSite,
    obj: SpecType,
    prop: Key,
)
    requires
        site.pass is Reevaluating,
    ensures
        is_final(last_resort(rel, site, obj, prop)),
{
    reveal(last_resort);
    match rel.member(obj, prop) {
        Some(callee) => {
            lemma_best_return_is_final(rel, site, site.env.normal(callee));
        },
        None => {},
    }
}

/// On the second pass, this part of the resolution never asks for another
/// pass.
proof fn lemma_members_property_is_final<R: TypeRelations>(
    rel: &R,
    site: SpecCallSite,
    ts: Seq<SpecType>,
    k: nat,
    found: Seq<SpecType>,
    prop: Key,
    opts: CallOpts,
    fuel: nat,
)
    requires
        site.pass is Reevaluating,
    ensures
        is_final(members_property(rel, site, ts, k, found, prop, opts, fuel)),
    decreases fuel, 1nat, ts.len() - k,
{
    if k < ts.len() {
        let run = property_call(rel, site, ts[k as int], prop, opts, fuel);
        lemma_property_call_is_final(rel, site, ts[k as int], prop, opts, fuel);
        match run.outcome {
            SpecOutcome::Resolved(t) => {
                lemma_members_property_is_final(
                    rel,
                    site,
                    ts,
                    k + 1,
                    found.push(t),
                    prop,
                    opts,
                    fuel,
                );
            },
            _ => {
                lemma_members_property_is_final(rel, site, ts, k + 1, found, prop, opts, fuel);
            },
        }
    }
}

/// On the second pass, this part of the resolution never asks for another
/// pass.
proof fn lemma_parents_property_is_final<R: TypeRelations>(
    rel: &R,
    site: SpecCallSite,
    parents: Seq<Name>,
    k: nat,
    fallback: SpecOutcome,
    prop: Key,
    opts: CallOpts,
    fuel: nat,
)
    requires
        site.pass is Reevaluating,
        !(fallback is Reevaluate),
    ensures
        is_final(parents_property(rel, site, parents, k, fallback, prop, opts, fuel)),
    decreases fuel, 1nat, parents.len() - k,
{
    if k < parents.len() {
        lemma_parents_property_is_final(rel, site, parents, k + 1, fallback, prop, opts, fuel);
        match site.env.type_of(parents[k as int]) {
            Some(p) => {
                lemma_property_call_is_final(rel, site, p, prop, opts, fuel);
            },
            None => {},
        }
    }
}

/// On the second pass, this part of the resolution never asks for another
/// pass.
proof fn lemma_fallback_property_is_final<R: TypeRelations>(
    rel: &R,
    site: SpecCallSite,
    obj: SpecType,
    prop: Key,
    opts: CallOpts,
    fuel: nat,
)
    requires
        site.pass is Reevaluating,
    ensures
        is_final(fallback_property(rel, site, obj, prop, opts, fuel)),
    decreases fuel, 2nat, 0nat,
{
    lemma_last_resort_is_final(rel, site, obj, prop);
    lemma_property_call_is_final(
        rel,
        site,
        object_ref(),
        prop,
        CallOpts { do_not_check_object: true, ..opts },
        fuel,
    );
}

/// On the second pass, this part of the resolution never asks for another
/// pass.
proof fn lemma_class_or_fallback_is_final<R: TypeRelations>(
    rel: &R,
    site: SpecCallSite,
    obj: SpecType,
    cls: SpecClassDef,
    is_static: bool,
    prop: Key,
    opts: CallOpts,
    fuel: nat,
)
    requires
        site.pass is Reevaluating,
    ensures
        is_final(class_or_fallback(rel, site, obj, cls, is_static, prop, opts, fuel)),
    decreases fuel, 3nat, 0nat,
{
    lemma_fallback_property_is_final(rel, site, obj, prop, opts, fuel);
    match callable_property(cls.body, prop, is_static, 0) {
        Some(ty) => {
            lemma_extraction_is_final(rel, site, ty, opts, site.env.depth_limit);
        },
        None => {
            lemma_selection_is_final(
                rel,
                site,
                method_candidates(cls.body, prop, is_static, cls.body.len()));
            match cls.super_class {
                Some(sc) => {
                    lemma_property_call_is_final(
                        rel,
                        site,
                        if is_static {
                            *sc
                        } else {
                            materialized(site.env.normal(*sc))
                        },
                        prop,
                        opts,
                        fuel,
                    );
                },
                None => {},
            }
        },
    }
}

/// On the second pass, the resolution of a call of a member never asks for
/// another pass.
pub proof fn lemma_property_call_is_final<R: TypeRelations>(
    rel: &R,
    site: SpecCallSite,
    obj_type: SpecType,
    prop: Key,
    opts: CallOpts,
    fuel: nat,
)
    requires
        site.pass is Reevaluating,
    ensures
        is_final(property_call(rel, site, obj_type, prop, opts, fuel)),
    decreases fuel, 0nat, 0nat,
{
    if fuel > 0 {
        let rest = (fuel - 1) as nat;
        let obj = site.env.normal(obj_type);
        match obj {
            SpecType::Array(elem) => {
                lemma_property_call_is_final(
                    rel,
                    site,
                    array_ref(*elem),
                    prop,
                    opts,
                    rest,
                );
            },
            SpecType::Intersection(ts) => {
                lemma_members_property_is_final(rel, site, ts, 0, Seq::empty(), prop, opts, rest);
            },
            SpecType::Interface(i) => {
                let first = elements_property(rel, site, i.body, prop, opts);
                lemma_elements_property_is_final(rel, site, i.body, prop, opts);
                lemma_parents_property_is_final(
                    rel,
                    site,
                    i.extends,
                    0,
                    first.outcome,
                    prop,
                    opts,
                    rest,
                );
                assert(is_final(interface_property(rel, site, i, prop, opts, rest)));
            },
            SpecType::TypeLit(members) => {
                lemma_elements_property_is_final(rel, site, members, prop, opts);
            },
            SpecType::ClassDef(cls) => {
                lemma_class_or_fallback_is_final(rel, site, obj, cls, true, prop, opts, rest);
            },
            SpecType::Class(cls) => {
                lemma_class_or_fallback_is_final(rel, site, obj, cls, false, prop, opts, rest);
            },
            _ => {
                lemma_fallback_property_is_final(rel, site, obj, prop, opts, rest);
            },
        }
    }
}

/// A call is checked again at most once: on the second pass the resolution
/// of a call never asks for another.
pub proof fn law_second_pass_is_final<R: TypeRelations>(
    rel: &R,
    env: SpecEnv,
    vars: Map<Name, SpecType>,
    call: SpecCall,
)
    requires
        call.pass is Reevaluating,
    ensures
        is_final(resolved(rel, env, vars, call)),
{
    match call.callee {
        SpecCallee::SymbolConstructor => {},
        SpecCallee::Member { obj, prop } => {
            match spread(env, rel, call.args) {
                Ok(s) => {
                    let on = receiver(rel, env, obj);
                    let site = site_of(env, vars, call, s);
                    lemma_property_call_is_final(
                        rel,
                        site.with_this(on),
                        on,
                        prop,
                        CallOpts::plain(),
                        env.depth_limit,
                    );
                },
                Err(_) => {},
            }
        },
        SpecCallee::Value { ty, implicit } => {
            match spread(env, rel, call.args) {
                Ok(s) => {
                    lemma_extraction_is_final(
                        rel,
                        site_of(env, vars, call, s),
                        prepared_callee(rel, env, ty, call.type_args),
                        CallOpts::plain(),
                        env.depth_limit,
                    );
                },
                Err(_) => {},
            }
        },
    }
}

} // verus!
