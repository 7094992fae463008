//! The type parameters that a type still mentions.
use vstd::prelude::*;

use crate::copy::{clone_opt_type, clone_params};
use crate::model::{
    elements_model, opt_type_model, opt_type_params_model, opt_types_model, params_model,
    type_params_model, types_model, SpecFnParam, SpecSignature, SpecType, SpecTypeElement,
    SpecTypeParam,
};
use crate::types::{FnParam, Name, Signature, Type, TypeElement, TypeParam};

verus! {

/// Whether one of `params` has the name `name`.
pub open spec fn binds(params: Seq<SpecTypeParam>, name: Name) -> bool {
    exists|i: int| 0 <= i < params.len() && (#[trigger] params[i]).name == name
}

/// The first `n` of `found` without those that `bound` binds.
pub open spec fn without_bound(
    found: Seq<SpecTypeParam>,
    bound: Seq<SpecTypeParam>,
    n: nat,
) -> Seq<SpecTypeParam>
    decreases n,
{
    if n == 0 {
        Seq::empty()
    } else {
        let before = without_bound(found, bound, (n - 1) as nat);
        if binds(bound, found[n - 1].name) {
            before
        } else {
            before.push(found[n - 1])
        }
    }
}

/// The first `n` of `found`, each name once: at its first place.
pub open spec fn once_each(found: Seq<SpecTypeParam>, n: nat) -> Seq<SpecTypeParam>
    decreases n,
{
    if n == 0 {
        Seq::empty()
    } else {
        let before = once_each(found, (n - 1) as nat);
        if binds(before, found[n - 1].name) {
            before
        } else {
            before.push(found[n - 1])
        }
    }
}

/// The free type parameters of the type, if there is one.
pub open spec fn used_in_opt(t: Option<Box<SpecType>>) -> Seq<SpecTypeParam>
    decreases t,
{
    match t {
        Some(t) => used_in(*t),
        None => Seq::empty(),
    }
}

/// The free type parameters of the first `n` types, in order.
pub open spec fn used_in_types(ts: Seq<SpecType>, n: nat) -> Seq<SpecTypeParam>
    decreases ts, n,
{
    if n == 0 || n > ts.len() {
        Seq::empty()
    } else {
        used_in_types(ts, (n - 1) as nat) + used_in(ts[n - 1])
    }
}

/// The free type parameters of the types of the first `n` parameters.
pub open spec fn used_in_params(ps: Seq<SpecFnParam>, n: nat) -> Seq<SpecTypeParam>
    decreases ps, n,
{
    if n == 0 || n > ps.len() {
        Seq::empty()
    } else {
        used_in_params(ps, (n - 1) as nat) + used_in(ps[n - 1].ty)
    }
}

/// The type parameters that the parameters and the return type of a
/// signature mention.
pub open spec fn used_in_body(sig: SpecSignature) -> Seq<SpecTypeParam>
    decreases sig, 0nat,
{
    used_in_params(sig.params, sig.params.len()) + used_in_opt(sig.ret)
}

/// The free type parameters of a signature: those that its parameters and
/// its return type mention and that it does not declare itself.
pub open spec fn used_in_sig(sig: SpecSignature) -> Seq<SpecTypeParam>
    decreases sig, 1nat,
{
    let found = used_in_body(sig);
    match sig.type_params {
        Some(bound) => without_bound(found, bound, found.len()),
        None => found,
    }
}

/// The free type parameters of the first `n` members of a type literal.
pub open spec fn used_in_elements(ms: Seq<SpecTypeElement>, n: nat) -> Seq<SpecTypeParam>
    decreases ms, n,
{
    if n == 0 || n > ms.len() {
        Seq::empty()
    } else {
        used_in_elements(ms, (n - 1) as nat) + match ms[n - 1] {
            SpecTypeElement::Call(sig) => used_in_sig(sig),
            SpecTypeElement::Constructor(sig) => used_in_sig(sig),
            SpecTypeElement::Method { sig, .. } => used_in_sig(sig),
            SpecTypeElement::Property { ty, .. } => used_in_opt(ty),
            SpecTypeElement::Index => Seq::empty(),
        }
    }
}

/// The free type parameters of a type, in the order in which it mentions
/// them. Interfaces and classes declare their own and are not entered.
pub open spec fn used_in(ty: SpecType) -> Seq<SpecTypeParam>
    decreases ty, 0nat,
{
    match ty {
        SpecType::Param(p) => seq![p] + used_in_opt(p.constraint),
        SpecType::Ref { type_args, .. } => match type_args {
            Some(ts) => used_in_types(ts, ts.len()),
            None => Seq::empty(),
        },
        SpecType::Array(t) => used_in(*t),
        SpecType::Rest(t) => used_in(*t),
        SpecType::Optional(t) => used_in(*t),
        SpecType::Instance(t) => used_in(*t),
        SpecType::Tuple(ts) => used_in_types(ts, ts.len()),
        SpecType::Union(ts) => used_in_types(ts, ts.len()),
        SpecType::Intersection(ts) => used_in_types(ts, ts.len()),
        SpecType::Function(sig) => used_in_sig(sig),
        SpecType::Constructor(sig) => used_in_sig(sig),
        SpecType::TypeLit(ms) => used_in_elements(ms, ms.len()),
        SpecType::IndexedAccess { obj, index } => used_in(*obj) + used_in(*index),
        SpecType::Predicate { ty, .. } => used_in_opt(ty),
        _ => Seq::empty(),
    }
}

/// The type with the type parameters that it still needs: a function type
/// that declares none and mentions some declares those, each once.
pub open spec fn with_required_type_params(ty: SpecType) -> SpecType {
    match ty {
        SpecType::Function(sig) => {
            let found = used_in_body(sig);
            let needed = once_each(found, found.len());
            if sig.type_params.is_none() && needed.len() > 0 {
                SpecType::Function(
                    SpecSignature { type_params: Some(needed), params: sig.params, ret: sig.ret },
                )
            } else {
                ty
            }
        },
        _ => ty,
    }
}

/// Whether one of `params` has the name `name`.
fn is_bound(params: &Vec<TypeParam>, name: Name) -> (r: bool)
    ensures
        r == binds(type_params_model(*params), name),
{
    let ghost pm = type_params_model(*params);
    let mut i: usize = 0;
    while i < params.len()
        invariant
            i <= params.len(),
            pm == type_params_model(*params),
            forall|j: int| 0 <= j < i ==> (#[trigger] pm[j]).name != name,
        decreases params.len() - i,
    {
        assert(pm[i as int] == params[i as int]@);
        if params[i].name == name {
            return true;
        }
        i += 1;
    }
    false
}

/// The type parameters without those that `bound` binds.
fn drop_bound(found: Vec<TypeParam>, bound: &Vec<TypeParam>) -> (r: Vec<TypeParam>)
    ensures
        type_params_model(r) == without_bound(
            type_params_model(found),
            type_params_model(*bound),
            found.len() as nat,
        ),
{
    let ghost fm = type_params_model(found);
    let mut out: Vec<TypeParam> = Vec::new();
    assert(type_params_model(out) =~= Seq::empty());
    let mut i: usize = 0;
    while i < found.len()
        invariant
            i <= found.len(),
            fm == type_params_model(found),
            type_params_model(out) == without_bound(fm, type_params_model(*bound), i as nat),
        decreases found.len() - i,
    {
        let ghost before = type_params_model(out);
        assert(fm[i as int] == found[i as int]@);
        if !is_bound(bound, found[i].name) {
            out.push(found[i].clone());
            assert(type_params_model(out) =~= before.push(fm[i as int]));
        }
        i += 1;
    }
    out
}

/// The type parameters, each name once.
fn keep_once(found: Vec<TypeParam>) -> (r: Vec<TypeParam>)
    ensures
        type_params_model(r) == once_each(type_params_model(found), found.len() as nat),
{
    let ghost fm = type_params_model(found);
    let mut out: Vec<TypeParam> = Vec::new();
    assert(type_params_model(out) =~= Seq::empty());
    let mut i: usize = 0;
    while i < found.len()
        invariant
            i <= found.len(),
            fm == type_params_model(found),
            type_params_model(out) == once_each(fm, i as nat),
        decreases found.len() - i,
    {
        let ghost before = type_params_model(out);
        assert(fm[i as int] == found[i as int]@);
        if !is_bound(&out, found[i].name) {
            out.push(found[i].clone());
            assert(type_params_model(out) =~= before.push(fm[i as int]));
        }
        i += 1;
    }
    out
}

/// Appends `more` to `out`.
fn append_params(out: &mut Vec<TypeParam>, more: Vec<TypeParam>)
    ensures
        type_params_model(*final(out)) == type_params_model(*old(out)) + type_params_model(more),
{
    let ghost before = type_params_model(*out);
    let ghost mm = type_params_model(more);
    let mut more = more;
    out.append(&mut more);
    assert(type_params_model(*out) =~= before + mm);
}

/// No type parameters.
fn none_used() -> (r: Vec<TypeParam>)
    ensures
        type_params_model(r) == Seq::<SpecTypeParam>::empty(),
{
    let out: Vec<TypeParam> = Vec::new();
    assert(type_params_model(out) =~= Seq::empty());
    out
}

/// The free type parameters of the type, if there is one.
fn find_in_opt(t: &Option<Box<Type>>) -> (r: Vec<TypeParam>)
    ensures
        type_params_model(r) == used_in_opt(opt_type_model(*t)),
    decreases t,
{
    match t {
        Some(t) => find_type_params(t),
        None => none_used(),
    }
}

/// The free type parameters of the first `n` types.
fn find_in_types(ts: &Vec<Type>, n: usize) -> (r: Vec<TypeParam>)
    ensures
        type_params_model(r) == used_in_types(types_model(*ts), n as nat),
    decreases ts, n,
{
    if n == 0 || n > ts.len() {
        none_used()
    } else {
        assert(types_model(*ts)[n - 1] == ts[n - 1]@);
        let mut out = find_in_types(ts, n - 1);
        append_params(&mut out, find_type_params(&ts[n - 1]));
        out
    }
}

/// The free type parameters of the types of the first `n` parameters.
fn find_in_params(ps: &Vec<FnParam>, n: usize) -> (r: Vec<TypeParam>)
    ensures
        type_params_model(r) == used_in_params(params_model(*ps), n as nat),
    decreases ps, n,
{
    if n == 0 || n > ps.len() {
        none_used()
    } else {
        assert(params_model(*ps)[n - 1] == ps[n - 1]@);
        let mut out = find_in_params(ps, n - 1);
        append_params(&mut out, find_type_params(&ps[n - 1].ty));
        out
    }
}

/// The type parameters that the parameters and the return type of a signature
/// mention.
fn find_in_body(sig: &Signature) -> (r: Vec<TypeParam>)
    ensures
        type_params_model(r) == used_in_body(sig@),
    decreases sig, 0nat,
{
    assert(sig@.params == params_model(sig.params) && sig@.ret == opt_type_model(sig.ret));
    let mut out = find_in_params(&sig.params, sig.params.len());
    append_params(&mut out, find_in_opt(&sig.ret));
    out
}

/// The free type parameters of a signature.
fn find_in_sig(sig: &Signature) -> (r: Vec<TypeParam>)
    ensures
        type_params_model(r) == used_in_sig(sig@),
    decreases sig, 1nat,
{
    assert(sig@.type_params == opt_type_params_model(sig.type_params));
    let found = find_in_body(sig);
    match &sig.type_params {
        Some(bound) => drop_bound(found, bound),
        None => found,
    }
}

/// The free type parameters of the first `n` members of a type literal.
fn find_in_elements(ms: &Vec<TypeElement>, n: usize) -> (r: Vec<TypeParam>)
    ensures
        type_params_model(r) == used_in_elements(elements_model(*ms), n as nat),
    decreases ms, n,
{
    if n == 0 || n > ms.len() {
        none_used()
    } else {
        assert(elements_model(*ms)[n - 1] == ms[n - 1]@);
        let mut out = find_in_elements(ms, n - 1);
        let more = match &ms[n - 1] {
            TypeElement::Call(sig) => find_in_sig(sig),
            TypeElement::Constructor(sig) => find_in_sig(sig),
            TypeElement::Method { sig, .. } => find_in_sig(sig),
            TypeElement::Property { ty, .. } => find_in_opt(ty),
            TypeElement::Index => none_used(),
        };
        append_params(&mut out, more);
        out
    }
}

/// Finds the free type parameters of a type, in the order in which it
/// mentions them.
pub fn find_type_params(ty: &Type) -> (r: Vec<TypeParam>)
    ensures
        type_params_model(r) == used_in(ty@),
    decreases ty, 0nat,
{
    match ty {
        Type::Param(p) => {
            assert(ty@ == SpecType::Param(p@));
            assert(p@.constraint == opt_type_model(p.constraint));
            let mut out: Vec<TypeParam> = Vec::new();
            out.push(p.clone());
            assert(type_params_model(out) =~= seq![p@]);
            append_params(&mut out, find_in_opt(&p.constraint));
            out
        },
        Type::Ref { type_args, .. } => {
            assert(ty@->Ref_type_args == opt_types_model(*type_args));
            match type_args {
                Some(ts) => find_in_types(ts, ts.len()),
                None => none_used(),
            }
        },
        Type::Array(t) => find_type_params(t),
        Type::Rest(t) => find_type_params(t),
        Type::Optional(t) => find_type_params(t),
        Type::Instance(t) => find_type_params(t),
        Type::Tuple(ts) => find_in_types(ts, ts.len()),
        Type::Union(ts) => find_in_types(ts, ts.len()),
        Type::Intersection(ts) => find_in_types(ts, ts.len()),
        Type::Function(sig) => find_in_sig(sig),
        Type::Constructor(sig) => find_in_sig(sig),
        Type::TypeLit(ms) => find_in_elements(ms, ms.len()),
        Type::IndexedAccess { obj, index } => {
            let mut out = find_type_params(obj);
            append_params(&mut out, find_type_params(index));
            out
        },
        Type::Predicate { ty: asserted, .. } => find_in_opt(asserted),
        _ => none_used(),
    }
}

/// Gives a function type the type parameters that it still needs: one that
/// declares none and mentions some declares those, each once.
pub fn add_required_type_params(ty: Type) -> (r: Type)
    ensures
        r@ == with_required_type_params(ty@),
{
    match &ty {
        Type::Function(sig) => {
            assert(sig@.type_params == opt_type_params_model(sig.type_params));
            if sig.type_params.is_some() {
                return ty;
            }
            let needed = keep_once(find_in_body(sig));
            if needed.len() == 0 {
                return ty;
            }
            let with = Signature {
                type_params: Some(needed),
                params: clone_params(&sig.params),
                ret: clone_opt_type(&sig.ret),
            };
            assert(with@.type_params == opt_type_params_model(with.type_params));
            Type::Function(with)
        },
        _ => ty,
    }
}

} // verus!
