//! Rewriting a type from the leaves up: substitution of type parameters,
//! replacing the receiver type, widening of literals, and simplification of
//! a return type.
use vstd::prelude::*;

use crate::copy::clone_names;
use crate::env::{SpecEnv, TypeEnv};
use crate::model::{
    any, elements_model, members_model, opt_type_model, opt_type_params_model, opt_types_model,
    params_model, type_params_model, types_model, SpecClassDef, SpecClassMember, SpecFnParam,
    SpecInterface, SpecSignature, SpecType, SpecTypeElement, SpecTypeParam,
};
use crate::relations::TypeRelations;
use crate::subst::TypeMap;
use crate::types::{
    ClassDef, ClassMember, FnParam, Interface, Key, Keyword, Lit, Name, Signature, Type,
    TypeElement, TypeParam,
};
use crate::unions::{
    contains_type, make_union, new_union_without_dedup, union, union_members, union_of,
};

verus! {

/// What a rewriting does at each node.
pub enum Rewrite<'a> {
    /// Replaces the type parameters that the map binds.
    Substitute(&'a TypeMap),
    /// Replaces the receiver type `this`.
    ExpandThis(&'a Type),
    /// Widens each literal type to its primitive type.
    Generalize,
    /// Resolves indexed accesses and distributes an alias over a union.
    Simplify,
}

/// The model of [`Rewrite`].
pub enum SpecRewrite {
    Substitute(Map<Name, SpecType>),
    ExpandThis(SpecType),
    Generalize,
    Simplify,
}

impl<'a> View for Rewrite<'a> {
    type V = SpecRewrite;

    open spec fn view(&self) -> SpecRewrite {
        match self {
            Rewrite::Substitute(m) => SpecRewrite::Substitute(m@),
            Rewrite::ExpandThis(t) => SpecRewrite::ExpandThis(t@),
            Rewrite::Generalize => SpecRewrite::Generalize,
            Rewrite::Simplify => SpecRewrite::Simplify,
        }
    }
}

/// A string literal type, or a union of nothing but such.
pub open spec fn is_str_lit_or_union(t: SpecType) -> bool {
    match t {
        SpecType::Lit(Lit::Str(_)) => true,
        SpecType::Union(ts) => forall|i: int| 0 <= i < ts.len() ==> (#[trigger] ts[i]) matches SpecType::Lit(
            Lit::Str(_),
        ),
        _ => false,
    }
}

/// The primitive type of a literal.
pub open spec fn widened(l: Lit) -> SpecType {
    match l {
        Lit::Str(_) => SpecType::Keyword(Keyword::String),
        Lit::Num(_) => SpecType::Keyword(Keyword::Number),
        Lit::Bool(_) => SpecType::Keyword(Keyword::Boolean),
    }
}

/// The types of the members of `obj` that the first `n` of the literal keys
/// `keys` name, each once.
pub open spec fn accessed<R: TypeRelations>(
    rel: &R,
    obj: SpecType,
    keys: Seq<SpecType>,
    n: nat,
) -> Seq<SpecType>
    decreases n,
{
    if n == 0 {
        Seq::empty()
    } else {
        let acc = accessed(rel, obj, keys, (n - 1) as nat);
        match keys[n - 1] {
            SpecType::Lit(Lit::Str(name)) => match rel.member(obj, Key { name, private: false }) {
                Some(t) => if acc.contains(t) {
                    acc
                } else {
                    acc.push(t)
                },
                None => acc,
            },
            _ => acc,
        }
    }
}

/// A reference to `name` applied to each of `members` in turn.
pub open spec fn distributed(name: Name, members: Seq<SpecType>) -> Seq<SpecType> {
    Seq::new(members.len(), |i: int| SpecType::Ref { name, type_args: Some(seq![members[i]]) })
}

/// Whether `name` is declared as a type alias.
pub open spec fn is_alias(env: SpecEnv, name: Name) -> bool {
    env.lookup(name) matches Some(d) && d.is_alias
}

/// What simplification makes of a node whose parts are simplified already.
///
/// An indexed access into `any` is `any`. An indexed access into a named type
/// by string literals is the union of the members so named. An alias applied
/// to a union is the union of the alias applied to each member.
pub open spec fn simplified_node<R: TypeRelations>(
    rel: &R,
    env: SpecEnv,
    ty: SpecType,
) -> SpecType {
    match ty {
        SpecType::IndexedAccess { obj, index } => if *obj == any() {
            any()
        } else if *obj is Ref && is_str_lit_or_union(*index) {
            let keys = union_members(*index);
            make_union(accessed(rel, env.normal(*obj), keys, keys.len()))
        } else {
            ty
        },
        SpecType::Ref { name, type_args: Some(args) } => if args.len() == 1 && args[0] is Union
            && is_alias(env, name) {
            union_of(distributed(name, args[0]->Union_0))
        } else {
            ty
        },
        _ => ty,
    }
}

/// What the rewriting makes of a node whose parts are rewritten already.
pub open spec fn rewritten_node<R: TypeRelations>(
    rel: &R,
    env: SpecEnv,
    mode: SpecRewrite,
    ty: SpecType,
) -> SpecType {
    match mode {
        SpecRewrite::Substitute(map) => match ty {
            SpecType::Param(p) => if map.contains_key(p.name) {
                map[p.name]
            } else {
                ty
            },
            _ => ty,
        },
        SpecRewrite::ExpandThis(this) => match ty {
            SpecType::This => this,
            _ => ty,
        },
        SpecRewrite::Generalize => match ty {
            SpecType::Lit(l) => widened(l),
            _ => ty,
        },
        SpecRewrite::Simplify => simplified_node(rel, env, ty),
    }
}

/// Whether the rewriting enters the node. Widening leaves an indexed access
/// by string literals alone: its literals are keys.
pub open spec fn enters(mode: SpecRewrite, ty: SpecType) -> bool {
    match ty {
        SpecType::IndexedAccess { index, .. } => !(mode is Generalize && is_str_lit_or_union(*index)),
        _ => true,
    }
}

/// The value with every type in it rewritten.
pub open spec fn rewritten_opt<R: TypeRelations>(
    rel: &R,
    env: SpecEnv,
    mode: SpecRewrite,
    t: Option<Box<SpecType>>,
) -> Option<Box<SpecType>>
    decreases t,
{
    match t {
        Some(t) => Some(Box::new(rewritten(rel, env, mode, *t))),
        None => None,
    }
}

/// The value with every type in it rewritten.
pub open spec fn rewritten_types<R: TypeRelations>(
    rel: &R,
    env: SpecEnv,
    mode: SpecRewrite,
    ts: Seq<SpecType>,
) -> Seq<SpecType>
    decreases ts,
{
    Seq::new(
        ts.len(),
        |i: int| if 0 <= i < ts.len() { rewritten(rel, env, mode, ts[i]) } else { SpecType::This },
    )
}

/// The value with every type in it rewritten.
pub open spec fn rewritten_opt_types<R: TypeRelations>(
    rel: &R,
    env: SpecEnv,
    mode: SpecRewrite,
    ts: Option<Seq<SpecType>>,
) -> Option<Seq<SpecType>>
    decreases ts,
{
    match ts {
        Some(ts) => Some(rewritten_types(rel, env, mode, ts)),
        None => None,
    }
}

/// The value with every type in it rewritten.
pub open spec fn rewritten_type_param<R: TypeRelations>(
    rel: &R,
    env: SpecEnv,
    mode: SpecRewrite,
    p: SpecTypeParam,
) -> SpecTypeParam
    decreases p,
{
    SpecTypeParam { name: p.name, constraint: rewritten_opt(rel, env, mode, p.constraint) }
}

/// The value with every type in it rewritten.
pub open spec fn rewritten_type_params<R: TypeRelations>(
    rel: &R,
    env: SpecEnv,
    mode: SpecRewrite,
    ps: Seq<SpecTypeParam>,
) -> Seq<SpecTypeParam>
    decreases ps,
{
    Seq::new(
        ps.len(),
        |i: int|
            if 0 <= i < ps.len() {
                rewritten_type_param(rel, env, mode, ps[i])
            } else {
                SpecTypeParam { name: 0, constraint: None }
            },
    )
}

/// The value with every type in it rewritten.
pub open spec fn rewritten_opt_type_params<R: TypeRelations>(
    rel: &R,
    env: SpecEnv,
    mode: SpecRewrite,
    ps: Option<Seq<SpecTypeParam>>,
) -> Option<Seq<SpecTypeParam>>
    decreases ps,
{
    match ps {
        Some(ps) => Some(rewritten_type_params(rel, env, mode, ps)),
        None => None,
    }
}

/// The value with every type in it rewritten.
pub open spec fn rewritten_param<R: TypeRelations>(
    rel: &R,
    env: SpecEnv,
    mode: SpecRewrite,
    p: SpecFnParam,
) -> SpecFnParam
    decreases p,
{
    SpecFnParam { pat: p.pat, required: p.required, ty: rewritten(rel, env, mode, p.ty) }
}

/// The parameters with their types rewritten.
pub open spec fn rewritten_params<R: TypeRelations>(
    rel: &R,
    env: SpecEnv,
    mode: SpecRewrite,
    ps: Seq<SpecFnParam>,
) -> Seq<SpecFnParam>
    decreases ps,
{
    Seq::new(
        ps.len(),
        |i: int|
            if 0 <= i < ps.len() {
                rewritten_param(rel, env, mode, ps[i])
            } else {
                ps[i]
            },
    )
}

/// The value with every type in it rewritten.
pub open spec fn rewritten_sig<R: TypeRelations>(
    rel: &R,
    env: SpecEnv,
    mode: SpecRewrite,
    sig: SpecSignature,
) -> SpecSignature
    decreases sig,
{
    SpecSignature {
        type_params: rewritten_opt_type_params(rel, env, mode, sig.type_params),
        params: rewritten_params(rel, env, mode, sig.params),
        ret: rewritten_opt(rel, env, mode, sig.ret),
    }
}

/// The value with every type in it rewritten.
pub open spec fn rewritten_element<R: TypeRelations>(
    rel: &R,
    env: SpecEnv,
    mode: SpecRewrite,
    m: SpecTypeElement,
) -> SpecTypeElement
    decreases m,
{
    match m {
        SpecTypeElement::Call(sig) => SpecTypeElement::Call(rewritten_sig(rel, env, mode, sig)),
        SpecTypeElement::Constructor(sig) => SpecTypeElement::Constructor(
            rewritten_sig(rel, env, mode, sig),
        ),
        SpecTypeElement::Method { key, optional, sig } => SpecTypeElement::Method {
            key,
            optional,
            sig: rewritten_sig(rel, env, mode, sig),
        },
        SpecTypeElement::Property { key, optional, ty } => SpecTypeElement::Property {
            key,
            optional,
            ty: rewritten_opt(rel, env, mode, ty),
        },
        SpecTypeElement::Index => SpecTypeElement::Index,
    }
}

/// The value with every type in it rewritten.
pub open spec fn rewritten_elements<R: TypeRelations>(
    rel: &R,
    env: SpecEnv,
    mode: SpecRewrite,
    ms: Seq<SpecTypeElement>,
) -> Seq<SpecTypeElement>
    decreases ms,
{
    Seq::new(
        ms.len(),
        |i: int|
            if 0 <= i < ms.len() {
                rewritten_element(rel, env, mode, ms[i])
            } else {
                SpecTypeElement::Index
            },
    )
}

/// The value with every type in it rewritten.
pub open spec fn rewritten_member<R: TypeRelations>(
    rel: &R,
    env: SpecEnv,
    mode: SpecRewrite,
    m: SpecClassMember,
) -> SpecClassMember
    decreases m,
{
    match m {
        SpecClassMember::Constructor(sig) => SpecClassMember::Constructor(
            rewritten_sig(rel, env, mode, sig),
        ),
        SpecClassMember::Method { key, is_static, sig } => SpecClassMember::Method {
            key,
            is_static,
            sig: rewritten_sig(rel, env, mode, sig),
        },
        SpecClassMember::Property { key, is_static, value } => SpecClassMember::Property {
            key,
            is_static,
            value: rewritten_opt(rel, env, mode, value),
        },
        SpecClassMember::Index => SpecClassMember::Index,
    }
}

/// The value with every type in it rewritten.
pub open spec fn rewritten_members<R: TypeRelations>(
    rel: &R,
    env: SpecEnv,
    mode: SpecRewrite,
    ms: Seq<SpecClassMember>,
) -> Seq<SpecClassMember>
    decreases ms,
{
    Seq::new(
        ms.len(),
        |i: int|
            if 0 <= i < ms.len() {
                rewritten_member(rel, env, mode, ms[i])
            } else {
                SpecClassMember::Index
            },
    )
}

/// The value with every type in it rewritten.
pub open spec fn rewritten_interface<R: TypeRelations>(
    rel: &R,
    env: SpecEnv,
    mode: SpecRewrite,
    i: SpecInterface,
) -> SpecInterface
    decreases i,
{
    SpecInterface {
        name: i.name,
        type_params: rewritten_opt_type_params(rel, env, mode, i.type_params),
        extends: i.extends,
        body: rewritten_elements(rel, env, mode, i.body),
    }
}

/// The value with every type in it rewritten.
pub open spec fn rewritten_class<R: TypeRelations>(
    rel: &R,
    env: SpecEnv,
    mode: SpecRewrite,
    c: SpecClassDef,
) -> SpecClassDef
    decreases c,
{
    SpecClassDef {
        name: c.name,
        is_abstract: c.is_abstract,
        type_params: rewritten_opt_type_params(rel, env, mode, c.type_params),
        super_class: rewritten_opt(rel, env, mode, c.super_class),
        body: rewritten_members(rel, env, mode, c.body),
    }
}

/// The type with every part rewritten, the parts of a node before the node.
pub open spec fn rewritten<R: TypeRelations>(
    rel: &R,
    env: SpecEnv,
    mode: SpecRewrite,
    ty: SpecType,
) -> SpecType
    decreases ty,
{
    if !enters(mode, ty) {
        ty
    } else {
        let rebuilt = match ty {
            SpecType::Keyword(_) | SpecType::Lit(_) | SpecType::This | SpecType::Namespace(_) => ty,
            SpecType::Ref { name, type_args } => SpecType::Ref {
                name,
                type_args: rewritten_opt_types(rel, env, mode, type_args),
            },
            SpecType::Param(p) => SpecType::Param(rewritten_type_param(rel, env, mode, p)),
            SpecType::Array(t) => SpecType::Array(Box::new(rewritten(rel, env, mode, *t))),
            SpecType::Tuple(ts) => SpecType::Tuple(rewritten_types(rel, env, mode, ts)),
            SpecType::Rest(t) => SpecType::Rest(Box::new(rewritten(rel, env, mode, *t))),
            SpecType::Optional(t) => SpecType::Optional(Box::new(rewritten(rel, env, mode, *t))),
            SpecType::Function(sig) => SpecType::Function(rewritten_sig(rel, env, mode, sig)),
            SpecType::Constructor(sig) => SpecType::Constructor(rewritten_sig(rel, env, mode, sig)),
            SpecType::Union(ts) => SpecType::Union(rewritten_types(rel, env, mode, ts)),
            SpecType::Intersection(ts) => SpecType::Intersection(
                rewritten_types(rel, env, mode, ts),
            ),
            SpecType::Interface(i) => SpecType::Interface(rewritten_interface(rel, env, mode, i)),
            SpecType::TypeLit(ms) => SpecType::TypeLit(rewritten_elements(rel, env, mode, ms)),
            SpecType::ClassDef(c) => SpecType::ClassDef(rewritten_class(rel, env, mode, c)),
            SpecType::Class(c) => SpecType::Class(rewritten_class(rel, env, mode, c)),
            SpecType::Instance(t) => SpecType::Instance(Box::new(rewritten(rel, env, mode, *t))),
            SpecType::IndexedAccess { obj, index } => SpecType::IndexedAccess {
                obj: Box::new(rewritten(rel, env, mode, *obj)),
                index: Box::new(rewritten(rel, env, mode, *index)),
            },
            SpecType::Predicate { target, ty } => SpecType::Predicate {
                target,
                ty: rewritten_opt(rel, env, mode, ty),
            },
        };
        rewritten_node(rel, env, mode, rebuilt)
    }
}

/// Rewrites each of the types.
pub fn rewrite_types<R: TypeRelations>(
    rel: &R,
    env: &TypeEnv,
    mode: &Rewrite,
    items: &Vec<Type>,
) -> (r: Vec<Type>)
    ensures
        types_model(r) == rewritten_types(rel, env@, mode@, types_model(*items)),
    decreases items,
{
    let ghost im = types_model(*items);
    let mut out: Vec<Type> = Vec::new();
    let mut i: usize = 0;
    while i < items.len()
        invariant
            i <= items.len(),
            im == types_model(*items),
            out.len() == i,
            forall|j: int| 0 <= j < i ==> out[j].model() == rewritten(rel, env@, mode@, im[j]),
        decreases items.len() - i,
    {
        assert(im[i as int] == items[i as int].model());
        let c = rewrite(rel, env, mode, &items[i]);
        out.push(c);
        i += 1;
    }
    assert(types_model(out) =~= rewritten_types(rel, env@, mode@, im));
    out
}

/// Rewrites every type in the value.
fn rewrite_type_params<R: TypeRelations>(
    rel: &R,
    env: &TypeEnv,
    mode: &Rewrite,
    items: &Vec<TypeParam>,
) -> (r: Vec<TypeParam>)
    ensures
        type_params_model(r) == rewritten_type_params(rel, env@, mode@, type_params_model(*items)),
    decreases items,
{
    let ghost im = type_params_model(*items);
    let mut out: Vec<TypeParam> = Vec::new();
    let mut i: usize = 0;
    while i < items.len()
        invariant
            i <= items.len(),
            im == type_params_model(*items),
            out.len() == i,
            forall|j: int| 0 <= j < i ==> out[j].model() == rewritten_type_param(rel, env@, mode@, im[j]),
        decreases items.len() - i,
    {
        assert(im[i as int] == items[i as int].model());
        let c = rewrite_type_param(rel, env, mode, &items[i]);
        out.push(c);
        i += 1;
    }
    assert(type_params_model(out) =~= rewritten_type_params(rel, env@, mode@, im));
    out
}

/// Rewrites the types of the parameters.
pub fn rewrite_params<R: TypeRelations>(
    rel: &R,
    env: &TypeEnv,
    mode: &Rewrite,
    items: &Vec<FnParam>,
) -> (r: Vec<FnParam>)
    ensures
        params_model(r) == rewritten_params(rel, env@, mode@, params_model(*items)),
    decreases items,
{
    let ghost im = params_model(*items);
    let mut out: Vec<FnParam> = Vec::new();
    let mut i: usize = 0;
    while i < items.len()
        invariant
            i <= items.len(),
            im == params_model(*items),
            out.len() == i,
            forall|j: int| 0 <= j < i ==> out[j].model() == rewritten_param(rel, env@, mode@, im[j]),
        decreases items.len() - i,
    {
        assert(im[i as int] == items[i as int].model());
        let c = rewrite_param(rel, env, mode, &items[i]);
        out.push(c);
        i += 1;
    }
    assert(params_model(out) =~= rewritten_params(rel, env@, mode@, im));
    out
}

/// Rewrites every type in the value.
fn rewrite_elements<R: TypeRelations>(
    rel: &R,
    env: &TypeEnv,
    mode: &Rewrite,
    items: &Vec<TypeElement>,
) -> (r: Vec<TypeElement>)
    ensures
        elements_model(r) == rewritten_elements(rel, env@, mode@, elements_model(*items)),
    decreases items,
{
    let ghost im = elements_model(*items);
    let mut out: Vec<TypeElement> = Vec::new();
    let mut i: usize = 0;
    while i < items.len()
        invariant
            i <= items.len(),
            im == elements_model(*items),
            out.len() == i,
            forall|j: int| 0 <= j < i ==> out[j].model() == rewritten_element(rel, env@, mode@, im[j]),
        decreases items.len() - i,
    {
        assert(im[i as int] == items[i as int].model());
        let c = rewrite_element(rel, env, mode, &items[i]);
        out.push(c);
        i += 1;
    }
    assert(elements_model(out) =~= rewritten_elements(rel, env@, mode@, im));
    out
}

/// Rewrites every type in the value.
fn rewrite_members<R: TypeRelations>(
    rel: &R,
    env: &TypeEnv,
    mode: &Rewrite,
    items: &Vec<ClassMember>,
) -> (r: Vec<ClassMember>)
    ensures
        members_model(r) == rewritten_members(rel, env@, mode@, members_model(*items)),
    decreases items,
{
    let ghost im = members_model(*items);
    let mut out: Vec<ClassMember> = Vec::new();
    let mut i: usize = 0;
    while i < items.len()
        invariant
            i <= items.len(),
            im == members_model(*items),
            out.len() == i,
            forall|j: int| 0 <= j < i ==> out[j].model() == rewritten_member(rel, env@, mode@, im[j]),
        decreases items.len() - i,
    {
        assert(im[i as int] == items[i as int].model());
        let c = rewrite_member(rel, env, mode, &items[i]);
        out.push(c);
        i += 1;
    }
    assert(members_model(out) =~= rewritten_members(rel, env@, mode@, im));
    out
}

/// Rewrites every type in the value.
fn rewrite_opt<R: TypeRelations>(
    rel: &R,
    env: &TypeEnv,
    mode: &Rewrite,
    t: &Option<Box<Type>>,
) -> (r: Option<Box<Type>>)
    ensures
        opt_type_model(r) == rewritten_opt(rel, env@, mode@, opt_type_model(*t)),
    decreases t,
{
    match t {
        Some(t) => Some(Box::new(rewrite(rel, env, mode, t))),
        None => None,
    }
}

/// Rewrites every type in the value.
fn rewrite_opt_types<R: TypeRelations>(
    rel: &R,
    env: &TypeEnv,
    mode: &Rewrite,
    ts: &Option<Vec<Type>>,
) -> (r: Option<Vec<Type>>)
    ensures
        opt_types_model(r) == rewritten_opt_types(rel, env@, mode@, opt_types_model(*ts)),
    decreases ts,
{
    match ts {
        Some(ts) => Some(rewrite_types(rel, env, mode, ts)),
        None => None,
    }
}

/// Rewrites every type in the value.
fn rewrite_opt_type_params<R: TypeRelations>(
    rel: &R,
    env: &TypeEnv,
    mode: &Rewrite,
    ps: &Option<Vec<TypeParam>>,
) -> (r: Option<Vec<TypeParam>>)
    ensures
        opt_type_params_model(r) == rewritten_opt_type_params(
            rel,
            env@,
            mode@,
            opt_type_params_model(*ps),
        ),
    decreases ps,
{
    match ps {
        Some(ps) => Some(rewrite_type_params(rel, env, mode, ps)),
        None => None,
    }
}

/// Rewrites every type in the value.
fn rewrite_type_param<R: TypeRelations>(
    rel: &R,
    env: &TypeEnv,
    mode: &Rewrite,
    p: &TypeParam,
) -> (r: TypeParam)
    ensures
        r.model() == rewritten_type_param(rel, env@, mode@, p.model()),
    decreases p,
{
    TypeParam { name: p.name, constraint: rewrite_opt(rel, env, mode, &p.constraint) }
}

/// Rewrites every type in the value.
fn rewrite_param<R: TypeRelations>(
    rel: &R,
    env: &TypeEnv,
    mode: &Rewrite,
    p: &FnParam,
) -> (r: FnParam)
    ensures
        r.model() == rewritten_param(rel, env@, mode@, p.model()),
    decreases p,
{
    FnParam { pat: p.pat.clone(), required: p.required, ty: rewrite(rel, env, mode, &p.ty) }
}

/// Rewrites every type in the value.
fn rewrite_sig<R: TypeRelations>(
    rel: &R,
    env: &TypeEnv,
    mode: &Rewrite,
    sig: &Signature,
) -> (r: Signature)
    ensures
        r.model() == rewritten_sig(rel, env@, mode@, sig.model()),
    decreases sig,
{
    Signature {
        type_params: rewrite_opt_type_params(rel, env, mode, &sig.type_params),
        params: rewrite_params(rel, env, mode, &sig.params),
        ret: rewrite_opt(rel, env, mode, &sig.ret),
    }
}

/// Rewrites every type in the value.
fn rewrite_element<R: TypeRelations>(
    rel: &R,
    env: &TypeEnv,
    mode: &Rewrite,
    m: &TypeElement,
) -> (r: TypeElement)
    ensures
        r.model() == rewritten_element(rel, env@, mode@, m.model()),
    decreases m,
{
    match m {
        TypeElement::Call(sig) => TypeElement::Call(rewrite_sig(rel, env, mode, sig)),
        TypeElement::Constructor(sig) => TypeElement::Constructor(rewrite_sig(rel, env, mode, sig)),
        TypeElement::Method { key, optional, sig } => TypeElement::Method {
            key: *key,
            optional: *optional,
            sig: rewrite_sig(rel, env, mode, sig),
        },
        TypeElement::Property { key, optional, ty } => TypeElement::Property {
            key: *key,
            optional: *optional,
            ty: rewrite_opt(rel, env, mode, ty),
        },
        TypeElement::Index => TypeElement::Index,
    }
}

/// Rewrites every type in the value.
fn rewrite_member<R: TypeRelations>(
    rel: &R,
    env: &TypeEnv,
    mode: &Rewrite,
    m: &ClassMember,
) -> (r: ClassMember)
    ensures
        r.model() == rewritten_member(rel, env@, mode@, m.model()),
    decreases m,
{
    match m {
        ClassMember::Constructor(sig) => ClassMember::Constructor(rewrite_sig(rel, env, mode, sig)),
        ClassMember::Method { key, is_static, sig } => ClassMember::Method {
            key: *key,
            is_static: *is_static,
            sig: rewrite_sig(rel, env, mode, sig),
        },
        ClassMember::Property { key, is_static, value } => ClassMember::Property {
            key: *key,
            is_static: *is_static,
            value: rewrite_opt(rel, env, mode, value),
        },
        ClassMember::Index => ClassMember::Index,
    }
}

/// Rewrites every type in the value.
fn rewrite_interface<R: TypeRelations>(
    rel: &R,
    env: &TypeEnv,
    mode: &Rewrite,
    i: &Interface,
) -> (r: Interface)
    ensures
        r.model() == rewritten_interface(rel, env@, mode@, i.model()),
    decreases i,
{
    Interface {
        name: i.name,
        type_params: rewrite_opt_type_params(rel, env, mode, &i.type_params),
        extends: clone_names(&i.extends),
        body: rewrite_elements(rel, env, mode, &i.body),
    }
}

/// Rewrites every type in the value.
fn rewrite_class<R: TypeRelations>(
    rel: &R,
    env: &TypeEnv,
    mode: &Rewrite,
    c: &ClassDef,
) -> (r: ClassDef)
    ensures
        r.model() == rewritten_class(rel, env@, mode@, c.model()),
    decreases c,
{
    ClassDef {
        name: c.name,
        is_abstract: c.is_abstract,
        type_params: rewrite_opt_type_params(rel, env, mode, &c.type_params),
        super_class: rewrite_opt(rel, env, mode, &c.super_class),
        body: rewrite_members(rel, env, mode, &c.body),
    }
}

impl Type {
    /// Whether the type is a string literal type or a union of such.
    #[verifier::loop_isolation(false)]
    pub fn is_str_lit_or_union(&self) -> (r: bool)
        ensures
            r == is_str_lit_or_union(self@),
    {
        match self {
            Type::Lit(Lit::Str(_)) => true,
            Type::Union(ts) => {
                let mut i: usize = 0;
                while i < ts.len()
                    invariant
                        i <= ts.len(),
                        forall|j: int| 0 <= j < i ==> (#[trigger] types_model(*ts)[j]) matches SpecType::Lit(
                            Lit::Str(_),
                        ),
                    decreases ts.len() - i,
                {
                    if !matches!(&ts[i], Type::Lit(Lit::Str(_))) {
                        assert(!(types_model(*ts)[i as int] matches SpecType::Lit(Lit::Str(_))));
                        return false;
                    }
                    i += 1;
                }
                true
            },
            _ => false,
        }
    }
}

/// The types of the members of `obj` that the literal keys name, each once.
fn access_all<R: TypeRelations>(rel: &R, obj: &Type, keys: &Vec<Type>) -> (r: Vec<Type>)
    ensures
        types_model(r) == accessed(rel, obj@, types_model(*keys), keys.len() as nat),
{
    let ghost km = types_model(*keys);
    let mut acc: Vec<Type> = Vec::new();
    let mut i: usize = 0;
    assert(types_model(acc) =~= Seq::empty());
    while i < keys.len()
        invariant
            i <= keys.len(),
            km == types_model(*keys),
            types_model(acc) == accessed(rel, obj@, km, i as nat),
        decreases keys.len() - i,
    {
        let ghost before = types_model(acc);
        assert(km[i as int] == keys[i as int]@);
        match &keys[i] {
            Type::Lit(Lit::Str(name)) => match rel.access_property(
                obj,
                Key { name: *name, private: false },
            ) {
                Some(t) => {
                    if !contains_type(&acc, &t) {
                        let ghost tv = t@;
                        acc.push(t);
                        assert(types_model(acc) =~= before.push(tv));
                    }
                },
                None => {},
            },
            _ => {},
        }
        i += 1;
    }
    acc
}

/// A reference to `name` applied to each of `members` in turn.
fn distribute(name: Name, members: &Vec<Type>) -> (r: Vec<Type>)
    ensures
        types_model(r) == distributed(name, types_model(*members)),
{
    let ghost mm = types_model(*members);
    let mut out: Vec<Type> = Vec::new();
    let mut i: usize = 0;
    while i < members.len()
        invariant
            i <= members.len(),
            mm == types_model(*members),
            out.len() == i,
            forall|j: int| 0 <= j < i ==> out[j]@ == distributed(name, mm)[j],
        decreases members.len() - i,
    {
        let mut one: Vec<Type> = Vec::new();
        one.push(members[i].clone());
        assert(types_model(one) =~= seq![mm[i as int]]);
        assert(opt_types_model(Some(one)) == Some(types_model(one)));
        let r = Type::Ref { name, type_args: Some(one) };
        out.push(r);
        i += 1;
    }
    assert(types_model(out) =~= distributed(name, mm));
    out
}

impl TypeEnv {
    /// Whether `name` is declared as a type alias.
    pub fn is_alias(&self, name: Name) -> (r: bool)
        ensures
            r == is_alias(self@, name),
    {
        match self.find(name) {
            Some(d) => d.is_alias,
            None => false,
        }
    }
}

/// What simplification puts in the place of a node; `None` where the node
/// stays.
fn simplify_node<R: TypeRelations>(rel: &R, env: &TypeEnv, ty: &Type) -> (r: Option<Type>)
    ensures
        match r {
            Some(t) => t@ == simplified_node(rel, env@, ty@),
            None => ty@ == simplified_node(rel, env@, ty@),
        },
{
    proof {
        reveal_with_fuel(Type::model, 2);
    }
    match ty {
        Type::IndexedAccess { obj, index } => {
            if obj.is_any() {
                Some(Type::Keyword(Keyword::Any))
            } else if matches!(&**obj, Type::Ref { .. }) && index.is_str_lit_or_union() {
                let target = env.normalize(obj);
                let found = match &**index {
                    Type::Union(keys) => {
                        assert(union_members(index@) == types_model(*keys));
                        access_all(rel, target, keys)
                    },
                    _ => {
                        assert(union_members(index@) == seq![index@]);
                        let mut keys: Vec<Type> = Vec::new();
                        keys.push((**index).clone());
                        assert(types_model(keys) =~= seq![index@]);
                        access_all(rel, target, &keys)
                    },
                };
                Some(new_union_without_dedup(found))
            } else {
                None
            }
        },
        Type::Ref { name, type_args: Some(args) } => {
            assert(opt_types_model(Some(*args)) == Some(types_model(*args)));
            if args.len() == 1 {
                assert(types_model(*args)[0] == args[0]@);
                match &args[0] {
                    Type::Union(members) => if env.is_alias(*name) {
                        Some(union(distribute(*name, members)))
                    } else {
                        None
                    },
                    _ => None,
                }
            } else {
                None
            }
        },
        _ => None,
    }
}

/// What the rewriting makes of a node whose parts are rewritten already.
fn rewrite_node<R: TypeRelations>(rel: &R, env: &TypeEnv, mode: &Rewrite, ty: Type) -> (r: Type)
    ensures
        r@ == rewritten_node(rel, env@, mode@, ty@),
{
    let replaced = match mode {
        Rewrite::Substitute(map) => match &ty {
            Type::Param(p) => {
                assert(ty@ == SpecType::Param(p.model()));
                match map.get(p.name) {
                    Some(t) => Some(t.clone()),
                    None => None,
                }
            },
            _ => None,
        },
        Rewrite::ExpandThis(this) => match &ty {
            Type::This => Some((*this).clone()),
            _ => None,
        },
        Rewrite::Generalize => match &ty {
            Type::Lit(Lit::Str(_)) => Some(Type::Keyword(Keyword::String)),
            Type::Lit(Lit::Num(_)) => Some(Type::Keyword(Keyword::Number)),
            Type::Lit(Lit::Bool(_)) => Some(Type::Keyword(Keyword::Boolean)),
            _ => None,
        },
        Rewrite::Simplify => simplify_node(rel, env, &ty),
    };
    match replaced {
        Some(t) => t,
        None => ty,
    }
}

/// Rewrites a type from the leaves up.
pub fn rewrite<R: TypeRelations>(rel: &R, env: &TypeEnv, mode: &Rewrite, ty: &Type) -> (r: Type)
    ensures
        r.model() == rewritten(rel, env@, mode@, ty.model()),
    decreases ty,
{
    let rebuilt = match ty {
        Type::Keyword(k) => Type::Keyword(*k),
        Type::Lit(l) => Type::Lit(*l),
        Type::This => Type::This,
        Type::Namespace(n) => Type::Namespace(*n),
        Type::Ref { name, type_args } => Type::Ref {
            name: *name,
            type_args: rewrite_opt_types(rel, env, mode, type_args),
        },
        Type::Param(p) => Type::Param(rewrite_type_param(rel, env, mode, p)),
        Type::Array(t) => Type::Array(Box::new(rewrite(rel, env, mode, t))),
        Type::Tuple(ts) => Type::Tuple(rewrite_types(rel, env, mode, ts)),
        Type::Rest(t) => Type::Rest(Box::new(rewrite(rel, env, mode, t))),
        Type::Optional(t) => Type::Optional(Box::new(rewrite(rel, env, mode, t))),
        Type::Function(sig) => Type::Function(rewrite_sig(rel, env, mode, sig)),
        Type::Constructor(sig) => Type::Constructor(rewrite_sig(rel, env, mode, sig)),
        Type::Union(ts) => Type::Union(rewrite_types(rel, env, mode, ts)),
        Type::Intersection(ts) => Type::Intersection(rewrite_types(rel, env, mode, ts)),
        Type::Interface(i) => Type::Interface(rewrite_interface(rel, env, mode, i)),
        Type::TypeLit(ms) => Type::TypeLit(rewrite_elements(rel, env, mode, ms)),
        Type::ClassDef(c) => Type::ClassDef(rewrite_class(rel, env, mode, c)),
        Type::Class(c) => Type::Class(rewrite_class(rel, env, mode, c)),
        Type::Instance(t) => Type::Instance(Box::new(rewrite(rel, env, mode, t))),
        Type::IndexedAccess { obj, index } => {
            if matches!(mode, Rewrite::Generalize) && index.is_str_lit_or_union() {
                return ty.clone();
            }
            Type::IndexedAccess {
                obj: Box::new(rewrite(rel, env, mode, obj)),
                index: Box::new(rewrite(rel, env, mode, index)),
            }
        },
        Type::Predicate { target, ty } => Type::Predicate {
            target: *target,
            ty: rewrite_opt(rel, env, mode, ty),
        },
    };
    rewrite_node(rel, env, mode, rebuilt)
}

} // verus!
