//! Deep copies that keep the model.
use vstd::prelude::*;

use crate::model::{
    args_model, candidates_model, elements_model, members_model, opt_pat_model, opt_pats_model,
    opt_type_model, opt_type_params_model, opt_types_model, params_model, pats_model,
    type_params_model, types_model,
};
use crate::types::{
    CallCandidate, ClassDef, ClassMember, FnParam, Interface, Pat, Signature, Type, TypeElement,
    TypeOrSpread, TypeParam,
};

verus! {

/// A copy of the list with the same model, element by element.
pub fn clone_types(items: &Vec<Type>) -> (r: Vec<Type>)
    ensures
        types_model(r) == types_model(*items),
    decreases items,
{
    let mut out: Vec<Type> = Vec::new();
    let mut i: usize = 0;
    while i < items.len()
        invariant
            i <= items.len(),
            out.len() == i,
            forall|j: int| 0 <= j < i ==> out[j].model() == items[j].model(),
        decreases items.len() - i,
    {
        let c = items[i].deep_clone();
        out.push(c);
        i += 1;
    }
    assert(types_model(out) =~= types_model(*items));
    out
}

/// A copy of the list with the same model, element by element.
pub fn clone_type_params(items: &Vec<TypeParam>) -> (r: Vec<TypeParam>)
    ensures
        type_params_model(r) == type_params_model(*items),
    decreases items,
{
    let mut out: Vec<TypeParam> = Vec::new();
    let mut i: usize = 0;
    while i < items.len()
        invariant
            i <= items.len(),
            out.len() == i,
            forall|j: int| 0 <= j < i ==> out[j].model() == items[j].model(),
        decreases items.len() - i,
    {
        let c = items[i].deep_clone();
        out.push(c);
        i += 1;
    }
    assert(type_params_model(out) =~= type_params_model(*items));
    out
}

/// A copy of the list with the same model, element by element.
pub fn clone_params(items: &Vec<FnParam>) -> (r: Vec<FnParam>)
    ensures
        params_model(r) == params_model(*items),
    decreases items,
{
    let mut out: Vec<FnParam> = Vec::new();
    let mut i: usize = 0;
    while i < items.len()
        invariant
            i <= items.len(),
            out.len() == i,
            forall|j: int| 0 <= j < i ==> out[j].model() == items[j].model(),
        decreases items.len() - i,
    {
        let c = items[i].deep_clone();
        out.push(c);
        i += 1;
    }
    assert(params_model(out) =~= params_model(*items));
    out
}

/// A copy of the list with the same model, element by element.
pub fn clone_elements(items: &Vec<TypeElement>) -> (r: Vec<TypeElement>)
    ensures
        elements_model(r) == elements_model(*items),
    decreases items,
{
    let mut out: Vec<TypeElement> = Vec::new();
    let mut i: usize = 0;
    while i < items.len()
        invariant
            i <= items.len(),
            out.len() == i,
            forall|j: int| 0 <= j < i ==> out[j].model() == items[j].model(),
        decreases items.len() - i,
    {
        let c = items[i].deep_clone();
        out.push(c);
        i += 1;
    }
    assert(elements_model(out) =~= elements_model(*items));
    out
}

/// A copy of the list with the same model, element by element.
pub fn clone_members(items: &Vec<ClassMember>) -> (r: Vec<ClassMember>)
    ensures
        members_model(r) == members_model(*items),
    decreases items,
{
    let mut out: Vec<ClassMember> = Vec::new();
    let mut i: usize = 0;
    while i < items.len()
        invariant
            i <= items.len(),
            out.len() == i,
            forall|j: int| 0 <= j < i ==> out[j].model() == items[j].model(),
        decreases items.len() - i,
    {
        let c = items[i].deep_clone();
        out.push(c);
        i += 1;
    }
    assert(members_model(out) =~= members_model(*items));
    out
}

/// A copy of the list with the same model, element by element.
pub fn clone_pats(items: &Vec<Pat>) -> (r: Vec<Pat>)
    ensures
        pats_model(r) == pats_model(*items),
    decreases items,
{
    let mut out: Vec<Pat> = Vec::new();
    let mut i: usize = 0;
    while i < items.len()
        invariant
            i <= items.len(),
            out.len() == i,
            forall|j: int| 0 <= j < i ==> out[j].model() == items[j].model(),
        decreases items.len() - i,
    {
        let c = items[i].deep_clone();
        out.push(c);
        i += 1;
    }
    assert(pats_model(out) =~= pats_model(*items));
    out
}

/// A copy with the same model.
pub fn clone_opt_pats(items: &Vec<Option<Pat>>) -> (r: Vec<Option<Pat>>)
    ensures
        opt_pats_model(r) == opt_pats_model(*items),
    decreases items,
{
    let mut out: Vec<Option<Pat>> = Vec::new();
    let mut i: usize = 0;
    while i < items.len()
        invariant
            i <= items.len(),
            out.len() == i,
            forall|j: int| 0 <= j < i ==> opt_pat_model(out[j]) == opt_pat_model(items[j]),
        decreases items.len() - i,
    {
        let c = match &items[i] {
            Some(p) => Some(p.deep_clone()),
            None => None,
        };
        out.push(c);
        i += 1;
    }
    assert(opt_pats_model(out) =~= opt_pats_model(*items));
    out
}

/// A copy with the same model.
pub fn clone_opt_type(t: &Option<Box<Type>>) -> (r: Option<Box<Type>>)
    ensures
        opt_type_model(r) == opt_type_model(*t),
    decreases t,
{
    match t {
        Some(t) => Some(Box::new(t.deep_clone())),
        None => None,
    }
}

/// A copy with the same model.
pub fn clone_opt_types(ts: &Option<Vec<Type>>) -> (r: Option<Vec<Type>>)
    ensures
        opt_types_model(r) == opt_types_model(*ts),
    decreases ts,
{
    match ts {
        Some(ts) => Some(clone_types(ts)),
        None => None,
    }
}

/// A copy with the same model.
pub fn clone_opt_type_params(ps: &Option<Vec<TypeParam>>) -> (r: Option<Vec<TypeParam>>)
    ensures
        opt_type_params_model(r) == opt_type_params_model(*ps),
    decreases ps,
{
    match ps {
        Some(ps) => Some(clone_type_params(ps)),
        None => None,
    }
}

/// A copy of the list with the same model, element by element.
pub fn clone_names(names: &Vec<u64>) -> (r: Vec<u64>)
    ensures
        r@ == names@,
{
    let mut out: Vec<u64> = Vec::new();
    let mut i: usize = 0;
    while i < names.len()
        invariant
            i <= names.len(),
            out@ == names@.subrange(0, i as int),
        decreases names.len() - i,
    {
        out.push(names[i]);
        assert(out@ =~= names@.subrange(0, i + 1));
        i += 1;
    }
    assert(out@ =~= names@);
    out
}

/// A copy of the list with the same model, element by element.
pub fn clone_args(items: &Vec<TypeOrSpread>) -> (r: Vec<TypeOrSpread>)
    ensures
        args_model(r) == args_model(*items),
{
    let mut out: Vec<TypeOrSpread> = Vec::new();
    let mut i: usize = 0;
    while i < items.len()
        invariant
            i <= items.len(),
            out.len() == i,
            forall|j: int| 0 <= j < i ==> out[j]@ == items[j]@,
        decreases items.len() - i,
    {
        let c = items[i].clone();
        out.push(c);
        i += 1;
    }
    assert(args_model(out) =~= args_model(*items));
    out
}

/// A copy of the list with the same model, element by element.
pub fn clone_candidates(items: &Vec<CallCandidate>) -> (r: Vec<CallCandidate>)
    ensures
        candidates_model(r) == candidates_model(*items),
{
    let mut out: Vec<CallCandidate> = Vec::new();
    let mut i: usize = 0;
    while i < items.len()
        invariant
            i <= items.len(),
            out.len() == i,
            forall|j: int| 0 <= j < i ==> out[j]@ == items[j]@,
        decreases items.len() - i,
    {
        let c = items[i].clone();
        out.push(c);
        i += 1;
    }
    assert(candidates_model(out) =~= candidates_model(*items));
    out
}

impl Pat {
    /// A copy with the same model.
    pub fn deep_clone(&self) -> (r: Pat)
        ensures
            r.model() == self.model(),
        decreases self,
    {
        match self {
            Pat::Ident { name, optional } => Pat::Ident { name: *name, optional: *optional },
            Pat::Array { optional, elems } => Pat::Array {
                optional: *optional,
                elems: clone_opt_pats(elems),
            },
            Pat::Object { optional, props } => Pat::Object {
                optional: *optional,
                props: clone_pats(props),
            },
            Pat::Rest { annotated, arg } => Pat::Rest {
                annotated: *annotated,
                arg: Box::new(arg.deep_clone()),
            },
            Pat::Assign { left } => Pat::Assign { left: Box::new(left.deep_clone()) },
            Pat::Invalid => Pat::Invalid,
            Pat::Expr => Pat::Expr,
        }
    }
}

impl TypeParam {
    /// A copy with the same model.
    pub fn deep_clone(&self) -> (r: TypeParam)
        ensures
            r.model() == self.model(),
        decreases self,
    {
        TypeParam { name: self.name, constraint: clone_opt_type(&self.constraint) }
    }
}

impl FnParam {
    /// A copy with the same model.
    pub fn deep_clone(&self) -> (r: FnParam)
        ensures
            r.model() == self.model(),
        decreases self,
    {
        FnParam { pat: self.pat.deep_clone(), required: self.required, ty: self.ty.deep_clone() }
    }
}

impl Signature {
    /// A copy with the same model.
    pub fn deep_clone(&self) -> (r: Signature)
        ensures
            r.model() == self.model(),
        decreases self,
    {
        Signature {
            type_params: clone_opt_type_params(&self.type_params),
            params: clone_params(&self.params),
            ret: clone_opt_type(&self.ret),
        }
    }
}

impl TypeElement {
    /// A copy with the same model.
    pub fn deep_clone(&self) -> (r: TypeElement)
        ensures
            r.model() == self.model(),
        decreases self,
    {
        match self {
            TypeElement::Call(sig) => TypeElement::Call(sig.deep_clone()),
            TypeElement::Constructor(sig) => TypeElement::Constructor(sig.deep_clone()),
            TypeElement::Method { key, optional, sig } => TypeElement::Method {
                key: *key,
                optional: *optional,
                sig: sig.deep_clone(),
            },
            TypeElement::Property { key, optional, ty } => TypeElement::Property {
                key: *key,
                optional: *optional,
                ty: clone_opt_type(ty),
            },
            TypeElement::Index => TypeElement::Index,
        }
    }
}

impl ClassMember {
    /// A copy with the same model.
    pub fn deep_clone(&self) -> (r: ClassMember)
        ensures
            r.model() == self.model(),
        decreases self,
    {
        match self {
            ClassMember::Constructor(sig) => ClassMember::Constructor(sig.deep_clone()),
            ClassMember::Method { key, is_static, sig } => ClassMember::Method {
                key: *key,
                is_static: *is_static,
                sig: sig.deep_clone(),
            },
            ClassMember::Property { key, is_static, value } => ClassMember::Property {
                key: *key,
                is_static: *is_static,
                value: clone_opt_type(value),
            },
            ClassMember::Index => ClassMember::Index,
        }
    }
}

impl Interface {
    /// A copy with the same model.
    pub fn deep_clone(&self) -> (r: Interface)
        ensures
            r.model() == self.model(),
        decreases self,
    {
        Interface {
            name: self.name,
            type_params: clone_opt_type_params(&self.type_params),
            extends: clone_names(&self.extends),
            body: clone_elements(&self.body),
        }
    }
}

impl ClassDef {
    /// A copy with the same model.
    pub fn deep_clone(&self) -> (r: ClassDef)
        ensures
            r.model() == self.model(),
        decreases self,
    {
        ClassDef {
            name: self.name,
            is_abstract: self.is_abstract,
            type_params: clone_opt_type_params(&self.type_params),
            super_class: clone_opt_type(&self.super_class),
            body: clone_members(&self.body),
        }
    }
}

impl Type {
    /// A copy with the same model.
    pub fn deep_clone(&self) -> (r: Type)
        ensures
            r.model() == self.model(),
        decreases self,
    {
        match self {
            Type::Keyword(k) => Type::Keyword(*k),
            Type::Lit(l) => Type::Lit(*l),
            Type::This => Type::This,
            Type::Ref { name, type_args } => Type::Ref {
                name: *name,
                type_args: clone_opt_types(type_args),
            },
            Type::Param(p) => Type::Param(p.deep_clone()),
            Type::Array(t) => Type::Array(Box::new(t.deep_clone())),
            Type::Tuple(ts) => Type::Tuple(clone_types(ts)),
            Type::Rest(t) => Type::Rest(Box::new(t.deep_clone())),
            Type::Optional(t) => Type::Optional(Box::new(t.deep_clone())),
            Type::Function(sig) => Type::Function(sig.deep_clone()),
            Type::Constructor(sig) => Type::Constructor(sig.deep_clone()),
            Type::Union(ts) => Type::Union(clone_types(ts)),
            Type::Intersection(ts) => Type::Intersection(clone_types(ts)),
            Type::Interface(i) => Type::Interface(i.deep_clone()),
            Type::TypeLit(es) => Type::TypeLit(clone_elements(es)),
            Type::ClassDef(c) => Type::ClassDef(c.deep_clone()),
            Type::Class(c) => Type::Class(c.deep_clone()),
            Type::Instance(t) => Type::Instance(Box::new(t.deep_clone())),
            Type::IndexedAccess { obj, index } => Type::IndexedAccess {
                obj: Box::new(obj.deep_clone()),
                index: Box::new(index.deep_clone()),
            },
            Type::Predicate { target, ty } => Type::Predicate {
                target: *target,
                ty: clone_opt_type(ty),
            },
            Type::Namespace(n) => Type::Namespace(*n),
        }
    }
}

impl Clone for Pat {
    fn clone(&self) -> (r: Pat)
        ensures
            r@ == self@,
    {
        self.deep_clone()
    }
}

impl Clone for TypeParam {
    fn clone(&self) -> (r: TypeParam)
        ensures
            r@ == self@,
    {
        self.deep_clone()
    }
}

impl Clone for FnParam {
    fn clone(&self) -> (r: FnParam)
        ensures
            r@ == self@,
    {
        self.deep_clone()
    }
}

impl Clone for Signature {
    fn clone(&self) -> (r: Signature)
        ensures
            r@ == self@,
    {
        self.deep_clone()
    }
}

impl Clone for TypeElement {
    fn clone(&self) -> (r: TypeElement)
        ensures
            r@ == self@,
    {
        self.deep_clone()
    }
}

impl Clone for ClassMember {
    fn clone(&self) -> (r: ClassMember)
        ensures
            r@ == self@,
    {
        self.deep_clone()
    }
}

impl Clone for Interface {
    fn clone(&self) -> (r: Interface)
        ensures
            r@ == self@,
    {
        self.deep_clone()
    }
}

impl Clone for ClassDef {
    fn clone(&self) -> (r: ClassDef)
        ensures
            r@ == self@,
    {
        self.deep_clone()
    }
}

impl Clone for Type {
    fn clone(&self) -> (r: Type)
        ensures
            r@ == self@,
    {
        self.deep_clone()
    }
}

impl Clone for TypeOrSpread {
    fn clone(&self) -> (r: TypeOrSpread)
        ensures
            r@ == self@,
    {
        TypeOrSpread { span: self.span, spread: self.spread, ty: self.ty.deep_clone() }
    }
}

impl Clone for CallCandidate {
    fn clone(&self) -> (r: CallCandidate)
        ensures
            r@ == self@,
    {
        CallCandidate {
            type_params: clone_opt_type_params(&self.type_params),
            params: clone_params(&self.params),
            ret_ty: self.ret_ty.deep_clone(),
        }
    }
}

} // verus!
