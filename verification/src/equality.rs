//! Structural equality: two values are the same when their models are equal.
use vstd::prelude::*;

use crate::model::{
    elements_model, members_model, opt_pat_model, opt_pats_model, opt_type_model,
    opt_type_params_model, opt_types_model, params_model, pats_model, type_params_model,
    types_model,
};
use crate::types::{
    ClassDef, ClassMember, FnParam, Interface, Pat, Signature, Type, TypeElement, TypeParam,
};

verus! {

/// Whether the two have the same model, element by element.
pub fn same_types(a: &Vec<Type>, b: &Vec<Type>) -> (r: bool)
    ensures
        r == (types_model(*a) == types_model(*b)),
    decreases a,
{
    if a.len() != b.len() {
        assert(types_model(*a).len() != types_model(*b).len());
        return false;
    }
    let mut i: usize = 0;
    while i < a.len()
        invariant
            i <= a.len(),
            a.len() == b.len(),
            forall|j: int| 0 <= j < i ==> a[j].model() == b[j].model(),
        decreases a.len() - i,
    {
        if !a[i].same(&b[i]) {
            assert(types_model(*a)[i as int] != types_model(*b)[i as int]);
            return false;
        }
        i += 1;
    }
    assert(types_model(*a) =~= types_model(*b));
    true
}

/// Whether the two have the same model, element by element.
pub fn same_type_params(a: &Vec<TypeParam>, b: &Vec<TypeParam>) -> (r: bool)
    ensures
        r == (type_params_model(*a) == type_params_model(*b)),
    decreases a,
{
    if a.len() != b.len() {
        assert(type_params_model(*a).len() != type_params_model(*b).len());
        return false;
    }
    let mut i: usize = 0;
    while i < a.len()
        invariant
            i <= a.len(),
            a.len() == b.len(),
            forall|j: int| 0 <= j < i ==> a[j].model() == b[j].model(),
        decreases a.len() - i,
    {
        if !a[i].same(&b[i]) {
            assert(type_params_model(*a)[i as int] != type_params_model(*b)[i as int]);
            return false;
        }
        i += 1;
    }
    assert(type_params_model(*a) =~= type_params_model(*b));
    true
}

/// Whether the two have the same model, element by element.
pub fn same_params(a: &Vec<FnParam>, b: &Vec<FnParam>) -> (r: bool)
    ensures
        r == (params_model(*a) == params_model(*b)),
    decreases a,
{
    if a.len() != b.len() {
        assert(params_model(*a).len() != params_model(*b).len());
        return false;
    }
    let mut i: usize = 0;
    while i < a.len()
        invariant
            i <= a.len(),
            a.len() == b.len(),
            forall|j: int| 0 <= j < i ==> a[j].model() == b[j].model(),
        decreases a.len() - i,
    {
        if !a[i].same(&b[i]) {
            assert(params_model(*a)[i as int] != params_model(*b)[i as int]);
            return false;
        }
        i += 1;
    }
    assert(params_model(*a) =~= params_model(*b));
    true
}

/// Whether the two have the same model, element by element.
pub fn same_elements(a: &Vec<TypeElement>, b: &Vec<TypeElement>) -> (r: bool)
    ensures
        r == (elements_model(*a) == elements_model(*b)),
    decreases a,
{
    if a.len() != b.len() {
        assert(elements_model(*a).len() != elements_model(*b).len());
        return false;
    }
    let mut i: usize = 0;
    while i < a.len()
        invariant
            i <= a.len(),
            a.len() == b.len(),
            forall|j: int| 0 <= j < i ==> a[j].model() == b[j].model(),
        decreases a.len() - i,
    {
        if !a[i].same(&b[i]) {
            assert(elements_model(*a)[i as int] != elements_model(*b)[i as int]);
            return false;
        }
        i += 1;
    }
    assert(elements_model(*a) =~= elements_model(*b));
    true
}

/// Whether the two have the same model, element by element.
pub fn same_members(a: &Vec<ClassMember>, b: &Vec<ClassMember>) -> (r: bool)
    ensures
        r == (members_model(*a) == members_model(*b)),
    decreases a,
{
    if a.len() != b.len() {
        assert(members_model(*a).len() != members_model(*b).len());
        return false;
    }
    let mut i: usize = 0;
    while i < a.len()
        invariant
            i <= a.len(),
            a.len() == b.len(),
            forall|j: int| 0 <= j < i ==> a[j].model() == b[j].model(),
        decreases a.len() - i,
    {
        if !a[i].same(&b[i]) {
            assert(members_model(*a)[i as int] != members_model(*b)[i as int]);
            return false;
        }
        i += 1;
    }
    assert(members_model(*a) =~= members_model(*b));
    true
}

/// Whether the two have the same model, element by element.
pub fn same_pats(a: &Vec<Pat>, b: &Vec<Pat>) -> (r: bool)
    ensures
        r == (pats_model(*a) == pats_model(*b)),
    decreases a,
{
    if a.len() != b.len() {
        assert(pats_model(*a).len() != pats_model(*b).len());
        return false;
    }
    let mut i: usize = 0;
    while i < a.len()
        invariant
            i <= a.len(),
            a.len() == b.len(),
            forall|j: int| 0 <= j < i ==> a[j].model() == b[j].model(),
        decreases a.len() - i,
    {
        if !a[i].same(&b[i]) {
            assert(pats_model(*a)[i as int] != pats_model(*b)[i as int]);
            return false;
        }
        i += 1;
    }
    assert(pats_model(*a) =~= pats_model(*b));
    true
}

/// Whether the two have the same model, element by element.
pub fn same_opt_pat(a: &Option<Pat>, b: &Option<Pat>) -> (r: bool)
    ensures
        r == (opt_pat_model(*a) == opt_pat_model(*b)),
    decreases a,
{
    match (a, b) {
        (Some(x), Some(y)) => x.same(y),
        (None, None) => true,
        _ => false,
    }
}

/// Whether the two have the same model, element by element.
pub fn same_opt_pats(a: &Vec<Option<Pat>>, b: &Vec<Option<Pat>>) -> (r: bool)
    ensures
        r == (opt_pats_model(*a) == opt_pats_model(*b)),
    decreases a,
{
    if a.len() != b.len() {
        assert(opt_pats_model(*a).len() != opt_pats_model(*b).len());
        return false;
    }
    let mut i: usize = 0;
    while i < a.len()
        invariant
            i <= a.len(),
            a.len() == b.len(),
            forall|j: int| 0 <= j < i ==> opt_pat_model(a[j]) == opt_pat_model(b[j]),
        decreases a.len() - i,
    {
        if !same_opt_pat(&a[i], &b[i]) {
            assert(opt_pats_model(*a)[i as int] != opt_pats_model(*b)[i as int]);
            return false;
        }
        i += 1;
    }
    assert(opt_pats_model(*a) =~= opt_pats_model(*b));
    true
}

/// Whether the two have the same model, element by element.
pub fn same_opt_type(a: &Option<Box<Type>>, b: &Option<Box<Type>>) -> (r: bool)
    ensures
        r == (opt_type_model(*a) == opt_type_model(*b)),
    decreases a,
{
    match (a, b) {
        (Some(x), Some(y)) => x.same(y),
        (None, None) => true,
        _ => false,
    }
}

/// Whether the two have the same model, element by element.
pub fn same_opt_types(a: &Option<Vec<Type>>, b: &Option<Vec<Type>>) -> (r: bool)
    ensures
        r == (opt_types_model(*a) == opt_types_model(*b)),
    decreases a,
{
    match (a, b) {
        (Some(x), Some(y)) => same_types(x, y),
        (None, None) => true,
        _ => false,
    }
}

/// Whether the two have the same model, element by element.
pub fn same_opt_type_params(a: &Option<Vec<TypeParam>>, b: &Option<Vec<TypeParam>>) -> (r: bool)
    ensures
        r == (opt_type_params_model(*a) == opt_type_params_model(*b)),
    decreases a,
{
    match (a, b) {
        (Some(x), Some(y)) => same_type_params(x, y),
        (None, None) => true,
        _ => false,
    }
}

/// Whether the two have the same model, element by element.
pub fn same_names(a: &Vec<u64>, b: &Vec<u64>) -> (r: bool)
    ensures
        r == (a@ == b@),
{
    if a.len() != b.len() {
        return false;
    }
    let mut i: usize = 0;
    while i < a.len()
        invariant
            i <= a.len(),
            a.len() == b.len(),
            forall|j: int| 0 <= j < i ==> a[j] == b[j],
        decreases a.len() - i,
    {
        if a[i] != b[i] {
            return false;
        }
        i += 1;
    }
    assert(a@ =~= b@);
    true
}

impl Pat {
    /// Whether the two have the same model.
    pub fn same(&self, other: &Pat) -> (r: bool)
        ensures
            r == (self.model() == other.model()),
        decreases self,
    {
        match (self, other) {
            (Pat::Ident { name: n1, optional: o1 }, Pat::Ident { name: n2, optional: o2 }) => {
                *n1 == *n2 && *o1 == *o2
            },
            (Pat::Array { optional: o1, elems: e1 }, Pat::Array { optional: o2, elems: e2 }) => {
                *o1 == *o2 && same_opt_pats(e1, e2)
            },
            (Pat::Object { optional: o1, props: p1 }, Pat::Object { optional: o2, props: p2 }) => {
                *o1 == *o2 && same_pats(p1, p2)
            },
            (Pat::Rest { annotated: a1, arg: g1 }, Pat::Rest { annotated: a2, arg: g2 }) => {
                *a1 == *a2 && g1.same(g2)
            },
            (Pat::Assign { left: l1 }, Pat::Assign { left: l2 }) => l1.same(l2),
            (Pat::Invalid, Pat::Invalid) => true,
            (Pat::Expr, Pat::Expr) => true,
            _ => false,
        }
    }
}

impl TypeParam {
    /// Whether the two have the same model.
    pub fn same(&self, other: &TypeParam) -> (r: bool)
        ensures
            r == (self.model() == other.model()),
        decreases self,
    {
        self.name == other.name && same_opt_type(&self.constraint, &other.constraint)
    }
}

impl FnParam {
    /// Whether the two have the same model.
    pub fn same(&self, other: &FnParam) -> (r: bool)
        ensures
            r == (self.model() == other.model()),
        decreases self,
    {
        self.required == other.required && self.pat.same(&other.pat) && self.ty.same(&other.ty)
    }
}

impl Signature {
    /// Whether the two have the same model.
    pub fn same(&self, other: &Signature) -> (r: bool)
        ensures
            r == (self.model() == other.model()),
        decreases self,
    {
        same_opt_type_params(&self.type_params, &other.type_params) && same_params(
            &self.params,
            &other.params,
        ) && same_opt_type(&self.ret, &other.ret)
    }
}

impl TypeElement {
    /// Whether the two have the same model.
    pub fn same(&self, other: &TypeElement) -> (r: bool)
        ensures
            r == (self.model() == other.model()),
        decreases self,
    {
        match (self, other) {
            (TypeElement::Call(a), TypeElement::Call(b)) => a.same(b),
            (TypeElement::Constructor(a), TypeElement::Constructor(b)) => a.same(b),
            (
                TypeElement::Method { key: k1, optional: o1, sig: s1 },
                TypeElement::Method { key: k2, optional: o2, sig: s2 },
            ) => *k1 == *k2 && *o1 == *o2 && s1.same(s2),
            (
                TypeElement::Property { key: k1, optional: o1, ty: t1 },
                TypeElement::Property { key: k2, optional: o2, ty: t2 },
            ) => *k1 == *k2 && *o1 == *o2 && same_opt_type(t1, t2),
            (TypeElement::Index, TypeElement::Index) => true,
            _ => false,
        }
    }
}

impl ClassMember {
    /// Whether the two have the same model.
    pub fn same(&self, other: &ClassMember) -> (r: bool)
        ensures
            r == (self.model() == other.model()),
        decreases self,
    {
        match (self, other) {
            (ClassMember::Constructor(a), ClassMember::Constructor(b)) => a.same(b),
            (
                ClassMember::Method { key: k1, is_static: o1, sig: s1 },
                ClassMember::Method { key: k2, is_static: o2, sig: s2 },
            ) => *k1 == *k2 && *o1 == *o2 && s1.same(s2),
            (
                ClassMember::Property { key: k1, is_static: o1, value: t1 },
                ClassMember::Property { key: k2, is_static: o2, value: t2 },
            ) => *k1 == *k2 && *o1 == *o2 && same_opt_type(t1, t2),
            (ClassMember::Index, ClassMember::Index) => true,
            _ => false,
        }
    }
}

impl Interface {
    /// Whether the two have the same model.
    pub fn same(&self, other: &Interface) -> (r: bool)
        ensures
            r == (self.model() == other.model()),
        decreases self,
    {
        self.name == other.name && same_opt_type_params(&self.type_params, &other.type_params)
            && same_names(&self.extends, &other.extends) && same_elements(&self.body, &other.body)
    }
}

impl ClassDef {
    /// Whether the two have the same model.
    pub fn same(&self, other: &ClassDef) -> (r: bool)
        ensures
            r == (self.model() == other.model()),
        decreases self,
    {
        self.name == other.name && self.is_abstract == other.is_abstract && same_opt_type_params(
            &self.type_params,
            &other.type_params,
        ) && same_opt_type(&self.super_class, &other.super_class) && same_members(
            &self.body,
            &other.body,
        )
    }
}

impl Type {
    /// Structural equality of two types.
    pub fn same(&self, other: &Type) -> (r: bool)
        ensures
            r == (self.model() == other.model()),
        decreases self,
    {
        match (self, other) {
            (Type::Keyword(a), Type::Keyword(b)) => *a == *b,
            (Type::Lit(a), Type::Lit(b)) => *a == *b,
            (Type::This, Type::This) => true,
            (Type::Ref { name: n1, type_args: a1 }, Type::Ref { name: n2, type_args: a2 }) => {
                *n1 == *n2 && same_opt_types(a1, a2)
            },
            (Type::Param(a), Type::Param(b)) => a.same(b),
            (Type::Array(a), Type::Array(b)) => a.same(b),
            (Type::Tuple(a), Type::Tuple(b)) => same_types(a, b),
            (Type::Rest(a), Type::Rest(b)) => a.same(b),
            (Type::Optional(a), Type::Optional(b)) => a.same(b),
            (Type::Function(a), Type::Function(b)) => a.same(b),
            (Type::Constructor(a), Type::Constructor(b)) => a.same(b),
            (Type::Union(a), Type::Union(b)) => same_types(a, b),
            (Type::Intersection(a), Type::Intersection(b)) => same_types(a, b),
            (Type::Interface(a), Type::Interface(b)) => a.same(b),
            (Type::TypeLit(a), Type::TypeLit(b)) => same_elements(a, b),
            (Type::ClassDef(a), Type::ClassDef(b)) => a.same(b),
            (Type::Class(a), Type::Class(b)) => a.same(b),
            (Type::Instance(a), Type::Instance(b)) => a.same(b),
            (
                Type::IndexedAccess { obj: o1, index: i1 },
                Type::IndexedAccess { obj: o2, index: i2 },
            ) => o1.same(o2) && i1.same(i2),
            (
                Type::Predicate { target: t1, ty: y1 },
                Type::Predicate { target: t2, ty: y2 },
            ) => *t1 == *t2 && same_opt_type(y1, y2),
            (Type::Namespace(a), Type::Namespace(b)) => *a == *b,
            _ => false,
        }
    }
}

} // verus!
