//! Mathematical models of the data types: the same shapes with sequences in
//! place of vectors. `x@` is the model of `x`.
use vstd::prelude::*;

use crate::span::Span;
use crate::types::{
    Arg, ArgExpr, CallCandidate, ClassDef, ClassMember, FnParam, Interface, Key, Keyword, Lit, Name,
    Pat, PredicateTarget, Signature, Type, TypeElement, TypeOrSpread, TypeParam,
};

verus! {

/// The model of [`Pat`].
pub enum SpecPat {
    Ident { name: Name, optional: bool },
    Array { optional: bool, elems: Seq<Option<SpecPat>> },
    Object { optional: bool, props: Seq<SpecPat> },
    Rest { annotated: bool, arg: Box<SpecPat> },
    Assign { left: Box<SpecPat> },
    Invalid,
    Expr,
}

/// The model of [`TypeParam`].
pub struct SpecTypeParam {
    pub name: Name,
    pub constraint: Option<Box<SpecType>>,
}

/// The model of [`FnParam`].
pub struct SpecFnParam {
    pub pat: SpecPat,
    pub required: bool,
    pub ty: SpecType,
}

/// The model of [`Signature`].
pub struct SpecSignature {
    pub type_params: Option<Seq<SpecTypeParam>>,
    pub params: Seq<SpecFnParam>,
    pub ret: Option<Box<SpecType>>,
}

/// The model of [`TypeElement`].
pub enum SpecTypeElement {
    Call(SpecSignature),
    Constructor(SpecSignature),
    Method { key: Key, optional: bool, sig: SpecSignature },
    Property { key: Key, optional: bool, ty: Option<Box<SpecType>> },
    Index,
}

/// The model of [`ClassMember`].
pub enum SpecClassMember {
    Constructor(SpecSignature),
    Method { key: Key, is_static: bool, sig: SpecSignature },
    Property { key: Key, is_static: bool, value: Option<Box<SpecType>> },
    Index,
}

/// The model of [`Interface`].
pub struct SpecInterface {
    pub name: Name,
    pub type_params: Option<Seq<SpecTypeParam>>,
    pub extends: Seq<Name>,
    pub body: Seq<SpecTypeElement>,
}

/// The model of [`ClassDef`].
pub struct SpecClassDef {
    pub name: Name,
    pub is_abstract: bool,
    pub type_params: Option<Seq<SpecTypeParam>>,
    pub super_class: Option<Box<SpecType>>,
    pub body: Seq<SpecClassMember>,
}

/// The model of [`Type`].
pub enum SpecType {
    Keyword(Keyword),
    Lit(Lit),
    This,
    Ref { name: Name, type_args: Option<Seq<SpecType>> },
    Param(SpecTypeParam),
    Array(Box<SpecType>),
    Tuple(Seq<SpecType>),
    Rest(Box<SpecType>),
    Optional(Box<SpecType>),
    Function(SpecSignature),
    Constructor(SpecSignature),
    Union(Seq<SpecType>),
    Intersection(Seq<SpecType>),
    Interface(SpecInterface),
    TypeLit(Seq<SpecTypeElement>),
    ClassDef(SpecClassDef),
    Class(SpecClassDef),
    Instance(Box<SpecType>),
    IndexedAccess { obj: Box<SpecType>, index: Box<SpecType> },
    Predicate { target: PredicateTarget, ty: Option<Box<SpecType>> },
    Namespace(Name),
}

/// The model of [`TypeOrSpread`].
pub struct SpecTypeOrSpread {
    pub span: Span,
    pub spread: Option<Span>,
    pub ty: SpecType,
}

/// The model of [`ArgExpr`].
pub enum SpecArgExpr {
    Ident(Name),
    Function { implicit_any: Seq<bool> },
    Other,
}

/// The model of [`Arg`].
pub struct SpecArg {
    pub span: Span,
    pub spread: Option<Span>,
    pub expr: SpecArgExpr,
    pub ty: SpecType,
}

/// The model of [`CallCandidate`].
pub struct SpecCandidate {
    pub type_params: Option<Seq<SpecTypeParam>>,
    pub params: Seq<SpecFnParam>,
    pub ret_ty: SpecType,
}

/// The `any` type.
pub open spec fn any() -> SpecType {
    SpecType::Keyword(Keyword::Any)
}

/// The `unknown` type.
pub open spec fn unknown() -> SpecType {
    SpecType::Keyword(Keyword::Unknown)
}

/// The model of the value, if there is one.
pub open spec fn opt_pat_model(p: Option<Pat>) -> Option<SpecPat>
    decreases p,
{
    match p {
        Some(p) => Some(p.model()),
        None => None,
    }
}

/// The models of the elements, if there is a list.
pub open spec fn opt_pats_model(ps: Vec<Option<Pat>>) -> Seq<Option<SpecPat>>
    decreases ps,
{
    Seq::new(ps.len() as nat, |i: int| if 0 <= i < ps.len() { opt_pat_model(ps[i]) } else { None })
}

/// The models of the elements, in order.
pub open spec fn pats_model(ps: Vec<Pat>) -> Seq<SpecPat>
    decreases ps,
{
    Seq::new(
        ps.len() as nat,
        |i: int| if 0 <= i < ps.len() { ps[i].model() } else { SpecPat::Invalid },
    )
}

impl Pat {
    /// The mathematical model of the value.
    pub open spec fn model(self) -> SpecPat
        decreases self,
    {
        match self {
            Pat::Ident { name, optional } => SpecPat::Ident { name, optional },
            Pat::Array { optional, elems } => SpecPat::Array { optional, elems: opt_pats_model(elems) },
            Pat::Object { optional, props } => SpecPat::Object { optional, props: pats_model(props) },
            Pat::Rest { annotated, arg } => SpecPat::Rest { annotated, arg: Box::new(arg.model()) },
            Pat::Assign { left } => SpecPat::Assign { left: Box::new(left.model()) },
            Pat::Invalid => SpecPat::Invalid,
            Pat::Expr => SpecPat::Expr,
        }
    }
}

/// The model of the value, if there is one.
pub open spec fn opt_type_model(t: Option<Box<Type>>) -> Option<Box<SpecType>>
    decreases t,
{
    match t {
        Some(t) => Some(Box::new(t.model())),
        None => None,
    }
}

/// The models of the elements, in order.
pub open spec fn types_model(ts: Vec<Type>) -> Seq<SpecType>
    decreases ts,
{
    Seq::new(
        ts.len() as nat,
        |i: int| if 0 <= i < ts.len() { ts[i].model() } else { SpecType::This },
    )
}

/// The models of the elements, if there is a list.
pub open spec fn opt_types_model(ts: Option<Vec<Type>>) -> Option<Seq<SpecType>>
    decreases ts,
{
    match ts {
        Some(ts) => Some(types_model(ts)),
        None => None,
    }
}

/// The models of the elements, in order.
pub open spec fn type_params_model(ps: Vec<TypeParam>) -> Seq<SpecTypeParam>
    decreases ps,
{
    Seq::new(
        ps.len() as nat,
        |i: int|
            if 0 <= i < ps.len() {
                ps[i].model()
            } else {
                SpecTypeParam { name: 0, constraint: None }
            },
    )
}

/// The models of the elements, if there is a list.
pub open spec fn opt_type_params_model(ps: Option<Vec<TypeParam>>) -> Option<Seq<SpecTypeParam>>
    decreases ps,
{
    match ps {
        Some(ps) => Some(type_params_model(ps)),
        None => None,
    }
}

/// The models of the elements, in order.
pub open spec fn params_model(ps: Vec<FnParam>) -> Seq<SpecFnParam>
    decreases ps,
{
    Seq::new(
        ps.len() as nat,
        |i: int|
            if 0 <= i < ps.len() {
                ps[i].model()
            } else {
                SpecFnParam { pat: SpecPat::Invalid, required: false, ty: SpecType::This }
            },
    )
}

/// The models of the elements, in order.
pub open spec fn elements_model(es: Vec<TypeElement>) -> Seq<SpecTypeElement>
    decreases es,
{
    Seq::new(
        es.len() as nat,
        |i: int| if 0 <= i < es.len() { es[i].model() } else { SpecTypeElement::Index },
    )
}

/// The models of the elements, in order.
pub open spec fn members_model(ms: Vec<ClassMember>) -> Seq<SpecClassMember>
    decreases ms,
{
    Seq::new(
        ms.len() as nat,
        |i: int| if 0 <= i < ms.len() { ms[i].model() } else { SpecClassMember::Index },
    )
}

impl TypeParam {
    /// The mathematical model of the value.
    pub open spec fn model(self) -> SpecTypeParam
        decreases self,
    {
        SpecTypeParam { name: self.name, constraint: opt_type_model(self.constraint) }
    }
}

impl FnParam {
    /// The mathematical model of the value.
    pub open spec fn model(self) -> SpecFnParam
        decreases self,
    {
        SpecFnParam { pat: self.pat.model(), required: self.required, ty: self.ty.model() }
    }
}

impl Signature {
    /// The mathematical model of the value.
    pub open spec fn model(self) -> SpecSignature
        decreases self,
    {
        SpecSignature {
            type_params: opt_type_params_model(self.type_params),
            params: params_model(self.params),
            ret: opt_type_model(self.ret),
        }
    }
}

impl TypeElement {
    /// The mathematical model of the value.
    pub open spec fn model(self) -> SpecTypeElement
        decreases self,
    {
        match self {
            TypeElement::Call(sig) => SpecTypeElement::Call(sig.model()),
            TypeElement::Constructor(sig) => SpecTypeElement::Constructor(sig.model()),
            TypeElement::Method { key, optional, sig } => SpecTypeElement::Method {
                key,
                optional,
                sig: sig.model(),
            },
            TypeElement::Property { key, optional, ty } => SpecTypeElement::Property {
                key,
                optional,
                ty: opt_type_model(ty),
            },
            TypeElement::Index => SpecTypeElement::Index,
        }
    }
}

impl ClassMember {
    /// The mathematical model of the value.
    pub open spec fn model(self) -> SpecClassMember
        decreases self,
    {
        match self {
            ClassMember::Constructor(sig) => SpecClassMember::Constructor(sig.model()),
            ClassMember::Method { key, is_static, sig } => SpecClassMember::Method {
                key,
                is_static,
                sig: sig.model(),
            },
            ClassMember::Property { key, is_static, value } => SpecClassMember::Property {
                key,
                is_static,
                value: opt_type_model(value),
            },
            ClassMember::Index => SpecClassMember::Index,
        }
    }
}

impl Interface {
    /// The mathematical model of the value.
    pub open spec fn model(self) -> SpecInterface
        decreases self,
    {
        SpecInterface {
            name: self.name,
            type_params: opt_type_params_model(self.type_params),
            extends: self.extends@,
            body: elements_model(self.body),
        }
    }
}

impl ClassDef {
    /// The mathematical model of the value.
    pub open spec fn model(self) -> SpecClassDef
        decreases self,
    {
        SpecClassDef {
            name: self.name,
            is_abstract: self.is_abstract,
            type_params: opt_type_params_model(self.type_params),
            super_class: opt_type_model(self.super_class),
            body: members_model(self.body),
        }
    }
}

impl Type {
    /// The mathematical model of the value.
    pub open spec fn model(self) -> SpecType
        decreases self,
    {
        match self {
            Type::Keyword(k) => SpecType::Keyword(k),
            Type::Lit(l) => SpecType::Lit(l),
            Type::This => SpecType::This,
            Type::Ref { name, type_args } => SpecType::Ref { name, type_args: opt_types_model(type_args) },
            Type::Param(p) => SpecType::Param(p.model()),
            Type::Array(t) => SpecType::Array(Box::new(t.model())),
            Type::Tuple(ts) => SpecType::Tuple(types_model(ts)),
            Type::Rest(t) => SpecType::Rest(Box::new(t.model())),
            Type::Optional(t) => SpecType::Optional(Box::new(t.model())),
            Type::Function(sig) => SpecType::Function(sig.model()),
            Type::Constructor(sig) => SpecType::Constructor(sig.model()),
            Type::Union(ts) => SpecType::Union(types_model(ts)),
            Type::Intersection(ts) => SpecType::Intersection(types_model(ts)),
            Type::Interface(i) => SpecType::Interface(i.model()),
            Type::TypeLit(es) => SpecType::TypeLit(elements_model(es)),
            Type::ClassDef(c) => SpecType::ClassDef(c.model()),
            Type::Class(c) => SpecType::Class(c.model()),
            Type::Instance(t) => SpecType::Instance(Box::new(t.model())),
            Type::IndexedAccess { obj, index } => SpecType::IndexedAccess {
                obj: Box::new(obj.model()),
                index: Box::new(index.model()),
            },
            Type::Predicate { target, ty } => SpecType::Predicate { target, ty: opt_type_model(ty) },
            Type::Namespace(n) => SpecType::Namespace(n),
        }
    }
}

/// The models of the entries, in order.
pub open spec fn args_model(args: Vec<TypeOrSpread>) -> Seq<SpecTypeOrSpread> {
    Seq::new(
        args.len() as nat,
        |i: int| SpecTypeOrSpread { span: args[i].span, spread: args[i].spread, ty: args[i].ty.model() },
    )
}

/// The models of the arguments, in order.
pub open spec fn call_args_model(args: Vec<Arg>) -> Seq<SpecArg> {
    Seq::new(args.len() as nat, |i: int| args[i]@)
}

/// The models of the candidates, in order.
pub open spec fn candidates_model(cs: Vec<CallCandidate>) -> Seq<SpecCandidate> {
    Seq::new(cs.len() as nat, |i: int| cs[i]@)
}

impl View for Pat {
    type V = SpecPat;

    open spec fn view(&self) -> SpecPat {
        self.model()
    }
}

impl View for TypeParam {
    type V = SpecTypeParam;

    open spec fn view(&self) -> SpecTypeParam {
        self.model()
    }
}

impl View for FnParam {
    type V = SpecFnParam;

    open spec fn view(&self) -> SpecFnParam {
        self.model()
    }
}

impl View for Signature {
    type V = SpecSignature;

    open spec fn view(&self) -> SpecSignature {
        self.model()
    }
}

impl View for TypeElement {
    type V = SpecTypeElement;

    open spec fn view(&self) -> SpecTypeElement {
        self.model()
    }
}

impl View for ClassMember {
    type V = SpecClassMember;

    open spec fn view(&self) -> SpecClassMember {
        self.model()
    }
}

impl View for Interface {
    type V = SpecInterface;

    open spec fn view(&self) -> SpecInterface {
        self.model()
    }
}

impl View for ClassDef {
    type V = SpecClassDef;

    open spec fn view(&self) -> SpecClassDef {
        self.model()
    }
}

impl View for Type {
    type V = SpecType;

    open spec fn view(&self) -> SpecType {
        self.model()
    }
}

impl View for TypeOrSpread {
    type V = SpecTypeOrSpread;

    open spec fn view(&self) -> SpecTypeOrSpread {
        SpecTypeOrSpread { span: self.span, spread: self.spread, ty: self.ty.model() }
    }
}

impl View for ArgExpr {
    type V = SpecArgExpr;

    open spec fn view(&self) -> SpecArgExpr {
        match self {
            ArgExpr::Ident(n) => SpecArgExpr::Ident(*n),
            ArgExpr::Function { implicit_any } => SpecArgExpr::Function {
                implicit_any: implicit_any@,
            },
            ArgExpr::Other => SpecArgExpr::Other,
        }
    }
}

impl View for Arg {
    type V = SpecArg;

    open spec fn view(&self) -> SpecArg {
        SpecArg { span: self.span, spread: self.spread, expr: self.expr@, ty: self.ty.model() }
    }
}

impl View for CallCandidate {
    type V = SpecCandidate;

    open spec fn view(&self) -> SpecCandidate {
        SpecCandidate {
            type_params: opt_type_params_model(self.type_params),
            params: params_model(self.params),
            ret_ty: self.ret_ty.model(),
        }
    }
}

} // verus!
