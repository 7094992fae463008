//! The data the resolver works on: types, signatures, patterns and arguments.
//!
//! Every type here has a mathematical model (see the `model` module); the
//! contracts of the crate are stated over those models.
use vstd::prelude::*;

use crate::span::Span;

verus! {

/// An interned identifier. Two names are the same identifier exactly when
/// the integers are equal.
pub type Name = u64;

/// The primitive and special types.
#[derive(Clone, Copy, Debug, PartialEq, Eq, Structural)]
pub enum Keyword {
    Any,
    Unknown,
    Number,
    String,
    Boolean,
    Symbol,
    BigInt,
    Object,
    Void,
    Undefined,
    Null,
    Never,
}

/// A literal type.
#[derive(Clone, Copy, Debug, PartialEq, Eq, Structural)]
pub enum Lit {
    Str(Name),
    Num(i64),
    Bool(bool),
}

/// A property or method key.
#[derive(Clone, Copy, Debug, PartialEq, Eq, Structural)]
pub struct Key {
    pub name: Name,
    pub private: bool,
}

/// What a type predicate speaks of: the receiver or a named parameter.
#[derive(Clone, Copy, Debug, PartialEq, Eq, Structural)]
pub enum PredicateTarget {
    This,
    Ident(Name),
}

/// Whether a callee is invoked or constructed.
#[derive(Clone, Copy, Debug, PartialEq, Eq, Structural)]
pub enum ExtractKind {
    New,
    Call,
}

/// A binding pattern of a formal parameter.
#[derive(Debug, PartialEq, Eq)]
pub enum Pat {
    Ident { name: Name, optional: bool },
    /// `[a, , b]`; a hole is `None`.
    Array { optional: bool, elems: Vec<Option<Pat>> },
    /// `{ a, b: c, ...d }`, each property given by the pattern it binds.
    Object { optional: bool, props: Vec<Pat> },
    /// `...arg`; `annotated` says whether the pattern carries a type of its own.
    Rest { annotated: bool, arg: Box<Pat> },
    /// `left = default`.
    Assign { left: Box<Pat> },
    Invalid,
    Expr,
}

/// A type parameter declaration.
#[derive(Debug, PartialEq, Eq)]
pub struct TypeParam {
    pub name: Name,
    pub constraint: Option<Box<Type>>,
}

/// A formal parameter.
#[derive(Debug, PartialEq, Eq)]
pub struct FnParam {
    pub pat: Pat,
    pub required: bool,
    pub ty: Type,
}

/// A parameter list with optional type parameters and return type.
#[derive(Debug, PartialEq, Eq)]
pub struct Signature {
    pub type_params: Option<Vec<TypeParam>>,
    pub params: Vec<FnParam>,
    pub ret: Option<Box<Type>>,
}

/// A member of an interface or of a type literal.
#[derive(Debug, PartialEq, Eq)]
pub enum TypeElement {
    Call(Signature),
    Constructor(Signature),
    Method { key: Key, optional: bool, sig: Signature },
    Property { key: Key, optional: bool, ty: Option<Box<Type>> },
    Index,
}

/// A member of a class body.
#[derive(Debug, PartialEq, Eq)]
pub enum ClassMember {
    Constructor(Signature),
    Method { key: Key, is_static: bool, sig: Signature },
    Property { key: Key, is_static: bool, value: Option<Box<Type>> },
    Index,
}

/// An interface declaration.
#[derive(Debug, PartialEq, Eq)]
pub struct Interface {
    pub name: Name,
    pub type_params: Option<Vec<TypeParam>>,
    /// The extended entities, looked up by name.
    pub extends: Vec<Name>,
    pub body: Vec<TypeElement>,
}

/// A class declaration.
#[derive(Debug, PartialEq, Eq)]
pub struct ClassDef {
    pub name: Name,
    pub is_abstract: bool,
    pub type_params: Option<Vec<TypeParam>>,
    pub super_class: Option<Box<Type>>,
    pub body: Vec<ClassMember>,
}

/// A type of the checked language.
#[derive(Debug, PartialEq, Eq)]
pub enum Type {
    Keyword(Keyword),
    Lit(Lit),
    This,
    Ref { name: Name, type_args: Option<Vec<Type>> },
    Param(TypeParam),
    Array(Box<Type>),
    Tuple(Vec<Type>),
    /// An open-ended tail inside a tuple.
    Rest(Box<Type>),
    /// An optional element inside a tuple.
    Optional(Box<Type>),
    Function(Signature),
    Constructor(Signature),
    Union(Vec<Type>),
    Intersection(Vec<Type>),
    Interface(Interface),
    TypeLit(Vec<TypeElement>),
    /// A class as a value: its constructor side.
    ClassDef(ClassDef),
    /// An instance of a class.
    Class(ClassDef),
    Instance(Box<Type>),
    IndexedAccess { obj: Box<Type>, index: Box<Type> },
    Predicate { target: PredicateTarget, ty: Option<Box<Type>> },
    Namespace(Name),
}

/// The type of one argument, with the position of its spread operator if it
/// has one.
#[derive(Debug, PartialEq, Eq)]
pub struct TypeOrSpread {
    pub span: Span,
    pub spread: Option<Span>,
    pub ty: Type,
}

/// What the resolver reads of an argument expression.
#[derive(Clone, Debug, PartialEq, Eq)]
pub enum ArgExpr {
    /// A plain identifier.
    Ident(Name),
    /// An inline function or arrow literal. For each of its parameters,
    /// whether it was written without a type and so got `any`.
    Function { implicit_any: Vec<bool> },
    Other,
}

/// An argument at the call site: its expression, and the type that the
/// expression was found to have.
#[derive(Clone, Debug, PartialEq, Eq)]
pub struct Arg {
    /// The position of the expression.
    pub span: Span,
    pub spread: Option<Span>,
    pub expr: ArgExpr,
    pub ty: Type,
}

/// One signature under consideration for a call.
#[derive(Debug, PartialEq, Eq)]
pub struct CallCandidate {
    pub type_params: Option<Vec<TypeParam>>,
    pub params: Vec<FnParam>,
    pub ret_ty: Type,
}

} // verus!
