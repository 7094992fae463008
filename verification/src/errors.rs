//! Diagnostics.
use vstd::prelude::*;

use crate::span::Span;
use crate::types::Key;

verus! {

/// Why one type could not be assigned to another, as the type relations
/// report it. The resolver passes it on without reading it.
#[derive(Clone, Copy, Debug, PartialEq, Eq, Structural)]
pub struct AssignFailure {
    pub code: u32,
}

/// Why a type yields no elements when iterated.
#[derive(Clone, Copy, Debug, PartialEq, Eq, Structural)]
pub enum IterFailure {
    /// The type has no `Symbol.iterator` member that returns an iterator.
    MustHaveSymbolIterator,
    Other,
}

/// What can be wrong with a call.
#[derive(Clone, Copy, Debug, PartialEq, Eq, Structural)]
pub enum ErrorKind {
    NoCallSignature { span: Span },
    NoNewSignature { span: Span },
    NoCallablePropertyWithName { span: Span, key: Key },
    NoConstructablePropertyWithName { span: Span, key: Key },
    NoSuchConstructor { span: Span, key: Key },
    NoSuchProperty { span: Span, key: Key },
    NoMatchingOverload { span: Span },
    ExpectedNArgsButGotM { span: Span, min: u128, max: u128 },
    ExpectedAtLeastNArgsButGotM { span: Span, min: u128 },
    ExpectedAtLeastNArgsButGotMOrMore { span: Span, min: u128 },
    TypeParameterCountMismatch { span: Span, min: u128, max: u128, actual: usize },
    WrongArgType { span: Span, inner: AssignFailure },
    SpreadMustBeTupleOrPassedToRest { span: Span },
    CannotCreateInstanceOfAbstractClass { span: Span },
    TargetLacksConstructSignature { span: Span },
    AnyTypeUsedAsCalleeWithTypeArgs { span: Span },
    NotSatisfyConstraint { span: Span },
    CannotCallWithNewNonVoidFunction { span: Span },
    /// A spread argument is not iterable: it has no `Symbol.iterator`.
    MustHaveSymbolIterator { span: Span },
    /// A spread argument is not iterable for another reason.
    NotIterable { span: Span },
    /// The callee has type `unknown`.
    Unknown { span: Span },
    /// A chain of references, parents or super classes is longer than the
    /// environment allows.
    TooDeep { span: Span },
}

} // verus!
