//! What the resolver asks of the rest of the type system: assignability,
//! subtyping, inference of type arguments, iteration and member lookup.
use vstd::prelude::*;

use crate::errors::{AssignFailure, IterFailure};
use crate::model::{
    args_model, opt_types_model, params_model, type_params_model, SpecFnParam, SpecType,
    SpecTypeOrSpread, SpecTypeParam,
};
use crate::subst::{Inference, SpecInference, TypeMap};
use crate::types::{FnParam, Key, Name, Type, TypeOrSpread, TypeParam};

verus! {

/// How an unknown property on the right-hand side is treated.
#[derive(Clone, Copy, Debug, PartialEq, Eq, Structural)]
pub enum UnknownRhs {
    Default,
    Allow,
    Deny,
}

/// The switches of one assignability question.
#[derive(Clone, Copy, Debug, PartialEq, Eq, Structural)]
pub struct AssignOpts {
    pub allow_unknown_rhs: UnknownRhs,
    pub allow_assignment_to_param: bool,
    pub allow_assignment_to_param_constraint: bool,
    pub allow_iterable_on_rhs: bool,
    pub use_missing_fields_for_class: bool,
}

impl AssignOpts {
    /// All switches off.
    pub open spec fn plain() -> AssignOpts {
        AssignOpts {
            allow_unknown_rhs: UnknownRhs::Default,
            allow_assignment_to_param: false,
            allow_assignment_to_param_constraint: false,
            allow_iterable_on_rhs: false,
            use_missing_fields_for_class: false,
        }
    }

    /// All switches off.
    pub fn new() -> (r: AssignOpts)
        ensures
            r == AssignOpts::plain(),
    {
        AssignOpts {
            allow_unknown_rhs: UnknownRhs::Default,
            allow_assignment_to_param: false,
            allow_assignment_to_param_constraint: false,
            allow_iterable_on_rhs: false,
            use_missing_fields_for_class: false,
        }
    }
}

/// The questions about types that call resolution cannot answer by itself.
/// Each answer is a function of the question alone.
pub trait TypeRelations {
    /// Whether a value of type `from` may be stored where `to` is expected.
    spec fn assignable(
        &self,
        to: SpecType,
        from: SpecType,
        opts: AssignOpts,
    ) -> Result<(), AssignFailure>;

    fn assign(&self, to: &Type, from: &Type, opts: AssignOpts) -> (r: Result<(), AssignFailure>)
        ensures
            r == self.assignable(to@, from@, opts),
    ;

    /// Whether `child` extends `parent`; `None` where that is not decided.
    spec fn extends_spec(&self, child: SpecType, parent: SpecType) -> Option<bool>;

    fn extends(&self, child: &Type, parent: &Type) -> (r: Option<bool>)
        ensures
            r == self.extends_spec(child@, parent@),
    ;

    /// The type arguments that the argument types determine.
    spec fn inferred(
        &self,
        type_args: Option<Seq<SpecType>>,
        type_params: Seq<SpecTypeParam>,
        params: Seq<SpecFnParam>,
        args: Seq<SpecTypeOrSpread>,
        is_type_ann: bool,
    ) -> SpecInference;

    fn infer_arg_types(
        &self,
        type_args: &Option<Vec<Type>>,
        type_params: &Vec<TypeParam>,
        params: &Vec<FnParam>,
        args: &Vec<TypeOrSpread>,
        is_type_ann: bool,
    ) -> (r: Inference)
        ensures
            r@ == self.inferred(
                opt_types_model(*type_args),
                type_params_model(*type_params),
                params_model(*params),
                args_model(*args),
                is_type_ann,
            ),
    ;

    /// The type arguments that make `declared` fit the expected type `actual`.
    spec fn inferred_from_types(
        &self,
        type_params: Seq<SpecTypeParam>,
        declared: SpecType,
        actual: SpecType,
    ) -> Map<Name, SpecType>;

    fn infer_type_with_types(
        &self,
        type_params: &Vec<TypeParam>,
        declared: &Type,
        actual: &Type,
    ) -> (r: TypeMap)
        ensures
            r@ == self.inferred_from_types(type_params_model(*type_params), declared@, actual@),
    ;

    /// The type of the elements that iterating over `ty` yields.
    spec fn iterated(&self, ty: SpecType) -> Result<SpecType, IterFailure>;

    fn iterator_element_type(&self, ty: &Type) -> (r: Result<Type, IterFailure>)
        ensures
            match r {
                Ok(t) => self.iterated(ty@) == Ok::<SpecType, IterFailure>(t@),
                Err(e) => self.iterated(ty@) == Err::<SpecType, IterFailure>(e),
            },
    ;

    /// The type of the member `key` of `obj`, if it has one.
    spec fn member(&self, obj: SpecType, key: Key) -> Option<SpecType>;

    fn access_property(&self, obj: &Type, key: Key) -> (r: Option<Type>)
        ensures
            match r {
                Some(t) => self.member(obj@, key) == Some(t@),
                None => self.member(obj@, key).is_none(),
            },
    ;
}

} // verus!
