//! Resolution of call and `new` expressions for a structural type system.
//!
//! Given the type of a callee, the arguments of a call with their types,
//! explicit type arguments and the type that the context expects, the crate
//! decides which signature is invoked, checks the arguments against it,
//! works out the type of the result and proposes narrowed types for the
//! variables that a type predicate speaks of.
//!
//! Every executable function is verified against a contract over the
//! mathematical models of the `model` module. The questions that only a full
//! type system can answer (assignability, inference of type arguments,
//! member lookup) are asked through the trait `relations::TypeRelations`;
//! `shapes::ShapeRelations` answers them by the shapes of the types.

pub mod arity;
pub mod call;
pub mod candidates;
pub mod copy;
pub mod env;
pub mod equality;
pub mod errors;
pub mod model;
pub mod names;
pub mod narrow;
pub mod patterns;
pub mod property;
pub mod ranking;
pub mod reevaluation;
pub mod relations;
pub mod resolve;
pub mod return_type;
pub mod select;
pub mod shapes;
pub mod site;
pub mod span;
pub mod spread;
pub mod subst;
pub mod transform;
pub mod type_params;
pub mod types;
pub mod unions;
pub mod validate;
