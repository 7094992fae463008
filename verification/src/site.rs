//! A call site, and what resolving it yields.
use vstd::prelude::*;

use crate::env::{SpecEnv, TypeEnv};
use crate::errors::ErrorKind;
use crate::model::{
    args_model, call_args_model, opt_types_model, SpecArg, SpecType, SpecTypeOrSpread,
};
use crate::narrow::{facts_model, Fact, SpecFact};
use crate::span::Span;
use crate::subst::TypeMap;
use crate::types::{Arg, ExtractKind, Name, Type, TypeOrSpread};

verus! {

/// Where the resolution of a call stands: a generic call whose arguments
/// hold function literals is resolved twice, and never more often.
#[derive(Clone, Copy, Debug, PartialEq, Eq, Structural)]
pub enum Pass {
    FirstPass,
    Reevaluating,
}

/// The expression that is checked again when a call is reevaluated.
#[derive(Clone, Copy, Debug, PartialEq, Eq, Structural)]
pub enum ReevalMode {
    Call,
    New,
    /// There is none: the call is resolved once.
    NoReeval,
}

impl Default for ReevalMode {
    fn default() -> (r: ReevalMode)
        ensures
            r == ReevalMode::NoReeval,
    {
        ReevalMode::NoReeval
    }
}

/// A call or `new` expression as the resolver sees it.
#[derive(Clone, Copy, Debug)]
pub struct CallSite<'a> {
    pub env: &'a TypeEnv,
    /// The types of the variables in scope.
    pub vars: &'a TypeMap,
    pub span: Span,
    pub kind: ExtractKind,
    pub args: &'a Vec<Arg>,
    /// The argument types with the spreads worked out.
    pub spread_arg_types: &'a Vec<TypeOrSpread>,
    /// Whether a spread left the number of arguments open.
    pub arg_count_unknown: bool,
    /// The explicit type arguments.
    pub type_args: &'a Option<Vec<Type>>,
    /// The type that the context expects of the result.
    pub type_ann: Option<&'a Type>,
    /// The type of the receiver.
    pub this: Option<&'a Type>,
    pub pass: Pass,
    pub reeval: ReevalMode,
    /// Whether the callee is a function literal that is invoked on the spot.
    pub is_calling_iife: bool,
    /// Whether a class without a constructor is being instantiated.
    pub is_instantiating_class: bool,
}

/// The model of [`CallSite`].
pub struct SpecCallSite {
    pub env: SpecEnv,
    pub vars: Map<Name, SpecType>,
    pub span: Span,
    pub kind: ExtractKind,
    pub args: Seq<SpecArg>,
    pub spread_arg_types: Seq<SpecTypeOrSpread>,
    pub arg_count_unknown: bool,
    pub type_args: Option<Seq<SpecType>>,
    pub type_ann: Option<SpecType>,
    pub this: Option<SpecType>,
    pub pass: Pass,
    pub reeval: ReevalMode,
    pub is_calling_iife: bool,
    pub is_instantiating_class: bool,
}

/// The model of the type, if there is one.
pub open spec fn opt_ref_model(t: Option<&Type>) -> Option<SpecType> {
    match t {
        Some(t) => Some(t@),
        None => None,
    }
}

impl<'a> View for CallSite<'a> {
    type V = SpecCallSite;

    open spec fn view(&self) -> SpecCallSite {
        SpecCallSite {
            env: self.env@,
            vars: self.vars@,
            span: self.span,
            kind: self.kind,
            args: call_args_model(*self.args),
            spread_arg_types: args_model(*self.spread_arg_types),
            arg_count_unknown: self.arg_count_unknown,
            type_args: opt_types_model(*self.type_args),
            type_ann: opt_ref_model(self.type_ann),
            this: opt_ref_model(self.this),
            pass: self.pass,
            reeval: self.reeval,
            is_calling_iife: self.is_calling_iife,
            is_instantiating_class: self.is_instantiating_class,
        }
    }
}

/// The type that a parameter of a function literal is to get before the
/// literal is checked again.
#[derive(Clone, Debug, PartialEq, Eq)]
pub struct Patch {
    /// The position of the argument.
    pub arg: usize,
    /// The position of the parameter in the literal.
    pub param: usize,
    pub ty: Type,
}

/// The model of [`Patch`].
pub struct SpecPatch {
    pub arg: usize,
    pub param: usize,
    pub ty: SpecType,
}

impl View for Patch {
    type V = SpecPatch;

    open spec fn view(&self) -> SpecPatch {
        SpecPatch { arg: self.arg, param: self.param, ty: self.ty@ }
    }
}

/// The models of the patches, in order.
pub open spec fn patches_model(ps: Vec<Patch>) -> Seq<SpecPatch> {
    Seq::new(ps.len() as nat, |i: int| ps[i]@)
}

/// How a resolution ended.
#[derive(Clone, Debug, PartialEq, Eq)]
pub enum Outcome {
    /// The call has this type.
    Resolved(Type),
    /// The call is to be checked again, with these types given to the
    /// parameters of the function literals among its arguments.
    Reevaluate(Vec<Patch>),
    /// The call cannot be resolved.
    Failed(ErrorKind),
}

/// The model of [`Outcome`].
pub enum SpecOutcome {
    Resolved(SpecType),
    Reevaluate(Seq<SpecPatch>),
    Failed(ErrorKind),
}

impl View for Outcome {
    type V = SpecOutcome;

    open spec fn view(&self) -> SpecOutcome {
        match self {
            Outcome::Resolved(t) => SpecOutcome::Resolved(t@),
            Outcome::Reevaluate(ps) => SpecOutcome::Reevaluate(patches_model(*ps)),
            Outcome::Failed(e) => SpecOutcome::Failed(*e),
        }
    }
}

/// What a resolution yields: how it ended, the errors that it reports
/// without giving up, and the facts that it proposes.
#[derive(Clone, Debug, PartialEq, Eq)]
pub struct Run {
    pub outcome: Outcome,
    pub errors: Vec<ErrorKind>,
    pub facts: Vec<Fact>,
}

/// The model of [`Run`].
pub struct SpecRun {
    pub outcome: SpecOutcome,
    pub errors: Seq<ErrorKind>,
    pub facts: Seq<SpecFact>,
}

impl View for Run {
    type V = SpecRun;

    open spec fn view(&self) -> SpecRun {
        SpecRun { outcome: self.outcome@, errors: self.errors@, facts: facts_model(self.facts) }
    }
}

impl SpecRun {
    /// Whether the run failed for good: overloads that all fail are no
    /// reason to look elsewhere.
    pub open spec fn failed_hard(self) -> bool {
        self.outcome matches SpecOutcome::Failed(ErrorKind::NoMatchingOverload { .. })
    }

    /// Whether the run settles the call: it ended otherwise than in failure,
    /// or failed for good.
    pub open spec fn settled(self) -> bool {
        !(self.outcome is Failed) || self.failed_hard()
    }

    /// This run if it settled; if not, `next` after the reports of this one.
    pub open spec fn or_else(self, next: SpecRun) -> SpecRun {
        if self.settled() {
            self
        } else {
            next.after(self)
        }
    }

    /// A run that ends with `outcome` and reports nothing.
    pub open spec fn of(outcome: SpecOutcome) -> SpecRun {
        SpecRun { outcome, errors: Seq::empty(), facts: Seq::empty() }
    }

    /// This run after the reports of `earlier`.
    pub open spec fn after(self, earlier: SpecRun) -> SpecRun {
        self.after_reports(earlier.errors, earlier.facts)
    }

    /// This run with `errors` and `facts` reported first.
    pub open spec fn after_reports(self, errors: Seq<ErrorKind>, facts: Seq<SpecFact>) -> SpecRun {
        SpecRun { outcome: self.outcome, errors: errors + self.errors, facts: facts + self.facts }
    }

    /// This run with `errors` reported first.
    pub open spec fn after_errors(self, errors: Seq<ErrorKind>) -> SpecRun {
        SpecRun { outcome: self.outcome, errors: errors + self.errors, facts: self.facts }
    }
}

/// Reports add up in the order in which they were made.
pub proof fn lemma_after_is_associative(a: SpecRun, b: SpecRun, c: SpecRun)
    ensures
        c.after(b).after(a) == c.after(b.after(a)),
{
    assert(a.errors + (b.errors + c.errors) =~= (a.errors + b.errors) + c.errors);
    assert(a.facts + (b.facts + c.facts) =~= (a.facts + b.facts) + c.facts);
}

impl<'a> CallSite<'a> {
    /// The call site with `this` as the type of the receiver.
    pub fn with_this<'b>(&self, this: &'b Type) -> (r: CallSite<'b>) where 'a: 'b
        ensures
            r@ == (SpecCallSite { this: Some(this@), ..self@ }),
    {
        CallSite {
            env: self.env,
            vars: self.vars,
            span: self.span,
            kind: self.kind,
            args: self.args,
            spread_arg_types: self.spread_arg_types,
            arg_count_unknown: self.arg_count_unknown,
            type_args: self.type_args,
            type_ann: self.type_ann,
            this: Some(this),
            pass: self.pass,
            reeval: self.reeval,
            is_calling_iife: self.is_calling_iife,
            is_instantiating_class: self.is_instantiating_class,
        }
    }

    /// The call site of a class that is instantiated without a constructor.
    pub fn instantiating(&self) -> (r: CallSite<'a>)
        ensures
            r@ == (SpecCallSite { is_instantiating_class: true, ..self@ }),
    {
        CallSite {
            env: self.env,
            vars: self.vars,
            span: self.span,
            kind: self.kind,
            args: self.args,
            spread_arg_types: self.spread_arg_types,
            arg_count_unknown: self.arg_count_unknown,
            type_args: self.type_args,
            type_ann: self.type_ann,
            this: self.this,
            pass: self.pass,
            reeval: self.reeval,
            is_calling_iife: self.is_calling_iife,
            is_instantiating_class: true,
        }
    }
}

impl Run {
    /// Whether the run failed for good.
    pub fn failed_hard(&self) -> (r: bool)
        ensures
            r == self@.failed_hard(),
    {
        matches!(&self.outcome, Outcome::Failed(ErrorKind::NoMatchingOverload { .. }))
    }

    /// Whether the run settles the call.
    pub fn settled(&self) -> (r: bool)
        ensures
            r == self@.settled(),
    {
        !matches!(&self.outcome, Outcome::Failed(_)) || self.failed_hard()
    }

    /// A run that fails with `error` and reports nothing.
    pub fn failed(error: ErrorKind) -> (r: Run)
        ensures
            r@ == SpecRun::of(SpecOutcome::Failed(error)),
    {
        Run::of(Outcome::Failed(error))
    }

    /// A run that ends with the type `ty` and reports nothing.
    pub fn resolved(ty: Type) -> (r: Run)
        ensures
            r@ == SpecRun::of(SpecOutcome::Resolved(ty@)),
    {
        Run::of(Outcome::Resolved(ty))
    }

    /// A run that ends with `outcome` and reports nothing.
    pub fn of(outcome: Outcome) -> (r: Run)
        ensures
            r@ == SpecRun::of(outcome@),
    {
        let r = Run { outcome, errors: Vec::new(), facts: Vec::new() };
        assert(facts_model(r.facts) =~= Seq::empty());
        r
    }

    /// This run after the reports of `earlier`.
    pub fn after(self, earlier: Run) -> (r: Run)
        ensures
            r@ == self@.after(earlier@),
    {
        self.after_reports(earlier.errors, earlier.facts)
    }

    /// This run with `errors` and `facts` reported first.
    pub fn after_reports(self, errors: Vec<ErrorKind>, facts: Vec<Fact>) -> (r: Run)
        ensures
            r@ == self@.after_reports(errors@, facts_model(facts)),
    {
        let mut errors = errors;
        let mut facts = facts;
        let mut own_errors = self.errors;
        let mut own_facts = self.facts;
        let ghost f1 = facts_model(facts);
        let ghost f2 = facts_model(own_facts);
        errors.append(&mut own_errors);
        facts.append(&mut own_facts);
        assert(facts_model(facts) =~= f1 + f2);
        Run { outcome: self.outcome, errors, facts }
    }

    /// This run with `errors` reported first.
    pub fn after_errors(self, errors: Vec<ErrorKind>) -> (r: Run)
        ensures
            r@ == self@.after_errors(errors@),
    {
        let mut errors = errors;
        let mut own_errors = self.errors;
        errors.append(&mut own_errors);
        Run { outcome: self.outcome, errors, facts: self.facts }
    }
}

} // verus!
