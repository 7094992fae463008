//! How well a candidate fits the arguments of a call, and how candidates
//! are ordered by that.
use vstd::prelude::*;

use crate::arity::{arity_check, type_args_check, validate_arg_count, validate_type_args_count};
use crate::model::{
    call_args_model, opt_type_params_model, opt_types_model, params_model, SpecArg, SpecFnParam,
    SpecType, SpecTypeParam,
};
use crate::relations::{AssignOpts, TypeRelations, UnknownRhs};
use crate::span::Span;
use crate::types::{Arg, FnParam, Keyword, Type, TypeParam};

verus! {

/// The outcome of checking the arguments against one candidate, from best to
/// worst.
#[derive(Debug, Clone, Copy, PartialEq, Eq, PartialOrd, Ord, Structural)]
pub enum ArgCheckResult {
    Exact,
    MayBe,
    ArgTypeMismatch,
    WrongArgCount,
}

impl ArgCheckResult {
    /// The place in the order: a smaller rank is a better fit.
    pub open spec fn rank(self) -> nat {
        match self {
            ArgCheckResult::Exact => 0,
            ArgCheckResult::MayBe => 1,
            ArgCheckResult::ArgTypeMismatch => 2,
            ArgCheckResult::WrongArgCount => 3,
        }
    }

    /// Whether the candidate cannot take the call.
    pub open spec fn is_failure(self) -> bool {
        self.rank() >= 2
    }

    /// The place in the order as a number.
    pub fn ordinal(self) -> (r: u8)
        ensures
            r == self.rank(),
    {
        match self {
            ArgCheckResult::Exact => 0,
            ArgCheckResult::MayBe => 1,
            ArgCheckResult::ArgTypeMismatch => 2,
            ArgCheckResult::WrongArgCount => 3,
        }
    }

    /// Whether the candidate cannot take the call.
    pub fn failed(self) -> (r: bool)
        ensures
            r == self.is_failure(),
    {
        self.ordinal() >= 2
    }
}

/// The ranks order the four outcomes without ties: `Exact` before `MayBe`
/// before `ArgTypeMismatch` before `WrongArgCount`, and two outcomes of the
/// same rank are the same outcome.
pub proof fn law_rank_is_total_order(a: ArgCheckResult, b: ArgCheckResult, c: ArgCheckResult)
    ensures
        ArgCheckResult::Exact.rank() < ArgCheckResult::MayBe.rank(),
        ArgCheckResult::MayBe.rank() < ArgCheckResult::ArgTypeMismatch.rank(),
        ArgCheckResult::ArgTypeMismatch.rank() < ArgCheckResult::WrongArgCount.rank(),
        a.rank() <= b.rank() || b.rank() <= a.rank(),
        a.rank() <= b.rank() && b.rank() <= a.rank() ==> a == b,
        a.rank() <= b.rank() && b.rank() <= c.rank() ==> a.rank() <= c.rank(),
{
}

/// The switches with which an argument is held against a parameter when
/// candidates are ranked.
pub open spec fn ranking_opts() -> AssignOpts {
    AssignOpts {
        allow_unknown_rhs: UnknownRhs::Allow,
        allow_assignment_to_param: true,
        allow_assignment_to_param_constraint: false,
        allow_iterable_on_rhs: false,
        use_missing_fields_for_class: false,
    }
}

/// A parameter whose type is a bare type parameter, or an instance of one,
/// is inferred and not checked.
pub open spec fn is_inferred_param(ty: SpecType) -> bool {
    match ty {
        SpecType::Param(_) => true,
        SpecType::Instance(inner) => *inner is Param,
        _ => false,
    }
}

/// Whether the argument is a subtype of the parameter, as far as ranking
/// goes: equal types are, everything is a subtype of `any`, and `any` is a
/// subtype of nothing else.
pub open spec fn is_subtype_in_call<R: TypeRelations>(
    rel: &R,
    arg: SpecType,
    param: SpecType,
) -> bool {
    if arg == param {
        true
    } else if param == SpecType::Keyword(Keyword::Any) {
        true
    } else if arg == SpecType::Keyword(Keyword::Any) {
        false
    } else {
        rel.assignable(param, arg, AssignOpts::plain()) is Ok
    }
}

/// The argument at `i` cannot be assigned to the parameter at `i`.
pub open spec fn mismatch_at<R: TypeRelations>(
    rel: &R,
    params: Seq<SpecFnParam>,
    args: Seq<SpecArg>,
    i: int,
) -> bool {
    !is_inferred_param(params[i].ty) && rel.assignable(params[i].ty, args[i].ty, ranking_opts()) is Err
}

/// The argument at `i` fits the parameter at `i` without being a subtype of
/// it.
pub open spec fn loose_at<R: TypeRelations>(
    rel: &R,
    params: Seq<SpecFnParam>,
    args: Seq<SpecArg>,
    i: int,
) -> bool {
    !is_inferred_param(params[i].ty) && !is_subtype_in_call(rel, args[i].ty, params[i].ty)
}

/// The number of arguments that have a parameter at their position.
pub open spec fn paired(params: Seq<SpecFnParam>, args: Seq<SpecArg>) -> nat {
    if args.len() <= params.len() {
        args.len()
    } else {
        params.len()
    }
}

/// How a candidate fits a call.
///
/// A wrong number of type arguments or of arguments is `WrongArgCount`. An
/// argument that cannot be assigned to its parameter is `ArgTypeMismatch`.
/// Otherwise the fit is `Exact` when every argument is a subtype of its
/// parameter and the number of arguments is known, and `MayBe` when not.
pub open spec fn classify<R: TypeRelations>(
    rel: &R,
    span: Span,
    type_params: Option<Seq<SpecTypeParam>>,
    params: Seq<SpecFnParam>,
    type_args: Option<Seq<SpecType>>,
    args: Seq<SpecArg>,
    arg_count_unknown: bool,
    is_calling_iife: bool,
) -> ArgCheckResult {
    if type_args_check(span, type_params, type_args) is Err {
        ArgCheckResult::WrongArgCount
    } else if arity_check(rel, span, params, args, is_calling_iife) is Err {
        ArgCheckResult::WrongArgCount
    } else if exists|i: int| 0 <= i < paired(params, args) && mismatch_at(rel, params, args, i) {
        ArgCheckResult::ArgTypeMismatch
    } else if arg_count_unknown || exists|i: int|
        0 <= i < paired(params, args) && loose_at(rel, params, args, i) {
        ArgCheckResult::MayBe
    } else {
        ArgCheckResult::Exact
    }
}

impl Type {
    /// Whether the type is a bare type parameter or an instance of one.
    pub fn is_inferred_param(&self) -> (r: bool)
        ensures
            r == is_inferred_param(self@),
    {
        proof {
            reveal_with_fuel(Type::model, 2);
        }
        match self {
            Type::Param(_) => true,
            Type::Instance(inner) => matches!(&**inner, Type::Param(_)),
            _ => false,
        }
    }
}

/// Whether the argument is a subtype of the parameter, as far as ranking goes.
pub fn is_subtype_in_fn_call<R: TypeRelations>(rel: &R, arg: &Type, param: &Type) -> (r: bool)
    ensures
        r == is_subtype_in_call(rel, arg@, param@),
{
    if arg.same(param) {
        return true;
    }
    if param.is_any() {
        return true;
    }
    if arg.is_any() {
        return false;
    }
    rel.assign(param, arg, AssignOpts::new()).is_ok()
}

/// Classifies one candidate against the arguments of a call.
#[verifier::loop_isolation(false)]
pub fn check_call_args<R: TypeRelations>(
    rel: &R,
    span: Span,
    type_params: &Option<Vec<TypeParam>>,
    params: &Vec<FnParam>,
    type_args: &Option<Vec<Type>>,
    args: &Vec<Arg>,
    arg_count_unknown: bool,
    is_calling_iife: bool,
) -> (r: ArgCheckResult)
    ensures
        r == classify(
            rel,
            span,
            opt_type_params_model(*type_params),
            params_model(*params),
            opt_types_model(*type_args),
            call_args_model(*args),
            arg_count_unknown,
            is_calling_iife,
        ),
{
    if validate_type_args_count(span, type_params, type_args).is_err() {
        return ArgCheckResult::WrongArgCount;
    }
    if validate_arg_count(rel, span, params, args, is_calling_iife).is_err() {
        return ArgCheckResult::WrongArgCount;
    }
    let ghost pm = params_model(*params);
    let ghost am = call_args_model(*args);
    let opts = AssignOpts {
        allow_unknown_rhs: UnknownRhs::Allow,
        allow_assignment_to_param: true,
        allow_assignment_to_param_constraint: false,
        allow_iterable_on_rhs: false,
        use_missing_fields_for_class: false,
    };
    let n = if args.len() <= params.len() {
        args.len()
    } else {
        params.len()
    };
    let mut exact = true;
    let mut i: usize = 0;
    while i < n
        invariant
            i <= n,
            n == paired(pm, am),
            pm == params_model(*params),
            am == call_args_model(*args),
            opts == ranking_opts(),
            forall|j: int| 0 <= j < i ==> !mismatch_at(rel, pm, am, j),
            exact == !exists|j: int| 0 <= j < i && loose_at(rel, pm, am, j),
        decreases n - i,
    {
        let param = &params[i];
        let arg = &args[i];
        assert(pm[i as int] == param@);
        assert(am[i as int] == arg@);
        if !param.ty.is_inferred_param() {
            if rel.assign(&param.ty, &arg.ty, opts).is_err() {
                assert(mismatch_at(rel, pm, am, i as int));
                return ArgCheckResult::ArgTypeMismatch;
            }
            if !is_subtype_in_fn_call(rel, &arg.ty, &param.ty) {
                assert(loose_at(rel, pm, am, i as int));
                exact = false;
            }
        }
        i += 1;
    }
    if arg_count_unknown || !exact {
        ArgCheckResult::MayBe
    } else {
        ArgCheckResult::Exact
    }
}

/// Whether the item at `a` comes before the item at `b` when the items are
/// ordered by rank and, among equal ranks, by position.
pub open spec fn before(results: Seq<ArgCheckResult>, a: int, b: int) -> bool {
    results[a].rank() < results[b].rank() || (results[a].rank() == results[b].rank() && a < b)
}

/// `order` lists every position of `results` once, best rank first, and keeps
/// positions of equal rank in their original order.
pub open spec fn is_stable_order(results: Seq<ArgCheckResult>, order: Seq<usize>) -> bool {
    &&& forall|p: int| 0 <= p < order.len() ==> (#[trigger] order[p]) < results.len()
    &&& forall|p: int, q: int|
        0 <= p < q < order.len() ==> before(results, order[p] as int, order[q] as int)
    &&& forall|i: usize| i < results.len() ==> order.contains(i)
}

/// The position of the best candidate: the first one of the least rank.
pub open spec fn is_best(results: Seq<ArgCheckResult>, best: int) -> bool {
    &&& 0 <= best < results.len()
    &&& forall|i: int|
        0 <= i < results.len() && i != best ==> before(results, best, i)
}

/// The first position of a stable order is the best candidate.
pub proof fn law_stable_order_starts_with_best(results: Seq<ArgCheckResult>, order: Seq<usize>)
    requires
        is_stable_order(results, order),
        0 < results.len() <= usize::MAX,
    ensures
        order.len() > 0,
        is_best(results, order[0] as int),
{
    assert(order.contains(0usize));
    assert forall|i: int| 0 <= i < results.len() && i != order[0] as int implies before(
        results,
        order[0] as int,
        i,
    ) by {
        assert(order.contains(i as usize));
        let q = choose|q: int| 0 <= q < order.len() && order[q] == i as usize;
        assert(q != 0);
    }
}

/// Orders the positions of `results` by rank, stably.
pub fn order_by_rank(results: &Vec<ArgCheckResult>) -> (order: Vec<usize>)
    ensures
        is_stable_order(results@, order@),
{
    let mut order: Vec<usize> = Vec::new();
    let n = results.len();
    let mut r: u8 = 0;
    while r < 4
        invariant
            r <= 4,
            n == results.len(),
            forall|p: int| 0 <= p < order.len() ==> (#[trigger] order[p]) < n,
            forall|p: int| 0 <= p < order.len() ==> results[(#[trigger] order[p]) as int].rank() < r,
            forall|p: int, q: int|
                0 <= p < q < order.len() ==> before(results@, order[p] as int, order[q] as int),
            forall|i: usize| i < n && results[i as int].rank() < r ==> order@.contains(i),
        decreases 4 - r,
    {
        let mut i: usize = 0;
        while i < n
            invariant
                i <= n,
                r < 4,
                n == results.len(),
                forall|p: int| 0 <= p < order.len() ==> (#[trigger] order[p]) < n,
                forall|p: int|
                    0 <= p < order.len() ==> {
                        let k = (#[trigger] order[p]) as int;
                        results[k].rank() < r || (results[k].rank() == r && k < i)
                    },
                forall|p: int, q: int|
                    0 <= p < q < order.len() ==> before(results@, order[p] as int, order[q] as int),
                forall|j: usize|
                    j < n && (results[j as int].rank() < r || (results[j as int].rank() == r && j
                        < i)) ==> order@.contains(j),
            decreases n - i,
        {
            if results[i].ordinal() == r {
                let ghost old_order = order@;
                order.push(i);
                assert forall|j: usize|
                    j < n && (results[j as int].rank() < r || (results[j as int].rank() == r && j
                        < i + 1)) implies order@.contains(j) by {
                    if j == i {
                        assert(order@[order.len() - 1] == i);
                    } else {
                        assert(old_order.contains(j));
                        let p = choose|p: int| 0 <= p < old_order.len() && old_order[p] == j;
                        assert(order@[p] == j);
                    }
                }
            }
            i += 1;
        }
        r += 1;
    }
    order
}

} // verus!
