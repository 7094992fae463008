//! How many arguments a signature takes, and whether a call supplies them.
use vstd::prelude::*;

use crate::errors::ErrorKind;
use crate::model::{
    call_args_model, opt_pat_model, opt_pats_model, opt_type_params_model, opt_types_model,
    params_model, types_model, SpecArg, SpecFnParam, SpecPat, SpecType, SpecTypeParam,
};
use crate::names::THIS;
use crate::relations::{AssignOpts, TypeRelations};
use crate::span::Span;
use crate::types::{Arg, FnParam, Keyword, Pat, Type, TypeParam};

verus! {

/// The pattern of the synthetic receiver parameter.
pub open spec fn is_this_pat(p: SpecPat) -> bool {
    p matches SpecPat::Ident { name, .. } && name == THIS
}

/// The pattern of a rest parameter.
pub open spec fn is_rest_pat(p: SpecPat) -> bool {
    p is Rest
}

/// A type without the instance markers around it.
pub open spec fn strip_instance(t: SpecType) -> SpecType
    decreases t,
{
    match t {
        SpecType::Instance(inner) => strip_instance(*inner),
        _ => t,
    }
}

/// What one element of a destructured rest tuple adds to the required count:
/// a hole, or a nested array or object pattern that is not optional.
pub open spec fn elem_required(e: Option<SpecPat>) -> nat {
    match e {
        None => 1,
        Some(SpecPat::Array { optional, .. }) => if optional { 0 } else { 1 },
        Some(SpecPat::Object { optional, .. }) => if optional { 0 } else { 1 },
        _ => 0,
    }
}

/// The required count of the first `n` elements.
pub open spec fn elems_required(elems: Seq<Option<SpecPat>>, n: nat) -> nat
    decreases n,
{
    if n == 0 {
        0
    } else {
        elems_required(elems, (n - 1) as nat) + elem_required(elems[n - 1])
    }
}

/// The number of arguments that a parameter with this pattern requires.
pub open spec fn required_by_pat(p: SpecPat) -> nat {
    match p {
        SpecPat::Rest { annotated, arg } => if annotated {
            0
        } else {
            match *arg {
                SpecPat::Array { elems, .. } => elems_required(elems, elems.len()),
                _ => 0,
            }
        },
        SpecPat::Ident { name, optional } => if name == THIS || optional { 0 } else { 1 },
        SpecPat::Array { optional, .. } => if optional { 0 } else { 1 },
        SpecPat::Object { optional, .. } => if optional { 0 } else { 1 },
        SpecPat::Assign { .. } | SpecPat::Invalid | SpecPat::Expr => 0,
    }
}

/// The number of arguments that the first `n` parameters require.
pub open spec fn required_upto(params: Seq<SpecFnParam>, n: nat) -> nat
    decreases n,
{
    if n == 0 {
        0
    } else {
        required_upto(params, (n - 1) as nat) + required_by_pat(params[n - 1].pat)
    }
}

/// The type `void`.
pub open spec fn void_type() -> SpecType {
    SpecType::Keyword(Keyword::Void)
}

/// Whether the last parameter is a required one that also takes `void`, so
/// that its argument may be left out.
pub open spec fn trailing_void<R: TypeRelations>(rel: &R, params: Seq<SpecFnParam>) -> bool {
    params.len() > 0 && {
        let p = params.last();
        &&& !is_rest_pat(p.pat)
        &&& !is_this_pat(p.pat)
        &&& p.required
        &&& p.ty != SpecType::Keyword(Keyword::Any)
        &&& rel.assignable(p.ty, void_type(), AssignOpts::plain()) is Ok
    }
}

/// The least number of arguments that the signature accepts.
pub open spec fn min_args<R: TypeRelations>(rel: &R, params: Seq<SpecFnParam>) -> nat {
    let total = required_upto(params, params.len());
    if trailing_void(rel, params) && total > 0 {
        (total - 1) as nat
    } else {
        total
    }
}

/// Whether a tuple has an open-ended element.
pub open spec fn has_open_rest(elems: Seq<SpecType>) -> bool {
    exists|i: int| 0 <= i < elems.len() && elems[i] is Rest
}

/// The number of arguments that one parameter can take; `None` when it takes
/// any number.
pub open spec fn slots(p: SpecFnParam) -> Option<nat> {
    if is_rest_pat(p.pat) {
        match strip_instance(p.ty) {
            SpecType::Tuple(elems) => if has_open_rest(elems) {
                None
            } else {
                Some(elems.len())
            },
            _ => None,
        }
    } else if is_this_pat(p.pat) {
        Some(0)
    } else {
        Some(1)
    }
}

/// Whether one of the first `n` parameters takes any number of arguments.
pub open spec fn unbounded_upto(params: Seq<SpecFnParam>, n: nat) -> bool {
    exists|i: int| 0 <= i < n && i < params.len() && slots(params[i]).is_none()
}

/// The number of arguments that the bounded ones among the first `n`
/// parameters can take.
pub open spec fn slots_upto(params: Seq<SpecFnParam>, n: nat) -> nat
    decreases n,
{
    if n == 0 {
        0
    } else {
        slots_upto(params, (n - 1) as nat) + match slots(params[n - 1]) {
            Some(k) => k,
            None => 0,
        }
    }
}

/// The greatest number of arguments that the signature accepts; `None` when
/// there is no bound.
pub open spec fn max_args(params: Seq<SpecFnParam>) -> Option<nat> {
    if unbounded_upto(params, params.len()) {
        None
    } else {
        Some(slots_upto(params, params.len()))
    }
}

/// Whether one of the arguments is spread.
pub open spec fn has_spread(args: Seq<SpecArg>) -> bool {
    exists|i: int| 0 <= i < args.len() && args[i].spread.is_some()
}

/// The part of the call that an arity error points at: the arguments beyond
/// the last one that the signature could take, or the whole call when there
/// are none.
pub open spec fn excess_span(span: Span, args: Seq<SpecArg>, max: nat) -> Span {
    if max < args.len() {
        args[max as int].span.cover(args.last().span)
    } else {
        span
    }
}

/// The verdict on the number of arguments of a call.
///
/// A call with a spread argument is not judged. A call of a function literal
/// that is invoked on the spot may leave arguments out.
pub open spec fn arity_check<R: TypeRelations>(
    rel: &R,
    span: Span,
    params: Seq<SpecFnParam>,
    args: Seq<SpecArg>,
    is_calling_iife: bool,
) -> Result<(), ErrorKind> {
    let min = min_args(rel, params);
    let n = args.len();
    if has_spread(args) {
        Ok(())
    } else {
        match max_args(params) {
            None => if min <= n {
                Ok(())
            } else {
                Err(ErrorKind::ExpectedAtLeastNArgsButGotM { span, min: min as u128 })
            },
            Some(max) => if n <= max && (min <= n || is_calling_iife) {
                Ok(())
            } else {
                Err(
                    ErrorKind::ExpectedNArgsButGotM {
                        span: excess_span(span, args, max),
                        min: min as u128,
                        max: max as u128,
                    },
                )
            },
        }
    }
}

/// The verdict on the number of explicit type arguments: where both lists are
/// given, they have the same length.
pub open spec fn type_args_check(
    span: Span,
    type_params: Option<Seq<SpecTypeParam>>,
    type_args: Option<Seq<SpecType>>,
) -> Result<(), ErrorKind> {
    match (type_params, type_args) {
        (Some(ps), Some(ts)) => if ps.len() == ts.len() {
            Ok(())
        } else {
            Err(
                ErrorKind::TypeParameterCountMismatch {
                    span,
                    min: ps.len() as u128,
                    max: ps.len() as u128,
                    actual: ts.len() as usize,
                },
            )
        },
        _ => Ok(()),
    }
}

/// A signature `(a, b?)` of one required and one optional parameter accepts
/// one or two arguments and nothing else; the error names both bounds.
pub proof fn law_optional_parameter_bounds<R: TypeRelations>(
    rel: &R,
    span: Span,
    params: Seq<SpecFnParam>,
    args: Seq<SpecArg>,
)
    requires
        params.len() == 2,
        params[0].pat matches SpecPat::Ident { name, optional } && name != THIS && !optional,
        params[1].pat matches SpecPat::Ident { name, optional } && name != THIS && optional,
        !params[1].required,
        !has_spread(args),
    ensures
        1 <= args.len() <= 2 ==> arity_check(rel, span, params, args, false) is Ok,
        !(1 <= args.len() <= 2) ==> arity_check(rel, span, params, args, false) == Err::<
            (),
            ErrorKind,
        >(ErrorKind::ExpectedNArgsButGotM { span: excess_span(span, args, 2), min: 1, max: 2 }),
{
    reveal_with_fuel(required_upto, 3);
    reveal_with_fuel(slots_upto, 3);
    assert(slots(params[0]) == Some(1nat));
    assert(slots(params[1]) == Some(1nat));
    assert(!unbounded_upto(params, 2));
}

/// A signature `(a, ...rest)` whose rest parameter is an array accepts every
/// call with at least one argument; a call without arguments is told the
/// least number.
pub proof fn law_unbounded_rest<R: TypeRelations>(
    rel: &R,
    span: Span,
    params: Seq<SpecFnParam>,
    args: Seq<SpecArg>,
)
    requires
        params.len() == 2,
        params[0].pat matches SpecPat::Ident { name, optional } && name != THIS && !optional,
        params[1].pat matches SpecPat::Rest { arg, .. } && *arg is Ident,
        params[1].ty is Array,
        !has_spread(args),
    ensures
        args.len() >= 1 ==> arity_check(rel, span, params, args, false) is Ok,
        args.len() == 0 ==> arity_check(rel, span, params, args, false) == Err::<(), ErrorKind>(
            ErrorKind::ExpectedAtLeastNArgsButGotM { span, min: 1 },
        ),
{
    reveal_with_fuel(required_upto, 3);
    reveal_with_fuel(strip_instance, 2);
    assert(slots(params[1]).is_none());
    assert(unbounded_upto(params, 2));
}

impl Pat {
    /// Whether this is the pattern of the synthetic receiver parameter.
    pub fn is_this(&self) -> (r: bool)
        ensures
            r == is_this_pat(self@),
    {
        match self {
            Pat::Ident { name, .. } => *name == THIS,
            _ => false,
        }
    }

    /// Whether this is the pattern of a rest parameter.
    pub fn is_rest(&self) -> (r: bool)
        ensures
            r == is_rest_pat(self@),
    {
        matches!(self, Pat::Rest { .. })
    }

    /// The number of arguments that a parameter with this pattern requires.
    pub fn count_required(&self) -> (r: usize)
        ensures
            r == required_by_pat(self@),
    {
        proof {
            reveal_with_fuel(Pat::model, 2);
        }
        match self {
            Pat::Rest { annotated, arg } => {
                if *annotated {
                    return 0;
                }
                match &**arg {
                    Pat::Array { elems, .. } => {
                        let mut count: usize = 0;
                        let mut i: usize = 0;
                        let ghost spec_elems = opt_pats_model(*elems);
                        while i < elems.len()
                            invariant
                                i <= elems.len(),
                                spec_elems == opt_pats_model(*elems),
                                count == elems_required(spec_elems, i as nat),
                                count <= i,
                            decreases elems.len() - i,
                        {
                            let one: usize = match &elems[i] {
                                None => 1,
                                Some(Pat::Array { optional, .. }) => if *optional { 0 } else { 1 },
                                Some(Pat::Object { optional, .. }) => if *optional { 0 } else { 1 },
                                _ => 0,
                            };
                            assert(spec_elems[i as int] == opt_pat_model(elems[i as int]));
                            assert(one == elem_required(spec_elems[i as int]));
                            count = count + one;
                            i += 1;
                        }
                        count
                    },
                    _ => 0,
                }
            },
            Pat::Ident { name, optional } => if *name == THIS || *optional { 0 } else { 1 },
            Pat::Array { optional, .. } => if *optional { 0 } else { 1 },
            Pat::Object { optional, .. } => if *optional { 0 } else { 1 },
            Pat::Assign { .. } | Pat::Invalid | Pat::Expr => 0,
        }
    }
}

impl Type {
    /// The type without the instance markers around it.
    pub fn normalize_instance(&self) -> (r: &Type)
        ensures
            r@ == strip_instance(self@),
        decreases self,
    {
        match self {
            Type::Instance(inner) => inner.normalize_instance(),
            _ => self,
        }
    }

    /// Whether the type is `any`.
    pub fn is_any(&self) -> (r: bool)
        ensures
            r == (self@ == SpecType::Keyword(Keyword::Any)),
    {
        matches!(self, Type::Keyword(Keyword::Any))
    }
}

/// Whether a tuple has an open-ended element.
pub fn tuple_has_open_rest(elems: &Vec<Type>) -> (r: bool)
    ensures
        r == has_open_rest(types_model(*elems)),
{
    let mut i: usize = 0;
    while i < elems.len()
        invariant
            i <= elems.len(),
            forall|j: int| 0 <= j < i ==> !(types_model(*elems)[j] is Rest),
        decreases elems.len() - i,
    {
        if matches!(&elems[i], Type::Rest(_)) {
            assert(types_model(*elems)[i as int] is Rest);
            return true;
        }
        i += 1;
    }
    false
}

impl FnParam {
    /// The number of arguments that the parameter can take; `None` when it
    /// takes any number.
    pub fn slot_count(&self) -> (r: Option<usize>)
        ensures
            match r {
                Some(k) => slots(self@) == Some(k as nat),
                None => slots(self@).is_none(),
            },
    {
        if self.pat.is_rest() {
            match self.ty.normalize_instance() {
                Type::Tuple(elems) => if tuple_has_open_rest(elems) {
                    None
                } else {
                    Some(elems.len())
                },
                _ => None,
            }
        } else if self.pat.is_this() {
            Some(0)
        } else {
            Some(1)
        }
    }
}

/// The least number of arguments that the signature accepts.
pub fn min_param_count<R: TypeRelations>(rel: &R, params: &Vec<FnParam>) -> (r: u128)
    ensures
        r == min_args(rel, params_model(*params)),
{
    let ghost pm = params_model(*params);
    let mut total: u128 = 0;
    let mut i: usize = 0;
    while i < params.len()
        invariant
            i <= params.len(),
            pm == params_model(*params),
            total == required_upto(pm, i as nat),
            total <= i * 0x1_0000_0000_0000_0000,
        decreases params.len() - i,
    {
        let one = params[i].pat.count_required();
        assert(pm[i as int].pat == params[i as int].pat@);
        total = total + one as u128;
        i += 1;
    }
    let n = params.len();
    if n > 0 {
        let p = &params[n - 1];
        assert(pm.last() == p@);
        if !p.pat.is_rest() && !p.pat.is_this() && p.required && !p.ty.is_any() {
            let void = Type::Keyword(Keyword::Void);
            if rel.assign(&p.ty, &void, AssignOpts::new()).is_ok() && total > 0 {
                total = total - 1;
            }
        }
    }
    total
}

/// The greatest number of arguments that the signature accepts; `None` when
/// there is no bound.
pub fn max_param_count(params: &Vec<FnParam>) -> (r: Option<u128>)
    ensures
        match r {
            Some(m) => max_args(params_model(*params)) == Some(m as nat),
            None => max_args(params_model(*params)).is_none(),
        },
{
    let ghost pm = params_model(*params);
    let mut total: u128 = 0;
    let mut bounded = true;
    let mut i: usize = 0;
    while i < params.len()
        invariant
            i <= params.len(),
            pm == params_model(*params),
            bounded == !unbounded_upto(pm, i as nat),
            total == slots_upto(pm, i as nat),
            total <= i * 0x1_0000_0000_0000_0000,
        decreases params.len() - i,
    {
        assert(pm[i as int] == params[i as int]@);
        match params[i].slot_count() {
            Some(k) => {
                total = total + k as u128;
            },
            None => {
                bounded = false;
            },
        }
        i += 1;
    }
    if bounded {
        Some(total)
    } else {
        None
    }
}

/// Whether one of the arguments is spread.
pub fn any_spread(args: &Vec<Arg>) -> (r: bool)
    ensures
        r == has_spread(call_args_model(*args)),
{
    let mut i: usize = 0;
    while i < args.len()
        invariant
            i <= args.len(),
            forall|j: int| 0 <= j < i ==> call_args_model(*args)[j].spread.is_none(),
        decreases args.len() - i,
    {
        if args[i].spread.is_some() {
            assert(call_args_model(*args)[i as int].spread.is_some());
            return true;
        }
        i += 1;
    }
    false
}

/// Checks the number of arguments of a call against a signature.
pub fn validate_arg_count<R: TypeRelations>(
    rel: &R,
    span: Span,
    params: &Vec<FnParam>,
    args: &Vec<Arg>,
    is_calling_iife: bool,
) -> (r: Result<(), ErrorKind>)
    ensures
        r == arity_check(rel, span, params_model(*params), call_args_model(*args), is_calling_iife),
{
    let min = min_param_count(rel, params);
    let max = max_param_count(params);
    if any_spread(args) {
        return Ok(());
    }
    let n = args.len();
    match max {
        None => if min <= n as u128 {
            Ok(())
        } else {
            Err(ErrorKind::ExpectedAtLeastNArgsButGotM { span, min })
        },
        Some(max) => if n as u128 <= max && (min <= n as u128 || is_calling_iife) {
            Ok(())
        } else {
            let at = if max < n as u128 {
                let first = max as usize;
                assert(call_args_model(*args)[first as int].span == args[first as int].span);
                assert(call_args_model(*args).last().span == args[n - 1].span);
                args[first].span.to(args[n - 1].span)
            } else {
                span
            };
            Err(ErrorKind::ExpectedNArgsButGotM { span: at, min, max })
        },
    }
}

/// Checks the number of explicit type arguments against the declared type
/// parameters.
pub fn validate_type_args_count(
    span: Span,
    type_params: &Option<Vec<TypeParam>>,
    type_args: &Option<Vec<Type>>,
) -> (r: Result<(), ErrorKind>)
    ensures
        r == type_args_check(span, opt_type_params_model(*type_params), opt_types_model(*type_args)),
{
    match (type_params, type_args) {
        (Some(ps), Some(ts)) => if ps.len() == ts.len() {
            Ok(())
        } else {
            Err(
                ErrorKind::TypeParameterCountMismatch {
                    span,
                    min: ps.len() as u128,
                    max: ps.len() as u128,
                    actual: ts.len(),
                },
            )
        },
        _ => Ok(()),
    }
}

} // verus!
