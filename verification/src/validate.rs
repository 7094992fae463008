//! Whether the arguments of a call can be assigned to the parameters of the
//! chosen signature.
use vstd::prelude::*;

use crate::arity::{is_rest_pat, is_this_pat};
use crate::env::{SpecEnv, TypeEnv};
use crate::errors::{ErrorKind, IterFailure};
use crate::model::{args_model, params_model, types_model, SpecFnParam, SpecType, SpecTypeOrSpread};
use crate::relations::{AssignOpts, TypeRelations, UnknownRhs};
use crate::types::{FnParam, Type, TypeOrSpread};

verus! {

/// The number of optional plain parameters among the first `n`.
pub open spec fn optional_before(params: Seq<SpecFnParam>, n: nat) -> nat
    decreases n,
{
    if n == 0 {
        0
    } else {
        optional_before(params, (n - 1) as nat) + if !is_rest_pat(params[n - 1].pat)
            && !params[n - 1].required {
            1nat
        } else {
            0nat
        }
    }
}

/// The position at which the arguments of the last rest parameter among the
/// first `n` parameters begin, not counting the optional parameters before
/// it.
pub open spec fn rest_index(params: Seq<SpecFnParam>, n: nat) -> Option<nat>
    decreases n,
{
    if n == 0 {
        None
    } else if is_rest_pat(params[n - 1].pat) {
        Some((n - 1 - optional_before(params, (n - 1) as nat)) as nat)
    } else {
        rest_index(params, (n - 1) as nat)
    }
}

/// What a spread argument before the rest parameter is reported as.
pub open spec fn early_spread_error(arg: SpecTypeOrSpread, rest: nat) -> ErrorKind {
    if arg.ty is Tuple {
        ErrorKind::ExpectedAtLeastNArgsButGotMOrMore { span: arg.span, min: (rest - 1) as u128 }
    } else {
        ErrorKind::SpreadMustBeTupleOrPassedToRest { span: arg.span }
    }
}

/// The errors for the spread arguments from position `i` on that stand
/// before the rest parameter.
pub open spec fn early_spread_errors(
    args: Seq<SpecTypeOrSpread>,
    rest: nat,
    i: nat,
) -> Seq<ErrorKind>
    decreases args.len() - i,
{
    if i >= args.len() {
        Seq::empty()
    } else {
        (if args[i as int].spread.is_some() && i < rest {
            seq![early_spread_error(args[i as int], rest)]
        } else {
            Seq::empty()
        }) + early_spread_errors(args, rest, i + 1)
    }
}

/// The switches for an argument of a rest parameter: what can be iterated may
/// be passed.
pub open spec fn iterable_opts() -> AssignOpts {
    AssignOpts {
        allow_unknown_rhs: UnknownRhs::Default,
        allow_assignment_to_param: false,
        allow_assignment_to_param_constraint: false,
        allow_iterable_on_rhs: true,
        use_missing_fields_for_class: false,
    }
}

/// The switches for a plain argument: an object literal may not bring
/// properties that the parameter does not know.
pub open spec fn argument_opts(arg: SpecType) -> AssignOpts {
    AssignOpts {
        allow_unknown_rhs: if arg is TypeLit {
            UnknownRhs::Deny
        } else {
            UnknownRhs::Allow
        },
        allow_assignment_to_param: false,
        allow_assignment_to_param_constraint: false,
        allow_iterable_on_rhs: false,
        use_missing_fields_for_class: true,
    }
}

/// The error, if any, of assigning the argument to `to`.
pub open spec fn check<R: TypeRelations>(
    rel: &R,
    to: SpecType,
    arg: SpecTypeOrSpread,
    opts: AssignOpts,
) -> Seq<ErrorKind> {
    match rel.assignable(to, arg.ty, opts) {
        Ok(_) => Seq::empty(),
        Err(inner) => seq![ErrorKind::WrongArgType { span: arg.span, inner }],
    }
}

/// The error, if any, of passing the argument to a parameter of type `to`.
///
/// A spread argument fits when its elements do; one that cannot be iterated
/// for want of `Symbol.iterator` is reported as such; otherwise it is held
/// against the parameter as a whole.
pub open spec fn general_errors<R: TypeRelations>(
    rel: &R,
    to: SpecType,
    arg: SpecTypeOrSpread,
) -> Seq<ErrorKind> {
    if arg.spread.is_some() {
        match rel.iterated(arg.ty) {
            Ok(elem) => if rel.assignable(to, elem, AssignOpts::plain()) is Ok {
                Seq::empty()
            } else {
                check(rel, to, arg, AssignOpts::plain())
            },
            Err(IterFailure::MustHaveSymbolIterator) => seq![
                ErrorKind::SpreadMustBeTupleOrPassedToRest { span: arg.span },
            ],
            Err(IterFailure::Other) => check(rel, to, arg, AssignOpts::plain()),
        }
    } else {
        check(rel, to, arg, argument_opts(arg.ty))
    }
}

/// The errors of the arguments from `ai` on against the elements of a rest
/// tuple from `k` on, and the position of the first argument not consumed.
///
/// Each argument is assigned to its element. A spread argument after the
/// first is held against the whole rest parameter and ends the tuple.
pub open spec fn tuple_walk<R: TypeRelations>(
    rel: &R,
    rest_ty: SpecType,
    elems: Seq<SpecType>,
    args: Seq<SpecTypeOrSpread>,
    k: nat,
    ai: nat,
) -> (Seq<ErrorKind>, nat)
    decreases elems.len() - k,
{
    if k >= elems.len() || ai >= args.len() {
        (Seq::empty(), ai)
    } else {
        let a = args[ai as int];
        if k > 0 && a.spread.is_some() {
            (check(rel, rest_ty, a, iterable_opts()), ai + 1)
        } else {
            let rest = tuple_walk(rel, rest_ty, elems, args, k + 1, ai + 1);
            (check(rel, elems[k as int], a, iterable_opts()) + rest.0, rest.1)
        }
    }
}

/// The error, if any, of one argument of a rest parameter whose type is an
/// array of `elem`.
pub open spec fn array_one<R: TypeRelations>(
    rel: &R,
    rest_ty: SpecType,
    elem: SpecType,
    arg: SpecTypeOrSpread,
) -> Seq<ErrorKind> {
    if arg.spread.is_some() && rel.assignable(rest_ty, arg.ty, iterable_opts()) is Ok {
        Seq::empty()
    } else {
        check(rel, elem, arg, AssignOpts::plain())
    }
}

/// The errors of all arguments from `ai` on against a rest parameter whose
/// type is an array of `elem`.
pub open spec fn array_walk<R: TypeRelations>(
    rel: &R,
    rest_ty: SpecType,
    elem: SpecType,
    args: Seq<SpecTypeOrSpread>,
    ai: nat,
) -> Seq<ErrorKind>
    decreases args.len() - ai,
{
    if ai >= args.len() {
        Seq::empty()
    } else {
        array_one(rel, rest_ty, elem, args[ai as int]) + array_walk(rel, rest_ty, elem, args, ai + 1)
    }
}

/// The errors of the arguments from `ai` on against the parameters from `pi`
/// on. Receiver parameters take no argument.
pub open spec fn walk<R: TypeRelations>(
    env: SpecEnv,
    rel: &R,
    params: Seq<SpecFnParam>,
    args: Seq<SpecTypeOrSpread>,
    pi: nat,
    ai: nat,
) -> Seq<ErrorKind>
    decreases params.len() - pi,
{
    if pi >= params.len() || ai >= args.len() {
        Seq::empty()
    } else if is_this_pat(params[pi as int].pat) {
        walk(env, rel, params, args, pi + 1, ai)
    } else {
        let p = params[pi as int];
        let a = args[ai as int];
        if is_rest_pat(p.pat) {
            match env.normal(p.ty) {
                SpecType::Tuple(elems) => if elems.len() > 0 && a.spread.is_none() {
                    let t = tuple_walk(rel, p.ty, elems, args, 0, ai);
                    t.0 + walk(env, rel, params, args, pi + 1, t.1)
                } else {
                    rest_other(rel, p.ty, a) + walk(env, rel, params, args, pi + 1, ai + 1)
                },
                SpecType::Array(elem) => array_walk(rel, p.ty, *elem, args, ai),
                _ => rest_other(rel, p.ty, a) + walk(env, rel, params, args, pi + 1, ai + 1),
            }
        } else {
            general_errors(rel, p.ty, a) + walk(env, rel, params, args, pi + 1, ai + 1)
        }
    }
}

/// The error, if any, of one argument of a rest parameter that is neither
/// destructured as a tuple nor an array.
pub open spec fn rest_other<R: TypeRelations>(
    rel: &R,
    rest_ty: SpecType,
    arg: SpecTypeOrSpread,
) -> Seq<ErrorKind> {
    if rel.assignable(rest_ty, arg.ty, iterable_opts()) is Ok {
        Seq::empty()
    } else {
        general_errors(rel, rest_ty, arg)
    }
}

/// Every error of the arguments against the parameters, in the order in
/// which they are found.
pub open spec fn all_arg_type_errors<R: TypeRelations>(
    env: SpecEnv,
    rel: &R,
    params: Seq<SpecFnParam>,
    args: Seq<SpecTypeOrSpread>,
) -> Seq<ErrorKind> {
    (match rest_index(params, params.len()) {
        Some(rest) => early_spread_errors(args, rest, 0),
        None => Seq::empty(),
    }) + walk(env, rel, params, args, 0, 0)
}

/// The errors that are reported: all of them for a plain signature, the
/// first alone for a generic one.
pub open spec fn arg_type_errors<R: TypeRelations>(
    env: SpecEnv,
    rel: &R,
    params: Seq<SpecFnParam>,
    args: Seq<SpecTypeOrSpread>,
    is_generic: bool,
) -> Seq<ErrorKind> {
    let all = all_arg_type_errors(env, rel, params, args);
    if is_generic && all.len() > 0 {
        seq![all[0]]
    } else {
        all
    }
}

/// A rest parameter whose type is a tuple of two elements takes two plain
/// arguments, the first for the first element and the second for the
/// second: what is reported is what the first assignment reports, then what
/// the second reports.
pub proof fn law_rest_tuple_pairs_arguments<R: TypeRelations>(
    env: SpecEnv,
    rel: &R,
    params: Seq<SpecFnParam>,
    args: Seq<SpecTypeOrSpread>,
)
    requires
        params.len() == 1,
        is_rest_pat(params[0].pat),
        params[0].ty matches SpecType::Tuple(elems) && elems.len() == 2,
        args.len() == 2,
        args[0].spread.is_none(),
        args[1].spread.is_none(),
    ensures
        all_arg_type_errors(env, rel, params, args) == check(
            rel,
            params[0].ty->Tuple_0[0],
            args[0],
            iterable_opts(),
        ) + check(rel, params[0].ty->Tuple_0[1], args[1], iterable_opts()),
{
    let p = params[0];
    let elems = p.ty->Tuple_0;
    let first = check(rel, elems[0], args[0], iterable_opts());
    let second = check(rel, elems[1], args[1], iterable_opts());
    reveal_with_fuel(rest_index, 2);
    reveal_with_fuel(optional_before, 2);
    reveal_with_fuel(early_spread_errors, 3);
    reveal_with_fuel(tuple_walk, 3);
    reveal_with_fuel(walk, 2);
    assert(env.normal(p.ty) == p.ty);
    assert(rest_index(params, 1) == Some(0nat));
    assert(early_spread_errors(args, 0, 0) =~= Seq::<ErrorKind>::empty());
    let t = tuple_walk(rel, p.ty, elems, args, 0, 0);
    assert(t.1 == 2);
    assert(t.0 =~= first + second);
    assert(walk(env, rel, params, args, 1, 2) =~= Seq::<ErrorKind>::empty());
    assert(walk(env, rel, params, args, 0, 0) =~= first + second);
    assert(all_arg_type_errors(env, rel, params, args) =~= first + second);
}

/// The error, if any, of assigning the argument to `to`.
fn check_assign<R: TypeRelations>(
    rel: &R,
    to: &Type,
    arg: &TypeOrSpread,
    opts: AssignOpts,
) -> (r: Vec<ErrorKind>)
    ensures
        r@ == check(rel, to@, arg@, opts),
        r@.len() <= 1,
{
    let mut out: Vec<ErrorKind> = Vec::new();
    match rel.assign(to, &arg.ty, opts) {
        Ok(_) => {},
        Err(inner) => {
            out.push(ErrorKind::WrongArgType { span: arg.span, inner });
        },
    }
    assert(out@ =~= check(rel, to@, arg@, opts));
    out
}

/// The switches for an argument of a rest parameter.
fn iterable() -> (r: AssignOpts)
    ensures
        r == iterable_opts(),
{
    AssignOpts {
        allow_unknown_rhs: UnknownRhs::Default,
        allow_assignment_to_param: false,
        allow_assignment_to_param_constraint: false,
        allow_iterable_on_rhs: true,
        use_missing_fields_for_class: false,
    }
}

/// The error, if any, of passing the argument to a parameter of type `to`.
fn check_general<R: TypeRelations>(rel: &R, to: &Type, arg: &TypeOrSpread) -> (r: Vec<ErrorKind>)
    ensures
        r@ == general_errors(rel, to@, arg@),
        r@.len() <= 1,
{
    if arg.spread.is_some() {
        match rel.iterator_element_type(&arg.ty) {
            Ok(elem) => {
                if rel.assign(to, &elem, AssignOpts::new()).is_ok() {
                    return Vec::new();
                }
            },
            Err(IterFailure::MustHaveSymbolIterator) => {
                let mut out: Vec<ErrorKind> = Vec::new();
                out.push(ErrorKind::SpreadMustBeTupleOrPassedToRest { span: arg.span });
                assert(out@ =~= seq![ErrorKind::SpreadMustBeTupleOrPassedToRest { span: arg.span }]);
                return out;
            },
            Err(IterFailure::Other) => {},
        }
        check_assign(rel, to, arg, AssignOpts::new())
    } else {
        let opts = AssignOpts {
            allow_unknown_rhs: if matches!(&arg.ty, Type::TypeLit(_)) {
                UnknownRhs::Deny
            } else {
                UnknownRhs::Allow
            },
            allow_assignment_to_param: false,
            allow_assignment_to_param_constraint: false,
            allow_iterable_on_rhs: false,
            use_missing_fields_for_class: true,
        };
        check_assign(rel, to, arg, opts)
    }
}

/// The error, if any, of one argument of a rest parameter that is neither a
/// tuple nor an array.
fn check_rest_other<R: TypeRelations>(
    rel: &R,
    rest_ty: &Type,
    arg: &TypeOrSpread,
) -> (r: Vec<ErrorKind>)
    ensures
        r@ == rest_other(rel, rest_ty@, arg@),
        r@.len() <= 1,
{
    if rel.assign(rest_ty, &arg.ty, iterable()).is_ok() {
        Vec::new()
    } else {
        check_general(rel, rest_ty, arg)
    }
}

/// The error, if any, of one argument of a rest parameter whose type is an
/// array.
fn check_array_one<R: TypeRelations>(
    rel: &R,
    rest_ty: &Type,
    elem: &Type,
    arg: &TypeOrSpread,
) -> (r: Vec<ErrorKind>)
    ensures
        r@ == array_one(rel, rest_ty@, elem@, arg@),
        r@.len() <= 1,
{
    if arg.spread.is_some() && rel.assign(rest_ty, &arg.ty, iterable()).is_ok() {
        Vec::new()
    } else {
        check_assign(rel, elem, arg, AssignOpts::new())
    }
}

/// The position at which the arguments of the last rest parameter begin.
pub fn find_rest_index(params: &Vec<FnParam>) -> (r: Option<usize>)
    ensures
        match r {
            Some(i) => rest_index(params_model(*params), params.len() as nat) == Some(i as nat),
            None => rest_index(params_model(*params), params.len() as nat).is_none(),
        },
{
    let ghost pm = params_model(*params);
    let mut found: Option<usize> = None;
    let mut shift: usize = 0;
    let mut i: usize = 0;
    while i < params.len()
        invariant
            i <= params.len(),
            pm == params_model(*params),
            shift == optional_before(pm, i as nat),
            shift <= i,
            match found {
                Some(k) => rest_index(pm, i as nat) == Some(k as nat),
                None => rest_index(pm, i as nat).is_none(),
            },
        decreases params.len() - i,
    {
        assert(pm[i as int] == params[i as int]@);
        if params[i].pat.is_rest() {
            found = Some(i - shift);
        } else if !params[i].required {
            shift += 1;
        }
        i += 1;
    }
    found
}

/// The errors that are reported of `all`: the first alone where `first_only`
/// is set.
pub open spec fn reported(all: Seq<ErrorKind>, first_only: bool) -> Seq<ErrorKind> {
    if first_only && all.len() > 0 {
        seq![all[0]]
    } else {
        all
    }
}

/// What is reported of the spread arguments that stand before the rest
/// parameter.
#[verifier::loop_isolation(false)]
fn check_early_spreads(
    args: &Vec<TypeOrSpread>,
    rest: usize,
    is_generic: bool,
) -> (errs: Vec<ErrorKind>)
    ensures
        errs@ == reported(early_spread_errors(args_model(*args), rest as nat, 0), is_generic),
{
    let ghost am = args_model(*args);
    let ghost all = early_spread_errors(am, rest as nat, 0);
    let mut errs: Vec<ErrorKind> = Vec::new();
    let mut i: usize = 0;
    assert(errs@ + all =~= all);
    while i < args.len()
        invariant
            i <= args.len(),
            am == args_model(*args),
            all == errs@ + early_spread_errors(am, rest as nat, i as nat),
            is_generic ==> errs@.len() == 0,
        decreases args.len() - i,
    {
        assert(am[i as int] == args[i as int]@);
        let ghost next = early_spread_errors(am, rest as nat, (i + 1) as nat);
        if args[i].spread.is_some() && i < rest {
            let e = if matches!(&args[i].ty, Type::Tuple(_)) {
                ErrorKind::ExpectedAtLeastNArgsButGotMOrMore {
                    span: args[i].span,
                    min: (rest - 1) as u128,
                }
            } else {
                ErrorKind::SpreadMustBeTupleOrPassedToRest { span: args[i].span }
            };
            let ghost before = errs@;
            errs.push(e);
            assert(before + (seq![e] + next) =~= errs@ + next);
            if is_generic {
                assert(errs@ =~= seq![e]);
                assert(all.len() > 0 && all[0] == e);
                return errs;
            }
        } else {
            assert(errs@ + (Seq::<ErrorKind>::empty() + next) =~= errs@ + next);
        }
        i += 1;
    }
    assert(errs@ + Seq::<ErrorKind>::empty() =~= errs@);
    errs
}

/// The outcome of walking a rest tuple: what is reported, and the position of
/// the first argument that was not consumed.
struct TupleWalk {
    errs: Vec<ErrorKind>,
    next: usize,
}

/// Walks the arguments from `ai` on along the elements of a rest tuple.
#[verifier::loop_isolation(false)]
fn check_tuple<R: TypeRelations>(
    rel: &R,
    rest_ty: &Type,
    elems: &Vec<Type>,
    args: &Vec<TypeOrSpread>,
    ai: usize,
    is_generic: bool,
) -> (r: TupleWalk)
    requires
        ai <= args.len(),
    ensures
        r.errs@ == reported(
            tuple_walk(rel, rest_ty@, types_model(*elems), args_model(*args), 0, ai as nat).0,
            is_generic,
        ),
        r.next <= args.len(),
        !(is_generic && r.errs@.len() > 0) ==> r.next == tuple_walk(
            rel,
            rest_ty@,
            types_model(*elems),
            args_model(*args),
            0,
            ai as nat,
        ).1,
{
    let ghost em = types_model(*elems);
    let ghost am = args_model(*args);
    let ghost all = tuple_walk(rel, rest_ty@, em, am, 0, ai as nat);
    let mut errs: Vec<ErrorKind> = Vec::new();
    let mut k: usize = 0;
    let mut aj: usize = ai;
    assert(errs@ + all.0 =~= all.0);
    while k < elems.len() && aj < args.len()
        invariant
            k <= elems.len(),
            aj <= args.len(),
            em == types_model(*elems),
            am == args_model(*args),
            all.0 == errs@ + tuple_walk(rel, rest_ty@, em, am, k as nat, aj as nat).0,
            all.1 == tuple_walk(rel, rest_ty@, em, am, k as nat, aj as nat).1,
            is_generic ==> errs@.len() == 0,
        decreases elems.len() - k,
    {
        let a = &args[aj];
        assert(am[aj as int] == a@);
        assert(em[k as int] == elems[k as int]@);
        let ghost here = errs@;
        let ghost tw = tuple_walk(rel, rest_ty@, em, am, k as nat, aj as nat);
        if k > 0 && a.spread.is_some() {
            let mut piece = check_assign(rel, rest_ty, a, iterable());
            let ghost pv = piece@;
            errs.append(&mut piece);
            assert(here + tw.0 =~= errs@);
            if is_generic && errs.len() > 0 {
                assert(errs@ =~= seq![pv[0]]);
                assert(all.0.len() > 0 && all.0[0] == pv[0]);
            }
            return TupleWalk { errs, next: aj + 1 };
        }
        let mut piece = check_assign(rel, &elems[k], a, iterable());
        let ghost pv = piece@;
        errs.append(&mut piece);
        let ghost next = tuple_walk(rel, rest_ty@, em, am, (k + 1) as nat, (aj + 1) as nat);
        assert(here + (pv + next.0) =~= errs@ + next.0);
        k += 1;
        aj += 1;
        if is_generic && errs.len() > 0 {
            assert(errs@ =~= seq![pv[0]]);
            assert(all.0.len() > 0 && all.0[0] == pv[0]);
            return TupleWalk { errs, next: aj };
        }
    }
    assert(errs@ + Seq::<ErrorKind>::empty() =~= errs@);
    TupleWalk { errs, next: aj }
}

/// Checks the arguments from `ai` on against a rest parameter whose type is an
/// array.
#[verifier::loop_isolation(false)]
fn check_array<R: TypeRelations>(
    rel: &R,
    rest_ty: &Type,
    elem: &Type,
    args: &Vec<TypeOrSpread>,
    ai: usize,
    is_generic: bool,
) -> (errs: Vec<ErrorKind>)
    requires
        ai <= args.len(),
    ensures
        errs@ == reported(
            array_walk(rel, rest_ty@, elem@, args_model(*args), ai as nat),
            is_generic,
        ),
{
    let ghost am = args_model(*args);
    let ghost all = array_walk(rel, rest_ty@, elem@, am, ai as nat);
    let mut errs: Vec<ErrorKind> = Vec::new();
    let mut aj: usize = ai;
    assert(errs@ + all =~= all);
    while aj < args.len()
        invariant
            aj <= args.len(),
            am == args_model(*args),
            all == errs@ + array_walk(rel, rest_ty@, elem@, am, aj as nat),
            is_generic ==> errs@.len() == 0,
        decreases args.len() - aj,
    {
        let a = &args[aj];
        assert(am[aj as int] == a@);
        let ghost here = errs@;
        let ghost next = array_walk(rel, rest_ty@, elem@, am, (aj + 1) as nat);
        let mut piece = check_array_one(rel, rest_ty, elem, a);
        let ghost pv = piece@;
        errs.append(&mut piece);
        assert(here + (pv + next) =~= errs@ + next);
        aj += 1;
        if is_generic && errs.len() > 0 {
            assert(errs@ =~= seq![pv[0]]);
            assert(all.len() > 0 && all[0] == pv[0]);
            return errs;
        }
    }
    assert(errs@ + Seq::<ErrorKind>::empty() =~= errs@);
    errs
}

/// What one step of the walk reports, and where the walk goes on.
struct Step {
    errs: Vec<ErrorKind>,
    pi: usize,
    ai: usize,
}

/// One step of the walk at a parameter that takes arguments.
fn check_step<R: TypeRelations>(
    env: &TypeEnv,
    rel: &R,
    params: &Vec<FnParam>,
    args: &Vec<TypeOrSpread>,
    pi: usize,
    ai: usize,
    is_generic: bool,
) -> (r: Step)
    requires
        pi < params.len(),
        ai < args.len(),
        !is_this_pat(params_model(*params)[pi as int].pat),
    ensures
        pi < r.pi <= params.len(),
        r.ai <= args.len(),
        r.errs@.len() > 0 && is_generic ==> r.errs@ == reported(
            walk(env@, rel, params_model(*params), args_model(*args), pi as nat, ai as nat),
            true,
        ),
        !(r.errs@.len() > 0 && is_generic) ==> walk(
            env@,
            rel,
            params_model(*params),
            args_model(*args),
            pi as nat,
            ai as nat,
        ) == r.errs@ + walk(
            env@,
            rel,
            params_model(*params),
            args_model(*args),
            r.pi as nat,
            r.ai as nat,
        ),
{
    let ghost pm = params_model(*params);
    let ghost am = args_model(*args);
    let param = &params[pi];
    let arg = &args[ai];
    assert(pm[pi as int] == param@);
    assert(am[ai as int] == arg@);
    let ghost tail = walk(env@, rel, pm, am, (pi + 1) as nat, (ai + 1) as nat);
    if param.pat.is_rest() {
        let pty = env.normalize(&param.ty);
        match pty {
            Type::Tuple(elems) => {
                if elems.len() > 0 && arg.spread.is_none() {
                    let t = check_tuple(rel, &param.ty, elems, args, ai, is_generic);
                    proof {
                        let tw = tuple_walk(rel, param.ty@, types_model(*elems), am, 0, ai as nat);
                        if t.errs@.len() > 0 && is_generic {
                            assert((tw.0 + walk(env@, rel, pm, am, (pi + 1) as nat, tw.1))[0]
                                == tw.0[0]);
                        }
                    }
                    return Step { errs: t.errs, pi: pi + 1, ai: t.next };
                }
                let errs = check_rest_other(rel, &param.ty, arg);
                proof {
                    if errs@.len() > 0 {
                        assert((errs@ + tail)[0] == errs@[0]);
                        assert(errs@ =~= seq![errs@[0]]);
                    }
                }
                Step { errs, pi: pi + 1, ai: ai + 1 }
            },
            Type::Array(elem) => {
                let errs = check_array(rel, &param.ty, elem, args, ai, is_generic);
                proof {
                    let all = array_walk(rel, param.ty@, elem@, am, ai as nat);
                    assert(walk(env@, rel, pm, am, params.len() as nat, args.len() as nat)
                        =~= Seq::<ErrorKind>::empty());
                    assert(all + Seq::<ErrorKind>::empty() =~= all);
                }
                Step { errs, pi: params.len(), ai: args.len() }
            },
            _ => {
                let errs = check_rest_other(rel, &param.ty, arg);
                proof {
                    if errs@.len() > 0 {
                        assert((errs@ + tail)[0] == errs@[0]);
                        assert(errs@ =~= seq![errs@[0]]);
                    }
                }
                Step { errs, pi: pi + 1, ai: ai + 1 }
            },
        }
    } else {
        let errs = check_general(rel, &param.ty, arg);
        proof {
            if errs@.len() > 0 {
                assert((errs@ + tail)[0] == errs@[0]);
                assert(errs@ =~= seq![errs@[0]]);
            }
        }
        Step { errs, pi: pi + 1, ai: ai + 1 }
    }
}

/// Checks the arguments of a call, spreads worked out, against the
/// parameters of a signature, and returns what is to be reported: every
/// error for a plain signature, the first alone for a generic one.
#[verifier::loop_isolation(false)]
pub fn validate_arg_types<R: TypeRelations>(
    env: &TypeEnv,
    rel: &R,
    params: &Vec<FnParam>,
    spread_arg_types: &Vec<TypeOrSpread>,
    is_generic: bool,
) -> (errors: Vec<ErrorKind>)
    ensures
        errors@ == arg_type_errors(
            env@,
            rel,
            params_model(*params),
            args_model(*spread_arg_types),
            is_generic,
        ),
{
    let args = spread_arg_types;
    let ghost pm = params_model(*params);
    let ghost am = args_model(*args);
    let ghost total = all_arg_type_errors(env@, rel, pm, am);
    let ghost whole = walk(env@, rel, pm, am, 0, 0);
    let mut errs: Vec<ErrorKind> = match find_rest_index(params) {
        Some(rest) => check_early_spreads(args, rest, is_generic),
        None => Vec::new(),
    };
    if is_generic && errs.len() > 0 {
        return errs;
    }
    let mut pi: usize = 0;
    let mut ai: usize = 0;
    while pi < params.len() && ai < args.len()
        invariant
            pi <= params.len(),
            ai <= args.len(),
            pm == params_model(*params),
            am == args_model(*args),
            total == errs@ + walk(env@, rel, pm, am, pi as nat, ai as nat),
            is_generic ==> errs@.len() == 0,
        decreases params.len() - pi,
    {
        assert(pm[pi as int] == params[pi as int]@);
        if params[pi].pat.is_this() {
            pi += 1;
        } else {
            let ghost here = errs@;
            let ghost cur = walk(env@, rel, pm, am, pi as nat, ai as nat);
            let step = check_step(env, rel, params, args, pi, ai, is_generic);
            let mut more = step.errs;
            let ghost mv = more@;
            errs.append(&mut more);
            pi = step.pi;
            ai = step.ai;
            if is_generic && errs.len() > 0 {
                assert(errs@ =~= mv);
                assert(cur.len() > 0 && total.len() > 0 && total[0] == cur[0]);
                return errs;
            }
            assert(here + (mv + walk(env@, rel, pm, am, pi as nat, ai as nat)) =~= errs@ + walk(
                env@,
                rel,
                pm,
                am,
                pi as nat,
                ai as nat,
            ));
        }
    }
    assert(errs@ + Seq::<ErrorKind>::empty() =~= errs@);
    errs
}

} // verus!
