//! Spread arguments: `f(...xs)` stands for as many arguments as `xs` has
//! elements, where that is known.
use vstd::prelude::*;

use crate::env::{SpecEnv, TypeEnv};
use crate::errors::{ErrorKind, IterFailure};
use crate::model::{args_model, call_args_model, types_model, SpecArg, SpecType, SpecTypeOrSpread};
use crate::relations::TypeRelations;
use crate::span::Span;
use crate::types::{Arg, Keyword, Type, TypeOrSpread};

verus! {

/// The argument types of a call with the spreads worked out, and whether the
/// number of arguments is still unknown.
#[derive(Clone, Debug, PartialEq, Eq)]
pub struct SpreadArgs {
    pub types: Vec<TypeOrSpread>,
    pub arg_count_unknown: bool,
}

/// The model of [`SpreadArgs`].
pub struct SpecSpreadArgs {
    pub types: Seq<SpecTypeOrSpread>,
    pub arg_count_unknown: bool,
}

impl View for SpreadArgs {
    type V = SpecSpreadArgs;

    open spec fn view(&self) -> SpecSpreadArgs {
        SpecSpreadArgs { types: args_model(self.types), arg_count_unknown: self.arg_count_unknown }
    }
}

/// The error that a failed iteration of a spread argument is reported as.
pub open spec fn iteration_error(f: IterFailure, span: Span) -> ErrorKind {
    match f {
        IterFailure::MustHaveSymbolIterator => ErrorKind::MustHaveSymbolIterator { span },
        IterFailure::Other => ErrorKind::NotIterable { span },
    }
}

/// One entry for each element of a spread tuple, at the position of the
/// spread operator.
pub open spec fn tuple_entries(at: Span, elems: Seq<SpecType>) -> Seq<SpecTypeOrSpread> {
    Seq::new(elems.len(), |k: int| SpecTypeOrSpread { span: at, spread: None, ty: elems[k] })
}

/// The argument as it stands, without a look at its spread.
pub open spec fn plain_entry(arg: SpecArg) -> SpecTypeOrSpread {
    SpecTypeOrSpread { span: arg.span, spread: arg.spread, ty: arg.ty }
}

/// What one argument becomes.
///
/// An argument without a spread stays. A spread tuple gives one entry per
/// element. A spread `any` gives one entry of type `any`, a spread array
/// stays as it is, and any other spread value gives one spread entry of the
/// type of its elements; in those three cases the number of arguments is
/// unknown.
pub open spec fn spread_one<R: TypeRelations>(
    env: SpecEnv,
    rel: &R,
    arg: SpecArg,
) -> Result<SpecSpreadArgs, ErrorKind> {
    match arg.spread {
        None => Ok(SpecSpreadArgs { types: seq![plain_entry(arg)], arg_count_unknown: false }),
        Some(at) => {
            let ty = env.normal(arg.ty);
            match ty {
                SpecType::Tuple(elems) => Ok(
                    SpecSpreadArgs { types: tuple_entries(at, elems), arg_count_unknown: false },
                ),
                SpecType::Keyword(Keyword::Any) => Ok(
                    SpecSpreadArgs {
                        types: seq![SpecTypeOrSpread { span: arg.span, spread: None, ty }],
                        arg_count_unknown: true,
                    },
                ),
                SpecType::Array(_) => Ok(
                    SpecSpreadArgs { types: seq![plain_entry(arg)], arg_count_unknown: true },
                ),
                _ => match rel.iterated(ty) {
                    Ok(elem) => Ok(
                        SpecSpreadArgs {
                            types: seq![
                                SpecTypeOrSpread { span: arg.span, spread: arg.spread, ty: elem },
                            ],
                            arg_count_unknown: true,
                        },
                    ),
                    Err(f) => Err(iteration_error(f, arg.span)),
                },
            }
        },
    }
}

/// What the first `n` arguments become: the entries of each in turn, or the
/// error of the first one that cannot be iterated.
pub open spec fn spread_upto<R: TypeRelations>(
    env: SpecEnv,
    rel: &R,
    args: Seq<SpecArg>,
    n: nat,
) -> Result<SpecSpreadArgs, ErrorKind>
    decreases n,
{
    if n == 0 {
        Ok(SpecSpreadArgs { types: Seq::empty(), arg_count_unknown: false })
    } else {
        match spread_upto(env, rel, args, (n - 1) as nat) {
            Err(e) => Err(e),
            Ok(done) => match spread_one(env, rel, args[n - 1]) {
                Err(e) => Err(e),
                Ok(more) => Ok(
                    SpecSpreadArgs {
                        types: done.types + more.types,
                        arg_count_unknown: done.arg_count_unknown || more.arg_count_unknown,
                    },
                ),
            },
        }
    }
}

/// The argument types of a call with the spreads worked out.
pub open spec fn spread<R: TypeRelations>(
    env: SpecEnv,
    rel: &R,
    args: Seq<SpecArg>,
) -> Result<SpecSpreadArgs, ErrorKind> {
    spread_upto(env, rel, args, args.len())
}

/// After the spreads are worked out, an entry is spread only where the
/// number of arguments is unknown.
pub proof fn law_spread_entries_mean_unknown_count<R: TypeRelations>(
    env: SpecEnv,
    rel: &R,
    args: Seq<SpecArg>,
    n: nat,
)
    requires
        n <= args.len(),
    ensures
        match spread_upto(env, rel, args, n) {
            Ok(s) => forall|k: int|
                0 <= k < s.types.len() && (#[trigger] s.types[k]).spread.is_some()
                    ==> s.arg_count_unknown,
            Err(_) => true,
        },
    decreases n,
{
    if n > 0 {
        law_spread_entries_mean_unknown_count(env, rel, args, (n - 1) as nat);
    }
}

/// Once an argument fails, the failure stays whatever follows.
proof fn lemma_spread_error_stays<R: TypeRelations>(
    env: SpecEnv,
    rel: &R,
    args: Seq<SpecArg>,
    k: nat,
    n: nat,
)
    requires
        k <= n,
        spread_upto(env, rel, args, k) is Err,
    ensures
        spread_upto(env, rel, args, n) == spread_upto(env, rel, args, k),
    decreases n,
{
    if k < n {
        lemma_spread_error_stays(env, rel, args, k, (n - 1) as nat);
    }
}

/// Works out the spread arguments of a call.
pub fn spread_args<R: TypeRelations>(
    env: &TypeEnv,
    rel: &R,
    args: &Vec<Arg>,
) -> (r: Result<SpreadArgs, ErrorKind>)
    ensures
        match r {
            Ok(s) => spread(env@, rel, call_args_model(*args)) == Ok::<SpecSpreadArgs, ErrorKind>(s@),
            Err(e) => spread(env@, rel, call_args_model(*args)) == Err::<SpecSpreadArgs, ErrorKind>(
                e,
            ),
        },
{
    let ghost am = call_args_model(*args);
    let mut out: Vec<TypeOrSpread> = Vec::new();
    let mut unknown = false;
    let mut i: usize = 0;
    assert(args_model(out) =~= Seq::empty());
    while i < args.len()
        invariant
            i <= args.len(),
            am == call_args_model(*args),
            spread_upto(env@, rel, am, i as nat) == Ok::<SpecSpreadArgs, ErrorKind>(
                SpecSpreadArgs { types: args_model(out), arg_count_unknown: unknown },
            ),
        decreases args.len() - i,
    {
        let arg = &args[i];
        assert(am[i as int] == arg@);
        let ghost before = args_model(out);
        match arg.spread {
            None => {
                out.push(TypeOrSpread { span: arg.span, spread: None, ty: arg.ty.clone() });
                assert(args_model(out) =~= before + seq![plain_entry(arg@)]);
            },
            Some(at) => {
                let ty = env.normalize(&arg.ty);
                match ty {
                    Type::Tuple(elems) => {
                        let ghost em = types_model(*elems);
                        let mut k: usize = 0;
                        while k < elems.len()
                            invariant
                                k <= elems.len(),
                                em == types_model(*elems),
                                args_model(out) == before + tuple_entries(at, em).subrange(
                                    0,
                                    k as int,
                                ),
                            decreases elems.len() - k,
                        {
                            let ghost prev = args_model(out);
                            out.push(TypeOrSpread { span: at, spread: None, ty: elems[k].clone() });
                            assert(args_model(out) =~= prev + seq![tuple_entries(at, em)[k as int]]);
                            assert(args_model(out) =~= before + tuple_entries(at, em).subrange(
                                0,
                                k + 1,
                            ));
                            k += 1;
                        }
                        assert(tuple_entries(at, em).subrange(0, k as int) =~= tuple_entries(
                            at,
                            em,
                        ));
                    },
                    Type::Keyword(Keyword::Any) => {
                        unknown = true;
                        out.push(
                            TypeOrSpread { span: arg.span, spread: None, ty: Type::Keyword(Keyword::Any) },
                        );
                        assert(args_model(out) =~= before + seq![
                            SpecTypeOrSpread { span: arg.span, spread: None, ty: ty@ },
                        ]);
                    },
                    Type::Array(_) => {
                        unknown = true;
                        out.push(TypeOrSpread { span: arg.span, spread: arg.spread, ty: arg.ty.clone() });
                        assert(args_model(out) =~= before + seq![plain_entry(arg@)]);
                    },
                    _ => {
                        unknown = true;
                        match rel.iterator_element_type(ty) {
                            Ok(elem) => {
                                let ghost entry = SpecTypeOrSpread {
                                    span: arg.span,
                                    spread: arg.spread,
                                    ty: elem@,
                                };
                                out.push(TypeOrSpread { span: arg.span, spread: arg.spread, ty: elem });
                                assert(args_model(out) =~= before + seq![entry]);
                            },
                            Err(f) => {
                                proof {
                                    lemma_spread_error_stays(
                                        env@,
                                        rel,
                                        am,
                                        (i + 1) as nat,
                                        am.len(),
                                    );
                                }
                                return Err(
                                    match f {
                                        IterFailure::MustHaveSymbolIterator => {
                                            ErrorKind::MustHaveSymbolIterator { span: arg.span }
                                        },
                                        IterFailure::Other => ErrorKind::NotIterable { span: arg.span },
                                    },
                                );
                            },
                        }
                    },
                }
            },
        }
        i += 1;
    }
    Ok(SpreadArgs { types: out, arg_count_unknown: unknown })
}

} // verus!
