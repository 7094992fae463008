//! Choosing among the candidates of a call.
use vstd::prelude::*;

use crate::candidates::{callee_candidates, extract_callee_candidates};
use crate::errors::ErrorKind;
use crate::model::{any, candidates_model, SpecCandidate, SpecType};
use crate::ranking::{
    before, check_call_args, classify, is_best, law_stable_order_starts_with_best, order_by_rank,
    ArgCheckResult,
};
use crate::relations::TypeRelations;
use crate::return_type::{get_return_type, return_type};
use crate::site::{CallSite, Run, SpecCallSite, SpecOutcome, SpecRun};
use crate::types::{CallCandidate, ExtractKind, Keyword, Type};

verus! {

/// How the candidate fits the call.
pub open spec fn fit<R: TypeRelations>(
    rel: &R,
    site: SpecCallSite,
    c: SpecCandidate,
) -> ArgCheckResult {
    classify(
        rel,
        site.span,
        c.type_params,
        c.params,
        site.type_args,
        site.args,
        site.arg_count_unknown,
        site.is_calling_iife,
    )
}

/// How each candidate fits the call.
pub open spec fn fits<R: TypeRelations>(
    rel: &R,
    site: SpecCallSite,
    cs: Seq<SpecCandidate>,
) -> Seq<ArgCheckResult> {
    Seq::new(cs.len(), |i: int| fit(rel, site, cs[i]))
}

/// The position of the first of the best among the first `n` results.
pub open spec fn best_of(results: Seq<ArgCheckResult>, n: nat) -> int
    decreases n,
{
    if n <= 1 {
        0
    } else {
        let b = best_of(results, (n - 1) as nat);
        if results[n - 1].rank() < results[b].rank() {
            n - 1
        } else {
            b
        }
    }
}

/// Whether none of the candidates can take the call.
pub open spec fn all_failed(results: Seq<ArgCheckResult>) -> bool {
    forall|i: int| 0 <= i < results.len() ==> (#[trigger] results[i]).is_failure()
}

/// The error of a callee that offers nothing to this kind of call.
pub open spec fn no_signature(site: SpecCallSite) -> ErrorKind {
    match site.kind {
        ExtractKind::Call => ErrorKind::NoCallSignature { span: site.span },
        ExtractKind::New => ErrorKind::NoNewSignature { span: site.span },
    }
}

/// The resolution of a call among `candidates`; `None` where there are none.
///
/// Where every one of several candidates fails, the call has no matching
/// overload. Otherwise the call is resolved with the candidate that fits
/// best, the first among equals.
#[verifier::opaque]
pub open spec fn selection<R: TypeRelations>(
    rel: &R,
    site: SpecCallSite,
    candidates: Seq<SpecCandidate>,
) -> Option<SpecRun> {
    let results = fits(rel, site, candidates);
    if candidates.len() == 0 {
        None
    } else if candidates.len() > 1 && all_failed(results) {
        Some(SpecRun::of(SpecOutcome::Failed(ErrorKind::NoMatchingOverload { span: site.span })))
    } else {
        let c = candidates[best_of(results, results.len())];
        Some(return_type(rel, site, c.type_params, c.params, c.ret_ty))
    }
}

/// The resolution of a call of a value of type `callee`: with the best of the
/// signatures that the type offers; a value of type `any` may be called in
/// any way.
#[verifier::opaque]
pub open spec fn best_return<R: TypeRelations>(
    rel: &R,
    site: SpecCallSite,
    callee: SpecType,
) -> SpecRun {
    match selection(rel, site, callee_candidates(site.env, site.kind, callee)) {
        Some(run) => run,
        None => if callee == any() {
            SpecRun::of(SpecOutcome::Resolved(any()))
        } else {
            SpecRun::of(SpecOutcome::Failed(no_signature(site)))
        },
    }
}

/// Several candidates that all fail leave the call without a matching
/// overload: no type is guessed.
pub proof fn law_failing_overloads_are_rejected<R: TypeRelations>(
    rel: &R,
    site: SpecCallSite,
    candidates: Seq<SpecCandidate>,
)
    requires
        candidates.len() > 1,
        all_failed(fits(rel, site, candidates)),
    ensures
        selection(rel, site, candidates) == Some(
            SpecRun::of(SpecOutcome::Failed(ErrorKind::NoMatchingOverload { span: site.span })),
        ),
{
    reveal(selection);
}

/// The candidate that is chosen fits no worse than any other, and comes
/// first among those that fit as well.
pub proof fn law_selection_takes_the_best<R: TypeRelations>(
    rel: &R,
    site: SpecCallSite,
    candidates: Seq<SpecCandidate>,
)
    requires
        candidates.len() > 0,
        candidates.len() == 1 || !all_failed(fits(rel, site, candidates)),
    ensures
        ({
            let results = fits(rel, site, candidates);
            let b = best_of(results, results.len());
            &&& is_best(results, b)
            &&& selection(rel, site, candidates) == Some(
                return_type(
                    rel,
                    site,
                    candidates[b].type_params,
                    candidates[b].params,
                    candidates[b].ret_ty,
                ),
            )
        }),
{
    reveal(selection);
    let results = fits(rel, site, candidates);
    lemma_best_of_is_best(results, results.len());
}

/// The best of the first `n` results comes before every other of them.
pub proof fn lemma_best_of_is_best(results: Seq<ArgCheckResult>, n: nat)
    requires
        0 < n <= results.len(),
    ensures
        0 <= best_of(results, n) < n,
        forall|i: int|
            0 <= i < n && i != best_of(results, n) ==> before(results, best_of(results, n), i),
    decreases n,
{
    if n > 1 {
        lemma_best_of_is_best(results, (n - 1) as nat);
        let b = best_of(results, (n - 1) as nat);
        let now = best_of(results, n);
        assert forall|i: int| 0 <= i < n && i != now implies before(results, now, i) by {
            if i != b && i != n - 1 {
                assert(before(results, b, i));
            }
        }
    }
}

/// The position of the candidate that fits best: the first in a stable order
/// by rank.
pub fn best_index(results: &Vec<ArgCheckResult>) -> (b: usize)
    requires
        results.len() > 0,
    ensures
        b == best_of(results@, results.len() as nat),
        b < results.len(),
{
    let order = order_by_rank(results);
    proof {
        law_stable_order_starts_with_best(results@, order@);
        lemma_best_of_is_best(results@, results@.len());
        let mine = best_of(results@, results@.len());
        let first = order[0] as int;
        if mine != first {
            assert(before(results@, mine, first));
            assert(before(results@, first, mine));
        }
    }
    order[0]
}

/// Classifies each candidate against the call.
pub fn classify_all<R: TypeRelations>(
    rel: &R,
    site: &CallSite,
    candidates: &Vec<CallCandidate>,
) -> (r: Vec<ArgCheckResult>)
    ensures
        r@ == fits(rel, site@, candidates_model(*candidates)),
{
    let ghost cm = candidates_model(*candidates);
    let mut out: Vec<ArgCheckResult> = Vec::new();
    let mut i: usize = 0;
    while i < candidates.len()
        invariant
            i <= candidates.len(),
            cm == candidates_model(*candidates),
            out.len() == i,
            forall|j: int| 0 <= j < i ==> out[j] == fit(rel, site@, cm[j]),
        decreases candidates.len() - i,
    {
        let c = &candidates[i];
        assert(cm[i as int] == c@);
        let r = check_call_args(
            rel,
            site.span,
            &c.type_params,
            &c.params,
            site.type_args,
            site.args,
            site.arg_count_unknown,
            site.is_calling_iife,
        );
        out.push(r);
        i += 1;
    }
    assert(out@ =~= fits(rel, site@, cm));
    out
}

/// Whether none of the candidates can take the call.
fn every_one_failed(results: &Vec<ArgCheckResult>) -> (r: bool)
    ensures
        r == all_failed(results@),
{
    let mut i: usize = 0;
    while i < results.len()
        invariant
            i <= results.len(),
            forall|j: int| 0 <= j < i ==> (#[trigger] results[j]).is_failure(),
        decreases results.len() - i,
    {
        if !results[i].failed() {
            return false;
        }
        i += 1;
    }
    true
}

/// The error of a callee that offers nothing to this kind of call.
pub fn no_signature_error(site: &CallSite) -> (r: ErrorKind)
    ensures
        r == no_signature(site@),
{
    match site.kind {
        ExtractKind::Call => ErrorKind::NoCallSignature { span: site.span },
        ExtractKind::New => ErrorKind::NoNewSignature { span: site.span },
    }
}

/// Resolves the call with the best of `candidates`; `None` where there are
/// none.
pub fn select_and_invoke<R: TypeRelations>(
    rel: &R,
    site: &CallSite,
    candidates: &Vec<CallCandidate>,
) -> (r: Option<Run>)
    ensures
        match r {
            Some(run) => selection(rel, site@, candidates_model(*candidates)) == Some(run@),
            None => selection(rel, site@, candidates_model(*candidates)).is_none(),
        },
{
    reveal(selection);
    let results = classify_all(rel, site, candidates);
    if candidates.len() == 0 {
        return None;
    }
    if candidates.len() > 1 && every_one_failed(&results) {
        return Some(Run::failed(ErrorKind::NoMatchingOverload { span: site.span }));
    }
    let best = best_index(&results);
    let c = &candidates[best];
    assert(candidates_model(*candidates)[best as int] == c@);
    Some(get_return_type(rel, site, &c.type_params, &c.params, &c.ret_ty))
}

/// Resolves a call of a value of type `callee` with the best of the
/// signatures that the type offers.
pub fn get_best_return_type<R: TypeRelations>(rel: &R, site: &CallSite, callee: &Type) -> (r: Run)
    ensures
        r@ == best_return(rel, site@, callee@),
{
    reveal(best_return);
    let candidates = extract_callee_candidates(site.env, site.kind, callee);
    match select_and_invoke(rel, site, &candidates) {
        Some(run) => run,
        None => if callee.is_any() {
            Run::resolved(Type::Keyword(Keyword::Any))
        } else {
            Run::failed(no_signature_error(site))
        },
    }
}

} // verus!
