//! Building unions: members listed once, nested unions flattened, `never`
//! dropped.
use vstd::prelude::*;

use crate::model::{types_model, SpecType};
use crate::types::{Keyword, Type};

verus! {

/// The type `never`.
pub open spec fn never() -> SpecType {
    SpecType::Keyword(Keyword::Never)
}

/// The members of a union; a type that is no union is its own single member.
pub open spec fn union_members(t: SpecType) -> Seq<SpecType> {
    match t {
        SpecType::Union(ts) => ts,
        _ => seq![t],
    }
}

/// The first `n` of `ts` without repetitions: each type stays at its first
/// occurrence.
pub open spec fn dedup(ts: Seq<SpecType>, n: nat) -> Seq<SpecType>
    decreases n,
{
    if n == 0 {
        Seq::empty()
    } else {
        let d = dedup(ts, (n - 1) as nat);
        if d.contains(ts[n - 1]) {
            d
        } else {
            d.push(ts[n - 1])
        }
    }
}

/// The union of `ts` as they stand: `never` for none, the type itself for
/// one.
pub open spec fn make_union(ts: Seq<SpecType>) -> SpecType {
    if ts.len() == 0 {
        never()
    } else if ts.len() == 1 {
        ts[0]
    } else {
        SpecType::Union(ts)
    }
}

/// The first `n` of `ts` with the members of unions in place of the unions,
/// and without `never`.
pub open spec fn flatten(ts: Seq<SpecType>, n: nat) -> Seq<SpecType>
    decreases n,
{
    if n == 0 {
        Seq::empty()
    } else {
        flatten(ts, (n - 1) as nat) + union_members(ts[n - 1]).filter(|t: SpecType| t != never())
    }
}

/// The union of `ts`: flattened, without `never`, each member once.
pub open spec fn union_of(ts: Seq<SpecType>) -> SpecType {
    let flat = flatten(ts, ts.len());
    make_union(dedup(flat, flat.len()))
}

/// Whether `ts` holds a type equal to `t`.
pub fn contains_type(ts: &Vec<Type>, t: &Type) -> (r: bool)
    ensures
        r == types_model(*ts).contains(t@),
{
    let mut i: usize = 0;
    while i < ts.len()
        invariant
            i <= ts.len(),
            forall|j: int| 0 <= j < i ==> types_model(*ts)[j] != t@,
        decreases ts.len() - i,
    {
        if ts[i].same(t) {
            assert(types_model(*ts)[i as int] == t@);
            return true;
        }
        i += 1;
    }
    false
}

/// Removes the repetitions from `ts`.
pub fn dedup_types(ts: Vec<Type>) -> (r: Vec<Type>)
    ensures
        types_model(r) == dedup(types_model(ts), ts.len() as nat),
{
    let ghost tm = types_model(ts);
    let mut out: Vec<Type> = Vec::new();
    let mut i: usize = 0;
    assert(types_model(out) =~= Seq::empty());
    while i < ts.len()
        invariant
            i <= ts.len(),
            tm == types_model(ts),
            types_model(out) == dedup(tm, i as nat),
        decreases ts.len() - i,
    {
        let ghost before = types_model(out);
        assert(tm[i as int] == ts[i as int]@);
        if !contains_type(&out, &ts[i]) {
            out.push(ts[i].clone());
            assert(types_model(out) =~= before.push(tm[i as int]));
        }
        i += 1;
    }
    out
}

/// The union of `ts` as they stand.
pub fn new_union_without_dedup(ts: Vec<Type>) -> (r: Type)
    ensures
        r@ == make_union(types_model(ts)),
{
    let mut ts = ts;
    if ts.len() == 0 {
        Type::Keyword(Keyword::Never)
    } else if ts.len() == 1 {
        let ghost tm = types_model(ts);
        let t = ts.pop().unwrap();
        assert(t@ == tm[0]);
        t
    } else {
        Type::Union(ts)
    }
}

/// The union of `ts`: flattened, without `never`, each member once.
pub fn union(ts: Vec<Type>) -> (r: Type)
    ensures
        r@ == union_of(types_model(ts)),
{
    let ghost tm = types_model(ts);
    let mut flat: Vec<Type> = Vec::new();
    let mut i: usize = 0;
    assert(types_model(flat) =~= Seq::empty());
    while i < ts.len()
        invariant
            i <= ts.len(),
            tm == types_model(ts),
            types_model(flat) == flatten(tm, i as nat),
        decreases ts.len() - i,
    {
        let ghost before = types_model(flat);
        assert(tm[i as int] == ts[i as int]@);
        match &ts[i] {
            Type::Union(ms) => {
                let ghost mm = types_model(*ms);
                let mut k: usize = 0;
                assert(mm.subrange(0, 0) =~= Seq::empty());
                while k < ms.len()
                    invariant
                        k <= ms.len(),
                        mm == types_model(*ms),
                        types_model(flat) == before + mm.subrange(0, k as int).filter(
                            |t: SpecType| t != never(),
                        ),
                    decreases ms.len() - k,
                {
                    let ghost here = types_model(flat);
                    let ghost prefix = mm.subrange(0, k as int);
                    assert(mm.subrange(0, k + 1) =~= prefix.push(mm[k as int]));
                    proof {
                        lemma_filter_push(prefix, mm[k as int]);
                    }
                    if !matches!(&ms[k], Type::Keyword(Keyword::Never)) {
                        flat.push(ms[k].clone());
                        assert(types_model(flat) =~= here.push(mm[k as int]));
                    }
                    assert(types_model(flat) =~= before + mm.subrange(0, k + 1).filter(
                        |t: SpecType| t != never(),
                    ));
                    k += 1;
                }
                assert(mm.subrange(0, k as int) =~= mm);
            },
            Type::Keyword(Keyword::Never) => {
                proof {
                    lemma_filter_push(Seq::empty(), tm[i as int]);
                    assert(Seq::<SpecType>::empty().push(tm[i as int]) =~= seq![tm[i as int]]);
                }
                assert(types_model(flat) =~= before + seq![tm[i as int]].filter(
                    |t: SpecType| t != never(),
                ));
            },
            _ => {
                flat.push(ts[i].clone());
                proof {
                    lemma_filter_push(Seq::empty(), tm[i as int]);
                    assert(Seq::<SpecType>::empty().push(tm[i as int]) =~= seq![tm[i as int]]);
                }
                assert(types_model(flat) =~= before + seq![tm[i as int]].filter(
                    |t: SpecType| t != never(),
                ));
            },
        }
        i += 1;
    }
    let unique = dedup_types(flat);
    new_union_without_dedup(unique)
}

/// Filtering a sequence with one more element.
proof fn lemma_filter_push(s: Seq<SpecType>, t: SpecType)
    ensures
        s.push(t).filter(|x: SpecType| x != never()) == if t != never() {
            s.filter(|x: SpecType| x != never()).push(t)
        } else {
            s.filter(|x: SpecType| x != never())
        },
        Seq::<SpecType>::empty().filter(|x: SpecType| x != never()) == Seq::<SpecType>::empty(),
{
    reveal(Seq::filter);
    assert(s.push(t).drop_last() =~= s);
}

} // verus!
