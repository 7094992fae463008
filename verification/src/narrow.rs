//! Narrowing by type predicates: what a call of `isFoo(x)` tells about `x`.
use vstd::prelude::*;

use crate::env::{SpecEnv, TypeEnv};
use crate::model::{
    call_args_model, opt_type_model, params_model, types_model, SpecArg, SpecArgExpr, SpecFnParam,
    SpecPat, SpecType,
};
use crate::relations::TypeRelations;
use crate::subst::TypeMap;
use crate::types::{Arg, ArgExpr, FnParam, Name, Pat, PredicateTarget, Type};
use crate::unions::{dedup, dedup_types, make_union, new_union_without_dedup, union_members};

verus! {

/// A narrowed type, and whether it may later be replaced by its subtypes: it
/// may not where the asserted type stands for a member that it widens.
#[derive(Clone, Debug, PartialEq, Eq)]
pub struct Narrowed {
    pub ty: Type,
    pub prevent_converting_to_children: bool,
}

/// The model of [`Narrowed`].
pub struct SpecNarrowed {
    pub ty: SpecType,
    pub prevent_converting_to_children: bool,
}

impl View for Narrowed {
    type V = SpecNarrowed;

    open spec fn view(&self) -> SpecNarrowed {
        SpecNarrowed {
            ty: self.ty@,
            prevent_converting_to_children: self.prevent_converting_to_children,
        }
    }
}

/// What a call proposes for a variable: its type from here on, and the type
/// that the predicate asserted.
#[derive(Clone, Debug, PartialEq, Eq)]
pub struct Fact {
    pub var: Name,
    pub narrowed: Type,
    pub asserted: Type,
    pub prevent_converting_to_children: bool,
}

/// The model of [`Fact`].
pub struct SpecFact {
    pub var: Name,
    pub narrowed: SpecType,
    pub asserted: SpecType,
    pub prevent_converting_to_children: bool,
}

impl View for Fact {
    type V = SpecFact;

    open spec fn view(&self) -> SpecFact {
        SpecFact {
            var: self.var,
            narrowed: self.narrowed@,
            asserted: self.asserted@,
            prevent_converting_to_children: self.prevent_converting_to_children,
        }
    }
}

/// The models of the facts, in order.
pub open spec fn facts_model(facts: Vec<Fact>) -> Seq<SpecFact> {
    Seq::new(facts.len() as nat, |i: int| facts[i]@)
}

/// An interface that extends nothing.
pub open spec fn is_plain_interface(t: SpecType) -> bool {
    t matches SpecType::Interface(i) && i.extends.len() == 0
}

/// A class stands for its instances.
pub open spec fn materialized(t: SpecType) -> SpecType {
    match t {
        SpecType::ClassDef(def) => SpecType::Class(def),
        _ => t,
    }
}

/// Whether the type is a primitive or a literal type.
pub open spec fn is_primitive(t: SpecType) -> bool {
    t is Keyword || t is Lit
}

/// Whether `asserted` widens one of the first `n` members.
pub open spec fn upcasts<R: TypeRelations>(
    rel: &R,
    members: Seq<SpecType>,
    asserted: SpecType,
    n: nat,
) -> bool {
    exists|i: int| 0 <= i < n && rel.extends_spec(asserted, #[trigger] members[i]) == Some(true)
}

/// What the first `n` members of a union leave behind: the asserted type for
/// each member that it extends, and each other member that extends it.
pub open spec fn kept<R: TypeRelations>(
    rel: &R,
    members: Seq<SpecType>,
    asserted: SpecType,
    n: nat,
) -> Seq<SpecType>
    decreases n,
{
    if n == 0 {
        Seq::empty()
    } else {
        let before = kept(rel, members, asserted, (n - 1) as nat);
        let m = members[n - 1];
        if rel.extends_spec(asserted, m) == Some(true) {
            before.push(materialized(asserted))
        } else if rel.extends_spec(m, asserted) == Some(true) {
            before.push(m)
        } else {
            before
        }
    }
}

/// The types that narrowing a union or an interface leaves, each once.
pub open spec fn narrowed_members<R: TypeRelations>(
    env: SpecEnv,
    rel: &R,
    orig: SpecType,
    asserted: SpecType,
) -> Seq<SpecType> {
    let o = env.normal(orig);
    let a = env.normal(asserted);
    let members = union_members(o);
    let found = kept(rel, members, a, members.len());
    let all = if found.len() == 0 {
        seq![materialized(a)]
    } else {
        found
    };
    dedup(all, all.len())
}

/// The type of a value of type `orig` that is known to be of type
/// `asserted`.
///
/// Two interfaces that extend nothing narrow to their intersection. A
/// primitive or literal asserted type is taken as it is. Otherwise a type
/// that is neither a union nor an interface stays if it extends the asserted
/// type and gives way to it if not; a union or interface keeps the members
/// that extend the asserted type, takes the asserted type for those that it
/// extends, and gives way to it if nothing is left.
pub open spec fn narrowed<R: TypeRelations>(
    env: SpecEnv,
    rel: &R,
    orig: SpecType,
    asserted: SpecType,
) -> SpecNarrowed {
    let o = env.normal(orig);
    let a = env.normal(asserted);
    if is_plain_interface(o) && is_plain_interface(a) {
        SpecNarrowed { ty: SpecType::Intersection(seq![o, a]), prevent_converting_to_children: false }
    } else if is_primitive(a) {
        SpecNarrowed { ty: a, prevent_converting_to_children: false }
    } else if !(o is Union || o is Interface) {
        SpecNarrowed {
            ty: if rel.extends_spec(o, a) == Some(true) {
                materialized(o)
            } else {
                materialized(a)
            },
            prevent_converting_to_children: false,
        }
    } else {
        let members = union_members(o);
        SpecNarrowed {
            ty: make_union(narrowed_members(env, rel, orig, asserted)),
            prevent_converting_to_children: upcasts(rel, members, a, members.len()),
        }
    }
}

/// Narrowing again by the same predicate changes nothing, where the asserted
/// type is a primitive or a literal, and where the narrowed type is neither a
/// union, an interface nor a class value and either is the asserted type or
/// extends it.
pub proof fn law_narrow_is_idempotent<R: TypeRelations>(
    env: SpecEnv,
    rel: &R,
    orig: SpecType,
    asserted: SpecType,
)
    requires
        ({
            let first = narrowed(env, rel, orig, asserted).ty;
            let a = env.normal(asserted);
            is_primitive(a) || (!(first is Union) && !(first is Interface) && !(first is ClassDef)
                && env.normal(first) == first && (first == materialized(a) || rel.extends_spec(
                first,
                a,
            ) == Some(true)))
        }),
    ensures
        narrowed(env, rel, narrowed(env, rel, orig, asserted).ty, asserted).ty == narrowed(
            env,
            rel,
            orig,
            asserted,
        ).ty,
{
    reveal_with_fuel(SpecEnv::resolve, 2);
}

/// Whether narrowing by `asserted` keeps `x` where it meets it as the member
/// of a union: `x` is the asserted type itself and extends or is extended by
/// it, or `x` extends the asserted type without being extended by it.
pub open spec fn stays<R: TypeRelations>(rel: &R, asserted: SpecType, x: SpecType) -> bool {
    if rel.extends_spec(asserted, x) == Some(true) {
        x == materialized(asserted)
    } else {
        rel.extends_spec(x, asserted) == Some(true)
    }
}

/// Each type that narrowing keeps of a union stays when the union is
/// narrowed again, if the asserted type itself does.
proof fn lemma_kept_stays<R: TypeRelations>(
    rel: &R,
    members: Seq<SpecType>,
    asserted: SpecType,
    n: nat,
)
    requires
        n <= members.len(),
        stays(rel, asserted, materialized(asserted)),
    ensures
        forall|j: int|
            0 <= j < kept(rel, members, asserted, n).len() ==> stays(
                rel,
                asserted,
                #[trigger] kept(rel, members, asserted, n)[j],
            ),
    decreases n,
{
    if n > 0 {
        lemma_kept_stays(rel, members, asserted, (n - 1) as nat);
        let before = kept(rel, members, asserted, (n - 1) as nat);
        let now = kept(rel, members, asserted, n);
        assert forall|j: int| 0 <= j < now.len() implies stays(rel, asserted, #[trigger] now[j]) by {
            if j < before.len() {
                assert(now[j] == before[j]);
            }
        }
    }
}

/// What is left without repetitions was there before, and is there once.
proof fn lemma_dedup(ts: Seq<SpecType>, n: nat)
    requires
        n <= ts.len(),
    ensures
        forall|j: int|
            0 <= j < dedup(ts, n).len() ==> exists|i: int|
                0 <= i < n && ts[i] == #[trigger] dedup(ts, n)[j],
        forall|i: int, j: int|
            0 <= i < j < dedup(ts, n).len() ==> dedup(ts, n)[i] != dedup(ts, n)[j],
    decreases n,
{
    if n > 0 {
        lemma_dedup(ts, (n - 1) as nat);
        let d = dedup(ts, (n - 1) as nat);
        assert forall|j: int| 0 <= j < dedup(ts, n).len() implies exists|i: int|
            0 <= i < n && ts[i] == #[trigger] dedup(ts, n)[j] by {
            if j < d.len() {
                let i = choose|i: int| 0 <= i < n - 1 && ts[i] == d[j];
                assert(ts[i] == dedup(ts, n)[j]);
            } else {
                assert(ts[n - 1] == dedup(ts, n)[j]);
            }
        }
    }
}

/// A sequence without repetitions has none to remove.
proof fn lemma_dedup_of_distinct(ts: Seq<SpecType>, n: nat)
    requires
        n <= ts.len(),
        forall|i: int, j: int| 0 <= i < j < ts.len() ==> ts[i] != ts[j],
    ensures
        dedup(ts, n) == ts.subrange(0, n as int),
    decreases n,
{
    if n > 0 {
        lemma_dedup_of_distinct(ts, (n - 1) as nat);
        let d = dedup(ts, (n - 1) as nat);
        assert(!d.contains(ts[n - 1]));
        assert(d.push(ts[n - 1]) =~= ts.subrange(0, n as int));
    } else {
        assert(ts.subrange(0, 0) =~= Seq::<SpecType>::empty());
    }
}

/// Narrowing keeps every member that stays.
proof fn lemma_kept_of_staying<R: TypeRelations>(
    rel: &R,
    members: Seq<SpecType>,
    asserted: SpecType,
    n: nat,
)
    requires
        n <= members.len(),
        forall|j: int| 0 <= j < members.len() ==> stays(rel, asserted, #[trigger] members[j]),
    ensures
        kept(rel, members, asserted, n) == members.subrange(0, n as int),
    decreases n,
{
    if n > 0 {
        lemma_kept_of_staying(rel, members, asserted, (n - 1) as nat);
        assert(stays(rel, asserted, members[n - 1]));
        assert(kept(rel, members, asserted, (n - 1) as nat).push(members[n - 1])
            =~= members.subrange(0, n as int));
    } else {
        assert(members.subrange(0, 0) =~= Seq::<SpecType>::empty());
    }
}

/// Narrowing a union or an interface again by the same predicate changes
/// nothing, where the first narrowing left several types and the asserted
/// type stays when it meets itself.
pub proof fn law_narrow_union_is_idempotent<R: TypeRelations>(
    env: SpecEnv,
    rel: &R,
    orig: SpecType,
    asserted: SpecType,
)
    requires
        ({
            let o = env.normal(orig);
            let a = env.normal(asserted);
            &&& o is Union || o is Interface
            &&& !is_primitive(a)
            &&& !(is_plain_interface(o) && is_plain_interface(a))
            &&& narrowed_members(env, rel, orig, asserted).len() >= 2
            &&& stays(rel, a, materialized(a))
        }),
    ensures
        narrowed(env, rel, narrowed(env, rel, orig, asserted).ty, asserted).ty == narrowed(
            env,
            rel,
            orig,
            asserted,
        ).ty,
{
    let o = env.normal(orig);
    let a = env.normal(asserted);
    let members = union_members(o);
    let found = kept(rel, members, a, members.len());
    let all = if found.len() == 0 {
        seq![materialized(a)]
    } else {
        found
    };
    let d = dedup(all, all.len());
    let first = narrowed(env, rel, orig, asserted).ty;
    assert(d == narrowed_members(env, rel, orig, asserted));
    assert(first == SpecType::Union(d));
    lemma_kept_stays(rel, members, a, members.len());
    lemma_dedup(all, all.len());
    assert forall|j: int| 0 <= j < d.len() implies stays(rel, a, #[trigger] d[j]) by {
        let i = choose|i: int| 0 <= i < all.len() && all[i] == d[j];
        if found.len() == 0 {
            assert(all[i] == materialized(a));
        } else {
            assert(stays(rel, a, found[i]));
        }
    }
    assert(env.normal(first) == first);
    assert(union_members(first) == d);
    lemma_kept_of_staying(rel, d, a, d.len());
    assert(d.subrange(0, d.len() as int) =~= d);
    lemma_dedup_of_distinct(d, d.len());
}

impl Type {
    /// Whether the type is an interface that extends nothing.
    pub fn is_plain_interface(&self) -> (r: bool)
        ensures
            r == is_plain_interface(self@),
    {
        match self {
            Type::Interface(i) => {
                assert(i@.extends == i.extends@);
                i.extends.len() == 0
            },
            _ => false,
        }
    }

    /// Whether the type is a primitive or a literal type.
    pub fn is_primitive(&self) -> (r: bool)
        ensures
            r == is_primitive(self@),
    {
        matches!(self, Type::Keyword(_) | Type::Lit(_))
    }

    /// The type with a class value replaced by the type of its instances.
    pub fn materialize(&self) -> (r: Type)
        ensures
            r@ == materialized(self@),
    {
        match self {
            Type::ClassDef(def) => Type::Class(def.clone()),
            _ => self.clone(),
        }
    }
}

/// What the members of a union leave behind, and whether the asserted type
/// widens one of them.
fn narrow_members<R: TypeRelations>(rel: &R, members: &Vec<Type>, asserted: &Type) -> (r: (
    Vec<Type>,
    bool,
))
    ensures
        types_model(r.0) == kept(rel, types_model(*members), asserted@, members.len() as nat),
        r.1 == upcasts(rel, types_model(*members), asserted@, members.len() as nat),
{
    let ghost mm = types_model(*members);
    let mut found: Vec<Type> = Vec::new();
    let mut upcasted = false;
    let mut i: usize = 0;
    assert(types_model(found) =~= Seq::empty());
    while i < members.len()
        invariant
            i <= members.len(),
            mm == types_model(*members),
            types_model(found) == kept(rel, mm, asserted@, i as nat),
            upcasted == upcasts(rel, mm, asserted@, i as nat),
        decreases members.len() - i,
    {
        let ghost before = types_model(found);
        let m = &members[i];
        assert(mm[i as int] == m@);
        let up = match rel.extends(asserted, m) {
            Some(true) => true,
            _ => false,
        };
        if up {
            upcasted = true;
            found.push(asserted.materialize());
            assert(types_model(found) =~= before.push(materialized(asserted@)));
        } else {
            let down = match rel.extends(m, asserted) {
                Some(true) => true,
                _ => false,
            };
            if down {
                found.push(m.clone());
                assert(types_model(found) =~= before.push(m@));
            }
        }
        i += 1;
    }
    (found, upcasted)
}

/// Narrows `orig_ty` by the asserted type `new_ty`.
pub fn narrow_with_predicate<R: TypeRelations>(
    env: &TypeEnv,
    rel: &R,
    orig_ty: &Type,
    new_ty: &Type,
) -> (r: Narrowed)
    ensures
        r@ == narrowed(env@, rel, orig_ty@, new_ty@),
{
    let o = env.normalize(orig_ty);
    let a = env.normalize(new_ty);
    if o.is_plain_interface() && a.is_plain_interface() {
        let mut both: Vec<Type> = Vec::new();
        both.push(o.clone());
        both.push(a.clone());
        assert(types_model(both) =~= seq![o@, a@]);
        return Narrowed { ty: Type::Intersection(both), prevent_converting_to_children: false };
    }
    if a.is_primitive() {
        return Narrowed { ty: a.clone(), prevent_converting_to_children: false };
    }
    match o {
        Type::Union(members) => narrow_union(rel, members, a),
        Type::Interface(_) => {
            let mut members: Vec<Type> = Vec::new();
            members.push(o.clone());
            assert(types_model(members) =~= seq![o@]);
            narrow_union(rel, &members, a)
        },
        _ => {
            let stays = match rel.extends(o, a) {
                Some(true) => true,
                _ => false,
            };
            Narrowed {
                ty: if stays {
                    o.materialize()
                } else {
                    a.materialize()
                },
                prevent_converting_to_children: false,
            }
        },
    }
}

/// Narrows the members of a union or an interface.
fn narrow_union<R: TypeRelations>(rel: &R, members: &Vec<Type>, asserted: &Type) -> (r: Narrowed)
    ensures
        r@ == ({
            let mm = types_model(*members);
            let found = kept(rel, mm, asserted@, mm.len());
            let all = if found.len() == 0 {
                seq![materialized(asserted@)]
            } else {
                found
            };
            SpecNarrowed {
                ty: make_union(dedup(all, all.len())),
                prevent_converting_to_children: upcasts(rel, mm, asserted@, mm.len()),
            }
        }),
{
    let (found, upcasted) = narrow_members(rel, members, asserted);
    let mut found = found;
    if found.len() == 0 {
        found.push(asserted.materialize());
        assert(types_model(found) =~= seq![materialized(asserted@)]);
    }
    let unique = dedup_types(found);
    Narrowed { ty: new_union_without_dedup(unique), prevent_converting_to_children: upcasted }
}

/// What a predicate that asserts `asserted` proposes for the variable `var`.
pub open spec fn fact_for<R: TypeRelations>(
    env: SpecEnv,
    rel: &R,
    vars: Map<Name, SpecType>,
    var: Name,
    asserted: SpecType,
) -> SpecFact {
    if !is_primitive(asserted) && vars.contains_key(var) {
        let n = narrowed(env, rel, vars[var], asserted);
        SpecFact {
            var,
            narrowed: n.ty,
            asserted,
            prevent_converting_to_children: n.prevent_converting_to_children,
        }
    } else {
        SpecFact { var, narrowed: asserted, asserted, prevent_converting_to_children: false }
    }
}

/// Works out what a predicate proposes for a variable.
pub fn store_call_fact_for_var<R: TypeRelations>(
    env: &TypeEnv,
    rel: &R,
    vars: &TypeMap,
    var: Name,
    new_ty: &Type,
) -> (r: Fact)
    ensures
        r@ == fact_for(env@, rel, vars@, var, new_ty@),
{
    if !new_ty.is_primitive() {
        match vars.get(var) {
            Some(previous) => {
                let n = narrow_with_predicate(env, rel, previous, new_ty);
                return Fact {
                    var,
                    narrowed: n.ty,
                    asserted: new_ty.clone(),
                    prevent_converting_to_children: n.prevent_converting_to_children,
                };
            },
            None => {},
        }
    }
    Fact {
        var,
        narrowed: new_ty.clone(),
        asserted: new_ty.clone(),
        prevent_converting_to_children: false,
    }
}

/// The fact, if any, that the parameter at `i` gives: the parameter is the
/// one that the predicate names, and its argument is a plain identifier.
pub open spec fn fact_at<R: TypeRelations>(
    env: SpecEnv,
    rel: &R,
    vars: Map<Name, SpecType>,
    params: Seq<SpecFnParam>,
    args: Seq<SpecArg>,
    target: Name,
    asserted: SpecType,
    i: int,
) -> Seq<SpecFact> {
    match params[i].pat {
        SpecPat::Ident { name, .. } => if name == target && i < args.len() {
            match args[i].expr {
                SpecArgExpr::Ident(var) => seq![fact_for(env, rel, vars, var, asserted)],
                _ => Seq::empty(),
            }
        } else {
            Seq::empty()
        },
        _ => Seq::empty(),
    }
}

/// The facts that the first `n` parameters give.
pub open spec fn facts_upto<R: TypeRelations>(
    env: SpecEnv,
    rel: &R,
    vars: Map<Name, SpecType>,
    params: Seq<SpecFnParam>,
    args: Seq<SpecArg>,
    target: Name,
    asserted: SpecType,
    n: nat,
) -> Seq<SpecFact>
    decreases n,
{
    if n == 0 {
        Seq::empty()
    } else {
        facts_upto(env, rel, vars, params, args, target, asserted, (n - 1) as nat) + fact_at(
            env,
            rel,
            vars,
            params,
            args,
            target,
            asserted,
            n - 1,
        )
    }
}

/// The facts of a call that returns `ret`: where `ret` is a predicate about a
/// named parameter, one fact for each identifier passed for it.
pub open spec fn call_facts<R: TypeRelations>(
    env: SpecEnv,
    rel: &R,
    vars: Map<Name, SpecType>,
    params: Seq<SpecFnParam>,
    args: Seq<SpecArg>,
    ret: SpecType,
) -> Seq<SpecFact> {
    match ret {
        SpecType::Predicate { target: PredicateTarget::Ident(name), ty: Some(asserted) } => facts_upto(
            env,
            rel,
            vars,
            params,
            args,
            name,
            *asserted,
            params.len(),
        ),
        _ => Seq::empty(),
    }
}

/// Works out the facts of a call that returns `ret_ty`.
pub fn add_call_facts<R: TypeRelations>(
    env: &TypeEnv,
    rel: &R,
    vars: &TypeMap,
    params: &Vec<FnParam>,
    args: &Vec<Arg>,
    ret_ty: &Type,
) -> (facts: Vec<Fact>)
    ensures
        facts_model(facts) == call_facts(
            env@,
            rel,
            vars@,
            params_model(*params),
            call_args_model(*args),
            ret_ty@,
        ),
{
    let mut facts: Vec<Fact> = Vec::new();
    assert(facts_model(facts) =~= Seq::empty());
    let (name, asserted) = match ret_ty {
        Type::Predicate { target, ty } => {
            assert(ret_ty@ == SpecType::Predicate { target: *target, ty: opt_type_model(*ty) });
            match (target, ty) {
                (PredicateTarget::Ident(name), Some(asserted)) => (name, asserted),
                _ => {
                    return facts;
                },
            }
        },
        _ => {
            return facts;
        },
    };
    let ghost pm = params_model(*params);
    let ghost am = call_args_model(*args);
    let mut i: usize = 0;
    while i < params.len()
        invariant
            i <= params.len(),
            pm == params_model(*params),
            am == call_args_model(*args),
            facts_model(facts) == facts_upto(env@, rel, vars@, pm, am, *name, asserted@, i as nat),
        decreases params.len() - i,
    {
        let ghost before = facts_model(facts);
        assert(pm[i as int] == params[i as int]@);
        let mut added = false;
        match &params[i].pat {
            Pat::Ident { name: n, .. } => {
                if *n == *name && i < args.len() {
                    assert(am[i as int] == args[i as int]@);
                    match &args[i].expr {
                        ArgExpr::Ident(var) => {
                            let f = store_call_fact_for_var(env, rel, vars, *var, asserted);
                            let ghost fv = f@;
                            facts.push(f);
                            assert(facts_model(facts) =~= before + seq![fv]);
                            added = true;
                        },
                        _ => {},
                    }
                }
            },
            _ => {},
        }
        if !added {
            assert(facts_model(facts) =~= before + Seq::empty());
        }
        i += 1;
    }
    facts
}

} // verus!
