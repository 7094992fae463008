//! The signatures that a callee type offers to a call or to `new`.
use vstd::prelude::*;

use crate::arity::strip_instance;
use crate::copy::{clone_opt_type_params, clone_params};
use crate::env::{SpecEnv, TypeEnv};
use crate::model::{
    any, candidates_model, elements_model, opt_type_model, types_model, SpecCandidate, SpecClassDef,
    SpecClassMember, SpecSignature, SpecType, SpecTypeElement,
};
use crate::types::{
    CallCandidate, ClassDef, ClassMember, ExtractKind, Keyword, Name, Signature, Type, TypeElement,
};

verus! {

/// The candidate that a signature stands for; `default_ret` is its return
/// type where the signature names none.
pub open spec fn candidate_of(sig: SpecSignature, default_ret: SpecType) -> SpecCandidate {
    SpecCandidate {
        type_params: sig.type_params,
        params: sig.params,
        ret_ty: match sig.ret {
            Some(t) => *t,
            None => default_ret,
        },
    }
}

/// The candidates of one member of a type literal: a call signature for a
/// call, a construct signature for `new`.
pub open spec fn element_candidates(kind: ExtractKind, m: SpecTypeElement) -> Seq<SpecCandidate> {
    match m {
        SpecTypeElement::Call(sig) => if kind == ExtractKind::Call {
            seq![candidate_of(sig, any())]
        } else {
            Seq::empty()
        },
        SpecTypeElement::Constructor(sig) => if kind == ExtractKind::New {
            seq![candidate_of(sig, any())]
        } else {
            Seq::empty()
        },
        _ => Seq::empty(),
    }
}

/// The candidates of the first `n` members, in order.
pub open spec fn elements_candidates(
    kind: ExtractKind,
    members: Seq<SpecTypeElement>,
    n: nat,
) -> Seq<SpecCandidate>
    decreases n,
{
    if n == 0 {
        Seq::empty()
    } else {
        elements_candidates(kind, members, (n - 1) as nat) + element_candidates(
            kind,
            members[n - 1],
        )
    }
}

/// The candidate of one class member: a declared constructor makes an
/// instance of the class unless it says otherwise.
pub open spec fn constructor_candidates(
    cls: SpecClassDef,
    m: SpecClassMember,
) -> Seq<SpecCandidate> {
    match m {
        SpecClassMember::Constructor(sig) => seq![candidate_of(sig, SpecType::Class(cls))],
        _ => Seq::empty(),
    }
}

/// The candidates of the declared constructors among the first `n` members.
pub open spec fn constructors_upto(cls: SpecClassDef, n: nat) -> Seq<SpecCandidate>
    decreases n,
{
    if n == 0 {
        Seq::empty()
    } else {
        constructors_upto(cls, (n - 1) as nat) + constructor_candidates(cls, cls.body[n - 1])
    }
}

/// The constructor that a class without constructors has: no parameters, and
/// an instance of the class as its result.
pub open spec fn default_constructor(cls: SpecClassDef) -> SpecCandidate {
    SpecCandidate { type_params: None, params: Seq::empty(), ret_ty: SpecType::Class(cls) }
}

/// The candidates of the first `n` of `types`, one after the other.
pub open spec fn candidates_of_all(
    env: SpecEnv,
    kind: ExtractKind,
    types: Seq<SpecType>,
    n: nat,
    fuel: nat,
) -> Seq<SpecCandidate>
    decreases fuel, n,
{
    if n == 0 {
        Seq::empty()
    } else {
        candidates_of_all(env, kind, types, (n - 1) as nat, fuel) + candidates(
            env,
            kind,
            types[n - 1],
            fuel,
        )
    }
}

/// The candidates of the first `n` parents of an interface.
pub open spec fn candidates_of_parents(
    env: SpecEnv,
    kind: ExtractKind,
    parents: Seq<Name>,
    n: nat,
    fuel: nat,
) -> Seq<SpecCandidate>
    decreases fuel, n,
{
    if n == 0 {
        Seq::empty()
    } else {
        candidates_of_parents(env, kind, parents, (n - 1) as nat, fuel) + match env.type_of(
            parents[n - 1],
        ) {
            Some(t) => candidates(env, kind, t, fuel),
            None => Seq::empty(),
        }
    }
}

/// The signatures that `callee` offers, looking at most `fuel` levels deep.
///
/// A function offers itself to a call, a constructor type to `new`. A union
/// and an intersection offer what their members offer. An interface offers
/// its own call or construct signatures, then those of the entities it
/// extends. A type literal offers its call or construct signatures. A class
/// offers to `new` its declared constructors; without any, those of its
/// super class; without those, the constructor without parameters. A type
/// parameter offers what its constraint offers. Nothing else offers
/// anything.
pub open spec fn candidates(
    env: SpecEnv,
    kind: ExtractKind,
    callee: SpecType,
    fuel: nat,
) -> Seq<SpecCandidate>
    decreases fuel, 0nat,
{
    if fuel == 0 {
        Seq::empty()
    } else {
        let rest = (fuel - 1) as nat;
        match strip_instance(env.normal(callee)) {
            SpecType::Intersection(ts) => candidates_of_all(env, kind, ts, ts.len(), rest),
            SpecType::Union(ts) => candidates_of_all(env, kind, ts, ts.len(), rest),
            SpecType::Constructor(sig) => if kind == ExtractKind::New {
                seq![candidate_of(sig, any())]
            } else {
                Seq::empty()
            },
            SpecType::Function(sig) => if kind == ExtractKind::Call {
                seq![candidate_of(sig, any())]
            } else {
                Seq::empty()
            },
            SpecType::Interface(i) => elements_candidates(kind, i.body, i.body.len())
                + candidates_of_parents(env, kind, i.extends, i.extends.len(), rest),
            SpecType::TypeLit(members) => elements_candidates(kind, members, members.len()),
            SpecType::ClassDef(cls) => if kind == ExtractKind::Call {
                Seq::empty()
            } else {
                let own = constructors_upto(cls, cls.body.len());
                let inherited = if own.len() == 0 {
                    match cls.super_class {
                        Some(sc) => candidates(env, kind, *sc, rest),
                        None => Seq::empty(),
                    }
                } else {
                    own
                };
                if inherited.len() == 0 {
                    seq![default_constructor(cls)]
                } else {
                    inherited
                }
            },
            SpecType::Param(p) => match p.constraint {
                Some(c) => candidates(env, kind, *c, rest),
                None => Seq::empty(),
            },
            _ => Seq::empty(),
        }
    }
}

/// The signatures that `callee` offers.
pub open spec fn callee_candidates(
    env: SpecEnv,
    kind: ExtractKind,
    callee: SpecType,
) -> Seq<SpecCandidate> {
    candidates(env, kind, callee, env.depth_limit)
}

impl Signature {
    /// The candidate that the signature stands for.
    pub fn to_candidate(&self, default_ret: Type) -> (r: CallCandidate)
        ensures
            r@ == candidate_of(self@, default_ret@),
    {
        CallCandidate {
            type_params: clone_opt_type_params(&self.type_params),
            params: clone_params(&self.params),
            ret_ty: match &self.ret {
                Some(t) => (**t).clone(),
                None => default_ret,
            },
        }
    }
}

/// Appends `more` to `out`.
pub fn append_candidates(out: &mut Vec<CallCandidate>, more: Vec<CallCandidate>)
    ensures
        candidates_model(*final(out)) == candidates_model(*old(out)) + candidates_model(more),
{
    let ghost before = candidates_model(*out);
    let ghost mm = candidates_model(more);
    let mut more = more;
    out.append(&mut more);
    assert(candidates_model(*out) =~= before + mm);
}

/// The call or construct signatures among `members`.
pub fn signature_candidates(
    kind: ExtractKind,
    members: &Vec<TypeElement>,
) -> (r: Vec<CallCandidate>)
    ensures
        candidates_model(r) == elements_candidates(
            kind,
            elements_model(*members),
            members.len() as nat,
        ),
{
    let ghost mm = elements_model(*members);
    let mut out: Vec<CallCandidate> = Vec::new();
    let mut i: usize = 0;
    assert(candidates_model(out) =~= Seq::empty());
    while i < members.len()
        invariant
            i <= members.len(),
            mm == elements_model(*members),
            candidates_model(out) == elements_candidates(kind, mm, i as nat),
        decreases members.len() - i,
    {
        let ghost before = candidates_model(out);
        assert(mm[i as int] == members[i as int]@);
        match &members[i] {
            TypeElement::Call(sig) => {
                if kind == ExtractKind::Call {
                    let c = sig.to_candidate(Type::Keyword(Keyword::Any));
                    out.push(c);
                    assert(candidates_model(out) =~= before + seq![c@]);
                } else {
                    assert(candidates_model(out) =~= before + Seq::empty());
                }
            },
            TypeElement::Constructor(sig) => {
                if kind == ExtractKind::New {
                    let c = sig.to_candidate(Type::Keyword(Keyword::Any));
                    out.push(c);
                    assert(candidates_model(out) =~= before + seq![c@]);
                } else {
                    assert(candidates_model(out) =~= before + Seq::empty());
                }
            },
            _ => {
                assert(candidates_model(out) =~= before + Seq::empty());
            },
        }
        i += 1;
    }
    out
}

/// The declared constructors of a class.
pub fn declared_constructors(cls: &ClassDef) -> (r: Vec<CallCandidate>)
    ensures
        candidates_model(r) == constructors_upto(cls@, cls.body.len() as nat),
{
    let ghost cm = cls@;
    let mut out: Vec<CallCandidate> = Vec::new();
    let mut i: usize = 0;
    assert(candidates_model(out) =~= Seq::empty());
    while i < cls.body.len()
        invariant
            i <= cls.body.len(),
            cm == cls@,
            candidates_model(out) == constructors_upto(cm, i as nat),
        decreases cls.body.len() - i,
    {
        let ghost before = candidates_model(out);
        assert(cm.body[i as int] == cls.body[i as int]@);
        match &cls.body[i] {
            ClassMember::Constructor(sig) => {
                let c = sig.to_candidate(Type::Class(cls.clone()));
                out.push(c);
                assert(candidates_model(out) =~= before + seq![c@]);
            },
            _ => {
                assert(candidates_model(out) =~= before + Seq::empty());
            },
        }
        i += 1;
    }
    out
}

/// The signatures that the types offer, one after the other.
fn candidates_of_types(
    env: &TypeEnv,
    kind: ExtractKind,
    ts: &Vec<Type>,
    fuel: usize,
) -> (r: Vec<CallCandidate>)
    ensures
        candidates_model(r) == candidates_of_all(
            env@,
            kind,
            types_model(*ts),
            ts.len() as nat,
            fuel as nat,
        ),
    decreases fuel, 1nat,
{
    let ghost tm = types_model(*ts);
    let mut out: Vec<CallCandidate> = Vec::new();
    assert(candidates_model(out) =~= Seq::empty());
    let mut i: usize = 0;
    while i < ts.len()
        invariant
            i <= ts.len(),
            tm == types_model(*ts),
            candidates_model(out) == candidates_of_all(env@, kind, tm, i as nat, fuel as nat),
        decreases ts.len() - i,
    {
        let more = candidates_with_fuel(env, kind, &ts[i], fuel);
        append_candidates(&mut out, more);
        i += 1;
    }
    out
}

/// The signatures that `callee` offers, looking at most `fuel` levels deep.
fn candidates_with_fuel(
    env: &TypeEnv,
    kind: ExtractKind,
    callee: &Type,
    fuel: usize,
) -> (r: Vec<CallCandidate>)
    ensures
        candidates_model(r) == candidates(env@, kind, callee@, fuel as nat),
    decreases fuel, 0nat,
{
    if fuel == 0 {
        let out: Vec<CallCandidate> = Vec::new();
        assert(candidates_model(out) =~= Seq::empty());
        return out;
    }
    let rest = fuel - 1;
    let ty = env.normalize(callee).normalize_instance();
    let mut out: Vec<CallCandidate> = Vec::new();
    assert(candidates_model(out) =~= Seq::empty());
    match ty {
        Type::Intersection(ts) => candidates_of_types(env, kind, ts, rest),
        Type::Union(ts) => candidates_of_types(env, kind, ts, rest),
        Type::Constructor(sig) => {
            if kind == ExtractKind::New {
                let c = sig.to_candidate(Type::Keyword(Keyword::Any));
                out.push(c);
                assert(candidates_model(out) =~= seq![c@]);
            }
            out
        },
        Type::Function(sig) => {
            if kind == ExtractKind::Call {
                let c = sig.to_candidate(Type::Keyword(Keyword::Any));
                out.push(c);
                assert(candidates_model(out) =~= seq![c@]);
            }
            out
        },
        Type::Interface(i) => {
            let mut out = signature_candidates(kind, &i.body);
            let ghost own = candidates_model(out);
            let ghost parents = i.extends@;
            let mut k: usize = 0;
            while k < i.extends.len()
                invariant
                    k <= i.extends.len(),
                    parents == i.extends@,
                    rest < fuel,
                    candidates_model(out) == own + candidates_of_parents(
                        env@,
                        kind,
                        parents,
                        k as nat,
                        rest as nat,
                    ),
                decreases i.extends.len() - k,
            {
                let ghost before = candidates_model(out);
                match env.find_type(i.extends[k]) {
                    Some(t) => {
                        let more = candidates_with_fuel(env, kind, t, rest);
                        append_candidates(&mut out, more);
                    },
                    None => {
                        assert(candidates_model(out) =~= before + Seq::empty());
                    },
                }
                k += 1;
            }
            assert(i@.body == elements_model(i.body) && i@.extends == parents);
            out
        },
        Type::TypeLit(members) => signature_candidates(kind, members),
        Type::ClassDef(cls) => {
            if kind == ExtractKind::Call {
                return out;
            }
            let mut found = declared_constructors(cls);
            if found.len() == 0 {
                match &cls.super_class {
                    Some(sc) => {
                        found = candidates_with_fuel(env, kind, sc, rest);
                    },
                    None => {},
                }
            }
            if found.len() == 0 {
                let c = CallCandidate {
                    type_params: None,
                    params: Vec::new(),
                    ret_ty: Type::Class(cls.clone()),
                };
                assert(c@.params =~= Seq::empty());
                found.push(c);
                assert(candidates_model(found) =~= seq![default_constructor(cls@)]);
            }
            found
        },
        Type::Param(p) => {
            assert(p@.constraint == opt_type_model(p.constraint));
            match &p.constraint {
                Some(c) => candidates_with_fuel(env, kind, c, rest),
                None => out,
            }
        },
        _ => out,
    }
}

/// The signatures that `callee` offers to a call or to `new`.
pub fn extract_callee_candidates(
    env: &TypeEnv,
    kind: ExtractKind,
    callee: &Type,
) -> (r: Vec<CallCandidate>)
    ensures
        candidates_model(r) == callee_candidates(env@, kind, callee@),
{
    candidates_with_fuel(env, kind, callee, env.depth_limit)
}

} // verus!
