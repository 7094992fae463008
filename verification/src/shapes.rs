//! Plain structural type relations: enough of a type algebra to resolve
//! calls over primitives, literals, unions, arrays and function types. A
//! compiler brings its own relations; these serve where none are at hand.
use vstd::prelude::*;

use crate::copy::clone_types;
use crate::errors::{AssignFailure, IterFailure};
use crate::model::{
    any, args_model, elements_model, members_model, opt_type_model, params_model, type_params_model,
    types_model, SpecClassMember, SpecFnParam, SpecType, SpecTypeElement, SpecTypeOrSpread,
    SpecTypeParam,
};
use crate::relations::{AssignOpts, TypeRelations};
use crate::subst::{Inference, SpecInference, TypeMap};
use crate::transform::widened;
use crate::types::{
    ClassMember, FnParam, Key, Keyword, Lit, Name, Type, TypeElement, TypeOrSpread, TypeParam,
};
use crate::unions::{make_union, new_union_without_dedup};

verus! {

/// The relations that go by the shapes of the types alone.
#[derive(Clone, Copy, Debug, PartialEq, Eq, Structural)]
pub struct ShapeRelations;

/// The failure that the structural relations report for every mismatch.
pub open spec fn mismatch() -> AssignFailure {
    AssignFailure { code: 1 }
}

/// Whether the type takes every value: `any` or `unknown`.
pub open spec fn is_top(t: SpecType) -> bool {
    t == SpecType::Keyword(Keyword::Any) || t == SpecType::Keyword(Keyword::Unknown)
}

/// Whether one of the first `n` of `ts` takes a value of type `from`.
pub open spec fn some_accepts(ts: Seq<SpecType>, from: SpecType, to_param: bool, n: nat) -> bool
    decreases ts, from, n,
{
    if n == 0 || n > ts.len() {
        false
    } else {
        accepts(ts[n - 1], from, to_param) || some_accepts(ts, from, to_param, (n - 1) as nat)
    }
}

/// Whether `to` takes a value of each of the first `n` of `fs`.
pub open spec fn all_accepted(to: SpecType, fs: Seq<SpecType>, to_param: bool, n: nat) -> bool
    decreases to, fs, n,
{
    if n == 0 || n > fs.len() {
        true
    } else {
        accepts(to, fs[n - 1], to_param) && all_accepted(to, fs, to_param, (n - 1) as nat)
    }
}

/// Whether `to` takes a value of type `from`.
///
/// Equal types do; `any` and `unknown` take everything; `any` and `never` go
/// everywhere; a literal goes where its primitive type goes; `undefined`
/// goes into `void`; a union takes what one of its members takes, and goes
/// where all of its members go; an array takes an array or a tuple of what
/// its elements take; an optional or open tuple element takes what its type
/// takes; a type parameter takes everything where `to_param` allows it.
pub open spec fn accepts(to: SpecType, from: SpecType, to_param: bool) -> bool
    decreases to, from, 0nat,
{
    if to == from || is_top(to) || from == SpecType::Keyword(Keyword::Any) || from
        == SpecType::Keyword(Keyword::Never) {
        true
    } else {
        match from {
            SpecType::Union(fs) => all_accepted(to, fs, to_param, fs.len()),
            _ => match to {
                SpecType::Union(ts) => some_accepts(ts, from, to_param, ts.len()),
                SpecType::Param(_) => to_param,
                SpecType::Optional(t) => accepts(*t, from, to_param),
                SpecType::Rest(t) => accepts(*t, from, to_param),
                SpecType::Array(te) => match from {
                    SpecType::Array(fe) => accepts(*te, *fe, to_param),
                    SpecType::Tuple(fs) => all_accepted(*te, fs, to_param, fs.len()),
                    _ => false,
                },
                SpecType::Keyword(Keyword::Void) => from == SpecType::Keyword(Keyword::Undefined),
                SpecType::Keyword(k) => match from {
                    SpecType::Lit(l) => widened(l) == to,
                    _ => false,
                },
                _ => false,
            },
        }
    }
}

/// The type that `name` must stand for to make the first parameters from `k`
/// on of `ps` fit those of `actual`.
pub open spec fn matched_params(
    ps: Seq<SpecFnParam>,
    actual: Seq<SpecFnParam>,
    name: Name,
    k: nat,
) -> Option<SpecType>
    decreases ps, ps.len() - k,
{
    if k >= ps.len() || k >= actual.len() {
        None
    } else {
        match matched(ps[k as int].ty, actual[k as int].ty, name) {
            Some(t) => Some(t),
            None => matched_params(ps, actual, name, k + 1),
        }
    }
}

/// The type that the type parameter `name` must stand for to make `pattern`
/// fit `actual`, as far as the shapes of the two show it.
pub open spec fn matched(pattern: SpecType, actual: SpecType, name: Name) -> Option<SpecType>
    decreases pattern, 0nat,
{
    match pattern {
        SpecType::Param(p) => if p.name == name {
            Some(actual)
        } else {
            None
        },
        SpecType::Array(pe) => match actual {
            SpecType::Array(ae) => matched(*pe, *ae, name),
            _ => None,
        },
        SpecType::Function(sp) => match actual {
            SpecType::Function(sa) => match matched_params(sp.params, sa.params, name, 0) {
                Some(t) => Some(t),
                None => match (sp.ret, sa.ret) {
                    (Some(pr), Some(ar)) => matched(*pr, *ar, name),
                    _ => None,
                },
            },
            _ => None,
        },
        _ => None,
    }
}

/// The type that `name` stands for by the first argument from `k` on that
/// shows it.
pub open spec fn matched_args(
    params: Seq<SpecFnParam>,
    args: Seq<SpecTypeOrSpread>,
    name: Name,
    k: nat,
) -> Option<SpecType>
    decreases params.len() - k,
{
    if k >= params.len() || k >= args.len() {
        None
    } else {
        match matched(params[k as int].ty, args[k as int].ty, name) {
            Some(t) => Some(t),
            None => matched_args(params, args, name, k + 1),
        }
    }
}

/// What the arguments show of the first `n` type parameters.
pub open spec fn inferred_upto(
    type_params: Seq<SpecTypeParam>,
    params: Seq<SpecFnParam>,
    args: Seq<SpecTypeOrSpread>,
    n: nat,
) -> SpecInference
    decreases n,
{
    if n == 0 {
        SpecInference { types: Map::empty(), errored: Seq::empty() }
    } else {
        let before = inferred_upto(type_params, params, args, (n - 1) as nat);
        let name = type_params[n - 1].name;
        match matched_args(params, args, name, 0) {
            Some(t) => SpecInference { types: before.types.insert(name, t), errored: before.errored },
            None => SpecInference { types: before.types, errored: before.errored.push(name) },
        }
    }
}

/// The first `n` type parameters bound to the explicit type arguments.
pub open spec fn explicit_upto(
    type_params: Seq<SpecTypeParam>,
    type_args: Seq<SpecType>,
    n: nat,
) -> SpecInference
    decreases n,
{
    if n == 0 {
        SpecInference { types: Map::empty(), errored: Seq::empty() }
    } else {
        let before = explicit_upto(type_params, type_args, (n - 1) as nat);
        let name = type_params[n - 1].name;
        if n - 1 < type_args.len() {
            SpecInference {
                types: before.types.insert(name, type_args[n - 1]),
                errored: before.errored,
            }
        } else {
            SpecInference { types: before.types, errored: before.errored.push(name) }
        }
    }
}

/// What the shapes of `declared` and `actual` show of the first `n` type
/// parameters.
pub open spec fn hinted_upto(
    type_params: Seq<SpecTypeParam>,
    declared: SpecType,
    actual: SpecType,
    n: nat,
) -> Map<Name, SpecType>
    decreases n,
{
    if n == 0 {
        Map::empty()
    } else {
        let before = hinted_upto(type_params, declared, actual, (n - 1) as nat);
        match matched(declared, actual, type_params[n - 1].name) {
            Some(t) => before.insert(type_params[n - 1].name, t),
            None => before,
        }
    }
}

/// The type of the member `key` among the members from `k` on: the type of
/// a property, the function type of a method.
pub open spec fn element_named(members: Seq<SpecTypeElement>, key: Key, k: nat) -> Option<SpecType>
    decreases members.len() - k,
{
    if k >= members.len() {
        None
    } else {
        match members[k as int] {
            SpecTypeElement::Property { key: own, ty, .. } => if own == key {
                Some(
                    match ty {
                        Some(t) => *t,
                        None => any(),
                    },
                )
            } else {
                element_named(members, key, k + 1)
            },
            SpecTypeElement::Method { key: own, sig, .. } => if own == key {
                Some(SpecType::Function(sig))
            } else {
                element_named(members, key, k + 1)
            },
            _ => element_named(members, key, k + 1),
        }
    }
}

/// The type of the member `key` among the class members from `k` on that
/// are static or not as asked.
pub open spec fn class_member_named(
    body: Seq<SpecClassMember>,
    key: Key,
    is_static: bool,
    k: nat,
) -> Option<SpecType>
    decreases body.len() - k,
{
    if k >= body.len() {
        None
    } else {
        match body[k as int] {
            SpecClassMember::Property { key: own, is_static: s, value } => if own == key && s
                == is_static {
                Some(
                    match value {
                        Some(t) => *t,
                        None => any(),
                    },
                )
            } else {
                class_member_named(body, key, is_static, k + 1)
            },
            SpecClassMember::Method { key: own, is_static: s, sig } => if own == key && s
                == is_static {
                Some(SpecType::Function(sig))
            } else {
                class_member_named(body, key, is_static, k + 1)
            },
            _ => class_member_named(body, key, is_static, k + 1),
        }
    }
}

/// Whether one of the first `n` of `ts` takes a value of type `from`.
fn some_accepts_exec(ts: &Vec<Type>, from: &Type, to_param: bool, n: usize) -> (r: bool)
    ensures
        r == some_accepts(types_model(*ts), from@, to_param, n as nat),
    decreases ts, from, n,
{
    if n == 0 || n > ts.len() {
        false
    } else {
        assert(types_model(*ts)[n - 1] == ts[n - 1]@);
        accepts_exec(&ts[n - 1], from, to_param) || some_accepts_exec(ts, from, to_param, n - 1)
    }
}

/// Whether `to` takes a value of each of the first `n` of `fs`.
fn all_accepted_exec(to: &Type, fs: &Vec<Type>, to_param: bool, n: usize) -> (r: bool)
    ensures
        r == all_accepted(to@, types_model(*fs), to_param, n as nat),
    decreases to, fs, n,
{
    if n == 0 || n > fs.len() {
        true
    } else {
        assert(types_model(*fs)[n - 1] == fs[n - 1]@);
        accepts_exec(to, &fs[n - 1], to_param) && all_accepted_exec(to, fs, to_param, n - 1)
    }
}

/// Whether the type takes every value.
fn is_top_exec(t: &Type) -> (r: bool)
    ensures
        r == is_top(t@),
{
    matches!(t, Type::Keyword(Keyword::Any) | Type::Keyword(Keyword::Unknown))
}

/// The primitive type of a literal.
fn widen(l: Lit) -> (r: Type)
    ensures
        r@ == widened(l),
{
    match l {
        Lit::Str(_) => Type::Keyword(Keyword::String),
        Lit::Num(_) => Type::Keyword(Keyword::Number),
        Lit::Bool(_) => Type::Keyword(Keyword::Boolean),
    }
}

/// Whether `to` takes a value of type `from`.
fn accepts_exec(to: &Type, from: &Type, to_param: bool) -> (r: bool)
    ensures
        r == accepts(to@, from@, to_param),
    decreases to, from, 0nat,
{
    if to.same(from) || is_top_exec(to) || matches!(from, Type::Keyword(Keyword::Any)) || matches!(
        from,
        Type::Keyword(Keyword::Never)
    ) {
        return true;
    }
    match from {
        Type::Union(fs) => all_accepted_exec(to, fs, to_param, fs.len()),
        _ => match to {
            Type::Union(ts) => some_accepts_exec(ts, from, to_param, ts.len()),
            Type::Param(_) => to_param,
            Type::Optional(t) => accepts_exec(t, from, to_param),
            Type::Rest(t) => accepts_exec(t, from, to_param),
            Type::Array(te) => match from {
                Type::Array(fe) => accepts_exec(te, fe, to_param),
                Type::Tuple(fs) => all_accepted_exec(te, fs, to_param, fs.len()),
                _ => false,
            },
            Type::Keyword(Keyword::Void) => matches!(from, Type::Keyword(Keyword::Undefined)),
            Type::Keyword(_) => match from {
                Type::Lit(l) => widen(*l).same(to),
                _ => false,
            },
            _ => false,
        },
    }
}

/// The type that `name` stands for by the first parameter from `k` on that
/// shows it.
fn find_in_params(
    ps: &Vec<FnParam>,
    actual: &Vec<FnParam>,
    name: Name,
    k: usize,
) -> (r: Option<Type>)
    ensures
        match r {
            Some(t) => matched_params(params_model(*ps), params_model(*actual), name, k as nat)
                == Some(t@),
            None => matched_params(params_model(*ps), params_model(*actual), name, k as nat)
                .is_none(),
        },
    decreases ps, ps.len() - k,
{
    if k >= ps.len() || k >= actual.len() {
        None
    } else {
        assert(params_model(*ps)[k as int] == ps[k as int]@);
        assert(params_model(*actual)[k as int] == actual[k as int]@);
        match find_binding(&ps[k].ty, &actual[k].ty, name) {
            Some(t) => Some(t),
            None => find_in_params(ps, actual, name, k + 1),
        }
    }
}

/// The type that `name` must stand for to make `pattern` fit `actual`.
fn find_binding(pattern: &Type, actual: &Type, name: Name) -> (r: Option<Type>)
    ensures
        match r {
            Some(t) => matched(pattern@, actual@, name) == Some(t@),
            None => matched(pattern@, actual@, name).is_none(),
        },
    decreases pattern, 0nat,
{
    match pattern {
        Type::Param(p) => {
            assert(pattern@ == SpecType::Param(p@));
            if p.name == name {
                Some(actual.clone())
            } else {
                None
            }
        },
        Type::Array(pe) => match actual {
            Type::Array(ae) => find_binding(pe, ae, name),
            _ => None,
        },
        Type::Function(sp) => match actual {
            Type::Function(sa) => {
                assert(sp@.params == params_model(sp.params) && sp@.ret == opt_type_model(sp.ret));
                assert(sa@.params == params_model(sa.params) && sa@.ret == opt_type_model(sa.ret));
                match find_in_params(&sp.params, &sa.params, name, 0) {
                    Some(t) => Some(t),
                    None => match (&sp.ret, &sa.ret) {
                        (Some(pr), Some(ar)) => find_binding(pr, ar, name),
                        _ => None,
                    },
                }
            },
            _ => None,
        },
        _ => None,
    }
}

/// The type that `name` stands for by the first argument that shows it.
fn find_in_args(params: &Vec<FnParam>, args: &Vec<TypeOrSpread>, name: Name) -> (r: Option<Type>)
    ensures
        match r {
            Some(t) => matched_args(params_model(*params), args_model(*args), name, 0) == Some(t@),
            None => matched_args(params_model(*params), args_model(*args), name, 0).is_none(),
        },
{
    let ghost pm = params_model(*params);
    let ghost am = args_model(*args);
    let mut k: usize = 0;
    while k < params.len() && k < args.len()
        invariant
            k <= params.len(),
            pm == params_model(*params),
            am == args_model(*args),
            matched_args(pm, am, name, 0) == matched_args(pm, am, name, k as nat),
        decreases params.len() - k,
    {
        assert(pm[k as int] == params[k as int]@);
        assert(am[k as int] == args[k as int]@);
        match find_binding(&params[k].ty, &args[k].ty, name) {
            Some(t) => {
                return Some(t);
            },
            None => {},
        }
        k += 1;
    }
    None
}

/// The type of the member `key` of a type literal.
fn find_element(members: &Vec<TypeElement>, key: Key) -> (r: Option<Type>)
    ensures
        match r {
            Some(t) => element_named(elements_model(*members), key, 0) == Some(t@),
            None => element_named(elements_model(*members), key, 0).is_none(),
        },
{
    let ghost mm = elements_model(*members);
    let mut k: usize = 0;
    while k < members.len()
        invariant
            k <= members.len(),
            mm == elements_model(*members),
            element_named(mm, key, 0) == element_named(mm, key, k as nat),
        decreases members.len() - k,
    {
        assert(mm[k as int] == members[k as int]@);
        match &members[k] {
            TypeElement::Property { key: own, optional, ty } => {
                assert(members[k as int]@ == SpecTypeElement::Property {
                    key: *own,
                    optional: *optional,
                    ty: opt_type_model(*ty),
                });
                if *own == key {
                    return Some(
                        match ty {
                            Some(t) => (**t).clone(),
                            None => Type::Keyword(Keyword::Any),
                        },
                    );
                }
            },
            TypeElement::Method { key: own, sig, .. } => {
                if *own == key {
                    return Some(Type::Function(sig.clone()));
                }
            },
            _ => {},
        }
        k += 1;
    }
    None
}

/// The type of the member `key` of a class.
fn find_class_member(body: &Vec<ClassMember>, key: Key, is_static: bool) -> (r: Option<Type>)
    ensures
        match r {
            Some(t) => class_member_named(members_model(*body), key, is_static, 0) == Some(t@),
            None => class_member_named(members_model(*body), key, is_static, 0).is_none(),
        },
{
    let ghost bm = members_model(*body);
    let mut k: usize = 0;
    while k < body.len()
        invariant
            k <= body.len(),
            bm == members_model(*body),
            class_member_named(bm, key, is_static, 0) == class_member_named(
                bm,
                key,
                is_static,
                k as nat,
            ),
        decreases body.len() - k,
    {
        assert(bm[k as int] == body[k as int]@);
        match &body[k] {
            ClassMember::Property { key: own, is_static: s, value } => {
                assert(body[k as int]@ == SpecClassMember::Property {
                    key: *own,
                    is_static: *s,
                    value: opt_type_model(*value),
                });
                if *own == key && *s == is_static {
                    return Some(
                        match value {
                            Some(t) => (**t).clone(),
                            None => Type::Keyword(Keyword::Any),
                        },
                    );
                }
            },
            ClassMember::Method { key: own, is_static: s, sig } => {
                if *own == key && *s == is_static {
                    return Some(Type::Function(sig.clone()));
                }
            },
            _ => {},
        }
        k += 1;
    }
    None
}

impl TypeRelations for ShapeRelations {
    open spec fn assignable(
        &self,
        to: SpecType,
        from: SpecType,
        opts: AssignOpts,
    ) -> Result<(), AssignFailure> {
        if accepts(to, from, opts.allow_assignment_to_param) {
            Ok(())
        } else {
            Err(mismatch())
        }
    }

    fn assign(&self, to: &Type, from: &Type, opts: AssignOpts) -> (r: Result<(), AssignFailure>) {
        if accepts_exec(to, from, opts.allow_assignment_to_param) {
            Ok(())
        } else {
            Err(AssignFailure { code: 1 })
        }
    }

    open spec fn extends_spec(&self, child: SpecType, parent: SpecType) -> Option<bool> {
        Some(accepts(parent, child, false))
    }

    fn extends(&self, child: &Type, parent: &Type) -> (r: Option<bool>) {
        Some(accepts_exec(parent, child, false))
    }

    open spec fn inferred(
        &self,
        type_args: Option<Seq<SpecType>>,
        type_params: Seq<SpecTypeParam>,
        params: Seq<SpecFnParam>,
        args: Seq<SpecTypeOrSpread>,
        is_type_ann: bool,
    ) -> SpecInference {
        match type_args {
            Some(ta) => explicit_upto(type_params, ta, type_params.len()),
            None => inferred_upto(type_params, params, args, type_params.len()),
        }
    }

    fn infer_arg_types(
        &self,
        type_args: &Option<Vec<Type>>,
        type_params: &Vec<TypeParam>,
        params: &Vec<FnParam>,
        args: &Vec<TypeOrSpread>,
        is_type_ann: bool,
    ) -> (r: Inference) {
        let ghost tpm = type_params_model(*type_params);
        let mut types = TypeMap::new();
        let mut errored: Vec<Name> = Vec::new();
        let mut i: usize = 0;
        match type_args {
            Some(ta) => {
                let ghost tam = types_model(*ta);
                while i < type_params.len()
                    invariant
                        i <= type_params.len(),
                        tpm == type_params_model(*type_params),
                        tam == types_model(*ta),
                        (SpecInference { types: types@, errored: errored@ }) == explicit_upto(
                            tpm,
                            tam,
                            i as nat,
                        ),
                    decreases type_params.len() - i,
                {
                    assert(tpm[i as int] == type_params[i as int]@);
                    if i < ta.len() {
                        assert(tam[i as int] == ta[i as int]@);
                        types.insert(type_params[i].name, ta[i].clone());
                    } else {
                        errored.push(type_params[i].name);
                    }
                    i += 1;
                }
            },
            None => {
                while i < type_params.len()
                    invariant
                        i <= type_params.len(),
                        tpm == type_params_model(*type_params),
                        (SpecInference { types: types@, errored: errored@ }) == inferred_upto(
                            tpm,
                            params_model(*params),
                            args_model(*args),
                            i as nat,
                        ),
                    decreases type_params.len() - i,
                {
                    assert(tpm[i as int] == type_params[i as int]@);
                    match find_in_args(params, args, type_params[i].name) {
                        Some(t) => {
                            types.insert(type_params[i].name, t);
                        },
                        None => {
                            errored.push(type_params[i].name);
                        },
                    }
                    i += 1;
                }
            },
        }
        Inference { types, errored }
    }

    open spec fn inferred_from_types(
        &self,
        type_params: Seq<SpecTypeParam>,
        declared: SpecType,
        actual: SpecType,
    ) -> Map<Name, SpecType> {
        hinted_upto(type_params, declared, actual, type_params.len())
    }

    fn infer_type_with_types(
        &self,
        type_params: &Vec<TypeParam>,
        declared: &Type,
        actual: &Type,
    ) -> (r: TypeMap) {
        let ghost tpm = type_params_model(*type_params);
        let mut types = TypeMap::new();
        let mut i: usize = 0;
        while i < type_params.len()
            invariant
                i <= type_params.len(),
                tpm == type_params_model(*type_params),
                types@ == hinted_upto(tpm, declared@, actual@, i as nat),
            decreases type_params.len() - i,
        {
            assert(tpm[i as int] == type_params[i as int]@);
            match find_binding(declared, actual, type_params[i].name) {
                Some(t) => {
                    types.insert(type_params[i].name, t);
                },
                None => {},
            }
            i += 1;
        }
        types
    }

    open spec fn iterated(&self, ty: SpecType) -> Result<SpecType, IterFailure> {
        match ty {
            SpecType::Array(e) => Ok(*e),
            SpecType::Tuple(ts) => Ok(make_union(ts)),
            SpecType::Keyword(Keyword::String) => Ok(ty),
            SpecType::Keyword(Keyword::Any) => Ok(ty),
            _ => Err(IterFailure::MustHaveSymbolIterator),
        }
    }

    fn iterator_element_type(&self, ty: &Type) -> (r: Result<Type, IterFailure>) {
        match ty {
            Type::Array(e) => Ok((**e).clone()),
            Type::Tuple(ts) => Ok(new_union_without_dedup(clone_types(ts))),
            Type::Keyword(Keyword::String) => Ok(Type::Keyword(Keyword::String)),
            Type::Keyword(Keyword::Any) => Ok(Type::Keyword(Keyword::Any)),
            _ => Err(IterFailure::MustHaveSymbolIterator),
        }
    }

    open spec fn member(&self, obj: SpecType, key: Key) -> Option<SpecType> {
        match obj {
            SpecType::TypeLit(members) => element_named(members, key, 0),
            SpecType::Interface(i) => element_named(i.body, key, 0),
            SpecType::Class(cls) => class_member_named(cls.body, key, false, 0),
            SpecType::ClassDef(cls) => class_member_named(cls.body, key, true, 0),
            _ => None,
        }
    }

    fn access_property(&self, obj: &Type, key: Key) -> (r: Option<Type>) {
        match obj {
            Type::TypeLit(members) => find_element(members, key),
            Type::Interface(i) => {
                assert(i@.body == elements_model(i.body));
                find_element(&i.body, key)
            },
            Type::Class(cls) => {
                assert(cls@.body == members_model(cls.body));
                find_class_member(&cls.body, key, false)
            },
            Type::ClassDef(cls) => {
                assert(cls@.body == members_model(cls.body));
                find_class_member(&cls.body, key, true)
            },
            _ => None,
        }
    }
}

} // verus!
