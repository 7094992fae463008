use call_resolution::call::{apply_type_ann_from_callee, resolve_call, Call, Callee};
use call_resolution::env::{Decl, TypeEnv};
use call_resolution::errors::{AssignFailure, ErrorKind, IterFailure};
use call_resolution::names::{ARRAY, ARRAY_CONSTRUCTOR, FUNCTION, NUMBER, OBJECT, SYMBOL, TO_STRING};
use call_resolution::model::{SpecFnParam, SpecType, SpecTypeOrSpread, SpecTypeParam};
use call_resolution::narrow::Fact;
use call_resolution::relations::{AssignOpts, TypeRelations};
use call_resolution::property::{call_property_of_class, extract_callable_properties_of_class};
use call_resolution::resolve::{call_type_element, extract, Attempt, CallOpts};
use call_resolution::return_type::{
    check_method_call, collect_patches, get_return_type, respread_args,
};
use call_resolution::select::{get_best_return_type, select_and_invoke};
use call_resolution::site::{CallSite, Outcome, Pass, Patch, ReevalMode, Run};
use call_resolution::span::Span;
use call_resolution::subst::{Binding, Inference, SpecInference, TypeMap};
use call_resolution::types::{
    Arg, ArgExpr, CallCandidate, ClassDef, ClassMember, ExtractKind, FnParam, Interface, Key,
    Keyword, Lit, Name, Pat, PredicateTarget, Signature, Type, TypeElement, TypeOrSpread,
    TypeParam,
};
use call_resolution::shapes::ShapeRelations;

const A: Name = 100;
const B: Name = 101;
const T: Name = 103;
const X: Name = 104;
const F: Name = 105;
const M: Name = 106;
const FOO: Name = 120;
const BAR: Name = 121;
const RESULT_A: Name = 200;
const RESULT_B: Name = 201;

fn number() -> Type {
    Type::Keyword(Keyword::Number)
}

fn string() -> Type {
    Type::Keyword(Keyword::String)
}

fn boolean() -> Type {
    Type::Keyword(Keyword::Boolean)
}

fn any() -> Type {
    Type::Keyword(Keyword::Any)
}

fn unknown() -> Type {
    Type::Keyword(Keyword::Unknown)
}

fn named(name: Name) -> Type {
    Type::Ref { name, type_args: None }
}

fn type_param(name: Name) -> Type {
    Type::Param(TypeParam { name, constraint: None })
}

fn required(name: Name, ty: Type) -> FnParam {
    FnParam { pat: Pat::Ident { name, optional: false }, required: true, ty }
}

fn signature(params: Vec<FnParam>, ret: Type) -> Signature {
    Signature { type_params: None, params, ret: Some(Box::new(ret)) }
}

fn generic(names: Vec<Name>, params: Vec<FnParam>, ret: Type) -> Signature {
    Signature {
        type_params: Some(names.into_iter().map(|name| TypeParam { name, constraint: None }).collect()),
        params,
        ret: Some(Box::new(ret)),
    }
}

fn function(params: Vec<FnParam>, ret: Type) -> Type {
    Type::Function(signature(params, ret))
}

fn at(lo: u32) -> Span {
    Span { lo, hi: lo + 1 }
}

fn arg_at(lo: u32, ty: Type) -> Arg {
    Arg { span: at(lo), spread: None, expr: ArgExpr::Other, ty }
}

fn call_span() -> Span {
    Span { lo: 0, hi: 90 }
}

fn env_with(decls: Vec<Decl>) -> TypeEnv {
    TypeEnv { decls, depth_limit: 16, no_implicit_any: false }
}

fn env() -> TypeEnv {
    env_with(vec![])
}

fn no_vars() -> TypeMap {
    TypeMap { entries: vec![] }
}

fn call_of(kind: ExtractKind, callee: Type, args: Vec<Arg>) -> Call {
    Call {
        span: call_span(),
        kind,
        callee: Callee::Value { ty: callee, implicit: false },
        args,
        type_args: None,
        type_ann: None,
        pass: Pass::FirstPass,
        reeval: match kind {
            ExtractKind::Call => ReevalMode::Call,
            ExtractKind::New => ReevalMode::New,
        },
        is_calling_iife: false,
    }
}

fn member_call(obj: Type, name: Name, args: Vec<Arg>) -> Call {
    let mut call = call_of(ExtractKind::Call, any(), args);
    call.callee = Callee::Member { obj, prop: Key { name, private: false } };
    call
}

fn resolved(ty: Type) -> Run {
    Run { outcome: Outcome::Resolved(ty), errors: vec![], facts: vec![] }
}

fn failed(error: ErrorKind) -> Run {
    Run { outcome: Outcome::Failed(error), errors: vec![], facts: vec![] }
}

fn run(env: &TypeEnv, call: &Call) -> Run {
    resolve_call(&ShapeRelations, env, &no_vars(), call)
}

fn wrong(lo: u32) -> ErrorKind {
    ErrorKind::WrongArgType { span: at(lo), inner: AssignFailure { code: 1 } }
}

fn overloads(first: Type, second: Type) -> Type {
    Type::TypeLit(vec![
        TypeElement::Call(signature(vec![required(X, first)], named(RESULT_A))),
        TypeElement::Call(signature(vec![required(X, second)], named(RESULT_B))),
    ])
}

#[test]
fn the_overload_that_fits_the_argument_is_chosen() {
    let callee = overloads(number(), string());
    let with_number = call_of(ExtractKind::Call, callee.clone(), vec![arg_at(10, number())]);
    assert_eq!(run(&env(), &with_number), resolved(named(RESULT_A)));
    let with_string = call_of(ExtractKind::Call, callee, vec![arg_at(10, string())]);
    assert_eq!(run(&env(), &with_string), resolved(named(RESULT_B)));
}

#[test]
fn the_first_of_two_equal_overloads_is_chosen() {
    let callee = overloads(number(), number());
    let call = call_of(ExtractKind::Call, callee, vec![arg_at(10, number())]);
    assert_eq!(run(&env(), &call), resolved(named(RESULT_A)));
}

#[test]
fn an_exact_overload_beats_a_loose_one_before_it() {
    let callee = overloads(any(), number());
    let loose = call_of(ExtractKind::Call, callee.clone(), vec![arg_at(10, any())]);
    assert_eq!(run(&env(), &loose), resolved(named(RESULT_A)));
    let callee = overloads(number(), any());
    let exact = call_of(ExtractKind::Call, callee, vec![arg_at(10, any())]);
    assert_eq!(run(&env(), &exact), resolved(named(RESULT_B)));
}

#[test]
fn overloads_that_all_fail_give_no_matching_overload() {
    let callee = overloads(number(), boolean());
    let call = call_of(ExtractKind::Call, callee, vec![arg_at(10, string())]);
    assert_eq!(run(&env(), &call), failed(ErrorKind::NoMatchingOverload { span: call_span() }));
}

#[test]
fn a_single_failing_signature_is_called_and_its_errors_reported() {
    let callee = function(vec![required(X, number())], named(RESULT_A));
    let call = call_of(ExtractKind::Call, callee, vec![arg_at(10, string())]);
    assert_eq!(
        run(&env(), &call),
        Run { outcome: Outcome::Resolved(named(RESULT_A)), errors: vec![wrong(10)], facts: vec![] }
    );
}

#[test]
fn a_wrong_count_is_reported_and_the_type_still_given() {
    let callee = function(vec![required(X, number())], string());
    let call = call_of(ExtractKind::Call, callee, vec![]);
    assert_eq!(
        run(&env(), &call),
        Run {
            outcome: Outcome::Resolved(string()),
            errors: vec![ErrorKind::ExpectedNArgsButGotM { span: call_span(), min: 1, max: 1 }],
            facts: vec![],
        }
    );
}

fn identity() -> Type {
    Type::Function(generic(vec![T], vec![required(X, type_param(T))], type_param(T)))
}

#[test]
fn generic_identity_returns_the_type_of_its_argument() {
    let call = call_of(ExtractKind::Call, identity(), vec![arg_at(10, number())]);
    assert_eq!(run(&env(), &call), resolved(number()));
    let call = call_of(ExtractKind::Call, identity(), vec![arg_at(10, named(FOO))]);
    assert_eq!(run(&env(), &call), resolved(named(FOO)));
}

#[test]
fn generic_result_has_its_literals_widened() {
    let call = call_of(ExtractKind::Call, identity(), vec![arg_at(10, Type::Lit(Lit::Num(1)))]);
    assert_eq!(run(&env(), &call), resolved(number()));
}

#[test]
fn type_parameter_that_nothing_determines_is_unknown() {
    let callee = Type::Function(generic(vec![T], vec![required(X, number())], type_param(T)));
    let call = call_of(ExtractKind::Call, callee, vec![arg_at(10, number())]);
    assert_eq!(run(&env(), &call), resolved(unknown()));
}

#[test]
fn explicit_type_arguments_are_put_into_the_callee() {
    let mut call = call_of(ExtractKind::Call, identity(), vec![arg_at(10, Type::Lit(Lit::Num(1)))]);
    call.type_args = Some(vec![number()]);
    assert_eq!(run(&env(), &call), resolved(number()));
    let mut call = call_of(ExtractKind::Call, identity(), vec![arg_at(10, string())]);
    call.type_args = Some(vec![number()]);
    assert_eq!(
        run(&env(), &call),
        Run { outcome: Outcome::Resolved(number()), errors: vec![wrong(10)], facts: vec![] }
    );
}

#[test]
fn wrong_number_of_type_arguments_is_reported() {
    let mut call = call_of(ExtractKind::Call, identity(), vec![arg_at(10, number())]);
    call.type_args = Some(vec![number(), string()]);
    let got = run(&env(), &call);
    assert_eq!(
        got.errors,
        vec![ErrorKind::TypeParameterCountMismatch { span: call_span(), min: 1, max: 1, actual: 2 }]
    );
}

fn wrap() -> Type {
    let callback = function(vec![required(A, type_param(A))], type_param(B));
    Type::Function(generic(vec![A, B], vec![required(F, callback.clone())], callback))
}

fn literal(param: Type, ret: Type, implicit: bool) -> Arg {
    Arg {
        span: at(10),
        spread: None,
        expr: ArgExpr::Function { implicit_any: vec![implicit] },
        ty: function(vec![required(A, param)], ret),
    }
}

#[test]
fn function_literal_without_annotation_asks_for_reevaluation() {
    let call = call_of(ExtractKind::Call, wrap(), vec![literal(any(), any(), true)]);
    assert_eq!(
        run(&env(), &call),
        Run {
            outcome: Outcome::Reevaluate(vec![Patch { arg: 0, param: 0, ty: any() }]),
            errors: vec![],
            facts: vec![],
        }
    );
}

#[test]
fn reevaluation_gives_the_literal_the_type_that_the_call_determines() {
    let mut first = call_of(ExtractKind::Call, wrap(), vec![literal(any(), any(), true)]);
    first.type_args = Some(vec![string(), number()]);
    let got = run(&env(), &first);
    assert_eq!(got.outcome, Outcome::Reevaluate(vec![Patch { arg: 0, param: 0, ty: string() }]));

    let mut second = call_of(ExtractKind::Call, wrap(), vec![literal(string(), number(), true)]);
    second.type_args = Some(vec![string(), number()]);
    second.pass = Pass::Reevaluating;
    assert_eq!(run(&env(), &second), resolved(function(vec![required(A, string())], number())));
}

#[test]
fn the_second_pass_never_asks_for_another() {
    let mut call = call_of(ExtractKind::Call, wrap(), vec![literal(any(), any(), true)]);
    call.pass = Pass::Reevaluating;
    assert_eq!(run(&env(), &call), resolved(function(vec![required(A, any())], any())));
}

#[test]
fn a_call_that_cannot_be_checked_again_is_resolved_at_once() {
    let mut call = call_of(ExtractKind::Call, wrap(), vec![literal(any(), any(), true)]);
    call.reeval = ReevalMode::default();
    assert_eq!(call.reeval, ReevalMode::NoReeval);
    assert_eq!(run(&env(), &call), resolved(function(vec![required(A, any())], any())));
}

#[test]
fn annotated_callback_is_resolved_end_to_end() {
    let call = call_of(ExtractKind::Call, wrap(), vec![literal(string(), number(), false)]);
    let wrapped = run(&env(), &call);
    assert_eq!(wrapped, resolved(function(vec![required(A, string())], number())));
    let callee = match wrapped.outcome {
        Outcome::Resolved(ty) => ty,
        _ => unreachable!(),
    };
    let applied = call_of(ExtractKind::Call, callee, vec![arg_at(20, Type::Lit(Lit::Str(7)))]);
    assert_eq!(run(&env(), &applied), resolved(number()));
}

#[test]
fn result_that_still_mentions_type_parameters_declares_them() {
    let id = Type::Function(generic(vec![T], vec![required(X, type_param(T))], type_param(T)));
    let call = call_of(ExtractKind::Call, wrap(), vec![arg_at(10, id)]);
    let expected = Type::Function(generic(vec![T], vec![required(A, type_param(T))], type_param(T)));
    assert_eq!(
        resolve_call(&fixed(), &env(), &no_vars(), &call),
        resolved(function(vec![required(A, unknown())], unknown()))
    );
    let got = run(&env(), &call);
    assert_eq!(got.outcome, Outcome::Resolved(expected));
    assert_eq!(got.errors, vec![wrong(10)]);
}

#[test]
fn type_parameters_of_function_arguments_are_unknown_on_the_second_pass() {
    let id = Type::Function(generic(vec![T], vec![required(X, type_param(T))], type_param(T)));
    let mut call = call_of(ExtractKind::Call, wrap(), vec![arg_at(10, id)]);
    call.pass = Pass::Reevaluating;
    let expected = Type::Function(Signature {
        type_params: Some(vec![TypeParam { name: T, constraint: None }]),
        params: vec![required(A, unknown())],
        ret: Some(Box::new(unknown())),
    });
    assert_eq!(run(&env(), &call).outcome, Outcome::Resolved(expected));
}

#[test]
fn patches_are_made_for_untyped_parameters_that_have_an_expected_type() {
    let expected = function(vec![required(A, string()), required(B, number())], boolean());
    let params = vec![required(X, number()), required(F, expected)];
    let args = vec![
        arg_at(10, number()),
        Arg {
            span: at(12),
            spread: None,
            expr: ArgExpr::Function { implicit_any: vec![true, false, true] },
            ty: function(vec![required(A, any()), required(B, number())], boolean()),
        },
        arg_at(14, number()),
    ];
    assert_eq!(collect_patches(&args, &params), vec![Patch { arg: 1, param: 0, ty: string() }]);
}

#[test]
fn spreads_are_worked_out_again_from_the_types_as_they_stand() {
    let dots = Span { lo: 7, hi: 10 };
    let args = vec![
        Arg {
            span: at(10),
            spread: Some(dots),
            expr: ArgExpr::Other,
            ty: Type::Tuple(vec![number(), string()]),
        },
        Arg { span: at(20), spread: Some(dots), expr: ArgExpr::Other, ty: named(FOO) },
    ];
    assert_eq!(
        respread_args(&args),
        vec![
            TypeOrSpread { span: dots, spread: None, ty: number() },
            TypeOrSpread { span: dots, spread: None, ty: string() },
            TypeOrSpread { span: at(20), spread: Some(dots), ty: named(FOO) },
        ]
    );
}

fn class(name: Name, is_abstract: bool, super_class: Option<Type>, body: Vec<ClassMember>) -> ClassDef {
    ClassDef { name, is_abstract, type_params: None, super_class: super_class.map(Box::new), body }
}

#[test]
fn abstract_class_is_reported_and_an_instance_given() {
    let def = class(FOO, true, None, vec![]);
    let call = call_of(ExtractKind::New, Type::ClassDef(def.clone()), vec![arg_at(10, number())]);
    assert_eq!(
        run(&env(), &call),
        Run {
            outcome: Outcome::Resolved(Type::Class(def)),
            errors: vec![ErrorKind::CannotCreateInstanceOfAbstractClass { span: call_span() }],
            facts: vec![],
        }
    );
}

#[test]
fn class_is_instantiated_with_the_constructor_that_fits_best() {
    let def = class(
        FOO,
        false,
        None,
        vec![
            ClassMember::Constructor(signature(vec![required(X, string())], any())),
            ClassMember::Constructor(signature(vec![required(X, number())], any())),
        ],
    );
    let call = call_of(ExtractKind::New, Type::ClassDef(def.clone()), vec![arg_at(10, number())]);
    assert_eq!(run(&env(), &call), resolved(Type::Class(def.clone())));
    let call = call_of(ExtractKind::New, Type::ClassDef(def.clone()), vec![arg_at(10, boolean())]);
    assert_eq!(
        run(&env(), &call),
        Run { outcome: Outcome::Resolved(Type::Class(def)), errors: vec![wrong(10)], facts: vec![] }
    );
}

#[test]
fn class_without_constructor_is_instantiated_without_arguments() {
    let def = class(FOO, false, None, vec![]);
    let call = call_of(ExtractKind::New, Type::ClassDef(def.clone()), vec![]);
    assert_eq!(run(&env(), &call), resolved(Type::Class(def.clone())));
    let call = call_of(ExtractKind::New, Type::ClassDef(def.clone()), vec![arg_at(10, number())]);
    assert_eq!(
        run(&env(), &call),
        Run {
            outcome: Outcome::Resolved(Type::Class(def)),
            errors: vec![ErrorKind::ExpectedNArgsButGotM { span: at(10), min: 0, max: 0 }],
            facts: vec![],
        }
    );
}

#[test]
fn class_without_constructor_uses_the_one_of_its_super_class() {
    let base = class(
        BAR,
        false,
        None,
        vec![ClassMember::Constructor(signature(vec![required(X, number())], any()))],
    );
    let derived = class(FOO, false, Some(Type::ClassDef(base.clone())), vec![]);
    let call = call_of(ExtractKind::New, Type::ClassDef(derived), vec![arg_at(10, number())]);
    assert_eq!(run(&env(), &call), resolved(Type::Class(base)));
}

#[test]
fn generic_class_without_constructor_has_unknown_type_arguments() {
    let mut def = class(FOO, false, None, vec![]);
    def.type_params = Some(vec![TypeParam { name: T, constraint: None }]);
    let call = call_of(ExtractKind::New, Type::ClassDef(def.clone()), vec![]);
    assert_eq!(run(&env(), &call), resolved(Type::Class(def)));
}

#[test]
fn type_argument_that_breaks_its_constraint_fails() {
    let mut def = class(FOO, false, None, vec![]);
    def.type_params = Some(vec![TypeParam { name: T, constraint: Some(Box::new(number())) }]);
    let mut call = call_of(ExtractKind::New, Type::ClassDef(def.clone()), vec![]);
    call.type_args = Some(vec![string()]);
    assert_eq!(run(&env(), &call), failed(ErrorKind::NotSatisfyConstraint { span: call_span() }));
    call.type_args = Some(vec![Type::Lit(Lit::Num(1))]);
    assert_eq!(run(&env(), &call), resolved(Type::Class(def)));
}

#[test]
fn class_cannot_be_called() {
    let def = class(FOO, false, None, vec![]);
    let call = call_of(ExtractKind::Call, Type::ClassDef(def), vec![]);
    assert_eq!(run(&env(), &call), failed(ErrorKind::NoCallSignature { span: call_span() }));
}

#[test]
fn values_without_signature_cannot_be_called_or_constructed() {
    let call = call_of(ExtractKind::Call, number(), vec![]);
    assert_eq!(run(&env(), &call), failed(ErrorKind::NoCallSignature { span: call_span() }));
    let call = call_of(ExtractKind::New, number(), vec![]);
    assert_eq!(run(&env(), &call), failed(ErrorKind::NoNewSignature { span: call_span() }));
    let call = call_of(ExtractKind::Call, Type::TypeLit(vec![]), vec![]);
    assert_eq!(run(&env(), &call), failed(ErrorKind::NoCallSignature { span: call_span() }));
    let call = call_of(ExtractKind::Call, named(FOO), vec![]);
    assert_eq!(run(&env(), &call), failed(ErrorKind::NoCallSignature { span: call_span() }));
}

#[test]
fn any_may_be_called_and_unknown_may_not() {
    let call = call_of(ExtractKind::Call, any(), vec![arg_at(10, number())]);
    assert_eq!(run(&env(), &call), resolved(any()));
    let call = call_of(ExtractKind::New, any(), vec![]);
    assert_eq!(run(&env(), &call), resolved(any()));
    let call = call_of(ExtractKind::Call, unknown(), vec![]);
    assert_eq!(run(&env(), &call), failed(ErrorKind::Unknown { span: call_span() }));
}

#[test]
fn any_callee_with_type_arguments_is_reported_unless_implicit() {
    let mut call = call_of(ExtractKind::Call, any(), vec![]);
    call.type_args = Some(vec![number()]);
    assert_eq!(
        run(&env(), &call),
        Run {
            outcome: Outcome::Resolved(any()),
            errors: vec![ErrorKind::AnyTypeUsedAsCalleeWithTypeArgs { span: call_span() }],
            facts: vec![],
        }
    );
    call.callee = Callee::Value { ty: any(), implicit: true };
    assert_eq!(run(&env(), &call), resolved(any()));
}

#[test]
fn new_on_a_function_gives_any_unless_implicit_any_is_an_error() {
    let f = function(vec![], number());
    let call = call_of(ExtractKind::New, f.clone(), vec![]);
    assert_eq!(run(&env(), &call), resolved(any()));
    let mut strict = env();
    strict.no_implicit_any = true;
    assert_eq!(
        run(&strict, &call),
        failed(ErrorKind::TargetLacksConstructSignature { span: call_span() })
    );
}

#[test]
fn constructor_type_gives_its_instance_type() {
    let c = Type::Constructor(signature(vec![required(X, number())], named(FOO)));
    let call = call_of(ExtractKind::New, c, vec![arg_at(10, number())]);
    assert_eq!(run(&env(), &call), resolved(named(FOO)));
}

#[test]
fn new_on_this_and_on_an_intersection_gives_an_instance() {
    let call = call_of(ExtractKind::New, Type::This, vec![]);
    assert_eq!(run(&env(), &call), resolved(Type::Instance(Box::new(Type::This))));
    let both = Type::Intersection(vec![named(FOO), named(BAR)]);
    let call = call_of(ExtractKind::New, both.clone(), vec![]);
    assert_eq!(run(&env(), &call), resolved(Type::Instance(Box::new(both))));
}

#[test]
fn union_callee_loses_its_namespaces() {
    let f = function(vec![], number());
    let callee = Type::Union(vec![Type::Namespace(FOO), f]);
    let call = call_of(ExtractKind::Call, callee, vec![]);
    assert_eq!(run(&env(), &call), resolved(number()));
    let call = call_of(ExtractKind::Call, Type::Union(vec![Type::Namespace(FOO)]), vec![]);
    assert_eq!(run(&env(), &call), failed(ErrorKind::NoCallSignature { span: call_span() }));
}

#[test]
fn union_and_intersection_callees_take_the_best_member() {
    let f = function(vec![required(X, string())], named(RESULT_A));
    let g = function(vec![required(X, number())], named(RESULT_B));
    let call = call_of(
        ExtractKind::Call,
        Type::Union(vec![f.clone(), g.clone()]),
        vec![arg_at(10, number())],
    );
    assert_eq!(run(&env(), &call), resolved(named(RESULT_B)));
    let call = call_of(
        ExtractKind::Call,
        Type::Intersection(vec![f.clone(), g.clone()]),
        vec![arg_at(10, string())],
    );
    assert_eq!(run(&env(), &call), resolved(named(RESULT_A)));
    let call =
        call_of(ExtractKind::Call, Type::Intersection(vec![f, g]), vec![arg_at(10, boolean())]);
    assert_eq!(run(&env(), &call), failed(ErrorKind::NoMatchingOverload { span: call_span() }));
}

#[test]
fn overloads_that_all_fail_are_not_made_up_for_by_a_parent() {
    let base = interface(BAR, vec![], vec![TypeElement::Call(signature(vec![], number()))]);
    let env = env_with(vec![Decl { name: BAR, is_alias: false, ty: base }]);
    let derived = interface(
        FOO,
        vec![BAR],
        vec![
            TypeElement::Call(signature(vec![required(X, number())], string())),
            TypeElement::Call(signature(vec![required(X, boolean())], string())),
        ],
    );
    let call = call_of(ExtractKind::Call, derived, vec![]);
    assert_eq!(run(&env, &call), failed(ErrorKind::NoMatchingOverload { span: call_span() }));
}

#[test]
fn member_with_overloads_that_all_fail_fails_the_intersection() {
    let good = Type::TypeLit(vec![method(M, vec![], number())]);
    let bad = Type::TypeLit(vec![
        method(M, vec![required(X, number())], string()),
        method(M, vec![required(X, boolean())], string()),
    ]);
    let call = member_call(Type::Intersection(vec![good, bad]), M, vec![]);
    assert_eq!(
        run(&env(), &call).outcome,
        Outcome::Failed(ErrorKind::NoMatchingOverload { span: call_span() })
    );
}

fn interface(name: Name, extends: Vec<Name>, body: Vec<TypeElement>) -> Type {
    Type::Interface(Interface { name, type_params: None, extends, body })
}

fn method(name: Name, params: Vec<FnParam>, ret: Type) -> TypeElement {
    TypeElement::Method {
        key: Key { name, private: false },
        optional: false,
        sig: signature(params, ret),
    }
}

#[test]
fn calling_the_function_interface_gives_any() {
    let call = call_of(ExtractKind::Call, interface(FUNCTION, vec![], vec![]), vec![]);
    assert_eq!(run(&env(), &call), resolved(any()));
}

#[test]
fn array_constructor_with_one_type_argument_gives_an_array_of_it() {
    let mut call = call_of(ExtractKind::New, interface(ARRAY_CONSTRUCTOR, vec![], vec![]), vec![]);
    call.type_args = Some(vec![string()]);
    assert_eq!(run(&env(), &call), resolved(Type::Array(Box::new(string()))));
}

#[test]
fn interface_tries_its_parents_after_its_own_signatures() {
    let base = interface(BAR, vec![], vec![TypeElement::Call(signature(vec![], number()))]);
    let env = env_with(vec![Decl { name: BAR, is_alias: false, ty: base }]);
    let derived = interface(FOO, vec![999, BAR], vec![]);
    let call = call_of(ExtractKind::Call, derived, vec![]);
    assert_eq!(run(&env, &call), resolved(number()));
    let orphan = interface(FOO, vec![999], vec![]);
    let call = call_of(ExtractKind::Call, orphan, vec![]);
    assert_eq!(run(&env, &call), failed(ErrorKind::NoCallSignature { span: call_span() }));
}

#[test]
fn interface_that_extends_itself_ends_without_signature() {
    let looped = interface(FOO, vec![FOO], vec![]);
    let env = env_with(vec![Decl { name: FOO, is_alias: false, ty: looped.clone() }]);
    let call = call_of(ExtractKind::Call, looped, vec![]);
    assert_eq!(run(&env, &call), failed(ErrorKind::NoCallSignature { span: call_span() }));
}

#[test]
fn nothing_is_resolved_without_depth() {
    let mut shallow = env();
    shallow.depth_limit = 0;
    let call = call_of(ExtractKind::Call, function(vec![], number()), vec![]);
    assert_eq!(run(&shallow, &call), failed(ErrorKind::TooDeep { span: call_span() }));
}

#[test]
fn type_parameter_is_called_through_its_constraint() {
    let f = function(vec![], number());
    let p = Type::Param(TypeParam { name: T, constraint: Some(Box::new(f)) });
    let call = call_of(ExtractKind::Call, p, vec![]);
    assert_eq!(run(&env(), &call), resolved(number()));
}

#[test]
fn symbol_gives_a_symbol_and_may_not_be_constructed() {
    let mut call = call_of(ExtractKind::Call, any(), vec![]);
    call.callee = Callee::SymbolConstructor;
    assert_eq!(run(&env(), &call), resolved(Type::Keyword(Keyword::Symbol)));
    call.kind = ExtractKind::New;
    assert_eq!(
        run(&env(), &call),
        Run {
            outcome: Outcome::Resolved(Type::Keyword(Keyword::Symbol)),
            errors: vec![ErrorKind::CannotCallWithNewNonVoidFunction { span: call_span() }],
            facts: vec![],
        }
    );
}

#[test]
fn spread_that_cannot_be_iterated_fails_the_call() {
    let mut arg = arg_at(10, number());
    arg.spread = Some(at(7));
    let call = call_of(ExtractKind::Call, function(vec![], number()), vec![arg]);
    assert_eq!(run(&env(), &call), failed(ErrorKind::MustHaveSymbolIterator { span: at(10) }));
}

#[test]
fn to_string_gives_a_string_on_every_object() {
    let call = member_call(named(FOO), TO_STRING, vec![]);
    assert_eq!(run(&env(), &call), resolved(string()));
}

#[test]
fn member_of_any_is_any() {
    let call = member_call(any(), M, vec![arg_at(10, number())]);
    assert_eq!(run(&env(), &call), resolved(any()));
}

#[test]
fn member_of_a_type_literal_is_called() {
    let obj = Type::TypeLit(vec![
        method(M, vec![required(X, number())], string()),
        TypeElement::Property {
            key: Key { name: F, private: false },
            optional: false,
            ty: Some(Box::new(function(vec![], boolean()))),
        },
    ]);
    let call = member_call(obj.clone(), M, vec![arg_at(10, number())]);
    assert_eq!(run(&env(), &call), resolved(string()));
    let call = member_call(obj.clone(), F, vec![]);
    assert_eq!(run(&env(), &call), resolved(boolean()));
    let call = member_call(obj, X, vec![]);
    assert_eq!(
        run(&env(), &call),
        failed(ErrorKind::NoSuchProperty { span: call_span(), key: Key { name: X, private: false } })
    );
}

#[test]
fn member_of_a_number_is_looked_up_on_the_number_interface() {
    let env = env_with(vec![Decl {
        name: NUMBER,
        is_alias: false,
        ty: interface(NUMBER, vec![], vec![method(M, vec![], string())]),
    }]);
    let call = member_call(Type::Lit(Lit::Num(1)), M, vec![]);
    assert_eq!(run(&env, &call), resolved(string()));
}

#[test]
fn member_of_an_array_is_looked_up_on_the_array_interface() {
    let env = env_with(vec![Decl {
        name: ARRAY,
        is_alias: false,
        ty: interface(ARRAY, vec![], vec![method(M, vec![], number())]),
    }]);
    let call = member_call(Type::Array(Box::new(string())), M, vec![]);
    assert_eq!(run(&env, &call), resolved(number()));
}

#[test]
fn members_of_object_are_at_hand_on_every_type_literal() {
    let env = env_with(vec![Decl {
        name: OBJECT,
        is_alias: false,
        ty: interface(OBJECT, vec![], vec![method(M, vec![], boolean())]),
    }]);
    let call = member_call(Type::TypeLit(vec![]), M, vec![]);
    assert_eq!(run(&env, &call), resolved(boolean()));
    let call = member_call(function(vec![], number()), M, vec![]);
    assert_eq!(run(&env, &call), resolved(boolean()));
}

#[test]
fn own_member_of_an_interface_shadows_the_inherited_one() {
    let base = interface(BAR, vec![], vec![method(M, vec![], number()), method(F, vec![], string())]);
    let env = env_with(vec![Decl { name: BAR, is_alias: false, ty: base }]);
    let derived = interface(FOO, vec![BAR], vec![method(M, vec![], boolean())]);
    let call = member_call(derived.clone(), M, vec![]);
    assert_eq!(run(&env, &call), resolved(boolean()));
    let call = member_call(derived, F, vec![]);
    assert_eq!(run(&env, &call), resolved(string()));
}

fn class_method(name: Name, is_static: bool, ret: Type) -> ClassMember {
    ClassMember::Method {
        key: Key { name, private: false },
        is_static,
        sig: signature(vec![], ret),
    }
}

#[test]
fn methods_of_a_class_are_found_by_static_or_instance_side() {
    let def = class(
        FOO,
        false,
        None,
        vec![class_method(M, false, number()), class_method(M, true, string())],
    );
    let call = member_call(Type::Class(def.clone()), M, vec![]);
    assert_eq!(run(&env(), &call), resolved(number()));
    let call = member_call(Type::ClassDef(def), M, vec![]);
    assert_eq!(run(&env(), &call), resolved(string()));
}

#[test]
fn methods_of_the_super_class_are_found_on_an_instance() {
    let base = class(BAR, false, None, vec![class_method(M, false, number())]);
    let derived = class(FOO, false, Some(Type::ClassDef(base)), vec![]);
    let call = member_call(Type::Class(derived.clone()), M, vec![]);
    assert_eq!(run(&env(), &call), resolved(number()));
    let call = member_call(Type::Class(derived), F, vec![]);
    assert_eq!(
        run(&env(), &call).outcome,
        Outcome::Failed(ErrorKind::NoCallablePropertyWithName {
            span: call_span(),
            key: Key { name: F, private: false },
        })
    );
}

#[test]
fn property_of_a_class_is_called_as_a_value() {
    let def = class(
        FOO,
        false,
        None,
        vec![ClassMember::Property {
            key: Key { name: F, private: false },
            is_static: false,
            value: Some(Box::new(function(vec![], string()))),
        }],
    );
    let call = member_call(Type::Class(def), F, vec![]);
    assert_eq!(run(&env(), &call), resolved(string()));
}

#[test]
fn member_of_an_intersection_is_the_union_of_what_its_members_give() {
    let first = Type::TypeLit(vec![method(M, vec![], number())]);
    let second = Type::TypeLit(vec![method(M, vec![], string())]);
    let third = Type::TypeLit(vec![]);
    let call = member_call(Type::Intersection(vec![first, third.clone(), second]), M, vec![]);
    assert_eq!(run(&env(), &call).outcome, Outcome::Resolved(Type::Union(vec![number(), string()])));
    let call = member_call(Type::Intersection(vec![third.clone(), third]), M, vec![]);
    assert_eq!(
        run(&env(), &call).outcome,
        Outcome::Failed(ErrorKind::NoCallablePropertyWithName {
            span: call_span(),
            key: Key { name: M, private: false },
        })
    );
}

#[test]
fn symbol_receiver_gives_the_symbol_type() {
    let env = env_with(vec![Decl { name: SYMBOL, is_alias: false, ty: named(FOO) }]);
    let call = member_call(Type::Keyword(Keyword::Symbol), M, vec![]);
    assert_eq!(run(&env, &call), resolved(named(FOO)));
}

#[test]
fn private_and_optional_members_are_called_only_where_allowed() {
    let members = vec![
        TypeElement::Method {
            key: Key { name: M, private: true },
            optional: false,
            sig: signature(vec![], number()),
        },
        TypeElement::Method {
            key: Key { name: F, private: false },
            optional: true,
            sig: signature(vec![], string()),
        },
    ];
    let env = env();
    let vars = no_vars();
    let args: Vec<Arg> = vec![];
    let spread: Vec<TypeOrSpread> = vec![];
    let site = CallSite {
        env: &env,
        vars: &vars,
        span: call_span(),
        kind: ExtractKind::Call,
        args: &args,
        spread_arg_types: &spread,
        arg_count_unknown: false,
        type_args: &None,
        type_ann: None,
        this: None,
        pass: Pass::FirstPass,
        reeval: ReevalMode::Call,
        is_calling_iife: false,
        is_instantiating_class: false,
    };
    let private = Key { name: M, private: true };
    let plain = CallOpts::default();
    let got = call_resolution::property::call_property_of_type_elements(
        &ShapeRelations,
        &site,
        &members,
        private,
        plain,
    );
    assert_eq!(got, failed(ErrorKind::NoSuchProperty { span: call_span(), key: private }));
    let open = CallOpts { allow_private_names: true, ..plain };
    let got = call_resolution::property::call_property_of_type_elements(
        &ShapeRelations,
        &site,
        &members,
        private,
        open,
    );
    assert_eq!(got, resolved(number()));
    let optional = Key { name: F, private: false };
    let strict = CallOpts { disallow_optional_object_property: true, ..plain };
    let got = call_resolution::property::call_property_of_type_elements(
        &ShapeRelations,
        &site,
        &members,
        optional,
        strict,
    );
    assert_eq!(got, failed(ErrorKind::NoSuchProperty { span: call_span(), key: optional }));
}

fn site_for<'a>(
    env: &'a TypeEnv,
    vars: &'a TypeMap,
    kind: ExtractKind,
    args: &'a Vec<Arg>,
    spread: &'a Vec<TypeOrSpread>,
) -> CallSite<'a> {
    CallSite {
        env,
        vars,
        span: call_span(),
        kind,
        args,
        spread_arg_types: spread,
        arg_count_unknown: false,
        type_args: &None,
        type_ann: None,
        this: None,
        pass: Pass::FirstPass,
        reeval: ReevalMode::Call,
        is_calling_iife: false,
        is_instantiating_class: false,
    }
}

#[test]
fn class_member_call_says_whether_the_class_has_the_member() {
    let def = class(FOO, false, None, vec![class_method(M, false, number())]);
    let (env, vars, args, spread) = (env(), no_vars(), vec![], vec![]);
    let site = site_for(&env, &vars, ExtractKind::Call, &args, &spread);
    let key = Key { name: M, private: false };
    let found = call_property_of_class(&ShapeRelations, &site, &def, key, false, CallOpts::default());
    assert_eq!(found, Attempt { found: true, run: resolved(number()) });
    let missing = call_property_of_class(&ShapeRelations, &site, &def, key, true, CallOpts::default());
    assert!(!missing.found);
}

#[test]
fn callables_of_a_class_are_its_methods_and_what_its_properties_offer() {
    let key = Key { name: M, private: false };
    let def = class(
        FOO,
        false,
        None,
        vec![
            class_method(M, false, number()),
            class_method(F, false, number()),
            ClassMember::Property {
                key,
                is_static: false,
                value: Some(Box::new(function(vec![], string()))),
            },
            ClassMember::Property { key, is_static: true, value: Some(Box::new(function(vec![], any()))) },
            ClassMember::Property { key, is_static: false, value: None },
        ],
    );
    let candidate = |ret_ty: Type| CallCandidate { type_params: None, params: vec![], ret_ty };
    assert_eq!(
        extract_callable_properties_of_class(&env(), ExtractKind::Call, &def, key, false),
        vec![candidate(number()), candidate(string())]
    );
    assert_eq!(
        extract_callable_properties_of_class(&env(), ExtractKind::Call, &def, key, true),
        vec![candidate(any())]
    );
}

#[test]
fn method_signature_is_called_whatever_the_kind_of_the_call() {
    let (env, vars, spread) = (env(), no_vars(), vec![]);
    let args = vec![variable(A, unknown())];
    let site = site_for(&env, &vars, ExtractKind::New, &args, &spread);
    let sig = match predicate(string()) {
        Type::Function(sig) => sig,
        _ => unreachable!(),
    };
    let got = check_method_call(&ShapeRelations, &site, &sig);
    assert_eq!(got.facts.len(), 1);
    let open = Signature { type_params: None, params: vec![], ret: None };
    assert_eq!(
        check_method_call(&ShapeRelations, &site, &open).outcome,
        Outcome::Resolved(any())
    );
}

#[test]
fn signatures_of_a_type_take_its_type_parameters() {
    let (env, vars, spread) = (env(), no_vars(), vec![TypeOrSpread { span: at(10), spread: None, ty: number() }]);
    let args = vec![arg_at(10, number())];
    let site = site_for(&env, &vars, ExtractKind::Call, &args, &spread);
    let members = vec![TypeElement::Call(signature(vec![required(X, type_param(T))], type_param(T)))];
    let outer = Some(vec![TypeParam { name: T, constraint: None }]);
    assert_eq!(call_type_element(&ShapeRelations, &site, &outer, &members), resolved(number()));
    assert_eq!(
        call_type_element(&ShapeRelations, &site, &None, &members),
        Run { outcome: Outcome::Resolved(type_param(T)), errors: vec![wrong(10)], facts: vec![] }
    );
}

#[test]
fn function_literals_get_the_parameter_types_of_the_one_plain_signature() {
    let expected = function(vec![required(A, string())], boolean());
    let callee = function(
        vec![required(X, expected.clone()), required(F, expected.clone()), required(M, expected)],
        number(),
    );
    let untyped = |lo: u32| Arg {
        span: at(lo),
        spread: None,
        expr: ArgExpr::Function { implicit_any: vec![true] },
        ty: function(vec![required(A, any())], any()),
    };
    let mut spread = untyped(12);
    spread.spread = Some(at(11));
    let args = vec![untyped(10), spread, untyped(14)];
    assert_eq!(
        apply_type_ann_from_callee(&env(), ExtractKind::Call, &args, &callee),
        vec![Patch { arg: 0, param: 0, ty: string() }]
    );
    assert_eq!(
        apply_type_ann_from_callee(&env(), ExtractKind::Call, &vec![untyped(10)], &wrap()),
        vec![]
    );
    assert_eq!(
        apply_type_ann_from_callee(&env(), ExtractKind::New, &vec![untyped(10)], &callee),
        vec![]
    );
}

fn predicate(asserted: Type) -> Type {
    function(
        vec![required(X, unknown())],
        Type::Predicate { target: PredicateTarget::Ident(X), ty: Some(Box::new(asserted)) },
    )
}

fn variable(name: Name, ty: Type) -> Arg {
    Arg { span: at(10), spread: None, expr: ArgExpr::Ident(name), ty }
}

#[test]
fn predicate_call_proposes_the_asserted_type_for_the_variable() {
    let vars = TypeMap { entries: vec![Binding { name: A, ty: unknown() }] };
    let call = call_of(ExtractKind::Call, predicate(string()), vec![variable(A, unknown())]);
    let got = resolve_call(&ShapeRelations, &env(), &vars, &call);
    assert_eq!(
        got.facts,
        vec![Fact {
            var: A,
            narrowed: string(),
            asserted: string(),
            prevent_converting_to_children: false,
        }]
    );
    assert_eq!(got.errors, vec![]);
}

#[test]
fn predicate_call_narrows_a_union_to_the_members_that_fit() {
    let foo = Type::Class(class(FOO, false, None, vec![]));
    let bar = Type::Class(class(BAR, false, None, vec![]));
    let vars = TypeMap {
        entries: vec![Binding { name: A, ty: Type::Union(vec![foo.clone(), bar, number()]) }],
    };
    let call = call_of(ExtractKind::Call, predicate(foo.clone()), vec![variable(A, unknown())]);
    let got = resolve_call(&ShapeRelations, &env(), &vars, &call);
    assert_eq!(
        got.facts,
        vec![Fact {
            var: A,
            narrowed: foo.clone(),
            asserted: foo,
            prevent_converting_to_children: true,
        }]
    );
}

#[test]
fn predicate_call_on_an_expression_proposes_nothing() {
    let call = call_of(ExtractKind::Call, predicate(string()), vec![arg_at(10, unknown())]);
    assert_eq!(run(&env(), &call).facts, vec![]);
    let call = call_of(ExtractKind::New, predicate(string()), vec![variable(A, unknown())]);
    assert_eq!(run(&env(), &call).facts, vec![]);
}

/// Relations that answer every question the same way.
struct Fixed {
    assignable: bool,
    iterable: Result<Type, IterFailure>,
    member: Option<Type>,
}

impl TypeRelations for Fixed {
    fn assignable(&self, _: SpecType, _: SpecType, _: AssignOpts) -> Result<(), AssignFailure> {
        unreachable!()
    }

    fn extends_spec(&self, _: SpecType, _: SpecType) -> Option<bool> {
        unreachable!()
    }

    fn inferred(
        &self,
        _: Option<vstd::seq::Seq<SpecType>>,
        _: vstd::seq::Seq<SpecTypeParam>,
        _: vstd::seq::Seq<SpecFnParam>,
        _: vstd::seq::Seq<SpecTypeOrSpread>,
        _: bool,
    ) -> SpecInference {
        unreachable!()
    }

    fn inferred_from_types(
        &self,
        _: vstd::seq::Seq<SpecTypeParam>,
        _: SpecType,
        _: SpecType,
    ) -> vstd::map::Map<u64, SpecType> {
        unreachable!()
    }

    fn iterated(&self, _: SpecType) -> Result<SpecType, IterFailure> {
        unreachable!()
    }

    fn member(&self, _: SpecType, _: Key) -> Option<SpecType> {
        unreachable!()
    }

    fn assign(&self, _to: &Type, _from: &Type, _opts: AssignOpts) -> Result<(), AssignFailure> {
        if self.assignable {
            Ok(())
        } else {
            Err(AssignFailure { code: 9 })
        }
    }

    fn extends(&self, _child: &Type, _parent: &Type) -> Option<bool> {
        None
    }

    fn infer_arg_types(
        &self,
        _type_args: &Option<Vec<Type>>,
        type_params: &Vec<TypeParam>,
        _params: &Vec<FnParam>,
        _args: &Vec<TypeOrSpread>,
        _is_type_ann: bool,
    ) -> Inference {
        Inference {
            types: TypeMap { entries: vec![] },
            errored: type_params.iter().map(|p| p.name).collect(),
        }
    }

    fn infer_type_with_types(&self, _type_params: &Vec<TypeParam>, _declared: &Type, _actual: &Type) -> TypeMap {
        TypeMap { entries: vec![Binding { name: T, ty: string() }] }
    }

    fn iterator_element_type(&self, _ty: &Type) -> Result<Type, IterFailure> {
        self.iterable.clone()
    }

    fn access_property(&self, _obj: &Type, _key: Key) -> Option<Type> {
        self.member.clone()
    }
}

fn fixed() -> Fixed {
    Fixed { assignable: true, iterable: Err(IterFailure::Other), member: None }
}

#[test]
fn other_relations_can_be_plugged_in() {
    let rel = Fixed { assignable: false, ..fixed() };
    let callee = function(vec![required(X, number())], string());
    let call = call_of(ExtractKind::Call, callee, vec![arg_at(10, number())]);
    assert_eq!(
        resolve_call(&rel, &env(), &no_vars(), &call),
        Run {
            outcome: Outcome::Resolved(string()),
            errors: vec![ErrorKind::WrongArgType { span: at(10), inner: AssignFailure { code: 9 } }],
            facts: vec![],
        }
    );
}

#[test]
fn spread_that_fails_to_iterate_for_another_reason_is_not_iterable() {
    let mut arg = arg_at(10, number());
    arg.spread = Some(at(7));
    let call = call_of(ExtractKind::Call, function(vec![], number()), vec![arg]);
    assert_eq!(
        resolve_call(&fixed(), &env(), &no_vars(), &call),
        failed(ErrorKind::NotIterable { span: at(10) })
    );
}

#[test]
fn member_found_by_plain_lookup_is_called_as_a_last_resort() {
    let rel = Fixed { member: Some(function(vec![], number())), ..fixed() };
    let call = member_call(Type::Tuple(vec![]), M, vec![]);
    assert_eq!(resolve_call(&rel, &env(), &no_vars(), &call), resolved(number()));
}

#[test]
fn member_that_cannot_be_called_is_reported_by_its_name() {
    let key = Key { name: M, private: false };
    let rel = Fixed { member: Some(number()), ..fixed() };
    let call = member_call(Type::Tuple(vec![]), M, vec![]);
    assert_eq!(
        resolve_call(&rel, &env(), &no_vars(), &call).outcome,
        Outcome::Failed(ErrorKind::NoCallablePropertyWithName { span: call_span(), key })
    );
    let mut construct = member_call(Type::Tuple(vec![]), M, vec![]);
    construct.kind = ExtractKind::New;
    assert_eq!(
        resolve_call(&rel, &env(), &no_vars(), &construct).outcome,
        Outcome::Failed(ErrorKind::NoConstructablePropertyWithName { span: call_span(), key })
    );
    let instance = Type::Class(class(FOO, false, None, vec![]));
    let mut construct = member_call(instance, M, vec![]);
    construct.kind = ExtractKind::New;
    assert_eq!(
        resolve_call(&rel, &env(), &no_vars(), &construct).outcome,
        Outcome::Failed(ErrorKind::NoSuchConstructor { span: call_span(), key })
    );
}

#[test]
fn abstract_class_found_by_plain_lookup_is_reported() {
    let def = class(FOO, true, None, vec![]);
    let rel = Fixed { member: Some(Type::ClassDef(def.clone())), ..fixed() };
    let mut call = member_call(Type::Tuple(vec![]), M, vec![]);
    call.kind = ExtractKind::New;
    let got = resolve_call(&rel, &env(), &no_vars(), &call);
    assert_eq!(got.errors[0], ErrorKind::CannotCreateInstanceOfAbstractClass { span: call_span() });
}

#[test]
fn expected_type_determines_type_arguments_on_the_first_pass() {
    let rel = Fixed { assignable: true, ..fixed() };
    let callee = Type::Function(generic(vec![T], vec![required(X, type_param(T))], type_param(T)));
    let mut call = call_of(ExtractKind::Call, callee, vec![arg_at(10, number())]);
    call.type_ann = Some(string());
    let env = env();
    let vars = no_vars();
    let spread = vec![TypeOrSpread { span: at(10), spread: None, ty: number() }];
    let site = CallSite {
        env: &env,
        vars: &vars,
        span: call_span(),
        kind: ExtractKind::Call,
        args: &call.args,
        spread_arg_types: &spread,
        arg_count_unknown: false,
        type_args: &None,
        type_ann: call.type_ann.as_ref(),
        this: None,
        pass: Pass::FirstPass,
        reeval: ReevalMode::Call,
        is_calling_iife: false,
        is_instantiating_class: false,
    };
    let f = match &call.callee {
        Callee::Value { ty: Type::Function(sig), .. } => sig,
        _ => unreachable!(),
    };
    let got = get_return_type(&rel, &site, &f.type_params, &f.params, &type_param(T));
    assert_eq!(got, resolved(unknown()));
    let best = get_best_return_type(&rel, &site, &number());
    assert_eq!(best, failed(ErrorKind::NoCallSignature { span: call_span() }));
    let none: Vec<CallCandidate> = vec![];
    assert_eq!(select_and_invoke(&rel, &site, &none), None);
    let direct = extract(&rel, &site, &any(), CallOpts::default());
    assert_eq!(direct, resolved(any()));
}

#[test]
fn receiver_type_is_put_into_the_signature() {
    let env = env();
    let vars = no_vars();
    let args = vec![arg_at(10, number())];
    let spread = vec![TypeOrSpread { span: at(10), spread: None, ty: number() }];
    let this = named(FOO);
    let site = CallSite {
        env: &env,
        vars: &vars,
        span: call_span(),
        kind: ExtractKind::Call,
        args: &args,
        spread_arg_types: &spread,
        arg_count_unknown: false,
        type_args: &None,
        type_ann: None,
        this: Some(&this),
        pass: Pass::FirstPass,
        reeval: ReevalMode::Call,
        is_calling_iife: false,
        is_instantiating_class: false,
    };
    let got = get_return_type(&ShapeRelations, &site, &None, &vec![required(X, Type::This)], &Type::This);
    assert_eq!(
        got,
        Run { outcome: Outcome::Resolved(named(FOO)), errors: vec![wrong(10)], facts: vec![] }
    );
}
