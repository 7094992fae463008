use call_resolution::candidates::extract_callee_candidates;
use call_resolution::env::{Decl, TypeEnv};
use call_resolution::errors::{AssignFailure, ErrorKind};
use call_resolution::ranking::{check_call_args, order_by_rank, ArgCheckResult};
use call_resolution::shapes::ShapeRelations;
use call_resolution::span::Span;
use call_resolution::spread::{spread_args, SpreadArgs};
use call_resolution::types::{
    Arg, ArgExpr, CallCandidate, ClassDef, ClassMember, ExtractKind, FnParam, Interface, Keyword,
    Lit, Name, Pat, Signature, Type, TypeElement, TypeOrSpread, TypeParam,
};
use call_resolution::validate::{find_rest_index, validate_arg_types};

const A: Name = 100;
const B: Name = 101;
const REST: Name = 102;
const T: Name = 103;
const BASE: Name = 110;
const DERIVED: Name = 111;
const PAIR: Name = 112;
const THIS_NAME: Name = call_resolution::names::THIS;

fn number() -> Type {
    Type::Keyword(Keyword::Number)
}

fn string() -> Type {
    Type::Keyword(Keyword::String)
}

fn boolean() -> Type {
    Type::Keyword(Keyword::Boolean)
}

fn any() -> Type {
    Type::Keyword(Keyword::Any)
}

fn required(name: Name, ty: Type) -> FnParam {
    FnParam { pat: Pat::Ident { name, optional: false }, required: true, ty }
}

fn optional(name: Name, ty: Type) -> FnParam {
    FnParam { pat: Pat::Ident { name, optional: true }, required: false, ty }
}

fn rest(name: Name, ty: Type) -> FnParam {
    FnParam {
        pat: Pat::Rest { annotated: true, arg: Box::new(Pat::Ident { name, optional: false }) },
        required: false,
        ty,
    }
}

fn signature(params: Vec<FnParam>, ret: Type) -> Signature {
    Signature { type_params: None, params, ret: Some(Box::new(ret)) }
}

fn candidate(params: Vec<FnParam>, ret_ty: Type) -> CallCandidate {
    CallCandidate { type_params: None, params, ret_ty }
}

fn at(lo: u32) -> Span {
    Span { lo, hi: lo + 1 }
}

fn arg_at(lo: u32, ty: Type) -> Arg {
    Arg { span: at(lo), spread: None, expr: ArgExpr::Other, ty }
}

fn spread_at(lo: u32, ty: Type) -> Arg {
    Arg { span: at(lo), spread: Some(Span { lo: lo - 3, hi: lo }), expr: ArgExpr::Other, ty }
}

fn entry(lo: u32, ty: Type) -> TypeOrSpread {
    TypeOrSpread { span: at(lo), spread: None, ty }
}

fn env_with(decls: Vec<Decl>) -> TypeEnv {
    TypeEnv { decls, depth_limit: 16, no_implicit_any: false }
}

fn env() -> TypeEnv {
    env_with(vec![])
}

fn call_span() -> Span {
    Span { lo: 0, hi: 90 }
}

fn wrong(lo: u32) -> ErrorKind {
    ErrorKind::WrongArgType { span: at(lo), inner: AssignFailure { code: 1 } }
}

#[test]
fn arguments_without_spread_stay_as_they_are() {
    let args = vec![arg_at(10, number()), arg_at(12, string())];
    assert_eq!(
        spread_args(&env(), &ShapeRelations, &args),
        Ok(SpreadArgs {
            types: vec![entry(10, number()), entry(12, string())],
            arg_count_unknown: false,
        })
    );
}

#[test]
fn spread_tuple_gives_one_entry_for_each_element() {
    let args = vec![arg_at(10, number()), spread_at(20, Type::Tuple(vec![string(), boolean()]))];
    let dots = Span { lo: 17, hi: 20 };
    assert_eq!(
        spread_args(&env(), &ShapeRelations, &args),
        Ok(SpreadArgs {
            types: vec![
                entry(10, number()),
                TypeOrSpread { span: dots, spread: None, ty: string() },
                TypeOrSpread { span: dots, spread: None, ty: boolean() },
            ],
            arg_count_unknown: false,
        })
    );
}

#[test]
fn spread_of_a_named_tuple_is_expanded_too() {
    let env = env_with(vec![Decl {
        name: PAIR,
        is_alias: true,
        ty: Type::Tuple(vec![number(), number()]),
    }]);
    let args = vec![spread_at(20, Type::Ref { name: PAIR, type_args: None })];
    let got = spread_args(&env, &ShapeRelations, &args).unwrap();
    assert_eq!(got.types.len(), 2);
    assert!(!got.arg_count_unknown);
}

#[test]
fn spread_any_leaves_the_count_unknown() {
    let args = vec![spread_at(20, any())];
    assert_eq!(
        spread_args(&env(), &ShapeRelations, &args),
        Ok(SpreadArgs { types: vec![entry(20, any())], arg_count_unknown: true })
    );
}

#[test]
fn spread_array_is_kept_as_a_spread() {
    let array = Type::Array(Box::new(number()));
    let args = vec![spread_at(20, array.clone())];
    assert_eq!(
        spread_args(&env(), &ShapeRelations, &args),
        Ok(SpreadArgs {
            types: vec![TypeOrSpread {
                span: at(20),
                spread: Some(Span { lo: 17, hi: 20 }),
                ty: array,
            }],
            arg_count_unknown: true,
        })
    );
}

#[test]
fn spread_iterable_gives_its_element_type() {
    let args = vec![spread_at(20, string())];
    assert_eq!(
        spread_args(&env(), &ShapeRelations, &args),
        Ok(SpreadArgs {
            types: vec![TypeOrSpread {
                span: at(20),
                spread: Some(Span { lo: 17, hi: 20 }),
                ty: string(),
            }],
            arg_count_unknown: true,
        })
    );
}

#[test]
fn spread_of_what_cannot_be_iterated_fails() {
    let args = vec![arg_at(10, number()), spread_at(20, number()), spread_at(30, boolean())];
    assert_eq!(
        spread_args(&env(), &ShapeRelations, &args),
        Err(ErrorKind::MustHaveSymbolIterator { span: at(20) })
    );
}

#[test]
fn function_offers_itself_to_a_call_only() {
    let f = Type::Function(signature(vec![required(A, number())], string()));
    assert_eq!(
        extract_callee_candidates(&env(), ExtractKind::Call, &f),
        vec![candidate(vec![required(A, number())], string())]
    );
    assert_eq!(extract_callee_candidates(&env(), ExtractKind::New, &f), vec![]);
}

#[test]
fn constructor_type_offers_itself_to_new_only() {
    let c = Type::Constructor(signature(vec![], string()));
    assert_eq!(
        extract_callee_candidates(&env(), ExtractKind::New, &c),
        vec![candidate(vec![], string())]
    );
    assert_eq!(extract_callee_candidates(&env(), ExtractKind::Call, &c), vec![]);
}

#[test]
fn union_and_intersection_offer_what_their_members_offer() {
    let f = Type::Function(signature(vec![required(A, number())], string()));
    let g = Type::Function(signature(vec![], boolean()));
    let expected = vec![candidate(vec![required(A, number())], string()), candidate(vec![], boolean())];
    let union = Type::Union(vec![f.clone(), number(), g.clone()]);
    assert_eq!(extract_callee_candidates(&env(), ExtractKind::Call, &union), expected);
    let both = Type::Intersection(vec![f, g]);
    assert_eq!(extract_callee_candidates(&env(), ExtractKind::Call, &both), expected);
}

#[test]
fn type_literal_offers_its_signatures_by_kind() {
    let lit = Type::TypeLit(vec![
        TypeElement::Call(signature(vec![], number())),
        TypeElement::Constructor(signature(vec![], string())),
        TypeElement::Call(Signature { type_params: None, params: vec![], ret: None }),
        TypeElement::Index,
    ]);
    assert_eq!(
        extract_callee_candidates(&env(), ExtractKind::Call, &lit),
        vec![candidate(vec![], number()), candidate(vec![], any())]
    );
    assert_eq!(
        extract_callee_candidates(&env(), ExtractKind::New, &lit),
        vec![candidate(vec![], string())]
    );
}

#[test]
fn interface_offers_its_own_signatures_before_inherited_ones() {
    let base = Type::Interface(Interface {
        name: BASE,
        type_params: None,
        extends: vec![],
        body: vec![TypeElement::Call(signature(vec![], string()))],
    });
    let derived = Type::Interface(Interface {
        name: DERIVED,
        type_params: None,
        extends: vec![BASE, 999],
        body: vec![TypeElement::Call(signature(vec![], number()))],
    });
    let env = env_with(vec![Decl { name: BASE, is_alias: false, ty: base }]);
    assert_eq!(
        extract_callee_candidates(&env, ExtractKind::Call, &derived),
        vec![candidate(vec![], number()), candidate(vec![], string())]
    );
}

fn class(name: Name, super_class: Option<Type>, body: Vec<ClassMember>) -> ClassDef {
    ClassDef {
        name,
        is_abstract: false,
        type_params: None,
        super_class: super_class.map(Box::new),
        body,
    }
}

#[test]
fn class_offers_its_constructors_to_new_and_nothing_to_a_call() {
    let def = class(
        BASE,
        None,
        vec![
            ClassMember::Constructor(Signature {
                type_params: None,
                params: vec![required(A, number())],
                ret: None,
            }),
            ClassMember::Index,
        ],
    );
    let instance = Type::Class(class(BASE, None, def.body.clone()));
    assert_eq!(
        extract_callee_candidates(&env(), ExtractKind::New, &Type::ClassDef(def.clone())),
        vec![candidate(vec![required(A, number())], instance)]
    );
    assert_eq!(
        extract_callee_candidates(&env(), ExtractKind::Call, &Type::ClassDef(def)),
        vec![]
    );
}

#[test]
fn class_without_constructor_inherits_or_gets_the_default_one() {
    let base = class(
        BASE,
        None,
        vec![ClassMember::Constructor(signature(vec![required(A, string())], number()))],
    );
    let derived = class(DERIVED, Some(Type::ClassDef(base)), vec![]);
    assert_eq!(
        extract_callee_candidates(&env(), ExtractKind::New, &Type::ClassDef(derived)),
        vec![candidate(vec![required(A, string())], number())]
    );
    let lonely = class(BASE, None, vec![]);
    assert_eq!(
        extract_callee_candidates(&env(), ExtractKind::New, &Type::ClassDef(lonely.clone())),
        vec![candidate(vec![], Type::Class(lonely))]
    );
}

#[test]
fn type_parameter_offers_what_its_constraint_offers() {
    let f = Type::Function(signature(vec![], number()));
    let p = Type::Param(TypeParam { name: T, constraint: Some(Box::new(f)) });
    assert_eq!(
        extract_callee_candidates(&env(), ExtractKind::Call, &p),
        vec![candidate(vec![], number())]
    );
    let free = Type::Param(TypeParam { name: T, constraint: None });
    assert_eq!(extract_callee_candidates(&env(), ExtractKind::Call, &free), vec![]);
}

#[test]
fn references_and_instances_are_seen_through() {
    let f = Type::Function(signature(vec![], number()));
    let env = env_with(vec![Decl { name: BASE, is_alias: true, ty: f }]);
    let named = Type::Instance(Box::new(Type::Ref { name: BASE, type_args: None }));
    assert_eq!(
        extract_callee_candidates(&env, ExtractKind::Call, &Type::Ref { name: BASE, type_args: None }),
        vec![candidate(vec![], number())]
    );
    assert_eq!(extract_callee_candidates(&env, ExtractKind::Call, &named), vec![]);
    assert_eq!(extract_callee_candidates(&env, ExtractKind::Call, &number()), vec![]);
}

#[test]
fn a_cycle_of_names_offers_nothing() {
    let env = env_with(vec![Decl {
        name: BASE,
        is_alias: false,
        ty: Type::Interface(Interface {
            name: BASE,
            type_params: None,
            extends: vec![BASE],
            body: vec![],
        }),
    }]);
    let ty = Type::Ref { name: BASE, type_args: None };
    assert_eq!(extract_callee_candidates(&env, ExtractKind::Call, &ty), vec![]);
}

fn classify(params: &Vec<FnParam>, args: &Vec<Arg>, unknown: bool) -> ArgCheckResult {
    check_call_args(&ShapeRelations, call_span(), &None, params, &None, args, unknown, false)
}

#[test]
fn argument_of_the_parameter_type_fits_exactly() {
    let params = vec![required(A, number())];
    assert_eq!(classify(&params, &vec![arg_at(10, number())], false), ArgCheckResult::Exact);
    assert_eq!(
        classify(&params, &vec![arg_at(10, Type::Lit(Lit::Num(3)))], false),
        ArgCheckResult::Exact
    );
}

#[test]
fn any_argument_fits_loosely() {
    let params = vec![required(A, number())];
    assert_eq!(classify(&params, &vec![arg_at(10, any())], false), ArgCheckResult::MayBe);
    let open = vec![required(A, any())];
    assert_eq!(classify(&open, &vec![arg_at(10, number())], false), ArgCheckResult::Exact);
}

#[test]
fn unknown_argument_count_fits_loosely() {
    let params = vec![required(A, number())];
    assert_eq!(classify(&params, &vec![arg_at(10, number())], true), ArgCheckResult::MayBe);
}

#[test]
fn argument_of_another_type_is_a_mismatch() {
    let params = vec![required(A, number()), required(B, string())];
    let args = vec![arg_at(10, number()), arg_at(12, boolean())];
    assert_eq!(classify(&params, &args, false), ArgCheckResult::ArgTypeMismatch);
}

#[test]
fn wrong_number_of_arguments_or_type_arguments_is_a_wrong_count() {
    let params = vec![required(A, number())];
    assert_eq!(classify(&params, &vec![], false), ArgCheckResult::WrongArgCount);
    let type_params = Some(vec![TypeParam { name: T, constraint: None }]);
    let type_args = Some(vec![number(), number()]);
    assert_eq!(
        check_call_args(
            &ShapeRelations,
            call_span(),
            &type_params,
            &params,
            &type_args,
            &vec![arg_at(10, number())],
            false,
            false
        ),
        ArgCheckResult::WrongArgCount
    );
}

#[test]
fn parameter_of_a_type_parameter_is_not_checked() {
    let t = Type::Param(TypeParam { name: T, constraint: None });
    let params = vec![required(A, t.clone()), required(B, Type::Instance(Box::new(t)))];
    let args = vec![arg_at(10, number()), arg_at(12, string())];
    assert_eq!(classify(&params, &args, false), ArgCheckResult::Exact);
}

#[test]
fn ranks_go_from_exact_to_wrong_count() {
    assert_eq!(ArgCheckResult::Exact.ordinal(), 0);
    assert_eq!(ArgCheckResult::MayBe.ordinal(), 1);
    assert_eq!(ArgCheckResult::ArgTypeMismatch.ordinal(), 2);
    assert_eq!(ArgCheckResult::WrongArgCount.ordinal(), 3);
    assert!(!ArgCheckResult::MayBe.failed());
    assert!(ArgCheckResult::ArgTypeMismatch.failed());
}

#[test]
fn ordering_by_rank_is_stable() {
    let results = vec![
        ArgCheckResult::WrongArgCount,
        ArgCheckResult::MayBe,
        ArgCheckResult::Exact,
        ArgCheckResult::MayBe,
        ArgCheckResult::ArgTypeMismatch,
        ArgCheckResult::Exact,
    ];
    assert_eq!(order_by_rank(&results), vec![2, 5, 1, 3, 4, 0]);
    assert_eq!(order_by_rank(&vec![]), Vec::<usize>::new());
}

#[test]
fn rest_tuple_takes_one_argument_for_each_element() {
    let params = vec![rest(REST, Type::Tuple(vec![string(), number()]))];
    let args = vec![entry(10, Type::Lit(Lit::Str(7))), entry(12, Type::Lit(Lit::Num(1)))];
    assert_eq!(validate_arg_types(&env(), &ShapeRelations, &params, &args, false), vec![]);
}

#[test]
fn rest_tuple_reports_each_argument_that_does_not_fit() {
    let params = vec![rest(REST, Type::Tuple(vec![string(), number()]))];
    let args = vec![entry(10, Type::Lit(Lit::Num(1))), entry(12, Type::Lit(Lit::Str(7)))];
    assert_eq!(
        validate_arg_types(&env(), &ShapeRelations, &params, &args, false),
        vec![wrong(10), wrong(12)]
    );
}

#[test]
fn spread_amid_a_rest_tuple_is_held_against_the_whole_parameter() {
    let tuple = Type::Tuple(vec![string(), number(), number()]);
    let params = vec![rest(REST, tuple), required(A, boolean())];
    let args = vec![
        entry(10, string()),
        TypeOrSpread { span: at(12), spread: Some(at(9)), ty: Type::Array(Box::new(number())) },
        entry(14, string()),
    ];
    assert_eq!(
        validate_arg_types(&env(), &ShapeRelations, &params, &args, false),
        vec![wrong(12), wrong(14)]
    );
}

#[test]
fn rest_tuple_takes_the_arguments_that_are_there() {
    let params = vec![rest(REST, Type::Tuple(vec![string(), number()]))];
    assert_eq!(
        validate_arg_types(&env(), &ShapeRelations, &params, &vec![entry(10, number())], false),
        vec![wrong(10)]
    );
    assert_eq!(validate_arg_types(&env(), &ShapeRelations, &params, &vec![], false), vec![]);
}

#[test]
fn rest_parameter_of_another_type_takes_one_argument() {
    let params = vec![rest(REST, any())];
    let args = vec![entry(10, number()), entry(12, string())];
    assert_eq!(validate_arg_types(&env(), &ShapeRelations, &params, &args, false), vec![]);
    let strict = vec![rest(REST, boolean())];
    assert_eq!(
        validate_arg_types(&env(), &ShapeRelations, &strict, &args, false),
        vec![wrong(10)]
    );
}

#[test]
fn generic_signature_reports_the_first_error_only() {
    let params = vec![rest(REST, Type::Tuple(vec![string(), number()]))];
    let args = vec![entry(10, Type::Lit(Lit::Num(1))), entry(12, Type::Lit(Lit::Str(7)))];
    assert_eq!(validate_arg_types(&env(), &ShapeRelations, &params, &args, true), vec![wrong(10)]);
}

#[test]
fn rest_array_checks_every_remaining_argument() {
    let params = vec![required(A, string()), rest(REST, Type::Array(Box::new(number())))];
    let args = vec![
        entry(10, string()),
        entry(12, number()),
        entry(14, string()),
        entry(16, number()),
        entry(18, boolean()),
    ];
    assert_eq!(
        validate_arg_types(&env(), &ShapeRelations, &params, &args, false),
        vec![wrong(14), wrong(18)]
    );
}

#[test]
fn spread_array_goes_into_a_rest_array_as_a_whole() {
    let array = Type::Array(Box::new(number()));
    let params = vec![rest(REST, array.clone())];
    let args = vec![TypeOrSpread { span: at(10), spread: Some(at(7)), ty: array }];
    assert_eq!(validate_arg_types(&env(), &ShapeRelations, &params, &args, false), vec![]);
}

#[test]
fn plain_arguments_are_checked_against_their_parameters() {
    let params = vec![required(THIS_NAME, boolean()), required(A, number()), optional(B, string())];
    let args = vec![entry(10, string()), entry(12, number())];
    assert_eq!(
        validate_arg_types(&env(), &ShapeRelations, &params, &args, false),
        vec![wrong(10), wrong(12)]
    );
}

#[test]
fn spread_before_the_rest_parameter_is_reported() {
    let params = vec![
        required(A, number()),
        required(B, number()),
        rest(REST, Type::Array(Box::new(number()))),
    ];
    assert_eq!(find_rest_index(&params), Some(2));
    let array = TypeOrSpread {
        span: at(10),
        spread: Some(at(7)),
        ty: Type::Array(Box::new(number())),
    };
    assert_eq!(
        validate_arg_types(&env(), &ShapeRelations, &params, &vec![array], false),
        vec![ErrorKind::SpreadMustBeTupleOrPassedToRest { span: at(10) }]
    );
    let tuple = TypeOrSpread {
        span: at(10),
        spread: Some(at(7)),
        ty: Type::Tuple(vec![number(), number()]),
    };
    assert_eq!(
        validate_arg_types(&env(), &ShapeRelations, &params, &vec![tuple], true),
        vec![ErrorKind::ExpectedAtLeastNArgsButGotMOrMore { span: at(10), min: 1 }]
    );
}

#[test]
fn optional_parameters_do_not_count_towards_the_rest_position() {
    let params = vec![
        required(A, number()),
        optional(B, number()),
        rest(REST, Type::Array(Box::new(number()))),
    ];
    assert_eq!(find_rest_index(&params), Some(1));
    assert_eq!(find_rest_index(&vec![required(A, number())]), None);
}

#[test]
fn spread_that_cannot_be_iterated_must_go_to_a_rest_parameter() {
    let params = vec![required(A, number())];
    let args = vec![TypeOrSpread { span: at(10), spread: Some(at(7)), ty: boolean() }];
    assert_eq!(
        validate_arg_types(&env(), &ShapeRelations, &params, &args, false),
        vec![ErrorKind::SpreadMustBeTupleOrPassedToRest { span: at(10) }]
    );
}
