use call_resolution::arity::{
    max_param_count, min_param_count, validate_arg_count, validate_type_args_count,
};
use call_resolution::errors::ErrorKind;
use call_resolution::names::THIS;
use call_resolution::shapes::ShapeRelations;
use call_resolution::span::Span;
use call_resolution::types::{Arg, ArgExpr, FnParam, Keyword, Name, Pat, Type, TypeParam};

const A: Name = 100;
const B: Name = 101;
const REST: Name = 102;

fn number() -> Type {
    Type::Keyword(Keyword::Number)
}

fn string() -> Type {
    Type::Keyword(Keyword::String)
}

fn required(name: Name, ty: Type) -> FnParam {
    FnParam { pat: Pat::Ident { name, optional: false }, required: true, ty }
}

fn optional(name: Name, ty: Type) -> FnParam {
    FnParam { pat: Pat::Ident { name, optional: true }, required: false, ty }
}

fn rest(name: Name, ty: Type) -> FnParam {
    FnParam {
        pat: Pat::Rest { annotated: true, arg: Box::new(Pat::Ident { name, optional: false }) },
        required: false,
        ty,
    }
}

fn arg_at(lo: u32, ty: Type) -> Arg {
    Arg { span: Span { lo, hi: lo + 1 }, spread: None, expr: ArgExpr::Other, ty }
}

fn numbers(n: u32) -> Vec<Arg> {
    (0..n).map(|i| arg_at(10 + 2 * i, number())).collect()
}

fn call_span() -> Span {
    Span { lo: 0, hi: 50 }
}

#[test]
fn optional_parameter_accepts_one_or_two_arguments() {
    let params = vec![required(A, number()), optional(B, number())];
    let rel = ShapeRelations;
    assert_eq!(validate_arg_count(&rel, call_span(), &params, &numbers(1), false), Ok(()));
    assert_eq!(validate_arg_count(&rel, call_span(), &params, &numbers(2), false), Ok(()));
}

#[test]
fn optional_parameter_rejects_no_argument() {
    let params = vec![required(A, number()), optional(B, number())];
    assert_eq!(
        validate_arg_count(&ShapeRelations, call_span(), &params, &numbers(0), false),
        Err(ErrorKind::ExpectedNArgsButGotM { span: call_span(), min: 1, max: 2 })
    );
}

#[test]
fn optional_parameter_rejects_three_arguments_at_the_excess() {
    let params = vec![required(A, number()), optional(B, number())];
    assert_eq!(
        validate_arg_count(&ShapeRelations, call_span(), &params, &numbers(3), false),
        Err(ErrorKind::ExpectedNArgsButGotM { span: Span { lo: 14, hi: 15 }, min: 1, max: 2 })
    );
    assert_eq!(
        validate_arg_count(&ShapeRelations, call_span(), &params, &numbers(5), false),
        Err(ErrorKind::ExpectedNArgsButGotM { span: Span { lo: 14, hi: 19 }, min: 1, max: 2 })
    );
}

#[test]
fn rest_array_takes_any_number_of_arguments() {
    let params = vec![required(A, number()), rest(REST, Type::Array(Box::new(number())))];
    let rel = ShapeRelations;
    assert_eq!(validate_arg_count(&rel, call_span(), &params, &numbers(1), false), Ok(()));
    assert_eq!(validate_arg_count(&rel, call_span(), &params, &numbers(7), false), Ok(()));
    assert_eq!(max_param_count(&params), None);
}

#[test]
fn rest_array_still_requires_the_leading_argument() {
    let params = vec![required(A, number()), rest(REST, Type::Array(Box::new(number())))];
    assert_eq!(
        validate_arg_count(&ShapeRelations, call_span(), &params, &numbers(0), false),
        Err(ErrorKind::ExpectedAtLeastNArgsButGotM { span: call_span(), min: 1 })
    );
}

#[test]
fn receiver_parameter_takes_no_argument() {
    let params = vec![required(THIS, string()), required(A, number())];
    let rel = ShapeRelations;
    assert_eq!(min_param_count(&rel, &params), 1);
    assert_eq!(max_param_count(&params), Some(1));
    assert_eq!(validate_arg_count(&rel, call_span(), &params, &numbers(1), false), Ok(()));
    assert_eq!(
        validate_arg_count(&rel, call_span(), &params, &numbers(2), false),
        Err(ErrorKind::ExpectedNArgsButGotM { span: Span { lo: 12, hi: 13 }, min: 1, max: 1 })
    );
}

#[test]
fn rest_tuple_bounds_the_arguments_by_its_elements() {
    let params = vec![rest(REST, Type::Tuple(vec![string(), number()]))];
    let rel = ShapeRelations;
    assert_eq!(min_param_count(&rel, &params), 0);
    assert_eq!(max_param_count(&params), Some(2));
    assert_eq!(validate_arg_count(&rel, call_span(), &params, &numbers(2), false), Ok(()));
    assert_eq!(
        validate_arg_count(&rel, call_span(), &params, &numbers(3), false),
        Err(ErrorKind::ExpectedNArgsButGotM { span: Span { lo: 14, hi: 15 }, min: 0, max: 2 })
    );
}

#[test]
fn rest_tuple_with_open_tail_is_unbounded() {
    let tuple = Type::Tuple(vec![string(), Type::Rest(Box::new(Type::Array(Box::new(number()))))]);
    let params = vec![rest(REST, tuple)];
    assert_eq!(max_param_count(&params), None);
    assert_eq!(validate_arg_count(&ShapeRelations, call_span(), &params, &numbers(9), false), Ok(()));
}

#[test]
fn rest_of_an_instance_of_a_tuple_counts_as_the_tuple() {
    let tuple = Type::Instance(Box::new(Type::Tuple(vec![string(), number(), number()])));
    assert_eq!(max_param_count(&vec![required(A, number()), rest(REST, tuple)]), Some(4));
}

#[test]
fn trailing_parameter_that_takes_void_may_be_left_out() {
    let params = vec![required(A, number()), required(B, Type::Keyword(Keyword::Void))];
    let rel = ShapeRelations;
    assert_eq!(min_param_count(&rel, &params), 1);
    assert_eq!(validate_arg_count(&rel, call_span(), &params, &numbers(1), false), Ok(()));
    let strict = vec![required(A, number()), required(B, number())];
    assert_eq!(min_param_count(&rel, &strict), 2);
}

#[test]
fn trailing_any_parameter_stays_required() {
    let params = vec![required(A, Type::Keyword(Keyword::Any))];
    assert_eq!(min_param_count(&ShapeRelations, &params), 1);
}

#[test]
fn a_spread_argument_switches_the_count_off() {
    let params = vec![required(A, number()), required(B, number())];
    let mut args = numbers(1);
    args[0].spread = Some(Span { lo: 9, hi: 12 });
    assert_eq!(validate_arg_count(&ShapeRelations, call_span(), &params, &args, false), Ok(()));
}

#[test]
fn function_literal_called_on_the_spot_may_leave_arguments_out() {
    let params = vec![required(A, number()), required(B, number())];
    let rel = ShapeRelations;
    assert_eq!(validate_arg_count(&rel, call_span(), &params, &numbers(0), true), Ok(()));
    assert_eq!(
        validate_arg_count(&rel, call_span(), &params, &numbers(0), false),
        Err(ErrorKind::ExpectedNArgsButGotM { span: call_span(), min: 2, max: 2 })
    );
    assert_eq!(
        validate_arg_count(&rel, call_span(), &params, &numbers(3), true),
        Err(ErrorKind::ExpectedNArgsButGotM { span: Span { lo: 14, hi: 15 }, min: 2, max: 2 })
    );
}

#[test]
fn destructured_rest_counts_holes_and_nested_patterns() {
    let pat = Pat::Rest {
        annotated: false,
        arg: Box::new(Pat::Array {
            optional: false,
            elems: vec![
                None,
                Some(Pat::Array { optional: false, elems: vec![] }),
                Some(Pat::Object { optional: true, props: vec![] }),
                Some(Pat::Ident { name: A, optional: false }),
            ],
        }),
    };
    assert_eq!(pat.count_required(), 2);
    let annotated = Pat::Rest {
        annotated: true,
        arg: Box::new(Pat::Array { optional: false, elems: vec![None, None] }),
    };
    assert_eq!(annotated.count_required(), 0);
}

#[test]
fn patterns_without_a_name_require_an_argument_unless_optional() {
    assert_eq!(Pat::Array { optional: false, elems: vec![] }.count_required(), 1);
    assert_eq!(Pat::Object { optional: true, props: vec![] }.count_required(), 0);
    assert_eq!(Pat::Assign { left: Box::new(Pat::Invalid) }.count_required(), 0);
    assert_eq!(Pat::Ident { name: THIS, optional: false }.count_required(), 0);
}

#[test]
fn type_argument_count_must_match_where_both_are_given() {
    let span = call_span();
    let params = Some(vec![TypeParam { name: A, constraint: None }]);
    assert_eq!(validate_type_args_count(span, &params, &Some(vec![number()])), Ok(()));
    assert_eq!(validate_type_args_count(span, &params, &None), Ok(()));
    assert_eq!(validate_type_args_count(span, &None, &Some(vec![number()])), Ok(()));
    assert_eq!(
        validate_type_args_count(span, &params, &Some(vec![number(), string()])),
        Err(ErrorKind::TypeParameterCountMismatch { span, min: 1, max: 1, actual: 2 })
    );
}
