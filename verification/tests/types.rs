use call_resolution::env::{Decl, TypeEnv};
use call_resolution::errors::IterFailure;
use call_resolution::narrow::{add_call_facts, narrow_with_predicate, store_call_fact_for_var, Fact, Narrowed};
use call_resolution::patterns::{find_ids_in_pat, DestructuringFinder};
use call_resolution::relations::{AssignOpts, TypeRelations, UnknownRhs};
use call_resolution::shapes::ShapeRelations;
use call_resolution::span::Span;
use call_resolution::subst::{Binding, Inference, TypeMap};
use call_resolution::transform::{rewrite, rewrite_params, rewrite_types, Rewrite};
use call_resolution::type_params::{add_required_type_params, find_type_params};
use call_resolution::types::{
    Arg, ArgExpr, ClassDef, FnParam, Interface, Key, Keyword, Lit, Name, Pat, PredicateTarget,
    Signature, Type, TypeElement, TypeOrSpread, TypeParam,
};
use call_resolution::unions::{contains_type, dedup_types, new_union_without_dedup, union};

const A: Name = 100;
const B: Name = 101;
const C: Name = 102;
const T: Name = 103;
const U: Name = 104;
const FOO: Name = 120;
const BAR: Name = 121;
const SHAPE: Name = 122;
const BOXED: Name = 123;

fn number() -> Type {
    Type::Keyword(Keyword::Number)
}

fn string() -> Type {
    Type::Keyword(Keyword::String)
}

fn boolean() -> Type {
    Type::Keyword(Keyword::Boolean)
}

fn any() -> Type {
    Type::Keyword(Keyword::Any)
}

fn unknown() -> Type {
    Type::Keyword(Keyword::Unknown)
}

fn never() -> Type {
    Type::Keyword(Keyword::Never)
}

fn named(name: Name) -> Type {
    Type::Ref { name, type_args: None }
}

fn type_param(name: Name) -> Type {
    Type::Param(TypeParam { name, constraint: None })
}

fn text(id: Name) -> Type {
    Type::Lit(Lit::Str(id))
}

fn required(name: Name, ty: Type) -> FnParam {
    FnParam { pat: Pat::Ident { name, optional: false }, required: true, ty }
}

fn function(params: Vec<FnParam>, ret: Type) -> Type {
    Type::Function(Signature { type_params: None, params, ret: Some(Box::new(ret)) })
}

fn interface(name: Name, extends: Vec<Name>) -> Type {
    Type::Interface(Interface { name, type_params: None, extends, body: vec![] })
}

fn class(name: Name) -> ClassDef {
    ClassDef { name, is_abstract: false, type_params: None, super_class: None, body: vec![] }
}

fn env_with(decls: Vec<Decl>) -> TypeEnv {
    TypeEnv { decls, depth_limit: 16, no_implicit_any: false }
}

fn env() -> TypeEnv {
    env_with(vec![])
}

fn plain(ty: Type) -> Narrowed {
    Narrowed { ty, prevent_converting_to_children: false }
}

fn narrow(orig: &Type, asserted: &Type) -> Narrowed {
    narrow_with_predicate(&env(), &ShapeRelations, orig, asserted)
}

#[test]
fn two_plain_interfaces_narrow_to_their_intersection() {
    let foo = interface(FOO, vec![]);
    let bar = interface(BAR, vec![]);
    assert_eq!(narrow(&foo, &bar), plain(Type::Intersection(vec![foo, bar])));
}

#[test]
fn primitive_asserted_type_is_taken_as_it_is() {
    assert_eq!(narrow(&Type::Union(vec![number(), string()]), &string()), plain(string()));
    assert_eq!(narrow(&unknown(), &text(7)), plain(text(7)));
}

#[test]
fn original_that_extends_the_asserted_type_stays() {
    let strings = Type::Array(Box::new(string()));
    let wider = Type::Array(Box::new(Type::Union(vec![string(), number()])));
    assert_eq!(narrow(&strings, &wider), plain(strings.clone()));
    assert_eq!(narrow(&wider, &strings), plain(strings));
}

#[test]
fn class_values_stand_for_their_instances() {
    let def = class(FOO);
    assert_eq!(narrow(&unknown(), &Type::ClassDef(def.clone())), plain(Type::Class(def.clone())));
    let same = Type::ClassDef(def.clone());
    assert_eq!(narrow(&same, &same), plain(Type::Class(def)));
}

#[test]
fn union_keeps_the_members_that_extend_the_asserted_type() {
    let wide = Type::Union(vec![string(), number()]);
    let orig = Type::Union(vec![
        Type::Array(Box::new(string())),
        Type::Array(Box::new(boolean())),
        Type::Array(Box::new(number())),
    ]);
    let asserted = Type::Array(Box::new(wide));
    assert_eq!(
        narrow(&orig, &asserted),
        plain(Type::Union(vec![Type::Array(Box::new(string())), Type::Array(Box::new(number()))]))
    );
}

#[test]
fn union_takes_the_asserted_type_for_members_that_it_extends() {
    let foo = Type::Class(class(FOO));
    let orig = Type::Union(vec![unknown(), foo.clone(), number()]);
    assert_eq!(
        narrow(&orig, &foo),
        Narrowed { ty: foo.clone(), prevent_converting_to_children: true }
    );
}

#[test]
fn union_without_a_fitting_member_gives_way_to_the_asserted_type() {
    let foo = Type::Class(class(FOO));
    let orig = Type::Union(vec![number(), string()]);
    assert_eq!(narrow(&orig, &foo), plain(foo));
}

#[test]
fn narrowing_again_by_the_same_predicate_changes_nothing() {
    let foo = Type::Class(class(FOO));
    let once = narrow(&unknown(), &foo);
    assert_eq!(once, plain(foo.clone()));
    assert_eq!(narrow(&once.ty, &foo), once);
    let strings = Type::Array(Box::new(string()));
    let wider = Type::Array(Box::new(Type::Union(vec![string(), number()])));
    let once = narrow(&strings, &wider);
    assert_eq!(narrow(&once.ty, &wider), once);
    let once = narrow(&Type::Union(vec![number(), string()]), &number());
    assert_eq!(narrow(&once.ty, &number()), once);
}

#[test]
fn narrowing_a_plain_interface_by_itself_gives_an_intersection() {
    let foo = interface(FOO, vec![]);
    let once = narrow(&unknown(), &foo);
    assert_eq!(once, plain(foo.clone()));
    assert_eq!(narrow(&once.ty, &foo), plain(Type::Intersection(vec![foo.clone(), foo])));
}

#[test]
fn names_are_looked_up_before_narrowing() {
    let foo = interface(FOO, vec![]);
    let bar = interface(BAR, vec![BAR]);
    let env = env_with(vec![
        Decl { name: FOO, is_alias: false, ty: foo.clone() },
        Decl { name: BAR, is_alias: false, ty: bar.clone() },
    ]);
    assert_eq!(
        narrow_with_predicate(&env, &ShapeRelations, &named(FOO), &named(FOO)),
        plain(Type::Intersection(vec![foo.clone(), foo.clone()]))
    );
    assert_eq!(narrow_with_predicate(&env, &ShapeRelations, &named(FOO), &named(BAR)), plain(bar));
}

#[test]
fn fact_for_a_variable_narrows_its_known_type() {
    let foo = Type::Class(class(FOO));
    let vars = TypeMap {
        entries: vec![Binding { name: A, ty: Type::Union(vec![foo.clone(), number()]) }],
    };
    assert_eq!(
        store_call_fact_for_var(&env(), &ShapeRelations, &vars, A, &foo),
        Fact {
            var: A,
            narrowed: foo.clone(),
            asserted: foo.clone(),
            prevent_converting_to_children: true,
        }
    );
    assert_eq!(
        store_call_fact_for_var(&env(), &ShapeRelations, &vars, B, &foo),
        Fact { var: B, narrowed: foo.clone(), asserted: foo, prevent_converting_to_children: false }
    );
    assert_eq!(
        store_call_fact_for_var(&env(), &ShapeRelations, &vars, A, &number()),
        Fact {
            var: A,
            narrowed: number(),
            asserted: number(),
            prevent_converting_to_children: false,
        }
    );
}

#[test]
fn facts_are_made_for_identifiers_passed_for_the_named_parameter() {
    let vars = TypeMap { entries: vec![] };
    let params = vec![required(A, unknown()), required(B, unknown())];
    let span = Span { lo: 1, hi: 2 };
    let args = vec![
        Arg { span, spread: None, expr: ArgExpr::Ident(C), ty: unknown() },
        Arg { span, spread: None, expr: ArgExpr::Ident(T), ty: unknown() },
    ];
    let about_b =
        Type::Predicate { target: PredicateTarget::Ident(B), ty: Some(Box::new(string())) };
    assert_eq!(
        add_call_facts(&env(), &ShapeRelations, &vars, &params, &args, &about_b),
        vec![Fact {
            var: T,
            narrowed: string(),
            asserted: string(),
            prevent_converting_to_children: false,
        }]
    );
    let about_this = Type::Predicate { target: PredicateTarget::This, ty: Some(Box::new(string())) };
    assert_eq!(add_call_facts(&env(), &ShapeRelations, &vars, &params, &args, &about_this), vec![]);
    let open = Type::Predicate { target: PredicateTarget::Ident(B), ty: None };
    assert_eq!(add_call_facts(&env(), &ShapeRelations, &vars, &params, &args, &open), vec![]);
    let few = vec![Arg { span, spread: None, expr: ArgExpr::Ident(C), ty: unknown() }];
    assert_eq!(add_call_facts(&env(), &ShapeRelations, &vars, &params, &few, &about_b), vec![]);
    assert_eq!(add_call_facts(&env(), &ShapeRelations, &vars, &params, &args, &string()), vec![]);
}

#[test]
fn substitution_replaces_bound_type_parameters_everywhere() {
    let map = TypeMap { entries: vec![Binding { name: T, ty: number() }] };
    let ty = function(
        vec![required(A, Type::Array(Box::new(type_param(T))))],
        Type::Union(vec![type_param(T), type_param(U)]),
    );
    assert_eq!(
        rewrite(&ShapeRelations, &env(), &Rewrite::Substitute(&map), &ty),
        function(
            vec![required(A, Type::Array(Box::new(number())))],
            Type::Union(vec![number(), type_param(U)]),
        )
    );
    let params = vec![required(A, type_param(T)), required(B, string())];
    assert_eq!(
        rewrite_params(&ShapeRelations, &env(), &Rewrite::Substitute(&map), &params),
        vec![required(A, number()), required(B, string())]
    );
}

#[test]
fn later_binding_of_a_name_replaces_the_earlier_one() {
    let mut map = TypeMap::new();
    assert!(!map.contains_key(T));
    map.insert(T, number());
    map.insert(U, boolean());
    map.insert(T, string());
    assert_eq!(map.get(T), Some(&string()));
    assert_eq!(map.get(U), Some(&boolean()));
    assert_eq!(map.get(A), None);
    assert_eq!(rewrite(&ShapeRelations, &env(), &Rewrite::Substitute(&map), &type_param(T)), string());
}

#[test]
fn receiver_type_replaces_this() {
    let this = named(FOO);
    let ty = Type::Tuple(vec![Type::This, Type::Optional(Box::new(Type::This)), number()]);
    assert_eq!(
        rewrite(&ShapeRelations, &env(), &Rewrite::ExpandThis(&this), &ty),
        Type::Tuple(vec![named(FOO), Type::Optional(Box::new(named(FOO))), number()])
    );
}

#[test]
fn widening_turns_literals_into_primitives() {
    let ty = Type::Union(vec![text(1), Type::Lit(Lit::Num(2)), Type::Lit(Lit::Bool(true)), named(FOO)]);
    assert_eq!(
        rewrite(&ShapeRelations, &env(), &Rewrite::Generalize, &ty),
        Type::Union(vec![string(), number(), boolean(), named(FOO)])
    );
}

#[test]
fn widening_leaves_the_keys_of_an_indexed_access_alone() {
    let access = Type::IndexedAccess { obj: Box::new(named(FOO)), index: Box::new(text(1)) };
    assert_eq!(rewrite(&ShapeRelations, &env(), &Rewrite::Generalize, &access), access);
    let by_number = Type::IndexedAccess {
        obj: Box::new(named(FOO)),
        index: Box::new(Type::Lit(Lit::Num(1))),
    };
    assert_eq!(
        rewrite(&ShapeRelations, &env(), &Rewrite::Generalize, &by_number),
        Type::IndexedAccess { obj: Box::new(named(FOO)), index: Box::new(number()) }
    );
}

fn shape_env() -> TypeEnv {
    let shape = Type::TypeLit(vec![
        TypeElement::Property {
            key: Key { name: A, private: false },
            optional: false,
            ty: Some(Box::new(string())),
        },
        TypeElement::Property {
            key: Key { name: B, private: false },
            optional: false,
            ty: Some(Box::new(number())),
        },
        TypeElement::Property {
            key: Key { name: C, private: false },
            optional: false,
            ty: Some(Box::new(string())),
        },
    ]);
    env_with(vec![
        Decl { name: SHAPE, is_alias: false, ty: shape },
        Decl { name: BOXED, is_alias: true, ty: Type::TypeLit(vec![]) },
    ])
}

fn simplify(ty: &Type) -> Type {
    rewrite(&ShapeRelations, &shape_env(), &Rewrite::Simplify, ty)
}

#[test]
fn indexed_access_into_any_is_any() {
    let access = Type::IndexedAccess { obj: Box::new(any()), index: Box::new(string()) };
    assert_eq!(simplify(&access), any());
}

#[test]
fn indexed_access_by_a_key_is_the_type_of_the_member() {
    let access = Type::IndexedAccess { obj: Box::new(named(SHAPE)), index: Box::new(text(A)) };
    assert_eq!(simplify(&access), string());
    let missing = Type::IndexedAccess { obj: Box::new(named(SHAPE)), index: Box::new(text(T)) };
    assert_eq!(simplify(&missing), never());
}

#[test]
fn indexed_access_by_several_keys_is_the_union_of_the_members() {
    let keys = Type::Union(vec![text(A), text(B), text(C)]);
    let access = Type::IndexedAccess { obj: Box::new(named(SHAPE)), index: Box::new(keys) };
    assert_eq!(simplify(&access), Type::Union(vec![string(), number()]));
}

#[test]
fn indexed_access_by_something_else_stays() {
    let access = Type::IndexedAccess { obj: Box::new(named(SHAPE)), index: Box::new(string()) };
    assert_eq!(simplify(&access), access);
    let on_literal =
        Type::IndexedAccess { obj: Box::new(Type::TypeLit(vec![])), index: Box::new(text(A)) };
    assert_eq!(simplify(&on_literal), on_literal);
}

#[test]
fn alias_applied_to_a_union_is_distributed_over_its_members() {
    let applied = |arg: Type| Type::Ref { name: BOXED, type_args: Some(vec![arg]) };
    let ty = applied(Type::Union(vec![number(), string(), number()]));
    assert_eq!(simplify(&ty), Type::Union(vec![applied(number()), applied(string())]));
    let single = applied(number());
    assert_eq!(simplify(&single), single);
    let not_alias = Type::Ref { name: SHAPE, type_args: Some(vec![Type::Union(vec![number(), string()])]) };
    assert_eq!(simplify(&not_alias), not_alias);
}

#[test]
fn simplification_reaches_nested_types() {
    let access = Type::IndexedAccess { obj: Box::new(any()), index: Box::new(string()) };
    let ty = Type::Array(Box::new(function(vec![required(A, access.clone())], access)));
    assert_eq!(simplify(&ty), Type::Array(Box::new(function(vec![required(A, any())], any()))));
    assert_eq!(
        rewrite_types(&ShapeRelations, &shape_env(), &Rewrite::Simplify, &vec![number()]),
        vec![number()]
    );
}

#[test]
fn free_type_parameters_are_found_in_order() {
    let inner = Type::Function(Signature {
        type_params: Some(vec![TypeParam { name: U, constraint: None }]),
        params: vec![required(A, type_param(U)), required(B, type_param(T))],
        ret: Some(Box::new(type_param(C))),
    });
    let ty = Type::Tuple(vec![
        type_param(T),
        Type::Array(Box::new(inner)),
        Type::Param(TypeParam { name: A, constraint: Some(Box::new(type_param(T))) }),
        interface(FOO, vec![]),
    ]);
    let names: Vec<Name> = find_type_params(&ty).iter().map(|p| p.name).collect();
    assert_eq!(names, vec![T, T, C, A, T]);
}

#[test]
fn function_type_gets_the_type_parameters_that_it_mentions() {
    let open = function(vec![required(A, type_param(T)), required(B, type_param(U))], type_param(T));
    let closed = Type::Function(Signature {
        type_params: Some(vec![
            TypeParam { name: T, constraint: None },
            TypeParam { name: U, constraint: None },
        ]),
        params: vec![required(A, type_param(T)), required(B, type_param(U))],
        ret: Some(Box::new(type_param(T))),
    });
    assert_eq!(add_required_type_params(open), closed.clone());
    assert_eq!(add_required_type_params(closed.clone()), closed);
    let plain = function(vec![required(A, number())], string());
    assert_eq!(add_required_type_params(plain.clone()), plain);
    assert_eq!(add_required_type_params(type_param(T)), type_param(T));
}

#[test]
fn union_is_flattened_and_has_each_member_once() {
    let ty = union(vec![
        number(),
        Type::Union(vec![string(), never(), number()]),
        never(),
        string(),
        boolean(),
    ]);
    assert_eq!(ty, Type::Union(vec![number(), string(), boolean()]));
    assert_eq!(union(vec![]), never());
    assert_eq!(union(vec![never(), string()]), string());
}

#[test]
fn union_as_it_stands_keeps_repetitions() {
    assert_eq!(new_union_without_dedup(vec![]), never());
    assert_eq!(new_union_without_dedup(vec![number()]), number());
    assert_eq!(
        new_union_without_dedup(vec![number(), number()]),
        Type::Union(vec![number(), number()])
    );
}

#[test]
fn repetitions_are_removed_at_their_later_places() {
    let ts = vec![string(), number(), string(), named(FOO), number(), named(FOO)];
    assert_eq!(dedup_types(ts.clone()), vec![string(), number(), named(FOO)]);
    assert!(contains_type(&ts, &named(FOO)));
    assert!(!contains_type(&ts, &named(BAR)));
}

#[test]
fn structural_equality_agrees_with_equality_of_the_values() {
    let samples = vec![
        number(),
        string(),
        text(1),
        text(2),
        Type::This,
        named(FOO),
        Type::Ref { name: FOO, type_args: Some(vec![]) },
        type_param(T),
        Type::Param(TypeParam { name: T, constraint: Some(Box::new(number())) }),
        Type::Array(Box::new(number())),
        Type::Tuple(vec![number()]),
        Type::Tuple(vec![number(), string()]),
        Type::Rest(Box::new(number())),
        Type::Optional(Box::new(number())),
        function(vec![required(A, number())], string()),
        function(vec![required(B, number())], string()),
        Type::Constructor(Signature { type_params: None, params: vec![], ret: None }),
        Type::Union(vec![number(), string()]),
        Type::Intersection(vec![number(), string()]),
        interface(FOO, vec![]),
        interface(FOO, vec![BAR]),
        Type::TypeLit(vec![TypeElement::Index]),
        Type::ClassDef(class(FOO)),
        Type::Class(class(FOO)),
        Type::Instance(Box::new(number())),
        Type::IndexedAccess { obj: Box::new(number()), index: Box::new(string()) },
        Type::Predicate { target: PredicateTarget::This, ty: None },
        Type::Namespace(FOO),
    ];
    for (i, a) in samples.iter().enumerate() {
        assert_eq!(a.clone(), *a);
        for (j, b) in samples.iter().enumerate() {
            assert_eq!(a.same(b), i == j);
            assert_eq!(a == b, i == j);
        }
    }
}

#[test]
fn references_are_followed_to_the_declared_type() {
    let env = env_with(vec![
        Decl { name: FOO, is_alias: true, ty: named(BAR) },
        Decl { name: BAR, is_alias: true, ty: number() },
        Decl { name: BAR, is_alias: true, ty: string() },
    ]);
    assert_eq!(env.normalize(&named(FOO)), &number());
    assert_eq!(env.normalize(&named(C)), &named(C));
    assert_eq!(env.normalize(&string()), &string());
    assert_eq!(env.find_type(BAR), Some(&number()));
    assert!(env.is_alias(FOO));
    assert!(!env.is_alias(C));
}

#[test]
fn references_are_followed_no_further_than_the_limit() {
    let mut env = env_with(vec![
        Decl { name: FOO, is_alias: true, ty: named(BAR) },
        Decl { name: BAR, is_alias: true, ty: named(FOO) },
    ]);
    env.depth_limit = 3;
    assert_eq!(env.normalize(&named(FOO)), &named(BAR));
    env.depth_limit = 0;
    assert_eq!(env.normalize(&named(FOO)), &named(FOO));
}

#[test]
fn instance_markers_are_stripped() {
    let ty = Type::Instance(Box::new(Type::Instance(Box::new(number()))));
    assert_eq!(ty.normalize_instance(), &number());
    assert!(any().is_any());
    assert!(!ty.is_any());
}

#[test]
fn identifiers_of_a_pattern_are_found_in_order() {
    let pat = Pat::Array {
        optional: false,
        elems: vec![
            Some(Pat::Ident { name: A, optional: false }),
            None,
            Some(Pat::Object {
                optional: false,
                props: vec![
                    Pat::Ident { name: B, optional: false },
                    Pat::Assign { left: Box::new(Pat::Ident { name: C, optional: false }) },
                    Pat::Rest { annotated: false, arg: Box::new(Pat::Ident { name: T, optional: false }) },
                    Pat::Expr,
                ],
            }),
            Some(Pat::Invalid),
            Some(Pat::Ident { name: A, optional: true }),
        ],
    };
    assert_eq!(find_ids_in_pat(&pat), vec![A, B, C, T, A]);
    assert_eq!(find_ids_in_pat(&Pat::Expr), Vec::<Name>::new());
    let mut finder = DestructuringFinder::new();
    finder.visit(&Pat::Ident { name: U, optional: false });
    finder.visit(&pat);
    assert_eq!(finder.found, vec![U, A, B, C, T, A]);
}

fn accepts(to: &Type, from: &Type) -> bool {
    ShapeRelations.assign(to, from, AssignOpts::new()).is_ok()
}

#[test]
fn shape_relations_assign_by_shape() {
    assert!(accepts(&number(), &number()));
    assert!(accepts(&number(), &Type::Lit(Lit::Num(1))));
    assert!(!accepts(&Type::Lit(Lit::Num(1)), &number()));
    assert!(!accepts(&number(), &text(1)));
    assert!(accepts(&any(), &text(1)));
    assert!(accepts(&unknown(), &named(FOO)));
    assert!(accepts(&named(FOO), &any()));
    assert!(accepts(&named(FOO), &never()));
    assert!(!accepts(&named(FOO), &unknown()));
    assert!(accepts(&Type::Keyword(Keyword::Void), &Type::Keyword(Keyword::Undefined)));
    assert!(!accepts(&Type::Keyword(Keyword::Void), &number()));
    let either = Type::Union(vec![number(), string()]);
    assert!(accepts(&either, &text(1)));
    assert!(!accepts(&either, &boolean()));
    assert!(accepts(&either, &Type::Union(vec![text(1), Type::Lit(Lit::Num(2))])));
    assert!(!accepts(&number(), &either));
    assert!(accepts(&Type::Array(Box::new(either.clone())), &Type::Array(Box::new(number()))));
    assert!(accepts(&Type::Array(Box::new(either)), &Type::Tuple(vec![number(), string()])));
    assert!(!accepts(&Type::Array(Box::new(number())), &Type::Tuple(vec![number(), string()])));
    assert!(accepts(&Type::Optional(Box::new(number())), &number()));
    assert!(accepts(&Type::Rest(Box::new(number())), &number()));
    assert!(!accepts(&type_param(T), &number()));
    let to_param = AssignOpts {
        allow_unknown_rhs: UnknownRhs::Default,
        allow_assignment_to_param: true,
        allow_assignment_to_param_constraint: false,
        allow_iterable_on_rhs: false,
        use_missing_fields_for_class: false,
    };
    assert!(ShapeRelations.assign(&type_param(T), &number(), to_param).is_ok());
}

#[test]
fn shape_relations_decide_extension_by_assignability() {
    assert_eq!(ShapeRelations.extends(&text(1), &string()), Some(true));
    assert_eq!(ShapeRelations.extends(&string(), &text(1)), Some(false));
}

#[test]
fn shape_relations_infer_type_arguments_from_the_shapes() {
    let params = vec![
        required(A, number()),
        required(B, Type::Array(Box::new(type_param(T)))),
        required(C, function(vec![required(A, type_param(U))], type_param(T))),
    ];
    let span = Span { lo: 0, hi: 1 };
    let args = vec![
        TypeOrSpread { span, spread: None, ty: number() },
        TypeOrSpread { span, spread: None, ty: Type::Array(Box::new(string())) },
        TypeOrSpread { span, spread: None, ty: function(vec![required(B, boolean())], number()) },
    ];
    let type_params = vec![
        TypeParam { name: T, constraint: None },
        TypeParam { name: U, constraint: None },
        TypeParam { name: FOO, constraint: None },
    ];
    assert_eq!(
        ShapeRelations.infer_arg_types(&None, &type_params, &params, &args, false),
        Inference {
            types: TypeMap {
                entries: vec![
                    Binding { name: T, ty: string() },
                    Binding { name: U, ty: boolean() },
                ],
            },
            errored: vec![FOO],
        }
    );
    assert_eq!(
        ShapeRelations.infer_arg_types(&Some(vec![number()]), &type_params, &params, &args, false),
        Inference {
            types: TypeMap { entries: vec![Binding { name: T, ty: number() }] },
            errored: vec![U, FOO],
        }
    );
    assert_eq!(
        ShapeRelations.infer_type_with_types(
            &type_params,
            &Type::Array(Box::new(type_param(U))),
            &Type::Array(Box::new(string()))
        ),
        TypeMap { entries: vec![Binding { name: U, ty: string() }] }
    );
}

#[test]
fn shape_relations_iterate_arrays_tuples_and_strings() {
    assert_eq!(ShapeRelations.iterator_element_type(&Type::Array(Box::new(number()))), Ok(number()));
    assert_eq!(
        ShapeRelations.iterator_element_type(&Type::Tuple(vec![number(), string()])),
        Ok(Type::Union(vec![number(), string()]))
    );
    assert_eq!(ShapeRelations.iterator_element_type(&string()), Ok(string()));
    assert_eq!(
        ShapeRelations.iterator_element_type(&number()),
        Err(IterFailure::MustHaveSymbolIterator)
    );
}

#[test]
fn shape_relations_look_members_up_by_key() {
    let key = Key { name: A, private: false };
    let lit = Type::TypeLit(vec![
        TypeElement::Index,
        TypeElement::Property { key, optional: false, ty: None },
        TypeElement::Property { key, optional: false, ty: Some(Box::new(number())) },
    ]);
    assert_eq!(ShapeRelations.access_property(&lit, key), Some(any()));
    assert_eq!(ShapeRelations.access_property(&lit, Key { name: A, private: true }), None);
    assert_eq!(ShapeRelations.access_property(&number(), key), None);
}
