use type_relations::assign::assign_with_opts;
use type_relations::cast::{castable, has_overlap, validate_type_cast, validate_type_cast_inner, CastError};
use type_relations::env::{EngineError, TypeDef, TypeEnv};
use type_relations::eq::ty_eq;
use type_relations::flatten::{
    append_tuple_element_to_type, assign_to_union, flatten_unions_for_assignment,
};
use type_relations::ty::{Keyword, LitValue, Member, TupleElem, Ty};

const FUEL: u64 = 32;

fn env0() -> TypeEnv {
    TypeEnv { defs: Vec::new() }
}

fn num_kw() -> Ty {
    Ty::Keyword(Keyword::Number)
}

fn str_kw() -> Ty {
    Ty::Keyword(Keyword::Str)
}

fn bool_kw() -> Ty {
    Ty::Keyword(Keyword::Boolean)
}

fn num(v: i64) -> Ty {
    Ty::Lit(LitValue::Num(v))
}

fn s_lit(v: &str) -> Ty {
    Ty::Lit(LitValue::Str(v.to_string()))
}

fn b_lit(v: bool) -> Ty {
    Ty::Lit(LitValue::Bool(v))
}

fn elem(t: Ty) -> TupleElem {
    TupleElem { label: None, ty: t }
}

fn tuple(parts: Vec<Ty>) -> Ty {
    Ty::Tuple(parts.into_iter().map(elem).collect())
}

fn union(parts: Vec<Ty>) -> Ty {
    Ty::Union(parts)
}

fn iface(name: &str, extends: Vec<&str>) -> Ty {
    Ty::Interface {
        name: name.to_string(),
        extends: extends.into_iter().map(|e| e.to_string()).collect(),
        members: Vec::new(),
    }
}

#[test]
fn cartesian_expansion_single_union() {
    let env = env0();
    let t = tuple(vec![union(vec![s_lit("a"), s_lit("b")]), num(1)]);
    let got = flatten_unions_for_assignment(&env, &t, FUEL).unwrap();
    let want = union(vec![
        tuple(vec![s_lit("a"), num(1)]),
        tuple(vec![s_lit("b"), num(1)]),
    ]);
    assert!(ty_eq(&got, &want));
}

#[test]
fn cartesian_expansion_two_unions() {
    let env = env0();
    let t = tuple(vec![
        union(vec![s_lit("a"), s_lit("b")]),
        union(vec![num(1), num(2)]),
    ]);
    let got = flatten_unions_for_assignment(&env, &t, FUEL).unwrap();
    // The second element distributes over the union built from the first,
    // copy by copy: all branches carrying 1 precede all branches carrying 2.
    let want = union(vec![
        tuple(vec![s_lit("a"), num(1)]),
        tuple(vec![s_lit("b"), num(1)]),
        tuple(vec![s_lit("a"), num(2)]),
        tuple(vec![s_lit("b"), num(2)]),
    ]);
    assert!(ty_eq(&got, &want));
}

#[test]
fn boolean_sugar_matches_explicit_union() {
    let env = env0();
    let sugared = tuple(vec![bool_kw()]);
    let explicit = tuple(vec![union(vec![b_lit(true), b_lit(false)])]);
    let got_sugared = flatten_unions_for_assignment(&env, &sugared, FUEL).unwrap();
    let got_explicit = flatten_unions_for_assignment(&env, &explicit, FUEL).unwrap();
    assert!(ty_eq(&got_sugared, &got_explicit));
    let want = union(vec![tuple(vec![b_lit(true)]), tuple(vec![b_lit(false)])]);
    assert!(ty_eq(&got_sugared, &want));
}

#[test]
fn distribute_is_idempotent_on_expanded_union() {
    let env = env0();
    let t = tuple(vec![union(vec![s_lit("a"), s_lit("b")]), num(1)]);
    let once = flatten_unions_for_assignment(&env, &t, FUEL).unwrap();
    let twice = flatten_unions_for_assignment(&env, &once, FUEL).unwrap();
    assert!(ty_eq(&once, &twice));
}

#[test]
fn assign_to_union_not_applicable_without_union_component() {
    let env = env0();
    let target = union(vec![
        tuple(vec![num_kw(), num_kw()]),
        tuple(vec![str_kw(), str_kw()]),
    ]);
    let cand = tuple(vec![num(1), s_lit("x")]);
    assert!(assign_to_union(&env, &target, &cand, FUEL).is_none());
}

#[test]
fn assign_to_union_flattens_and_accepts() {
    let env = env0();
    let target = union(vec![
        tuple(vec![s_lit("a"), num_kw()]),
        tuple(vec![s_lit("b"), num_kw()]),
        tuple(vec![s_lit("c"), str_kw()]),
    ]);
    let cand = tuple(vec![union(vec![s_lit("b"), s_lit("a")]), num(1)]);
    let verdict = assign_to_union(&env, &target, &cand, FUEL);
    assert_eq!(verdict, Some(Ok(())));
}

#[test]
fn object_literal_property_union_distributes() {
    let env = env0();
    let t = Ty::TypeLit(vec![Member::Property {
        name: "kind".to_string(),
        ty: Some(union(vec![s_lit("a"), s_lit("b")])),
        optional: false,
    }]);
    let got = flatten_unions_for_assignment(&env, &t, FUEL).unwrap();
    let shape = |v: &str| {
        Ty::TypeLit(vec![Member::Property {
            name: "kind".to_string(),
            ty: Some(s_lit(v)),
            optional: false,
        }])
    };
    let want = union(vec![shape("a"), shape("b")]);
    assert!(ty_eq(&got, &want));
}

#[test]
fn append_to_bad_accumulator_is_shape_mismatch() {
    let env = env0();
    let acc = num_kw();
    let el = elem(num(1));
    let got = append_tuple_element_to_type(&env, &acc, &el, FUEL);
    assert_eq!(got.err(), Some(EngineError::ShapeMismatch));
}

#[test]
fn literal_and_keyword_castability() {
    let env = env0();
    assert_eq!(castable(&env, &num(1), &num_kw(), FUEL), Ok(true));
    assert_eq!(castable(&env, &num(1), &num(2), FUEL), Ok(false));
    assert_eq!(castable(&env, &s_lit("x"), &str_kw(), FUEL), Ok(true));
    assert_eq!(castable(&env, &num_kw(), &str_kw(), FUEL), Ok(false));
}

#[test]
fn extends_makes_interfaces_castable_both_ways() {
    let env = env0();
    let a = iface("A", vec![]);
    let b = iface("B", vec!["A"]);
    assert_eq!(castable(&env, &a, &b, FUEL), Ok(true));
    assert_eq!(castable(&env, &b, &a, FUEL), Ok(true));
}

#[test]
fn extends_is_transitive_through_the_environment() {
    let env = TypeEnv {
        defs: vec![TypeDef { name: "B".to_string(), ty: iface("B", vec!["A"]) }],
    };
    let a = iface("A", vec![]);
    let c = iface("C", vec!["B"]);
    assert_eq!(castable(&env, &c, &a, FUEL), Ok(true));
}

#[test]
fn union_castability_distributes_over_members() {
    let env = env0();
    let u = union(vec![s_lit("x"), num(1)]);
    let lhs = castable(&env, &u, &str_kw(), FUEL);
    let a = castable(&env, &s_lit("x"), &str_kw(), FUEL).unwrap();
    let b = castable(&env, &num(1), &str_kw(), FUEL).unwrap();
    assert_eq!(lhs, Ok(a || b));
    assert_eq!(lhs, Ok(true));

    let none = union(vec![num(1), num(2)]);
    assert_eq!(castable(&env, &none, &str_kw(), FUEL), Ok(false));

    let to_union = union(vec![str_kw(), num_kw()]);
    let rhs = castable(&env, &num(1), &to_union, FUEL);
    let c = castable(&env, &num(1), &str_kw(), FUEL).unwrap();
    let d = castable(&env, &num(1), &num_kw(), FUEL).unwrap();
    assert_eq!(rhs, Ok(c || d));
    assert_eq!(rhs, Ok(true));
}

#[test]
fn tuple_cast_succeeds_where_assignment_fails() {
    let env = env0();
    let orig = tuple(vec![num_kw(), union(vec![str_kw(), num_kw()])]);
    let casted = tuple(vec![num_kw(), num_kw()]);
    let (result_ty, diagnostic) = validate_type_cast(&env, &orig, &casted, FUEL).unwrap();
    assert!(diagnostic.is_none());
    assert!(ty_eq(&result_ty, &casted));

    let target = tuple(vec![num_kw(), num_kw()]);
    let cand = tuple(vec![num_kw(), union(vec![str_kw(), num_kw()])]);
    assert_eq!(
        assign_with_opts(&env, &target, &cand, false, FUEL),
        Err(EngineError::NotAssignable)
    );
}

#[test]
fn tuple_arity_mismatch_is_invalid_tuple_cast() {
    let env = env0();
    let orig = tuple(vec![num_kw(), num_kw()]);
    let casted = tuple(vec![num_kw(), num_kw(), num_kw()]);
    assert_eq!(
        validate_type_cast_inner(&env, &orig, &casted, FUEL),
        Err(CastError::InvalidTupleCast)
    );
    let (result_ty, diagnostic) = validate_type_cast(&env, &orig, &casted, FUEL).unwrap();
    assert_eq!(diagnostic, Some(CastError::InvalidTupleCast));
    assert!(ty_eq(&result_ty, &casted));
}

#[test]
fn non_overlapping_cast_is_reported_softly() {
    let env = env0();
    let (result_ty, diagnostic) = validate_type_cast(&env, &str_kw(), &num_kw(), FUEL).unwrap();
    assert_eq!(diagnostic, Some(CastError::NonOverlappingTypeCast));
    assert!(ty_eq(&result_ty, &num_kw()));
}

#[test]
fn string_like_original_casts_to_string_keyword() {
    let env = env0();
    let orig = union(vec![s_lit("a"), s_lit("b")]);
    assert_eq!(validate_type_cast_inner(&env, &orig, &str_kw(), FUEL), Ok(()));
}

#[test]
fn tuple_to_array_compares_first_element() {
    let env = env0();
    let orig = tuple(vec![num_kw(), num_kw()]);
    let good = Ty::Array(Box::new(num_kw()));
    assert_eq!(validate_type_cast_inner(&env, &orig, &good, FUEL), Ok(()));
    let bad = Ty::Array(Box::new(str_kw()));
    assert_eq!(
        validate_type_cast_inner(&env, &orig, &bad, FUEL),
        Err(CastError::NonOverlappingTypeCast)
    );
}

#[test]
fn has_overlap_is_symmetric() {
    let env = env0();
    let pairs: Vec<(Ty, Ty)> = vec![
        (num(1), num_kw()),
        (num_kw(), str_kw()),
        (iface("A", vec![]), iface("B", vec!["A"])),
        (union(vec![s_lit("x"), num(1)]), str_kw()),
    ];
    for (l, r) in pairs {
        assert_eq!(
            has_overlap(&env, &l, &r, FUEL),
            has_overlap(&env, &r, &l, FUEL)
        );
    }
    assert_eq!(has_overlap(&env, &num(1), &num_kw(), FUEL), Ok(true));
    assert_eq!(has_overlap(&env, &num_kw(), &str_kw(), FUEL), Ok(false));
}

#[test]
fn unresolved_reference_is_a_hard_error() {
    let env = env0();
    assert_eq!(
        castable(&env, &Ty::Ref("Missing".to_string()), &num_kw(), FUEL),
        Err(EngineError::UnresolvedRef)
    );
}

#[test]
fn cyclic_alias_hits_the_expansion_limit() {
    let env = TypeEnv {
        defs: vec![TypeDef { name: "Loop".to_string(), ty: Ty::Ref("Loop".to_string()) }],
    };
    assert_eq!(
        castable(&env, &Ty::Ref("Loop".to_string()), &num_kw(), 8),
        Err(EngineError::ExpansionLimit)
    );
}

#[test]
fn reference_resolution_reaches_the_definition() {
    let env = TypeEnv {
        defs: vec![TypeDef {
            name: "Pair".to_string(),
            ty: tuple(vec![union(vec![s_lit("a"), s_lit("b")]), num(1)]),
        }],
    };
    let got = flatten_unions_for_assignment(&env, &Ty::Ref("Pair".to_string()), FUEL).unwrap();
    let want = union(vec![
        tuple(vec![s_lit("a"), num(1)]),
        tuple(vec![s_lit("b"), num(1)]),
    ]);
    assert!(ty_eq(&got, &want));
}

#[test]
fn function_casts_to_the_function_interface_only() {
    let env = env0();
    let f = Ty::Function { params: vec![num_kw()], ret: Box::new(str_kw()) };
    let g = Ty::Function { params: vec![], ret: Box::new(num_kw()) };
    let function_iface = iface("Function", vec![]);
    assert_eq!(castable(&env, &f, &function_iface, FUEL), Ok(true));
    assert_eq!(castable(&env, &f, &g, FUEL), Ok(false));
}

#[test]
fn class_does_not_cast_to_structural_shapes() {
    let env = env0();
    let c = Ty::Class { name: "C".to_string(), extends: vec![] };
    assert_eq!(castable(&env, &c, &iface("I", vec![]), FUEL), Ok(false));
    assert_eq!(castable(&env, &c, &Ty::TypeLit(vec![]), FUEL), Ok(false));
}

#[test]
fn intersection_target_accepts_when_any_member_accepts() {
    let env = env0();
    let inter = Ty::Intersection(vec![str_kw(), num_kw()]);
    assert_eq!(castable(&env, &num(1), &inter, FUEL), Ok(true));
    let inter2 = Ty::Intersection(vec![str_kw(), bool_kw()]);
    assert_eq!(castable(&env, &num(1), &inter2, FUEL), Ok(false));
}

#[test]
fn object_literal_distribution_is_idempotent() {
    let env = env0();
    let t = Ty::TypeLit(vec![
        Member::Property {
            name: "kind".to_string(),
            ty: Some(union(vec![s_lit("a"), s_lit("b")])),
            optional: false,
        },
        Member::Call,
    ]);
    let once = flatten_unions_for_assignment(&env, &t, FUEL).unwrap();
    let twice = flatten_unions_for_assignment(&env, &once, FUEL).unwrap();
    assert!(ty_eq(&once, &twice));
}

#[test]
fn plain_assignability_paths() {
    let env = env0();
    assert_eq!(assign_with_opts(&env, &num_kw(), &num(3), false, FUEL), Ok(()));
    assert_eq!(
        assign_with_opts(&env, &num_kw(), &str_kw(), false, FUEL),
        Err(EngineError::NotAssignable)
    );
    let target = union(vec![str_kw(), num_kw()]);
    let cand = union(vec![num(1), s_lit("x")]);
    assert_eq!(assign_with_opts(&env, &target, &cand, false, FUEL), Ok(()));
    let a = iface("A", vec![]);
    let b = iface("B", vec!["A"]);
    assert_eq!(assign_with_opts(&env, &a, &b, false, FUEL), Ok(()));
    assert_eq!(
        assign_with_opts(&env, &b, &a, false, FUEL),
        Err(EngineError::NotAssignable)
    );
    assert_eq!(assign_with_opts(&env, &b, &a, true, FUEL), Ok(()));
}

#[test]
fn object_shapes_cast_unless_index_signatures_conflict() {
    let env = env0();
    let with_index = |value: Ty| {
        Ty::TypeLit(vec![Member::Index { key: str_kw(), value: Some(value) }])
    };
    assert_eq!(
        castable(&env, &with_index(num_kw()), &with_index(str_kw()), FUEL),
        Ok(false)
    );
    assert_eq!(
        castable(&env, &with_index(num_kw()), &with_index(num_kw()), FUEL),
        Ok(true)
    );
    assert_eq!(
        castable(&env, &Ty::TypeLit(vec![]), &with_index(num_kw()), FUEL),
        Ok(true)
    );
}
