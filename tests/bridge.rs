use std::cmp::Ordering;

use pyhornedowl::codec::{value_eq, BridgeError};
use pyhornedowl::order::value_cmp;
use pyhornedowl::owl::{
    owl_schema, ANNOTATED_AXIOM, ANNOTATION, ANNOTATION_PROPERTY, CLASS, CLASS_ASSERTION,
    CLASS_EXPRESSION, INDIVIDUAL, NAMED_INDIVIDUAL, OBJECT_INTERSECTION_OF, PROPERTY_EXPRESSION,
    SIMPLE_LITERAL,
};
use pyhornedowl::schema::{Entity, Field, Leaf, Schema, Shape, Ty};
use pyhornedowl::stub::{rename_to_host, to_py_type};
use pyhornedowl::value::{Facet, HostValue, Value, VecWrap, IRI};

fn s(t: &str) -> String {
    t.to_string()
}

fn obj(class: &str, attrs: Vec<(&str, HostValue)>) -> HostValue {
    HostValue::Object(s(class), attrs.into_iter().map(|(n, v)| (s(n), v)).collect())
}

fn iri_obj(class: &str, iri: &str) -> HostValue {
    obj(class, vec![("first", HostValue::Iri(s(iri)))])
}

fn pair_schema() -> Schema {
    Schema {
        entities: vec![Entity { name: s("Pair"), shape: Shape::Positional(Ty::Int, Some(Ty::Int)) }],
    }
}

/// `U { A(Foo), B(Bar) }`, where `Foo` and `Bar` both take a host string.
fn overlap_schema() -> Schema {
    Schema {
        entities: vec![
            Entity { name: s("Foo"), shape: Shape::Union(vec![Ty::Text]) },
            Entity { name: s("Bar"), shape: Shape::Union(vec![Ty::Leaf(Leaf::Anon)]) },
            Entity { name: s("U"), shape: Shape::Union(vec![Ty::Entity(0), Ty::Entity(1)]) },
        ],
    }
}

fn host_int(h: &HostValue) -> i64 {
    match h {
        HostValue::Int(i) => *i,
        other => panic!("not an int: {:?}", other),
    }
}

#[test]
fn pair_get_set_and_stub() {
    let sc = pair_schema();
    assert!(sc.validate());
    let mut p = sc.new_instance(0, vec![HostValue::Int(3), HostValue::Int(4)]).unwrap();
    assert_eq!(host_int(&sc.get(0, &p, &s("first")).unwrap()), 3);
    assert_eq!(host_int(&sc.get(0, &p, &s("second")).unwrap()), 4);
    sc.set(0, &mut p, &s("second"), &HostValue::Int(10)).unwrap();
    assert_eq!(host_int(&sc.get(0, &p, &s("second")).unwrap()), 10);
    assert_eq!(host_int(&sc.get(0, &p, &s("first")).unwrap()), 3);
    let stub = sc.stub(0);
    assert!(stub.contains("first: int"));
    assert!(stub.contains("second: int"));
    assert!(stub.contains("def __init__(self, first: int, second: int)"));
    assert_eq!(
        stub,
        "class Pair:\n    first: int\n    second: int\n    def __init__(self, first: int, second: int):\n        ...\n    ...\n"
    );
}

#[test]
fn overlapping_union_takes_first_variant() {
    let sc = overlap_schema();
    assert!(sc.validate());
    for _ in 0..3 {
        let v = sc.decode_entity_value(2, &HostValue::Str(s("x"))).unwrap();
        match v {
            Value::Variant(0, inner) => match *inner {
                Value::Variant(0, t) => assert!(matches!(*t, Value::Text(ref x) if x == "x")),
                other => panic!("unexpected {:?}", other),
            },
            other => panic!("unexpected {:?}", other),
        }
    }
}

#[test]
fn overlapping_union_does_not_round_trip_the_later_variant() {
    let sc = overlap_schema();
    let b = Value::Variant(1, Box::new(Value::Variant(0, Box::new(Value::Anon(pyhornedowl::value::StringWrapper(s("x")))))));
    let h = sc.encode_entity_value(2, &b);
    let back = sc.decode_entity_value(2, &h).unwrap();
    assert!(!value_eq(&back, &b));
    assert!(matches!(back, Value::Variant(0, _)));
}

#[test]
fn owl_schema_is_well_formed() {
    let sc = owl_schema();
    assert!(sc.validate());
    assert_eq!(sc.find_entity("ClassExpression"), Some(CLASS_EXPRESSION));
    assert_eq!(sc.find_entity("AnnotatedAxiom"), Some(ANNOTATED_AXIOM));
    assert_eq!(sc.find_entity("NoSuchThing"), None);
}

#[test]
fn class_assertion_round_trip() {
    let sc = owl_schema();
    let h = obj(
        "ClassAssertion",
        vec![
            ("ce", obj("ObjectIntersectionOf", vec![(
                "first",
                HostValue::List(vec![iri_obj("Class", "http://a"), iri_obj("Class", "http://b")]),
            )])),
            ("i", iri_obj("NamedIndividual", "http://i")),
        ],
    );
    let v = sc.decode_entity_value(CLASS_ASSERTION, &h).unwrap();
    let h2 = sc.encode_entity_value(CLASS_ASSERTION, &v);
    let v2 = sc.decode_entity_value(CLASS_ASSERTION, &h2).unwrap();
    assert!(value_eq(&v, &v2));
    match &h2 {
        HostValue::Object(c, attrs) => {
            assert_eq!(c, "ClassAssertion");
            assert_eq!(attrs.len(), 2);
            assert_eq!(attrs[0].0, "ce");
            assert_eq!(attrs[1].0, "i");
        }
        other => panic!("unexpected {:?}", other),
    }
}

#[test]
fn class_expression_picks_variant_by_class() {
    let sc = owl_schema();
    let v = sc.decode_entity_value(CLASS_EXPRESSION, &iri_obj("Class", "http://a")).unwrap();
    assert!(matches!(v, Value::Variant(0, _)));
    let h = obj("ObjectIntersectionOf", vec![("first", HostValue::List(vec![]))]);
    let v = sc.decode_entity_value(CLASS_EXPRESSION, &h).unwrap();
    assert!(matches!(v, Value::Variant(1, _)));
    assert_eq!(OBJECT_INTERSECTION_OF, 21);
}

#[test]
fn owned_indirection_is_transparent() {
    let sc = owl_schema();
    let h = obj("ObjectComplementOf", vec![("first", iri_obj("Class", "http://c"))]);
    let v = sc.decode_entity_value(CLASS_EXPRESSION, &h).unwrap();
    let back = sc.encode_entity_value(CLASS_EXPRESSION, &v);
    match back {
        HostValue::Object(c, attrs) => {
            assert_eq!(c, "ObjectComplementOf");
            assert!(matches!(&attrs[0].1, HostValue::Object(k, _) if k == "Class"));
        }
        other => panic!("unexpected {:?}", other),
    }
}

#[test]
fn unknown_field_on_every_kind_of_entity() {
    let sc = owl_schema();
    for e in [CLASS, CLASS_ASSERTION, CLASS_EXPRESSION, INDIVIDUAL] {
        let mut v = Value::Fields(vec![]);
        assert!(matches!(sc.get(e, &v, &s("nope")), Err(BridgeError::UnknownField(ref n)) if n == "nope"));
        assert!(matches!(
            sc.set(e, &mut v, &s("nope"), &HostValue::Int(1)),
            Err(BridgeError::UnknownField(ref n)) if n == "nope"
        ));
    }
    let p = pair_schema();
    let v = p.new_instance(0, vec![HostValue::Int(1), HostValue::Int(2)]).unwrap();
    assert!(matches!(p.get(0, &v, &s("third")), Err(BridgeError::UnknownField(_))));
}

#[test]
fn set_collapses_duplicates() {
    let sc = owl_schema();
    let ann = || {
        obj(
            "Annotation",
            vec![
                ("ap", iri_obj("AnnotationProperty", "http://label")),
                ("av", obj("SimpleLiteral", vec![("literal", HostValue::Str(s("x")))])),
            ],
        )
    };
    let other = obj(
        "Annotation",
        vec![("ap", iri_obj("AnnotationProperty", "http://label")), ("av", HostValue::Iri(s("http://y")))],
    );
    let h = obj(
        "AnnotatedAxiom",
        vec![
            ("axiom", obj("DeclareClass", vec![("first", iri_obj("Class", "http://a"))])),
            ("ann", HostValue::List(vec![ann(), other, ann()])),
        ],
    );
    let v = sc.decode_entity_value(ANNOTATED_AXIOM, &h).unwrap();
    match &v {
        Value::Fields(fs) => match &fs[1] {
            Value::Unique(set) => assert_eq!(set.0.len(), 2),
            other => panic!("unexpected {:?}", other),
        },
        other => panic!("unexpected {:?}", other),
    }
    let enc = sc.get(ANNOTATED_AXIOM, &v, &s("ann")).unwrap();
    match enc {
        HostValue::Unique(items) => assert_eq!(items.len(), 2),
        other => panic!("unexpected {:?}", other),
    }
    assert_eq!(ANNOTATION, 42);
    assert_eq!(ANNOTATION_PROPERTY, 6);
}

#[test]
fn missing_field_names_the_field() {
    let sc = owl_schema();
    let h = obj("ClassAssertion", vec![("ce", iri_obj("Class", "http://a"))]);
    assert!(matches!(
        sc.decode_entity_value(CLASS_ASSERTION, &h),
        Err(BridgeError::DecodeFailure(ref n)) if n == "i"
    ));
    let bad = obj("ClassAssertion", vec![("ce", HostValue::Int(3)), ("i", iri_obj("NamedIndividual", "x"))]);
    assert!(matches!(
        sc.decode_entity_value(CLASS_ASSERTION, &bad),
        Err(BridgeError::DecodeFailure(ref n)) if n == "ce"
    ));
}

#[test]
fn union_failure_is_generic() {
    let sc = owl_schema();
    assert!(matches!(
        sc.decode_entity_value(CLASS_EXPRESSION, &HostValue::Int(1)),
        Err(BridgeError::NoVariantMatched)
    ));
    assert!(matches!(
        sc.decode_entity_value(INDIVIDUAL, &iri_obj("Class", "x")),
        Err(BridgeError::NoVariantMatched)
    ));
}

#[test]
fn wrong_class_and_wrong_value_are_type_mismatches() {
    let sc = owl_schema();
    assert!(matches!(
        sc.decode_entity_value(NAMED_INDIVIDUAL, &iri_obj("Class", "x")),
        Err(BridgeError::TypeMismatch)
    ));
    let mut v = sc.new_instance(NAMED_INDIVIDUAL, vec![HostValue::Iri(s("http://i"))]).unwrap();
    assert!(matches!(sc.set(NAMED_INDIVIDUAL, &mut v, &s("first"), &HostValue::Int(3)), Err(BridgeError::TypeMismatch)));
    assert!(matches!(sc.get(NAMED_INDIVIDUAL, &v, &s("first")), Ok(HostValue::Iri(ref t)) if t == "http://i"));
    assert!(matches!(sc.decode_value(Ty::Int, &HostValue::Int(-1)), Err(BridgeError::TypeMismatch)));
    assert!(matches!(sc.decode_value(Ty::Int, &HostValue::Int(1 << 32)), Err(BridgeError::TypeMismatch)));
    assert!(matches!(sc.decode_value(Ty::Int, &HostValue::Int(4294967295)), Ok(Value::Int(4294967295))));
    assert!(matches!(sc.new_instance(CLASS, vec![]), Err(BridgeError::TypeMismatch)));
    assert!(matches!(sc.new_instance(CLASS_EXPRESSION, vec![]), Err(BridgeError::TypeMismatch)));
}

#[test]
fn facet_restriction_carries_its_facet() {
    let sc = owl_schema();
    let e = sc.find_entity("FacetRestriction").unwrap();
    let h = obj(
        "FacetRestriction",
        vec![("f", HostValue::Facet(Facet::MaxLength)), ("l", obj("SimpleLiteral", vec![("literal", HostValue::Str(s("5")))]))],
    );
    let v = sc.decode_entity_value(e, &h).unwrap();
    assert!(matches!(sc.get(e, &v, &s("f")), Ok(HostValue::Facet(Facet::MaxLength))));
    assert_eq!(SIMPLE_LITERAL, 10);
}

#[test]
fn type_spellings() {
    assert_eq!(to_py_type("pyhornedowl::model::VecWrap<pyhornedowl::model::ClassExpression>"), "list[ClassExpression]");
    assert_eq!(to_py_type("pyhornedowl::model::BoxWrap<pyhornedowl::model::ClassExpression>"), "ClassExpression");
    assert_eq!(to_py_type("pyhornedowl::model::BTreeSetWrap<pyhornedowl::model::Annotation>"), "set[Annotation]");
    assert_eq!(to_py_type("pyhornedowl::model::StringWrapper"), "str");
    assert_eq!(to_py_type("alloc::string::String"), "str");
    assert_eq!(to_py_type("u32"), "int");
    assert_eq!(to_py_type("&str"), "str");
}

#[test]
fn record_stub_lists_fields_in_order() {
    let sc = owl_schema();
    let e = sc.find_entity("ObjectMinCardinality").unwrap();
    assert_eq!(
        sc.stub(e),
        "class ObjectMinCardinality:\n    n: int\n    ope: ObjectPropertyExpression\n    bce: ClassExpression\n    def __init__(self, n: int, ope: ObjectPropertyExpression, bce: ClassExpression):\n        ...\n    ...\n"
    );
    let a = sc.stub(ANNOTATED_AXIOM);
    assert!(a.contains("    ann: set[Annotation]\n"));
    let k = sc.find_entity("HasKey").unwrap();
    assert!(sc.stub(k).contains("    vpe: list[PropertyExpression]\n"));
}

#[test]
fn union_stub_flattens_one_level() {
    let sc = owl_schema();
    assert_eq!(
        sc.stub(PROPERTY_EXPRESSION),
        "typing.Union[ObjectProperty, InverseObjectProperty, DataProperty, AnnotationProperty]\n"
    );
    assert_eq!(sc.stub(INDIVIDUAL), "typing.Union[AnonymousIndividual, NamedIndividual]\n");
    let spe = sc.find_entity("SubObjectPropertyExpression").unwrap();
    assert_eq!(
        sc.stub(spe),
        "typing.Union[list[ObjectPropertyExpression], ObjectProperty, InverseObjectProperty]\n"
    );
}

#[test]
fn module_stub_holds_classes_and_aliases() {
    let sc = owl_schema();
    let m = sc.module_stub();
    assert!(m.starts_with("class Class:\n    first: IRI\n"));
    assert!(m.contains("ClassExpression = typing.Union[Class, ObjectIntersectionOf, "));
    assert!(m.contains("Literal = typing.Union[SimpleLiteral, LanguageLiteral, DatatypeLiteral]\n"));
    assert!(m.contains("class AnnotatedAxiom:\n    axiom: Axiom\n    ann: set[Annotation]\n"));
}

#[test]
fn iri_text_and_repr() {
    let i = IRI::parse(s("http://example.com/a"));
    assert_eq!(i.__str__(), "http://example.com/a");
    assert_eq!(i.__repr__(), "IRI.parse(\"http://example.com/a\")");
    let b = horned_owl::model::Build::new_arc();
    let j = IRI::new("http://example.com/b", &b);
    assert_eq!(j.0, "http://example.com/b");
    assert!(Facet::__pyi__().starts_with("class Facet:\n    Length: Facet\n"));
}

#[test]
fn vec_wrap_conversions() {
    let w: VecWrap<u32> = VecWrap::from(vec![1, 2, 3]);
    let v: Vec<u32> = Vec::from(w);
    assert_eq!(v, vec![1, 2, 3]);
}

#[test]
fn order_follows_declaration() {
    assert_eq!(value_cmp(&Value::Int(1), &Value::Int(2)), Ordering::Less);
    assert_eq!(value_cmp(&Value::Int(7), &Value::Int(7)), Ordering::Equal);
    assert_eq!(value_cmp(&Value::Text(s("b")), &Value::Text(s("a"))), Ordering::Greater);
    assert_eq!(value_cmp(&Value::Text(s("ab")), &Value::Text(s("abc"))), Ordering::Less);
    assert_eq!(value_cmp(&Value::Int(100), &Value::Text(s("a"))), Ordering::Less);
    assert_eq!(value_cmp(&Value::Facet(Facet::Length), &Value::Facet(Facet::LangRange)), Ordering::Less);
    let a = Value::Fields(vec![Value::Int(1), Value::Int(9)]);
    let b = Value::Fields(vec![Value::Int(2), Value::Int(0)]);
    assert_eq!(value_cmp(&a, &b), Ordering::Less);
    assert_eq!(value_cmp(&b, &a), Ordering::Greater);
    let v0 = Value::Variant(0, Box::new(Value::Int(5)));
    let v1 = Value::Variant(1, Box::new(Value::Int(0)));
    assert_eq!(value_cmp(&v0, &v1), Ordering::Less);
}

#[test]
fn set_is_kept_in_ascending_order() {
    let sc = owl_schema();
    let lit = obj(
        "Annotation",
        vec![
            ("ap", iri_obj("AnnotationProperty", "http://label")),
            ("av", obj("SimpleLiteral", vec![("literal", HostValue::Str(s("x")))])),
        ],
    );
    let iri = obj(
        "Annotation",
        vec![("ap", iri_obj("AnnotationProperty", "http://label")), ("av", HostValue::Iri(s("http://y")))],
    );
    let h = obj(
        "AnnotatedAxiom",
        vec![
            ("axiom", obj("DeclareClass", vec![("first", iri_obj("Class", "http://a"))])),
            ("ann", HostValue::Unique(vec![iri, lit])),
        ],
    );
    let v = sc.decode_entity_value(ANNOTATED_AXIOM, &h).unwrap();
    match sc.get(ANNOTATED_AXIOM, &v, &s("ann")).unwrap() {
        HostValue::Unique(items) => {
            assert_eq!(items.len(), 2);
            match &items[0] {
                HostValue::Object(_, attrs) => assert!(matches!(&attrs[1].1, HostValue::Object(c, _) if c == "SimpleLiteral")),
                other => panic!("unexpected {:?}", other),
            }
            match &items[1] {
                HostValue::Object(_, attrs) => assert!(matches!(&attrs[1].1, HostValue::Iri(t) if t == "http://y")),
                other => panic!("unexpected {:?}", other),
            }
        }
        other => panic!("unexpected {:?}", other),
    }
}

#[test]
fn owl_unions_are_unambiguous() {
    assert!(owl_schema().is_unambiguous());
    assert!(!overlap_schema().is_unambiguous());
    assert!(pair_schema().is_unambiguous());
}

#[test]
fn object_some_values_from_surface() {
    let sc = owl_schema();
    let e = sc.find_entity("ObjectSomeValuesFrom").unwrap();
    assert_eq!(
        sc.stub(e),
        "class ObjectSomeValuesFrom:\n    ope: ObjectPropertyExpression\n    bce: ClassExpression\n    def __init__(self, ope: ObjectPropertyExpression, bce: ClassExpression):\n        ...\n    ...\n"
    );
    let v = sc
        .new_instance(e, vec![iri_obj("ObjectProperty", "http://p"), iri_obj("Class", "http://c")])
        .unwrap();
    assert!(sc.get(e, &v, &s("ope")).is_ok());
    assert!(sc.get(e, &v, &s("bce")).is_ok());
    assert!(matches!(sc.get(e, &v, &s("first")), Err(BridgeError::UnknownField(_))));
}

#[test]
fn object_property_decodes_as_first_variant() {
    let sc = owl_schema();
    let e = sc.find_entity("ObjectPropertyExpression").unwrap();
    let v = sc.decode_entity_value(e, &iri_obj("ObjectProperty", "http://example.com/p")).unwrap();
    assert!(matches!(v, Value::Variant(0, _)));
    let inv = obj("InverseObjectProperty", vec![("first", iri_obj("ObjectProperty", "http://example.com/p"))]);
    assert!(matches!(sc.decode_entity_value(e, &inv).unwrap(), Value::Variant(1, _)));
}

#[test]
fn simple_literal_has_only_literal() {
    let sc = owl_schema();
    let v = sc.new_instance(SIMPLE_LITERAL, vec![HostValue::Str(s("abc"))]).unwrap();
    assert!(matches!(sc.get(SIMPLE_LITERAL, &v, &s("literal")), Ok(HostValue::Str(ref t)) if t == "abc"));
    assert!(matches!(sc.get(SIMPLE_LITERAL, &v, &s("lang")), Err(BridgeError::UnknownField(ref n)) if n == "lang"));
}

#[test]
fn module_stub_keeps_declared_variant_order() {
    let m = owl_schema().module_stub();
    assert!(m.contains("ObjectPropertyExpression = typing.Union[ObjectProperty, InverseObjectProperty]\n"));
    assert!(m.contains("Literal = typing.Union[SimpleLiteral, LanguageLiteral, DatatypeLiteral]\n"));
}

#[test]
fn renaming_after_the_regex_steps() {
    assert_eq!(rename_to_host("u32"), "int");
    assert_eq!(rename_to_host("VecWrap<ClassExpression>"), "list[ClassExpression]");
    assert_eq!(rename_to_host("BTreeSetWrap<Annotation>"), "set[Annotation]");
    assert_eq!(rename_to_host("StringWrapper"), "str");
    assert_eq!(to_py_type("BoxWrap<A>, BoxWrap<B>"), "A], BoxWrap[B");
    assert_eq!(to_py_type("x::BoxWrap<y::A>\nBoxWrap<B>"), "A\nB");
}

#[test]
fn named_construction() {
    let sc = owl_schema();
    let e = sc.find_entity("LanguageLiteral").unwrap();
    let v = sc
        .new_named_instance(e, vec![(s("lang"), HostValue::Str(s("en"))), (s("literal"), HostValue::Str(s("hi")))])
        .unwrap();
    assert!(matches!(sc.get(e, &v, &s("literal")), Ok(HostValue::Str(ref t)) if t == "hi"));
    assert!(matches!(sc.get(e, &v, &s("lang")), Ok(HostValue::Str(ref t)) if t == "en"));
    assert!(matches!(
        sc.new_named_instance(e, vec![(s("literal"), HostValue::Str(s("hi")))]),
        Err(BridgeError::DecodeFailure(ref n)) if n == "lang"
    ));
    assert!(matches!(sc.new_named_instance(CLASS_EXPRESSION, vec![]), Err(BridgeError::TypeMismatch)));
}
