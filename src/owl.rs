use vstd::prelude::*;
use vstd::string::StringExecFns;
use crate::owl_laws::{lemma_owl_wf, lemma_owl_unambiguous};
use crate::schema::{Schema, Entity, Field, Shape, ShapeModel, Ty, Leaf, field_views};

verus! {

/// Position of `Class` in the ontology table.
pub const CLASS: usize = 0;

/// Position of `AnonymousIndividual` in the ontology table.
pub const ANONYMOUS_INDIVIDUAL: usize = 1;

/// Position of `NamedIndividual` in the ontology table.
pub const NAMED_INDIVIDUAL: usize = 2;

/// Position of `ObjectProperty` in the ontology table.
pub const OBJECT_PROPERTY: usize = 3;

/// Position of `Datatype` in the ontology table.
pub const DATATYPE: usize = 4;

/// Position of `DataProperty` in the ontology table.
pub const DATA_PROPERTY: usize = 5;

/// Position of `AnnotationProperty` in the ontology table.
pub const ANNOTATION_PROPERTY: usize = 6;

/// Position of `Individual` in the ontology table.
pub const INDIVIDUAL: usize = 7;

/// Position of `InverseObjectProperty` in the ontology table.
pub const INVERSE_OBJECT_PROPERTY: usize = 8;

/// Position of `ObjectPropertyExpression` in the ontology table.
pub const OBJECT_PROPERTY_EXPRESSION: usize = 9;

/// Position of `SimpleLiteral` in the ontology table.
pub const SIMPLE_LITERAL: usize = 10;

/// Position of `LanguageLiteral` in the ontology table.
pub const LANGUAGE_LITERAL: usize = 11;

/// Position of `DatatypeLiteral` in the ontology table.
pub const DATATYPE_LITERAL: usize = 12;

/// Position of `Literal` in the ontology table.
pub const LITERAL: usize = 13;

/// Position of `FacetRestriction` in the ontology table.
pub const FACET_RESTRICTION: usize = 14;

/// Position of `DataIntersectionOf` in the ontology table.
pub const DATA_INTERSECTION_OF: usize = 15;

/// Position of `DataUnionOf` in the ontology table.
pub const DATA_UNION_OF: usize = 16;

/// Position of `DataComplementOf` in the ontology table.
pub const DATA_COMPLEMENT_OF: usize = 17;

/// Position of `DataOneOf` in the ontology table.
pub const DATA_ONE_OF: usize = 18;

/// Position of `DatatypeRestriction` in the ontology table.
pub const DATATYPE_RESTRICTION: usize = 19;

/// Position of `DataRange` in the ontology table.
pub const DATA_RANGE: usize = 20;

/// Position of `ObjectIntersectionOf` in the ontology table.
pub const OBJECT_INTERSECTION_OF: usize = 21;

/// Position of `ObjectUnionOf` in the ontology table.
pub const OBJECT_UNION_OF: usize = 22;

/// Position of `ObjectComplementOf` in the ontology table.
pub const OBJECT_COMPLEMENT_OF: usize = 23;

/// Position of `ObjectOneOf` in the ontology table.
pub const OBJECT_ONE_OF: usize = 24;

/// Position of `ObjectSomeValuesFrom` in the ontology table.
pub const OBJECT_SOME_VALUES_FROM: usize = 25;

/// Position of `ObjectAllValuesFrom` in the ontology table.
pub const OBJECT_ALL_VALUES_FROM: usize = 26;

/// Position of `ObjectHasValue` in the ontology table.
pub const OBJECT_HAS_VALUE: usize = 27;

/// Position of `ObjectHasSelf` in the ontology table.
pub const OBJECT_HAS_SELF: usize = 28;

/// Position of `ObjectMinCardinality` in the ontology table.
pub const OBJECT_MIN_CARDINALITY: usize = 29;

/// Position of `ObjectMaxCardinality` in the ontology table.
pub const OBJECT_MAX_CARDINALITY: usize = 30;

/// Position of `ObjectExactCardinality` in the ontology table.
pub const OBJECT_EXACT_CARDINALITY: usize = 31;

/// Position of `DataSomeValuesFrom` in the ontology table.
pub const DATA_SOME_VALUES_FROM: usize = 32;

/// Position of `DataAllValuesFrom` in the ontology table.
pub const DATA_ALL_VALUES_FROM: usize = 33;

/// Position of `DataHasValue` in the ontology table.
pub const DATA_HAS_VALUE: usize = 34;

/// Position of `DataMinCardinality` in the ontology table.
pub const DATA_MIN_CARDINALITY: usize = 35;

/// Position of `DataMaxCardinality` in the ontology table.
pub const DATA_MAX_CARDINALITY: usize = 36;

/// Position of `DataExactCardinality` in the ontology table.
pub const DATA_EXACT_CARDINALITY: usize = 37;

/// Position of `ClassExpression` in the ontology table.
pub const CLASS_EXPRESSION: usize = 38;

/// Position of `PropertyExpression` in the ontology table.
pub const PROPERTY_EXPRESSION: usize = 39;

/// Position of `AnnotationSubject` in the ontology table.
pub const ANNOTATION_SUBJECT: usize = 40;

/// Position of `AnnotationValue` in the ontology table.
pub const ANNOTATION_VALUE: usize = 41;

/// Position of `Annotation` in the ontology table.
pub const ANNOTATION: usize = 42;

/// Position of `OntologyAnnotation` in the ontology table.
pub const ONTOLOGY_ANNOTATION: usize = 43;

/// Position of `Import` in the ontology table.
pub const IMPORT: usize = 44;

/// Position of `DeclareClass` in the ontology table.
pub const DECLARE_CLASS: usize = 45;

/// Position of `DeclareObjectProperty` in the ontology table.
pub const DECLARE_OBJECT_PROPERTY: usize = 46;

/// Position of `DeclareAnnotationProperty` in the ontology table.
pub const DECLARE_ANNOTATION_PROPERTY: usize = 47;

/// Position of `DeclareDataProperty` in the ontology table.
pub const DECLARE_DATA_PROPERTY: usize = 48;

/// Position of `DeclareNamedIndividual` in the ontology table.
pub const DECLARE_NAMED_INDIVIDUAL: usize = 49;

/// Position of `DeclareDatatype` in the ontology table.
pub const DECLARE_DATATYPE: usize = 50;

/// Position of `SubClassOf` in the ontology table.
pub const SUB_CLASS_OF: usize = 51;

/// Position of `EquivalentClasses` in the ontology table.
pub const EQUIVALENT_CLASSES: usize = 52;

/// Position of `DisjointClasses` in the ontology table.
pub const DISJOINT_CLASSES: usize = 53;

/// Position of `DisjointUnion` in the ontology table.
pub const DISJOINT_UNION: usize = 54;

/// Position of `SubObjectPropertyExpression` in the ontology table.
pub const SUB_OBJECT_PROPERTY_EXPRESSION: usize = 55;

/// Position of `SubObjectPropertyOf` in the ontology table.
pub const SUB_OBJECT_PROPERTY_OF: usize = 56;

/// Position of `EquivalentObjectProperties` in the ontology table.
pub const EQUIVALENT_OBJECT_PROPERTIES: usize = 57;

/// Position of `DisjointObjectProperties` in the ontology table.
pub const DISJOINT_OBJECT_PROPERTIES: usize = 58;

/// Position of `InverseObjectProperties` in the ontology table.
pub const INVERSE_OBJECT_PROPERTIES: usize = 59;

/// Position of `ObjectPropertyDomain` in the ontology table.
pub const OBJECT_PROPERTY_DOMAIN: usize = 60;

/// Position of `ObjectPropertyRange` in the ontology table.
pub const OBJECT_PROPERTY_RANGE: usize = 61;

/// Position of `FunctionalObjectProperty` in the ontology table.
pub const FUNCTIONAL_OBJECT_PROPERTY: usize = 62;

/// Position of `InverseFunctionalObjectProperty` in the ontology table.
pub const INVERSE_FUNCTIONAL_OBJECT_PROPERTY: usize = 63;

/// Position of `ReflexiveObjectProperty` in the ontology table.
pub const REFLEXIVE_OBJECT_PROPERTY: usize = 64;

/// Position of `IrreflexiveObjectProperty` in the ontology table.
pub const IRREFLEXIVE_OBJECT_PROPERTY: usize = 65;

/// Position of `SymmetricObjectProperty` in the ontology table.
pub const SYMMETRIC_OBJECT_PROPERTY: usize = 66;

/// Position of `AsymmetricObjectProperty` in the ontology table.
pub const ASYMMETRIC_OBJECT_PROPERTY: usize = 67;

/// Position of `TransitiveObjectProperty` in the ontology table.
pub const TRANSITIVE_OBJECT_PROPERTY: usize = 68;

/// Position of `SubDataPropertyOf` in the ontology table.
pub const SUB_DATA_PROPERTY_OF: usize = 69;

/// Position of `EquivalentDataProperties` in the ontology table.
pub const EQUIVALENT_DATA_PROPERTIES: usize = 70;

/// Position of `DisjointDataProperties` in the ontology table.
pub const DISJOINT_DATA_PROPERTIES: usize = 71;

/// Position of `DataPropertyDomain` in the ontology table.
pub const DATA_PROPERTY_DOMAIN: usize = 72;

/// Position of `DataPropertyRange` in the ontology table.
pub const DATA_PROPERTY_RANGE: usize = 73;

/// Position of `FunctionalDataProperty` in the ontology table.
pub const FUNCTIONAL_DATA_PROPERTY: usize = 74;

/// Position of `DatatypeDefinition` in the ontology table.
pub const DATATYPE_DEFINITION: usize = 75;

/// Position of `HasKey` in the ontology table.
pub const HAS_KEY: usize = 76;

/// Position of `SameIndividual` in the ontology table.
pub const SAME_INDIVIDUAL: usize = 77;

/// Position of `DifferentIndividuals` in the ontology table.
pub const DIFFERENT_INDIVIDUALS: usize = 78;

/// Position of `ClassAssertion` in the ontology table.
pub const CLASS_ASSERTION: usize = 79;

/// Position of `ObjectPropertyAssertion` in the ontology table.
pub const OBJECT_PROPERTY_ASSERTION: usize = 80;

/// Position of `NegativeObjectPropertyAssertion` in the ontology table.
pub const NEGATIVE_OBJECT_PROPERTY_ASSERTION: usize = 81;

/// Position of `DataPropertyAssertion` in the ontology table.
pub const DATA_PROPERTY_ASSERTION: usize = 82;

/// Position of `NegativeDataPropertyAssertion` in the ontology table.
pub const NEGATIVE_DATA_PROPERTY_ASSERTION: usize = 83;

/// Position of `AnnotationAssertion` in the ontology table.
pub const ANNOTATION_ASSERTION: usize = 84;

/// Position of `SubAnnotationPropertyOf` in the ontology table.
pub const SUB_ANNOTATION_PROPERTY_OF: usize = 85;

/// Position of `AnnotationPropertyDomain` in the ontology table.
pub const ANNOTATION_PROPERTY_DOMAIN: usize = 86;

/// Position of `AnnotationPropertyRange` in the ontology table.
pub const ANNOTATION_PROPERTY_RANGE: usize = 87;

/// Position of `Axiom` in the ontology table.
pub const AXIOM: usize = 88;

/// Position of `AnnotatedAxiom` in the ontology table.
pub const ANNOTATED_AXIOM: usize = 89;

/// The name of each entity of the ontology table.
pub open spec fn owl_name(e: int) -> Seq<char> {
    if e == 0 {
        "Class"@
    } else if e == 1 {
        "AnonymousIndividual"@
    } else if e == 2 {
        "NamedIndividual"@
    } else if e == 3 {
        "ObjectProperty"@
    } else if e == 4 {
        "Datatype"@
    } else if e == 5 {
        "DataProperty"@
    } else if e == 6 {
        "AnnotationProperty"@
    } else if e == 7 {
        "Individual"@
    } else if e == 8 {
        "InverseObjectProperty"@
    } else if e == 9 {
        "ObjectPropertyExpression"@
    } else if e == 10 {
        "SimpleLiteral"@
    } else if e == 11 {
        "LanguageLiteral"@
    } else if e == 12 {
        "DatatypeLiteral"@
    } else if e == 13 {
        "Literal"@
    } else if e == 14 {
        "FacetRestriction"@
    } else if e == 15 {
        "DataIntersectionOf"@
    } else if e == 16 {
        "DataUnionOf"@
    } else if e == 17 {
        "DataComplementOf"@
    } else if e == 18 {
        "DataOneOf"@
    } else if e == 19 {
        "DatatypeRestriction"@
    } else if e == 20 {
        "DataRange"@
    } else if e == 21 {
        "ObjectIntersectionOf"@
    } else if e == 22 {
        "ObjectUnionOf"@
    } else if e == 23 {
        "ObjectComplementOf"@
    } else if e == 24 {
        "ObjectOneOf"@
    } else if e == 25 {
        "ObjectSomeValuesFrom"@
    } else if e == 26 {
        "ObjectAllValuesFrom"@
    } else if e == 27 {
        "ObjectHasValue"@
    } else if e == 28 {
        "ObjectHasSelf"@
    } else if e == 29 {
        "ObjectMinCardinality"@
    } else if e == 30 {
        "ObjectMaxCardinality"@
    } else if e == 31 {
        "ObjectExactCardinality"@
    } else if e == 32 {
        "DataSomeValuesFrom"@
    } else if e == 33 {
        "DataAllValuesFrom"@
    } else if e == 34 {
        "DataHasValue"@
    } else if e == 35 {
        "DataMinCardinality"@
    } else if e == 36 {
        "DataMaxCardinality"@
    } else if e == 37 {
        "DataExactCardinality"@
    } else if e == 38 {
        "ClassExpression"@
    } else if e == 39 {
        "PropertyExpression"@
    } else if e == 40 {
        "AnnotationSubject"@
    } else if e == 41 {
        "AnnotationValue"@
    } else if e == 42 {
        "Annotation"@
    } else if e == 43 {
        "OntologyAnnotation"@
    } else if e == 44 {
        "Import"@
    } else if e == 45 {
        "DeclareClass"@
    } else if e == 46 {
        "DeclareObjectProperty"@
    } else if e == 47 {
        "DeclareAnnotationProperty"@
    } else if e == 48 {
        "DeclareDataProperty"@
    } else if e == 49 {
        "DeclareNamedIndividual"@
    } else if e == 50 {
        "DeclareDatatype"@
    } else if e == 51 {
        "SubClassOf"@
    } else if e == 52 {
        "EquivalentClasses"@
    } else if e == 53 {
        "DisjointClasses"@
    } else if e == 54 {
        "DisjointUnion"@
    } else if e == 55 {
        "SubObjectPropertyExpression"@
    } else if e == 56 {
        "SubObjectPropertyOf"@
    } else if e == 57 {
        "EquivalentObjectProperties"@
    } else if e == 58 {
        "DisjointObjectProperties"@
    } else if e == 59 {
        "InverseObjectProperties"@
    } else if e == 60 {
        "ObjectPropertyDomain"@
    } else if e == 61 {
        "ObjectPropertyRange"@
    } else if e == 62 {
        "FunctionalObjectProperty"@
    } else if e == 63 {
        "InverseFunctionalObjectProperty"@
    } else if e == 64 {
        "ReflexiveObjectProperty"@
    } else if e == 65 {
        "IrreflexiveObjectProperty"@
    } else if e == 66 {
        "SymmetricObjectProperty"@
    } else if e == 67 {
        "AsymmetricObjectProperty"@
    } else if e == 68 {
        "TransitiveObjectProperty"@
    } else if e == 69 {
        "SubDataPropertyOf"@
    } else if e == 70 {
        "EquivalentDataProperties"@
    } else if e == 71 {
        "DisjointDataProperties"@
    } else if e == 72 {
        "DataPropertyDomain"@
    } else if e == 73 {
        "DataPropertyRange"@
    } else if e == 74 {
        "FunctionalDataProperty"@
    } else if e == 75 {
        "DatatypeDefinition"@
    } else if e == 76 {
        "HasKey"@
    } else if e == 77 {
        "SameIndividual"@
    } else if e == 78 {
        "DifferentIndividuals"@
    } else if e == 79 {
        "ClassAssertion"@
    } else if e == 80 {
        "ObjectPropertyAssertion"@
    } else if e == 81 {
        "NegativeObjectPropertyAssertion"@
    } else if e == 82 {
        "DataPropertyAssertion"@
    } else if e == 83 {
        "NegativeDataPropertyAssertion"@
    } else if e == 84 {
        "AnnotationAssertion"@
    } else if e == 85 {
        "SubAnnotationPropertyOf"@
    } else if e == 86 {
        "AnnotationPropertyDomain"@
    } else if e == 87 {
        "AnnotationPropertyRange"@
    } else if e == 88 {
        "Axiom"@
    } else if e == 89 {
        "AnnotatedAxiom"@
    } else {
        Seq::empty()
    }
}

/// The shape of each entity of the ontology table: fields, or variants, in declared order.
pub open spec fn owl_shape(e: int) -> ShapeModel {
    if e == 0 {
        ShapeModel::Positional(Ty::Leaf(Leaf::Iri), None)
    } else if e == 1 {
        ShapeModel::Positional(Ty::Leaf(Leaf::Anon), None)
    } else if e == 2 {
        ShapeModel::Positional(Ty::Leaf(Leaf::Iri), None)
    } else if e == 3 {
        ShapeModel::Positional(Ty::Leaf(Leaf::Iri), None)
    } else if e == 4 {
        ShapeModel::Positional(Ty::Leaf(Leaf::Iri), None)
    } else if e == 5 {
        ShapeModel::Positional(Ty::Leaf(Leaf::Iri), None)
    } else if e == 6 {
        ShapeModel::Positional(Ty::Leaf(Leaf::Iri), None)
    } else if e == 7 {
        ShapeModel::Union(seq![Ty::Entity(ANONYMOUS_INDIVIDUAL), Ty::Entity(NAMED_INDIVIDUAL)])
    } else if e == 8 {
        ShapeModel::Positional(Ty::Entity(OBJECT_PROPERTY), None)
    } else if e == 9 {
        ShapeModel::Union(seq![Ty::Entity(OBJECT_PROPERTY), Ty::Entity(INVERSE_OBJECT_PROPERTY)])
    } else if e == 10 {
        ShapeModel::Record(seq![("literal"@, Ty::Text)])
    } else if e == 11 {
        ShapeModel::Record(seq![("literal"@, Ty::Text), ("lang"@, Ty::Text)])
    } else if e == 12 {
        ShapeModel::Record(seq![("literal"@, Ty::Text), ("datatype_iri"@, Ty::Leaf(Leaf::Iri))])
    } else if e == 13 {
        ShapeModel::Union(seq![Ty::Entity(SIMPLE_LITERAL), Ty::Entity(LANGUAGE_LITERAL), Ty::Entity(DATATYPE_LITERAL)])
    } else if e == 14 {
        ShapeModel::Record(seq![("f"@, Ty::Leaf(Leaf::Facet)), ("l"@, Ty::Entity(LITERAL))])
    } else if e == 15 {
        ShapeModel::Positional(Ty::List(DATA_RANGE), None)
    } else if e == 16 {
        ShapeModel::Positional(Ty::List(DATA_RANGE), None)
    } else if e == 17 {
        ShapeModel::Positional(Ty::Owned(DATA_RANGE), None)
    } else if e == 18 {
        ShapeModel::Positional(Ty::List(LITERAL), None)
    } else if e == 19 {
        ShapeModel::Positional(Ty::Entity(DATATYPE), Some(Ty::List(FACET_RESTRICTION)))
    } else if e == 20 {
        ShapeModel::Union(seq![Ty::Entity(DATATYPE), Ty::Entity(DATA_INTERSECTION_OF), Ty::Entity(DATA_UNION_OF), Ty::Entity(DATA_COMPLEMENT_OF), Ty::Entity(DATA_ONE_OF), Ty::Entity(DATATYPE_RESTRICTION)])
    } else if e == 21 {
        ShapeModel::Positional(Ty::List(CLASS_EXPRESSION), None)
    } else if e == 22 {
        ShapeModel::Positional(Ty::List(CLASS_EXPRESSION), None)
    } else if e == 23 {
        ShapeModel::Positional(Ty::Owned(CLASS_EXPRESSION), None)
    } else if e == 24 {
        ShapeModel::Positional(Ty::List(INDIVIDUAL), None)
    } else if e == 25 {
        ShapeModel::Record(seq![("ope"@, Ty::Entity(OBJECT_PROPERTY_EXPRESSION)), ("bce"@, Ty::Owned(CLASS_EXPRESSION))])
    } else if e == 26 {
        ShapeModel::Record(seq![("ope"@, Ty::Entity(OBJECT_PROPERTY_EXPRESSION)), ("bce"@, Ty::Owned(CLASS_EXPRESSION))])
    } else if e == 27 {
        ShapeModel::Record(seq![("ope"@, Ty::Entity(OBJECT_PROPERTY_EXPRESSION)), ("i"@, Ty::Entity(INDIVIDUAL))])
    } else if e == 28 {
        ShapeModel::Positional(Ty::Entity(OBJECT_PROPERTY_EXPRESSION), None)
    } else if e == 29 {
        ShapeModel::Record(seq![("n"@, Ty::Int), ("ope"@, Ty::Entity(OBJECT_PROPERTY_EXPRESSION)), ("bce"@, Ty::Owned(CLASS_EXPRESSION))])
    } else if e == 30 {
        ShapeModel::Record(seq![("n"@, Ty::Int), ("ope"@, Ty::Entity(OBJECT_PROPERTY_EXPRESSION)), ("bce"@, Ty::Owned(CLASS_EXPRESSION))])
    } else if e == 31 {
        ShapeModel::Record(seq![("n"@, Ty::Int), ("ope"@, Ty::Entity(OBJECT_PROPERTY_EXPRESSION)), ("bce"@, Ty::Owned(CLASS_EXPRESSION))])
    } else if e == 32 {
        ShapeModel::Record(seq![("dp"@, Ty::Entity(DATA_PROPERTY)), ("dr"@, Ty::Entity(DATA_RANGE))])
    } else if e == 33 {
        ShapeModel::Record(seq![("dp"@, Ty::Entity(DATA_PROPERTY)), ("dr"@, Ty::Entity(DATA_RANGE))])
    } else if e == 34 {
        ShapeModel::Record(seq![("dp"@, Ty::Entity(DATA_PROPERTY)), ("l"@, Ty::Entity(LITERAL))])
    } else if e == 35 {
        ShapeModel::Record(seq![("n"@, Ty::Int), ("dp"@, Ty::Entity(DATA_PROPERTY)), ("dr"@, Ty::Entity(DATA_RANGE))])
    } else if e == 36 {
        ShapeModel::Record(seq![("n"@, Ty::Int), ("dp"@, Ty::Entity(DATA_PROPERTY)), ("dr"@, Ty::Entity(DATA_RANGE))])
    } else if e == 37 {
        ShapeModel::Record(seq![("n"@, Ty::Int), ("dp"@, Ty::Entity(DATA_PROPERTY)), ("dr"@, Ty::Entity(DATA_RANGE))])
    } else if e == 38 {
        ShapeModel::Union(seq![Ty::Entity(CLASS), Ty::Entity(OBJECT_INTERSECTION_OF), Ty::Entity(OBJECT_UNION_OF), Ty::Entity(OBJECT_COMPLEMENT_OF), Ty::Entity(OBJECT_ONE_OF), Ty::Entity(OBJECT_SOME_VALUES_FROM), Ty::Entity(OBJECT_ALL_VALUES_FROM), Ty::Entity(OBJECT_HAS_VALUE), Ty::Entity(OBJECT_HAS_SELF), Ty::Entity(OBJECT_MIN_CARDINALITY), Ty::Entity(OBJECT_MAX_CARDINALITY), Ty::Entity(OBJECT_EXACT_CARDINALITY), Ty::Entity(DATA_SOME_VALUES_FROM), Ty::Entity(DATA_ALL_VALUES_FROM), Ty::Entity(DATA_HAS_VALUE), Ty::Entity(DATA_MIN_CARDINALITY), Ty::Entity(DATA_MAX_CARDINALITY), Ty::Entity(DATA_EXACT_CARDINALITY)])
    } else if e == 39 {
        ShapeModel::Union(seq![Ty::Entity(OBJECT_PROPERTY_EXPRESSION), Ty::Entity(DATA_PROPERTY), Ty::Entity(ANNOTATION_PROPERTY)])
    } else if e == 40 {
        ShapeModel::Union(seq![Ty::Leaf(Leaf::Iri), Ty::Entity(ANONYMOUS_INDIVIDUAL)])
    } else if e == 41 {
        ShapeModel::Union(seq![Ty::Entity(LITERAL), Ty::Leaf(Leaf::Iri)])
    } else if e == 42 {
        ShapeModel::Record(seq![("ap"@, Ty::Entity(ANNOTATION_PROPERTY)), ("av"@, Ty::Entity(ANNOTATION_VALUE))])
    } else if e == 43 {
        ShapeModel::Positional(Ty::Entity(ANNOTATION), None)
    } else if e == 44 {
        ShapeModel::Positional(Ty::Leaf(Leaf::Iri), None)
    } else if e == 45 {
        ShapeModel::Positional(Ty::Entity(CLASS), None)
    } else if e == 46 {
        ShapeModel::Positional(Ty::Entity(OBJECT_PROPERTY), None)
    } else if e == 47 {
        ShapeModel::Positional(Ty::Entity(ANNOTATION_PROPERTY), None)
    } else if e == 48 {
        ShapeModel::Positional(Ty::Entity(DATA_PROPERTY), None)
    } else if e == 49 {
        ShapeModel::Positional(Ty::Entity(NAMED_INDIVIDUAL), None)
    } else if e == 50 {
        ShapeModel::Positional(Ty::Entity(DATATYPE), None)
    } else if e == 51 {
        ShapeModel::Record(seq![("sup"@, Ty::Entity(CLASS_EXPRESSION)), ("sub"@, Ty::Entity(CLASS_EXPRESSION))])
    } else if e == 52 {
        ShapeModel::Positional(Ty::List(CLASS_EXPRESSION), None)
    } else if e == 53 {
        ShapeModel::Positional(Ty::List(CLASS_EXPRESSION), None)
    } else if e == 54 {
        ShapeModel::Positional(Ty::Entity(CLASS), Some(Ty::List(CLASS_EXPRESSION)))
    } else if e == 55 {
        ShapeModel::Union(seq![Ty::List(OBJECT_PROPERTY_EXPRESSION), Ty::Entity(OBJECT_PROPERTY_EXPRESSION)])
    } else if e == 56 {
        ShapeModel::Record(seq![("sup"@, Ty::Entity(OBJECT_PROPERTY_EXPRESSION)), ("sub"@, Ty::Entity(SUB_OBJECT_PROPERTY_EXPRESSION))])
    } else if e == 57 {
        ShapeModel::Positional(Ty::List(OBJECT_PROPERTY_EXPRESSION), None)
    } else if e == 58 {
        ShapeModel::Positional(Ty::List(OBJECT_PROPERTY_EXPRESSION), None)
    } else if e == 59 {
        ShapeModel::Positional(Ty::Entity(OBJECT_PROPERTY), Some(Ty::Entity(OBJECT_PROPERTY)))
    } else if e == 60 {
        ShapeModel::Record(seq![("ope"@, Ty::Entity(OBJECT_PROPERTY_EXPRESSION)), ("ce"@, Ty::Entity(CLASS_EXPRESSION))])
    } else if e == 61 {
        ShapeModel::Record(seq![("ope"@, Ty::Entity(OBJECT_PROPERTY_EXPRESSION)), ("ce"@, Ty::Entity(CLASS_EXPRESSION))])
    } else if e == 62 {
        ShapeModel::Positional(Ty::Entity(OBJECT_PROPERTY_EXPRESSION), None)
    } else if e == 63 {
        ShapeModel::Positional(Ty::Entity(OBJECT_PROPERTY_EXPRESSION), None)
    } else if e == 64 {
        ShapeModel::Positional(Ty::Entity(OBJECT_PROPERTY_EXPRESSION), None)
    } else if e == 65 {
        ShapeModel::Positional(Ty::Entity(OBJECT_PROPERTY_EXPRESSION), None)
    } else if e == 66 {
        ShapeModel::Positional(Ty::Entity(OBJECT_PROPERTY_EXPRESSION), None)
    } else if e == 67 {
        ShapeModel::Positional(Ty::Entity(OBJECT_PROPERTY_EXPRESSION), None)
    } else if e == 68 {
        ShapeModel::Positional(Ty::Entity(OBJECT_PROPERTY_EXPRESSION), None)
    } else if e == 69 {
        ShapeModel::Record(seq![("sup"@, Ty::Entity(DATA_PROPERTY)), ("sub"@, Ty::Entity(DATA_PROPERTY))])
    } else if e == 70 {
        ShapeModel::Positional(Ty::List(DATA_PROPERTY), None)
    } else if e == 71 {
        ShapeModel::Positional(Ty::List(DATA_PROPERTY), None)
    } else if e == 72 {
        ShapeModel::Record(seq![("dp"@, Ty::Entity(DATA_PROPERTY)), ("ce"@, Ty::Entity(CLASS_EXPRESSION))])
    } else if e == 73 {
        ShapeModel::Record(seq![("dp"@, Ty::Entity(DATA_PROPERTY)), ("dr"@, Ty::Entity(DATA_RANGE))])
    } else if e == 74 {
        ShapeModel::Positional(Ty::Entity(DATA_PROPERTY), None)
    } else if e == 75 {
        ShapeModel::Record(seq![("kind"@, Ty::Entity(DATATYPE)), ("range"@, Ty::Entity(DATA_RANGE))])
    } else if e == 76 {
        ShapeModel::Record(seq![("ce"@, Ty::Entity(CLASS_EXPRESSION)), ("vpe"@, Ty::List(PROPERTY_EXPRESSION))])
    } else if e == 77 {
        ShapeModel::Positional(Ty::List(INDIVIDUAL), None)
    } else if e == 78 {
        ShapeModel::Positional(Ty::List(INDIVIDUAL), None)
    } else if e == 79 {
        ShapeModel::Record(seq![("ce"@, Ty::Entity(CLASS_EXPRESSION)), ("i"@, Ty::Entity(INDIVIDUAL))])
    } else if e == 80 {
        ShapeModel::Record(seq![("ope"@, Ty::Entity(OBJECT_PROPERTY_EXPRESSION)), ("from"@, Ty::Entity(INDIVIDUAL)), ("to"@, Ty::Entity(INDIVIDUAL))])
    } else if e == 81 {
        ShapeModel::Record(seq![("ope"@, Ty::Entity(OBJECT_PROPERTY_EXPRESSION)), ("from"@, Ty::Entity(INDIVIDUAL)), ("to"@, Ty::Entity(INDIVIDUAL))])
    } else if e == 82 {
        ShapeModel::Record(seq![("dp"@, Ty::Entity(DATA_PROPERTY)), ("from"@, Ty::Entity(INDIVIDUAL)), ("to"@, Ty::Entity(LITERAL))])
    } else if e == 83 {
        ShapeModel::Record(seq![("dp"@, Ty::Entity(DATA_PROPERTY)), ("from"@, Ty::Entity(INDIVIDUAL)), ("to"@, Ty::Entity(LITERAL))])
    } else if e == 84 {
        ShapeModel::Record(seq![("subject"@, Ty::Entity(ANNOTATION_SUBJECT)), ("ann"@, Ty::Entity(ANNOTATION))])
    } else if e == 85 {
        ShapeModel::Record(seq![("sup"@, Ty::Entity(ANNOTATION_PROPERTY)), ("sub"@, Ty::Entity(ANNOTATION_PROPERTY))])
    } else if e == 86 {
        ShapeModel::Record(seq![("ap"@, Ty::Entity(ANNOTATION_PROPERTY)), ("iri"@, Ty::Leaf(Leaf::Iri))])
    } else if e == 87 {
        ShapeModel::Record(seq![("ap"@, Ty::Entity(ANNOTATION_PROPERTY)), ("iri"@, Ty::Leaf(Leaf::Iri))])
    } else if e == 88 {
        ShapeModel::Union(seq![Ty::Entity(ONTOLOGY_ANNOTATION), Ty::Entity(IMPORT), Ty::Entity(DECLARE_CLASS), Ty::Entity(DECLARE_OBJECT_PROPERTY), Ty::Entity(DECLARE_ANNOTATION_PROPERTY), Ty::Entity(DECLARE_DATA_PROPERTY), Ty::Entity(DECLARE_NAMED_INDIVIDUAL), Ty::Entity(DECLARE_DATATYPE), Ty::Entity(SUB_CLASS_OF), Ty::Entity(EQUIVALENT_CLASSES), Ty::Entity(DISJOINT_CLASSES), Ty::Entity(DISJOINT_UNION), Ty::Entity(SUB_OBJECT_PROPERTY_OF), Ty::Entity(EQUIVALENT_OBJECT_PROPERTIES), Ty::Entity(DISJOINT_OBJECT_PROPERTIES), Ty::Entity(INVERSE_OBJECT_PROPERTIES), Ty::Entity(OBJECT_PROPERTY_DOMAIN), Ty::Entity(OBJECT_PROPERTY_RANGE), Ty::Entity(FUNCTIONAL_OBJECT_PROPERTY), Ty::Entity(INVERSE_FUNCTIONAL_OBJECT_PROPERTY), Ty::Entity(REFLEXIVE_OBJECT_PROPERTY), Ty::Entity(IRREFLEXIVE_OBJECT_PROPERTY), Ty::Entity(SYMMETRIC_OBJECT_PROPERTY), Ty::Entity(ASYMMETRIC_OBJECT_PROPERTY), Ty::Entity(TRANSITIVE_OBJECT_PROPERTY), Ty::Entity(SUB_DATA_PROPERTY_OF), Ty::Entity(EQUIVALENT_DATA_PROPERTIES), Ty::Entity(DISJOINT_DATA_PROPERTIES), Ty::Entity(DATA_PROPERTY_DOMAIN), Ty::Entity(DATA_PROPERTY_RANGE), Ty::Entity(FUNCTIONAL_DATA_PROPERTY), Ty::Entity(DATATYPE_DEFINITION), Ty::Entity(HAS_KEY), Ty::Entity(SAME_INDIVIDUAL), Ty::Entity(DIFFERENT_INDIVIDUALS), Ty::Entity(CLASS_ASSERTION), Ty::Entity(OBJECT_PROPERTY_ASSERTION), Ty::Entity(NEGATIVE_OBJECT_PROPERTY_ASSERTION), Ty::Entity(DATA_PROPERTY_ASSERTION), Ty::Entity(NEGATIVE_DATA_PROPERTY_ASSERTION), Ty::Entity(ANNOTATION_ASSERTION), Ty::Entity(SUB_ANNOTATION_PROPERTY_OF), Ty::Entity(ANNOTATION_PROPERTY_DOMAIN), Ty::Entity(ANNOTATION_PROPERTY_RANGE)])
    } else if e == 89 {
        ShapeModel::Record(seq![("axiom"@, Ty::Entity(AXIOM)), ("ann"@, Ty::Unique(ANNOTATION))])
    } else {
        ShapeModel::Union(Seq::empty())
    }
}

pub open spec fn owl_entry(ent: Entity, e: int) -> bool {
    ent.name@ == owl_name(e) && ent.shape@ == owl_shape(e)
}

fn pos(name: &str, first: Ty) -> (r: Entity)
    ensures
        r.name@ == name@,
        r.shape@ == ShapeModel::Positional(first, None),
{
    Entity { name: String::from_str(name), shape: Shape::Positional(first, None) }
}

fn pair(name: &str, first: Ty, second: Ty) -> (r: Entity)
    ensures
        r.name@ == name@,
        r.shape@ == ShapeModel::Positional(first, Some(second)),
{
    Entity { name: String::from_str(name), shape: Shape::Positional(first, Some(second)) }
}

fn field(name: &str, ty: Ty) -> (r: Field)
    ensures
        r.name@ == name@,
        r.ty == ty,
{
    Field { name: String::from_str(name), ty }
}

fn record(name: &str, fields: Vec<Field>) -> (r: Entity)
    ensures
        r.name@ == name@,
        r.shape@ == ShapeModel::Record(field_views(fields@)),
{
    Entity { name: String::from_str(name), shape: Shape::Record(fields) }
}

fn union(name: &str, variants: Vec<Ty>) -> (r: Entity)
    ensures
        r.name@ == name@,
        r.shape@ == ShapeModel::Union(variants@),
{
    Entity { name: String::from_str(name), shape: Shape::Union(variants) }
}

/// Appends the next entry of the ontology table.
fn push_entry(es: &mut Vec<Entity>, ent: Entity)
    requires
        owl_entry(ent, old(es)@.len() as int),
        forall|j: int| 0 <= j < old(es)@.len() ==> owl_entry(#[trigger] old(es)@[j], j),
    ensures
        final(es)@.len() == old(es)@.len() + 1,
        forall|j: int| 0 <= j < final(es)@.len() ==> owl_entry(#[trigger] final(es)@[j], j),
{
    es.push(ent);
}

/// The table of the ontology model: its classes, properties, individuals,
/// literals and axioms, each union after the entities it lists.
pub fn owl_schema() -> (r: Schema)
    ensures
        r.len() == 90,
        forall|e: int| 0 <= e < r.len() ==> r.name(e) == owl_name(e) && r.shape(e)@ == owl_shape(e),
        r.wf(),
        r.unambiguous(),
{
    let mut es: Vec<Entity> = Vec::new();
    push_entry(&mut es, pos("Class", Ty::Leaf(Leaf::Iri)));
    push_entry(&mut es, pos("AnonymousIndividual", Ty::Leaf(Leaf::Anon)));
    push_entry(&mut es, pos("NamedIndividual", Ty::Leaf(Leaf::Iri)));
    push_entry(&mut es, pos("ObjectProperty", Ty::Leaf(Leaf::Iri)));
    push_entry(&mut es, pos("Datatype", Ty::Leaf(Leaf::Iri)));
    push_entry(&mut es, pos("DataProperty", Ty::Leaf(Leaf::Iri)));
    push_entry(&mut es, pos("AnnotationProperty", Ty::Leaf(Leaf::Iri)));
    let vs = vec![
        Ty::Entity(ANONYMOUS_INDIVIDUAL),
        Ty::Entity(NAMED_INDIVIDUAL),
    ];
    proof {
        assert(vs@ =~= seq![Ty::Entity(ANONYMOUS_INDIVIDUAL), Ty::Entity(NAMED_INDIVIDUAL)]);
    }
    push_entry(&mut es, union("Individual", vs));
    push_entry(&mut es, pos("InverseObjectProperty", Ty::Entity(OBJECT_PROPERTY)));
    let vs = vec![
        Ty::Entity(OBJECT_PROPERTY),
        Ty::Entity(INVERSE_OBJECT_PROPERTY),
    ];
    proof {
        assert(vs@ =~= seq![Ty::Entity(OBJECT_PROPERTY), Ty::Entity(INVERSE_OBJECT_PROPERTY)]);
    }
    push_entry(&mut es, union("ObjectPropertyExpression", vs));
    let fs = vec![field("literal", Ty::Text)];
    proof {
        assert(field_views(fs@) =~= seq![("literal"@, Ty::Text)]);
    }
    push_entry(&mut es, record("SimpleLiteral", fs));
    let fs = vec![field("literal", Ty::Text), field("lang", Ty::Text)];
    proof {
        assert(field_views(fs@) =~= seq![("literal"@, Ty::Text), ("lang"@, Ty::Text)]);
    }
    push_entry(&mut es, record("LanguageLiteral", fs));
    let fs = vec![field("literal", Ty::Text), field("datatype_iri", Ty::Leaf(Leaf::Iri))];
    proof {
        assert(field_views(fs@) =~= seq![("literal"@, Ty::Text), ("datatype_iri"@, Ty::Leaf(Leaf::Iri))]);
    }
    push_entry(&mut es, record("DatatypeLiteral", fs));
    let vs = vec![
        Ty::Entity(SIMPLE_LITERAL),
        Ty::Entity(LANGUAGE_LITERAL),
        Ty::Entity(DATATYPE_LITERAL),
    ];
    proof {
        assert(vs@ =~= seq![Ty::Entity(SIMPLE_LITERAL), Ty::Entity(LANGUAGE_LITERAL), Ty::Entity(DATATYPE_LITERAL)]);
    }
    push_entry(&mut es, union("Literal", vs));
    let fs = vec![field("f", Ty::Leaf(Leaf::Facet)), field("l", Ty::Entity(LITERAL))];
    proof {
        assert(field_views(fs@) =~= seq![("f"@, Ty::Leaf(Leaf::Facet)), ("l"@, Ty::Entity(LITERAL))]);
    }
    push_entry(&mut es, record("FacetRestriction", fs));
    push_entry(&mut es, pos("DataIntersectionOf", Ty::List(DATA_RANGE)));
    push_entry(&mut es, pos("DataUnionOf", Ty::List(DATA_RANGE)));
    push_entry(&mut es, pos("DataComplementOf", Ty::Owned(DATA_RANGE)));
    push_entry(&mut es, pos("DataOneOf", Ty::List(LITERAL)));
    push_entry(&mut es, pair("DatatypeRestriction", Ty::Entity(DATATYPE), Ty::List(FACET_RESTRICTION)));
    let vs = vec![
        Ty::Entity(DATATYPE),
        Ty::Entity(DATA_INTERSECTION_OF),
        Ty::Entity(DATA_UNION_OF),
        Ty::Entity(DATA_COMPLEMENT_OF),
        Ty::Entity(DATA_ONE_OF),
        Ty::Entity(DATATYPE_RESTRICTION),
    ];
    proof {
        assert(vs@ =~= seq![Ty::Entity(DATATYPE), Ty::Entity(DATA_INTERSECTION_OF), Ty::Entity(DATA_UNION_OF), Ty::Entity(DATA_COMPLEMENT_OF), Ty::Entity(DATA_ONE_OF), Ty::Entity(DATATYPE_RESTRICTION)]);
    }
    push_entry(&mut es, union("DataRange", vs));
    push_entry(&mut es, pos("ObjectIntersectionOf", Ty::List(CLASS_EXPRESSION)));
    push_entry(&mut es, pos("ObjectUnionOf", Ty::List(CLASS_EXPRESSION)));
    push_entry(&mut es, pos("ObjectComplementOf", Ty::Owned(CLASS_EXPRESSION)));
    push_entry(&mut es, pos("ObjectOneOf", Ty::List(INDIVIDUAL)));
    let fs = vec![field("ope", Ty::Entity(OBJECT_PROPERTY_EXPRESSION)), field("bce", Ty::Owned(CLASS_EXPRESSION))];
    proof {
        assert(field_views(fs@) =~= seq![("ope"@, Ty::Entity(OBJECT_PROPERTY_EXPRESSION)), ("bce"@, Ty::Owned(CLASS_EXPRESSION))]);
    }
    push_entry(&mut es, record("ObjectSomeValuesFrom", fs));
    let fs = vec![field("ope", Ty::Entity(OBJECT_PROPERTY_EXPRESSION)), field("bce", Ty::Owned(CLASS_EXPRESSION))];
    proof {
        assert(field_views(fs@) =~= seq![("ope"@, Ty::Entity(OBJECT_PROPERTY_EXPRESSION)), ("bce"@, Ty::Owned(CLASS_EXPRESSION))]);
    }
    push_entry(&mut es, record("ObjectAllValuesFrom", fs));
    let fs = vec![field("ope", Ty::Entity(OBJECT_PROPERTY_EXPRESSION)), field("i", Ty::Entity(INDIVIDUAL))];
    proof {
        assert(field_views(fs@) =~= seq![("ope"@, Ty::Entity(OBJECT_PROPERTY_EXPRESSION)), ("i"@, Ty::Entity(INDIVIDUAL))]);
    }
    push_entry(&mut es, record("ObjectHasValue", fs));
    push_entry(&mut es, pos("ObjectHasSelf", Ty::Entity(OBJECT_PROPERTY_EXPRESSION)));
    let fs = vec![field("n", Ty::Int), field("ope", Ty::Entity(OBJECT_PROPERTY_EXPRESSION)), field("bce", Ty::Owned(CLASS_EXPRESSION))];
    proof {
        assert(field_views(fs@) =~= seq![("n"@, Ty::Int), ("ope"@, Ty::Entity(OBJECT_PROPERTY_EXPRESSION)), ("bce"@, Ty::Owned(CLASS_EXPRESSION))]);
    }
    push_entry(&mut es, record("ObjectMinCardinality", fs));
    let fs = vec![field("n", Ty::Int), field("ope", Ty::Entity(OBJECT_PROPERTY_EXPRESSION)), field("bce", Ty::Owned(CLASS_EXPRESSION))];
    proof {
        assert(field_views(fs@) =~= seq![("n"@, Ty::Int), ("ope"@, Ty::Entity(OBJECT_PROPERTY_EXPRESSION)), ("bce"@, Ty::Owned(CLASS_EXPRESSION))]);
    }
    push_entry(&mut es, record("ObjectMaxCardinality", fs));
    let fs = vec![field("n", Ty::Int), field("ope", Ty::Entity(OBJECT_PROPERTY_EXPRESSION)), field("bce", Ty::Owned(CLASS_EXPRESSION))];
    proof {
        assert(field_views(fs@) =~= seq![("n"@, Ty::Int), ("ope"@, Ty::Entity(OBJECT_PROPERTY_EXPRESSION)), ("bce"@, Ty::Owned(CLASS_EXPRESSION))]);
    }
    push_entry(&mut es, record("ObjectExactCardinality", fs));
    let fs = vec![field("dp", Ty::Entity(DATA_PROPERTY)), field("dr", Ty::Entity(DATA_RANGE))];
    proof {
        assert(field_views(fs@) =~= seq![("dp"@, Ty::Entity(DATA_PROPERTY)), ("dr"@, Ty::Entity(DATA_RANGE))]);
    }
    push_entry(&mut es, record("DataSomeValuesFrom", fs));
    let fs = vec![field("dp", Ty::Entity(DATA_PROPERTY)), field("dr", Ty::Entity(DATA_RANGE))];
    proof {
        assert(field_views(fs@) =~= seq![("dp"@, Ty::Entity(DATA_PROPERTY)), ("dr"@, Ty::Entity(DATA_RANGE))]);
    }
    push_entry(&mut es, record("DataAllValuesFrom", fs));
    let fs = vec![field("dp", Ty::Entity(DATA_PROPERTY)), field("l", Ty::Entity(LITERAL))];
    proof {
        assert(field_views(fs@) =~= seq![("dp"@, Ty::Entity(DATA_PROPERTY)), ("l"@, Ty::Entity(LITERAL))]);
    }
    push_entry(&mut es, record("DataHasValue", fs));
    let fs = vec![field("n", Ty::Int), field("dp", Ty::Entity(DATA_PROPERTY)), field("dr", Ty::Entity(DATA_RANGE))];
    proof {
        assert(field_views(fs@) =~= seq![("n"@, Ty::Int), ("dp"@, Ty::Entity(DATA_PROPERTY)), ("dr"@, Ty::Entity(DATA_RANGE))]);
    }
    push_entry(&mut es, record("DataMinCardinality", fs));
    let fs = vec![field("n", Ty::Int), field("dp", Ty::Entity(DATA_PROPERTY)), field("dr", Ty::Entity(DATA_RANGE))];
    proof {
        assert(field_views(fs@) =~= seq![("n"@, Ty::Int), ("dp"@, Ty::Entity(DATA_PROPERTY)), ("dr"@, Ty::Entity(DATA_RANGE))]);
    }
    push_entry(&mut es, record("DataMaxCardinality", fs));
    let fs = vec![field("n", Ty::Int), field("dp", Ty::Entity(DATA_PROPERTY)), field("dr", Ty::Entity(DATA_RANGE))];
    proof {
        assert(field_views(fs@) =~= seq![("n"@, Ty::Int), ("dp"@, Ty::Entity(DATA_PROPERTY)), ("dr"@, Ty::Entity(DATA_RANGE))]);
    }
    push_entry(&mut es, record("DataExactCardinality", fs));
    let vs = vec![
        Ty::Entity(CLASS),
        Ty::Entity(OBJECT_INTERSECTION_OF),
        Ty::Entity(OBJECT_UNION_OF),
        Ty::Entity(OBJECT_COMPLEMENT_OF),
        Ty::Entity(OBJECT_ONE_OF),
        Ty::Entity(OBJECT_SOME_VALUES_FROM),
        Ty::Entity(OBJECT_ALL_VALUES_FROM),
        Ty::Entity(OBJECT_HAS_VALUE),
        Ty::Entity(OBJECT_HAS_SELF),
        Ty::Entity(OBJECT_MIN_CARDINALITY),
        Ty::Entity(OBJECT_MAX_CARDINALITY),
        Ty::Entity(OBJECT_EXACT_CARDINALITY),
        Ty::Entity(DATA_SOME_VALUES_FROM),
        Ty::Entity(DATA_ALL_VALUES_FROM),
        Ty::Entity(DATA_HAS_VALUE),
        Ty::Entity(DATA_MIN_CARDINALITY),
        Ty::Entity(DATA_MAX_CARDINALITY),
        Ty::Entity(DATA_EXACT_CARDINALITY),
    ];
    proof {
        assert(vs@ =~= seq![Ty::Entity(CLASS), Ty::Entity(OBJECT_INTERSECTION_OF), Ty::Entity(OBJECT_UNION_OF), Ty::Entity(OBJECT_COMPLEMENT_OF), Ty::Entity(OBJECT_ONE_OF), Ty::Entity(OBJECT_SOME_VALUES_FROM), Ty::Entity(OBJECT_ALL_VALUES_FROM), Ty::Entity(OBJECT_HAS_VALUE), Ty::Entity(OBJECT_HAS_SELF), Ty::Entity(OBJECT_MIN_CARDINALITY), Ty::Entity(OBJECT_MAX_CARDINALITY), Ty::Entity(OBJECT_EXACT_CARDINALITY), Ty::Entity(DATA_SOME_VALUES_FROM), Ty::Entity(DATA_ALL_VALUES_FROM), Ty::Entity(DATA_HAS_VALUE), Ty::Entity(DATA_MIN_CARDINALITY), Ty::Entity(DATA_MAX_CARDINALITY), Ty::Entity(DATA_EXACT_CARDINALITY)]);
    }
    push_entry(&mut es, union("ClassExpression", vs));
    let vs = vec![
        Ty::Entity(OBJECT_PROPERTY_EXPRESSION),
        Ty::Entity(DATA_PROPERTY),
        Ty::Entity(ANNOTATION_PROPERTY),
    ];
    proof {
        assert(vs@ =~= seq![Ty::Entity(OBJECT_PROPERTY_EXPRESSION), Ty::Entity(DATA_PROPERTY), Ty::Entity(ANNOTATION_PROPERTY)]);
    }
    push_entry(&mut es, union("PropertyExpression", vs));
    let vs = vec![
        Ty::Leaf(Leaf::Iri),
        Ty::Entity(ANONYMOUS_INDIVIDUAL),
    ];
    proof {
        assert(vs@ =~= seq![Ty::Leaf(Leaf::Iri), Ty::Entity(ANONYMOUS_INDIVIDUAL)]);
    }
    push_entry(&mut es, union("AnnotationSubject", vs));
    let vs = vec![
        Ty::Entity(LITERAL),
        Ty::Leaf(Leaf::Iri),
    ];
    proof {
        assert(vs@ =~= seq![Ty::Entity(LITERAL), Ty::Leaf(Leaf::Iri)]);
    }
    push_entry(&mut es, union("AnnotationValue", vs));
    let fs = vec![field("ap", Ty::Entity(ANNOTATION_PROPERTY)), field("av", Ty::Entity(ANNOTATION_VALUE))];
    proof {
        assert(field_views(fs@) =~= seq![("ap"@, Ty::Entity(ANNOTATION_PROPERTY)), ("av"@, Ty::Entity(ANNOTATION_VALUE))]);
    }
    push_entry(&mut es, record("Annotation", fs));
    push_entry(&mut es, pos("OntologyAnnotation", Ty::Entity(ANNOTATION)));
    push_entry(&mut es, pos("Import", Ty::Leaf(Leaf::Iri)));
    push_entry(&mut es, pos("DeclareClass", Ty::Entity(CLASS)));
    push_entry(&mut es, pos("DeclareObjectProperty", Ty::Entity(OBJECT_PROPERTY)));
    push_entry(&mut es, pos("DeclareAnnotationProperty", Ty::Entity(ANNOTATION_PROPERTY)));
    push_entry(&mut es, pos("DeclareDataProperty", Ty::Entity(DATA_PROPERTY)));
    push_entry(&mut es, pos("DeclareNamedIndividual", Ty::Entity(NAMED_INDIVIDUAL)));
    push_entry(&mut es, pos("DeclareDatatype", Ty::Entity(DATATYPE)));
    let fs = vec![field("sup", Ty::Entity(CLASS_EXPRESSION)), field("sub", Ty::Entity(CLASS_EXPRESSION))];
    proof {
        assert(field_views(fs@) =~= seq![("sup"@, Ty::Entity(CLASS_EXPRESSION)), ("sub"@, Ty::Entity(CLASS_EXPRESSION))]);
    }
    push_entry(&mut es, record("SubClassOf", fs));
    push_entry(&mut es, pos("EquivalentClasses", Ty::List(CLASS_EXPRESSION)));
    push_entry(&mut es, pos("DisjointClasses", Ty::List(CLASS_EXPRESSION)));
    push_entry(&mut es, pair("DisjointUnion", Ty::Entity(CLASS), Ty::List(CLASS_EXPRESSION)));
    let vs = vec![
        Ty::List(OBJECT_PROPERTY_EXPRESSION),
        Ty::Entity(OBJECT_PROPERTY_EXPRESSION),
    ];
    proof {
        assert(vs@ =~= seq![Ty::List(OBJECT_PROPERTY_EXPRESSION), Ty::Entity(OBJECT_PROPERTY_EXPRESSION)]);
    }
    push_entry(&mut es, union("SubObjectPropertyExpression", vs));
    let fs = vec![field("sup", Ty::Entity(OBJECT_PROPERTY_EXPRESSION)), field("sub", Ty::Entity(SUB_OBJECT_PROPERTY_EXPRESSION))];
    proof {
        assert(field_views(fs@) =~= seq![("sup"@, Ty::Entity(OBJECT_PROPERTY_EXPRESSION)), ("sub"@, Ty::Entity(SUB_OBJECT_PROPERTY_EXPRESSION))]);
    }
    push_entry(&mut es, record("SubObjectPropertyOf", fs));
    push_entry(&mut es, pos("EquivalentObjectProperties", Ty::List(OBJECT_PROPERTY_EXPRESSION)));
    push_entry(&mut es, pos("DisjointObjectProperties", Ty::List(OBJECT_PROPERTY_EXPRESSION)));
    push_entry(&mut es, pair("InverseObjectProperties", Ty::Entity(OBJECT_PROPERTY), Ty::Entity(OBJECT_PROPERTY)));
    let fs = vec![field("ope", Ty::Entity(OBJECT_PROPERTY_EXPRESSION)), field("ce", Ty::Entity(CLASS_EXPRESSION))];
    proof {
        assert(field_views(fs@) =~= seq![("ope"@, Ty::Entity(OBJECT_PROPERTY_EXPRESSION)), ("ce"@, Ty::Entity(CLASS_EXPRESSION))]);
    }
    push_entry(&mut es, record("ObjectPropertyDomain", fs));
    let fs = vec![field("ope", Ty::Entity(OBJECT_PROPERTY_EXPRESSION)), field("ce", Ty::Entity(CLASS_EXPRESSION))];
    proof {
        assert(field_views(fs@) =~= seq![("ope"@, Ty::Entity(OBJECT_PROPERTY_EXPRESSION)), ("ce"@, Ty::Entity(CLASS_EXPRESSION))]);
    }
    push_entry(&mut es, record("ObjectPropertyRange", fs));
    push_entry(&mut es, pos("FunctionalObjectProperty", Ty::Entity(OBJECT_PROPERTY_EXPRESSION)));
    push_entry(&mut es, pos("InverseFunctionalObjectProperty", Ty::Entity(OBJECT_PROPERTY_EXPRESSION)));
    push_entry(&mut es, pos("ReflexiveObjectProperty", Ty::Entity(OBJECT_PROPERTY_EXPRESSION)));
    push_entry(&mut es, pos("IrreflexiveObjectProperty", Ty::Entity(OBJECT_PROPERTY_EXPRESSION)));
    push_entry(&mut es, pos("SymmetricObjectProperty", Ty::Entity(OBJECT_PROPERTY_EXPRESSION)));
    push_entry(&mut es, pos("AsymmetricObjectProperty", Ty::Entity(OBJECT_PROPERTY_EXPRESSION)));
    push_entry(&mut es, pos("TransitiveObjectProperty", Ty::Entity(OBJECT_PROPERTY_EXPRESSION)));
    let fs = vec![field("sup", Ty::Entity(DATA_PROPERTY)), field("sub", Ty::Entity(DATA_PROPERTY))];
    proof {
        assert(field_views(fs@) =~= seq![("sup"@, Ty::Entity(DATA_PROPERTY)), ("sub"@, Ty::Entity(DATA_PROPERTY))]);
    }
    push_entry(&mut es, record("SubDataPropertyOf", fs));
    push_entry(&mut es, pos("EquivalentDataProperties", Ty::List(DATA_PROPERTY)));
    push_entry(&mut es, pos("DisjointDataProperties", Ty::List(DATA_PROPERTY)));
    let fs = vec![field("dp", Ty::Entity(DATA_PROPERTY)), field("ce", Ty::Entity(CLASS_EXPRESSION))];
    proof {
        assert(field_views(fs@) =~= seq![("dp"@, Ty::Entity(DATA_PROPERTY)), ("ce"@, Ty::Entity(CLASS_EXPRESSION))]);
    }
    push_entry(&mut es, record("DataPropertyDomain", fs));
    let fs = vec![field("dp", Ty::Entity(DATA_PROPERTY)), field("dr", Ty::Entity(DATA_RANGE))];
    proof {
        assert(field_views(fs@) =~= seq![("dp"@, Ty::Entity(DATA_PROPERTY)), ("dr"@, Ty::Entity(DATA_RANGE))]);
    }
    push_entry(&mut es, record("DataPropertyRange", fs));
    push_entry(&mut es, pos("FunctionalDataProperty", Ty::Entity(DATA_PROPERTY)));
    let fs = vec![field("kind", Ty::Entity(DATATYPE)), field("range", Ty::Entity(DATA_RANGE))];
    proof {
        assert(field_views(fs@) =~= seq![("kind"@, Ty::Entity(DATATYPE)), ("range"@, Ty::Entity(DATA_RANGE))]);
    }
    push_entry(&mut es, record("DatatypeDefinition", fs));
    let fs = vec![field("ce", Ty::Entity(CLASS_EXPRESSION)), field("vpe", Ty::List(PROPERTY_EXPRESSION))];
    proof {
        assert(field_views(fs@) =~= seq![("ce"@, Ty::Entity(CLASS_EXPRESSION)), ("vpe"@, Ty::List(PROPERTY_EXPRESSION))]);
    }
    push_entry(&mut es, record("HasKey", fs));
    push_entry(&mut es, pos("SameIndividual", Ty::List(INDIVIDUAL)));
    push_entry(&mut es, pos("DifferentIndividuals", Ty::List(INDIVIDUAL)));
    let fs = vec![field("ce", Ty::Entity(CLASS_EXPRESSION)), field("i", Ty::Entity(INDIVIDUAL))];
    proof {
        assert(field_views(fs@) =~= seq![("ce"@, Ty::Entity(CLASS_EXPRESSION)), ("i"@, Ty::Entity(INDIVIDUAL))]);
    }
    push_entry(&mut es, record("ClassAssertion", fs));
    let fs = vec![field("ope", Ty::Entity(OBJECT_PROPERTY_EXPRESSION)), field("from", Ty::Entity(INDIVIDUAL)), field("to", Ty::Entity(INDIVIDUAL))];
    proof {
        assert(field_views(fs@) =~= seq![("ope"@, Ty::Entity(OBJECT_PROPERTY_EXPRESSION)), ("from"@, Ty::Entity(INDIVIDUAL)), ("to"@, Ty::Entity(INDIVIDUAL))]);
    }
    push_entry(&mut es, record("ObjectPropertyAssertion", fs));
    let fs = vec![field("ope", Ty::Entity(OBJECT_PROPERTY_EXPRESSION)), field("from", Ty::Entity(INDIVIDUAL)), field("to", Ty::Entity(INDIVIDUAL))];
    proof {
        assert(field_views(fs@) =~= seq![("ope"@, Ty::Entity(OBJECT_PROPERTY_EXPRESSION)), ("from"@, Ty::Entity(INDIVIDUAL)), ("to"@, Ty::Entity(INDIVIDUAL))]);
    }
    push_entry(&mut es, record("NegativeObjectPropertyAssertion", fs));
    let fs = vec![field("dp", Ty::Entity(DATA_PROPERTY)), field("from", Ty::Entity(INDIVIDUAL)), field("to", Ty::Entity(LITERAL))];
    proof {
        assert(field_views(fs@) =~= seq![("dp"@, Ty::Entity(DATA_PROPERTY)), ("from"@, Ty::Entity(INDIVIDUAL)), ("to"@, Ty::Entity(LITERAL))]);
    }
    push_entry(&mut es, record("DataPropertyAssertion", fs));
    let fs = vec![field("dp", Ty::Entity(DATA_PROPERTY)), field("from", Ty::Entity(INDIVIDUAL)), field("to", Ty::Entity(LITERAL))];
    proof {
        assert(field_views(fs@) =~= seq![("dp"@, Ty::Entity(DATA_PROPERTY)), ("from"@, Ty::Entity(INDIVIDUAL)), ("to"@, Ty::Entity(LITERAL))]);
    }
    push_entry(&mut es, record("NegativeDataPropertyAssertion", fs));
    let fs = vec![field("subject", Ty::Entity(ANNOTATION_SUBJECT)), field("ann", Ty::Entity(ANNOTATION))];
    proof {
        assert(field_views(fs@) =~= seq![("subject"@, Ty::Entity(ANNOTATION_SUBJECT)), ("ann"@, Ty::Entity(ANNOTATION))]);
    }
    push_entry(&mut es, record("AnnotationAssertion", fs));
    let fs = vec![field("sup", Ty::Entity(ANNOTATION_PROPERTY)), field("sub", Ty::Entity(ANNOTATION_PROPERTY))];
    proof {
        assert(field_views(fs@) =~= seq![("sup"@, Ty::Entity(ANNOTATION_PROPERTY)), ("sub"@, Ty::Entity(ANNOTATION_PROPERTY))]);
    }
    push_entry(&mut es, record("SubAnnotationPropertyOf", fs));
    let fs = vec![field("ap", Ty::Entity(ANNOTATION_PROPERTY)), field("iri", Ty::Leaf(Leaf::Iri))];
    proof {
        assert(field_views(fs@) =~= seq![("ap"@, Ty::Entity(ANNOTATION_PROPERTY)), ("iri"@, Ty::Leaf(Leaf::Iri))]);
    }
    push_entry(&mut es, record("AnnotationPropertyDomain", fs));
    let fs = vec![field("ap", Ty::Entity(ANNOTATION_PROPERTY)), field("iri", Ty::Leaf(Leaf::Iri))];
    proof {
        assert(field_views(fs@) =~= seq![("ap"@, Ty::Entity(ANNOTATION_PROPERTY)), ("iri"@, Ty::Leaf(Leaf::Iri))]);
    }
    push_entry(&mut es, record("AnnotationPropertyRange", fs));
    let vs = vec![
        Ty::Entity(ONTOLOGY_ANNOTATION),
        Ty::Entity(IMPORT),
        Ty::Entity(DECLARE_CLASS),
        Ty::Entity(DECLARE_OBJECT_PROPERTY),
        Ty::Entity(DECLARE_ANNOTATION_PROPERTY),
        Ty::Entity(DECLARE_DATA_PROPERTY),
        Ty::Entity(DECLARE_NAMED_INDIVIDUAL),
        Ty::Entity(DECLARE_DATATYPE),
        Ty::Entity(SUB_CLASS_OF),
        Ty::Entity(EQUIVALENT_CLASSES),
        Ty::Entity(DISJOINT_CLASSES),
        Ty::Entity(DISJOINT_UNION),
        Ty::Entity(SUB_OBJECT_PROPERTY_OF),
        Ty::Entity(EQUIVALENT_OBJECT_PROPERTIES),
        Ty::Entity(DISJOINT_OBJECT_PROPERTIES),
        Ty::Entity(INVERSE_OBJECT_PROPERTIES),
        Ty::Entity(OBJECT_PROPERTY_DOMAIN),
        Ty::Entity(OBJECT_PROPERTY_RANGE),
        Ty::Entity(FUNCTIONAL_OBJECT_PROPERTY),
        Ty::Entity(INVERSE_FUNCTIONAL_OBJECT_PROPERTY),
        Ty::Entity(REFLEXIVE_OBJECT_PROPERTY),
        Ty::Entity(IRREFLEXIVE_OBJECT_PROPERTY),
        Ty::Entity(SYMMETRIC_OBJECT_PROPERTY),
        Ty::Entity(ASYMMETRIC_OBJECT_PROPERTY),
        Ty::Entity(TRANSITIVE_OBJECT_PROPERTY),
        Ty::Entity(SUB_DATA_PROPERTY_OF),
        Ty::Entity(EQUIVALENT_DATA_PROPERTIES),
        Ty::Entity(DISJOINT_DATA_PROPERTIES),
        Ty::Entity(DATA_PROPERTY_DOMAIN),
        Ty::Entity(DATA_PROPERTY_RANGE),
        Ty::Entity(FUNCTIONAL_DATA_PROPERTY),
        Ty::Entity(DATATYPE_DEFINITION),
        Ty::Entity(HAS_KEY),
        Ty::Entity(SAME_INDIVIDUAL),
        Ty::Entity(DIFFERENT_INDIVIDUALS),
        Ty::Entity(CLASS_ASSERTION),
        Ty::Entity(OBJECT_PROPERTY_ASSERTION),
        Ty::Entity(NEGATIVE_OBJECT_PROPERTY_ASSERTION),
        Ty::Entity(DATA_PROPERTY_ASSERTION),
        Ty::Entity(NEGATIVE_DATA_PROPERTY_ASSERTION),
        Ty::Entity(ANNOTATION_ASSERTION),
        Ty::Entity(SUB_ANNOTATION_PROPERTY_OF),
        Ty::Entity(ANNOTATION_PROPERTY_DOMAIN),
        Ty::Entity(ANNOTATION_PROPERTY_RANGE),
    ];
    proof {
        assert(vs@ =~= seq![Ty::Entity(ONTOLOGY_ANNOTATION), Ty::Entity(IMPORT), Ty::Entity(DECLARE_CLASS), Ty::Entity(DECLARE_OBJECT_PROPERTY), Ty::Entity(DECLARE_ANNOTATION_PROPERTY), Ty::Entity(DECLARE_DATA_PROPERTY), Ty::Entity(DECLARE_NAMED_INDIVIDUAL), Ty::Entity(DECLARE_DATATYPE), Ty::Entity(SUB_CLASS_OF), Ty::Entity(EQUIVALENT_CLASSES), Ty::Entity(DISJOINT_CLASSES), Ty::Entity(DISJOINT_UNION), Ty::Entity(SUB_OBJECT_PROPERTY_OF), Ty::Entity(EQUIVALENT_OBJECT_PROPERTIES), Ty::Entity(DISJOINT_OBJECT_PROPERTIES), Ty::Entity(INVERSE_OBJECT_PROPERTIES), Ty::Entity(OBJECT_PROPERTY_DOMAIN), Ty::Entity(OBJECT_PROPERTY_RANGE), Ty::Entity(FUNCTIONAL_OBJECT_PROPERTY), Ty::Entity(INVERSE_FUNCTIONAL_OBJECT_PROPERTY), Ty::Entity(REFLEXIVE_OBJECT_PROPERTY), Ty::Entity(IRREFLEXIVE_OBJECT_PROPERTY), Ty::Entity(SYMMETRIC_OBJECT_PROPERTY), Ty::Entity(ASYMMETRIC_OBJECT_PROPERTY), Ty::Entity(TRANSITIVE_OBJECT_PROPERTY), Ty::Entity(SUB_DATA_PROPERTY_OF), Ty::Entity(EQUIVALENT_DATA_PROPERTIES), Ty::Entity(DISJOINT_DATA_PROPERTIES), Ty::Entity(DATA_PROPERTY_DOMAIN), Ty::Entity(DATA_PROPERTY_RANGE), Ty::Entity(FUNCTIONAL_DATA_PROPERTY), Ty::Entity(DATATYPE_DEFINITION), Ty::Entity(HAS_KEY), Ty::Entity(SAME_INDIVIDUAL), Ty::Entity(DIFFERENT_INDIVIDUALS), Ty::Entity(CLASS_ASSERTION), Ty::Entity(OBJECT_PROPERTY_ASSERTION), Ty::Entity(NEGATIVE_OBJECT_PROPERTY_ASSERTION), Ty::Entity(DATA_PROPERTY_ASSERTION), Ty::Entity(NEGATIVE_DATA_PROPERTY_ASSERTION), Ty::Entity(ANNOTATION_ASSERTION), Ty::Entity(SUB_ANNOTATION_PROPERTY_OF), Ty::Entity(ANNOTATION_PROPERTY_DOMAIN), Ty::Entity(ANNOTATION_PROPERTY_RANGE)]);
    }
    push_entry(&mut es, union("Axiom", vs));
    let fs = vec![field("axiom", Ty::Entity(AXIOM)), field("ann", Ty::Unique(ANNOTATION))];
    proof {
        assert(field_views(fs@) =~= seq![("axiom"@, Ty::Entity(AXIOM)), ("ann"@, Ty::Unique(ANNOTATION))]);
    }
    push_entry(&mut es, record("AnnotatedAxiom", fs));
    let r = Schema { entities: es };
    proof {
        lemma_owl_wf(&r);
        lemma_owl_unambiguous(&r);
    }
    r
}

} // verus!
