use vstd::prelude::*;
use crate::schema::{
    Schema, Ty, Kind, rank, field_count, field_name, field_ty, variants, lemma_shape_view,
};
use crate::owl::{owl_name, owl_shape};

verus! {

/// Where a name stands in the ontology table, or -1.
pub open spec fn owl_index(s: Seq<char>) -> int {
    if s.len() == 5 {
        if s == "Class"@ { 0 } else if s == "Axiom"@ { 88 } else { -1 }
    } else if s.len() == 6 {
        if s == "Import"@ { 44 } else if s == "HasKey"@ { 76 } else { -1 }
    } else if s.len() == 7 {
        if s == "Literal"@ { 13 } else { -1 }
    } else if s.len() == 8 {
        if s == "Datatype"@ { 4 } else { -1 }
    } else if s.len() == 9 {
        if s == "DataOneOf"@ { 18 } else if s == "DataRange"@ { 20 } else { -1 }
    } else if s.len() == 10 {
        if s == "Individual"@ { 7 } else if s == "Annotation"@ { 42 } else if s == "SubClassOf"@ { 51 } else { -1 }
    } else if s.len() == 11 {
        if s == "DataUnionOf"@ { 16 } else if s == "ObjectOneOf"@ { 24 } else { -1 }
    } else if s.len() == 12 {
        if s == "DataProperty"@ { 5 } else if s == "DataHasValue"@ { 34 } else if s == "DeclareClass"@ { 45 } else { -1 }
    } else if s.len() == 13 {
        if s == "SimpleLiteral"@ { 10 } else if s == "ObjectUnionOf"@ { 22 } else if s == "ObjectHasSelf"@ { 28 } else if s == "DisjointUnion"@ { 54 } else { -1 }
    } else if s.len() == 14 {
        if s == "ObjectProperty"@ { 3 } else if s == "ObjectHasValue"@ { 27 } else if s == "SameIndividual"@ { 77 } else if s == "ClassAssertion"@ { 79 } else if s == "AnnotatedAxiom"@ { 89 } else { -1 }
    } else if s.len() == 15 {
        if s == "NamedIndividual"@ { 2 } else if s == "LanguageLiteral"@ { 11 } else if s == "DatatypeLiteral"@ { 12 } else if s == "ClassExpression"@ { 38 } else if s == "AnnotationValue"@ { 41 } else if s == "DeclareDatatype"@ { 50 } else if s == "DisjointClasses"@ { 53 } else { -1 }
    } else if s.len() == 16 {
        if s == "FacetRestriction"@ { 14 } else if s == "DataComplementOf"@ { 17 } else { -1 }
    } else if s.len() == 17 {
        if s == "DataAllValuesFrom"@ { 33 } else if s == "AnnotationSubject"@ { 40 } else if s == "EquivalentClasses"@ { 52 } else if s == "SubDataPropertyOf"@ { 69 } else if s == "DataPropertyRange"@ { 73 } else { -1 }
    } else if s.len() == 18 {
        if s == "AnnotationProperty"@ { 6 } else if s == "DataIntersectionOf"@ { 15 } else if s == "ObjectComplementOf"@ { 23 } else if s == "DataSomeValuesFrom"@ { 32 } else if s == "DataMinCardinality"@ { 35 } else if s == "DataMaxCardinality"@ { 36 } else if s == "PropertyExpression"@ { 39 } else if s == "OntologyAnnotation"@ { 43 } else if s == "DataPropertyDomain"@ { 72 } else if s == "DatatypeDefinition"@ { 75 } else { -1 }
    } else if s.len() == 19 {
        if s == "AnonymousIndividual"@ { 1 } else if s == "DatatypeRestriction"@ { 19 } else if s == "ObjectAllValuesFrom"@ { 26 } else if s == "DeclareDataProperty"@ { 48 } else if s == "SubObjectPropertyOf"@ { 56 } else if s == "ObjectPropertyRange"@ { 61 } else if s == "AnnotationAssertion"@ { 84 } else { -1 }
    } else if s.len() == 20 {
        if s == "ObjectIntersectionOf"@ { 21 } else if s == "ObjectSomeValuesFrom"@ { 25 } else if s == "ObjectMinCardinality"@ { 29 } else if s == "ObjectMaxCardinality"@ { 30 } else if s == "DataExactCardinality"@ { 37 } else if s == "ObjectPropertyDomain"@ { 60 } else if s == "DifferentIndividuals"@ { 78 } else { -1 }
    } else if s.len() == 21 {
        if s == "InverseObjectProperty"@ { 8 } else if s == "DeclareObjectProperty"@ { 46 } else if s == "DataPropertyAssertion"@ { 82 } else { -1 }
    } else if s.len() == 22 {
        if s == "ObjectExactCardinality"@ { 31 } else if s == "DeclareNamedIndividual"@ { 49 } else if s == "DisjointDataProperties"@ { 71 } else if s == "FunctionalDataProperty"@ { 74 } else { -1 }
    } else if s.len() == 23 {
        if s == "InverseObjectProperties"@ { 59 } else if s == "ReflexiveObjectProperty"@ { 64 } else if s == "SymmetricObjectProperty"@ { 66 } else if s == "ObjectPropertyAssertion"@ { 80 } else if s == "SubAnnotationPropertyOf"@ { 85 } else if s == "AnnotationPropertyRange"@ { 87 } else { -1 }
    } else if s.len() == 24 {
        if s == "ObjectPropertyExpression"@ { 9 } else if s == "DisjointObjectProperties"@ { 58 } else if s == "FunctionalObjectProperty"@ { 62 } else if s == "AsymmetricObjectProperty"@ { 67 } else if s == "TransitiveObjectProperty"@ { 68 } else if s == "EquivalentDataProperties"@ { 70 } else if s == "AnnotationPropertyDomain"@ { 86 } else { -1 }
    } else if s.len() == 25 {
        if s == "DeclareAnnotationProperty"@ { 47 } else if s == "IrreflexiveObjectProperty"@ { 65 } else { -1 }
    } else if s.len() == 26 {
        if s == "EquivalentObjectProperties"@ { 57 } else { -1 }
    } else if s.len() == 27 {
        if s == "SubObjectPropertyExpression"@ { 55 } else { -1 }
    } else if s.len() == 29 {
        if s == "NegativeDataPropertyAssertion"@ { 83 } else { -1 }
    } else if s.len() == 31 {
        if s == "InverseFunctionalObjectProperty"@ { 63 } else if s == "NegativeObjectPropertyAssertion"@ { 81 } else { -1 }
    } else {
        -1
    }
}

proof fn lemma_owl_index(e: int)
    requires
        0 <= e < 90,
    ensures
        owl_index(owl_name(e)) == e,
{
    if e == 0 {
        reveal_strlit("Class");

    } else if e == 1 {
        reveal_strlit("AnonymousIndividual");

    } else if e == 2 {
        reveal_strlit("NamedIndividual");

    } else if e == 3 {
        reveal_strlit("ObjectProperty");

    } else if e == 4 {
        reveal_strlit("Datatype");

    } else if e == 5 {
        reveal_strlit("DataProperty");

    } else if e == 6 {
        reveal_strlit("AnnotationProperty");

    } else if e == 7 {
        reveal_strlit("Individual");

    } else if e == 8 {
        reveal_strlit("InverseObjectProperty");

    } else if e == 9 {
        reveal_strlit("ObjectPropertyExpression");

    } else if e == 10 {
        reveal_strlit("SimpleLiteral");

    } else if e == 11 {
        reveal_strlit("NamedIndividual");
        reveal_strlit("LanguageLiteral");
        assert("LanguageLiteral"@[0] != "NamedIndividual"@[0]);

    } else if e == 12 {
        reveal_strlit("NamedIndividual");
        reveal_strlit("LanguageLiteral");
        reveal_strlit("DatatypeLiteral");
        assert("DatatypeLiteral"@[0] != "NamedIndividual"@[0]);
        assert("DatatypeLiteral"@[0] != "LanguageLiteral"@[0]);

    } else if e == 13 {
        reveal_strlit("Literal");

    } else if e == 14 {
        reveal_strlit("FacetRestriction");

    } else if e == 15 {
        reveal_strlit("AnnotationProperty");
        reveal_strlit("DataIntersectionOf");
        assert("DataIntersectionOf"@[0] != "AnnotationProperty"@[0]);

    } else if e == 16 {
        reveal_strlit("DataUnionOf");

    } else if e == 17 {
        reveal_strlit("FacetRestriction");
        reveal_strlit("DataComplementOf");
        assert("DataComplementOf"@[0] != "FacetRestriction"@[0]);

    } else if e == 18 {
        reveal_strlit("DataOneOf");

    } else if e == 19 {
        reveal_strlit("AnonymousIndividual");
        reveal_strlit("DatatypeRestriction");
        assert("DatatypeRestriction"@[0] != "AnonymousIndividual"@[0]);

    } else if e == 20 {
        reveal_strlit("DataOneOf");
        reveal_strlit("DataRange");
        assert("DataRange"@[4] != "DataOneOf"@[4]);

    } else if e == 21 {
        reveal_strlit("ObjectIntersectionOf");

    } else if e == 22 {
        reveal_strlit("SimpleLiteral");
        reveal_strlit("ObjectUnionOf");
        assert("ObjectUnionOf"@[0] != "SimpleLiteral"@[0]);

    } else if e == 23 {
        reveal_strlit("AnnotationProperty");
        reveal_strlit("DataIntersectionOf");
        reveal_strlit("ObjectComplementOf");
        assert("ObjectComplementOf"@[0] != "AnnotationProperty"@[0]);
        assert("ObjectComplementOf"@[0] != "DataIntersectionOf"@[0]);

    } else if e == 24 {
        reveal_strlit("DataUnionOf");
        reveal_strlit("ObjectOneOf");
        assert("ObjectOneOf"@[0] != "DataUnionOf"@[0]);

    } else if e == 25 {
        reveal_strlit("ObjectIntersectionOf");
        reveal_strlit("ObjectSomeValuesFrom");
        assert("ObjectSomeValuesFrom"@[6] != "ObjectIntersectionOf"@[6]);

    } else if e == 26 {
        reveal_strlit("AnonymousIndividual");
        reveal_strlit("DatatypeRestriction");
        reveal_strlit("ObjectAllValuesFrom");
        assert("ObjectAllValuesFrom"@[0] != "AnonymousIndividual"@[0]);
        assert("ObjectAllValuesFrom"@[0] != "DatatypeRestriction"@[0]);

    } else if e == 27 {
        reveal_strlit("ObjectProperty");
        reveal_strlit("ObjectHasValue");
        assert("ObjectHasValue"@[6] != "ObjectProperty"@[6]);

    } else if e == 28 {
        reveal_strlit("SimpleLiteral");
        reveal_strlit("ObjectUnionOf");
        reveal_strlit("ObjectHasSelf");
        assert("ObjectHasSelf"@[0] != "SimpleLiteral"@[0]);
        assert("ObjectHasSelf"@[6] != "ObjectUnionOf"@[6]);

    } else if e == 29 {
        reveal_strlit("ObjectIntersectionOf");
        reveal_strlit("ObjectSomeValuesFrom");
        reveal_strlit("ObjectMinCardinality");
        assert("ObjectMinCardinality"@[6] != "ObjectIntersectionOf"@[6]);
        assert("ObjectMinCardinality"@[6] != "ObjectSomeValuesFrom"@[6]);

    } else if e == 30 {
        reveal_strlit("ObjectIntersectionOf");
        reveal_strlit("ObjectSomeValuesFrom");
        reveal_strlit("ObjectMinCardinality");
        reveal_strlit("ObjectMaxCardinality");
        assert("ObjectMaxCardinality"@[6] != "ObjectIntersectionOf"@[6]);
        assert("ObjectMaxCardinality"@[6] != "ObjectSomeValuesFrom"@[6]);
        assert("ObjectMaxCardinality"@[7] != "ObjectMinCardinality"@[7]);

    } else if e == 31 {
        reveal_strlit("ObjectExactCardinality");

    } else if e == 32 {
        reveal_strlit("AnnotationProperty");
        reveal_strlit("DataIntersectionOf");
        reveal_strlit("ObjectComplementOf");
        reveal_strlit("DataSomeValuesFrom");
        assert("DataSomeValuesFrom"@[0] != "AnnotationProperty"@[0]);
        assert("DataSomeValuesFrom"@[4] != "DataIntersectionOf"@[4]);
        assert("DataSomeValuesFrom"@[0] != "ObjectComplementOf"@[0]);

    } else if e == 33 {
        reveal_strlit("DataAllValuesFrom");

    } else if e == 34 {
        reveal_strlit("DataProperty");
        reveal_strlit("DataHasValue");
        assert("DataHasValue"@[4] != "DataProperty"@[4]);

    } else if e == 35 {
        reveal_strlit("AnnotationProperty");
        reveal_strlit("DataIntersectionOf");
        reveal_strlit("ObjectComplementOf");
        reveal_strlit("DataSomeValuesFrom");
        reveal_strlit("DataMinCardinality");
        assert("DataMinCardinality"@[0] != "AnnotationProperty"@[0]);
        assert("DataMinCardinality"@[4] != "DataIntersectionOf"@[4]);
        assert("DataMinCardinality"@[0] != "ObjectComplementOf"@[0]);
        assert("DataMinCardinality"@[4] != "DataSomeValuesFrom"@[4]);

    } else if e == 36 {
        reveal_strlit("AnnotationProperty");
        reveal_strlit("DataIntersectionOf");
        reveal_strlit("ObjectComplementOf");
        reveal_strlit("DataSomeValuesFrom");
        reveal_strlit("DataMinCardinality");
        reveal_strlit("DataMaxCardinality");
        assert("DataMaxCardinality"@[0] != "AnnotationProperty"@[0]);
        assert("DataMaxCardinality"@[4] != "DataIntersectionOf"@[4]);
        assert("DataMaxCardinality"@[0] != "ObjectComplementOf"@[0]);
        assert("DataMaxCardinality"@[4] != "DataSomeValuesFrom"@[4]);
        assert("DataMaxCardinality"@[5] != "DataMinCardinality"@[5]);

    } else if e == 37 {
        reveal_strlit("ObjectIntersectionOf");
        reveal_strlit("ObjectSomeValuesFrom");
        reveal_strlit("ObjectMinCardinality");
        reveal_strlit("ObjectMaxCardinality");
        reveal_strlit("DataExactCardinality");
        assert("DataExactCardinality"@[0] != "ObjectIntersectionOf"@[0]);
        assert("DataExactCardinality"@[0] != "ObjectSomeValuesFrom"@[0]);
        assert("DataExactCardinality"@[0] != "ObjectMinCardinality"@[0]);
        assert("DataExactCardinality"@[0] != "ObjectMaxCardinality"@[0]);

    } else if e == 38 {
        reveal_strlit("NamedIndividual");
        reveal_strlit("LanguageLiteral");
        reveal_strlit("DatatypeLiteral");
        reveal_strlit("ClassExpression");
        assert("ClassExpression"@[0] != "NamedIndividual"@[0]);
        assert("ClassExpression"@[0] != "LanguageLiteral"@[0]);
        assert("ClassExpression"@[0] != "DatatypeLiteral"@[0]);

    } else if e == 39 {
        reveal_strlit("AnnotationProperty");
        reveal_strlit("DataIntersectionOf");
        reveal_strlit("ObjectComplementOf");
        reveal_strlit("DataSomeValuesFrom");
        reveal_strlit("DataMinCardinality");
        reveal_strlit("DataMaxCardinality");
        reveal_strlit("PropertyExpression");
        assert("PropertyExpression"@[0] != "AnnotationProperty"@[0]);
        assert("PropertyExpression"@[0] != "DataIntersectionOf"@[0]);
        assert("PropertyExpression"@[0] != "ObjectComplementOf"@[0]);
        assert("PropertyExpression"@[0] != "DataSomeValuesFrom"@[0]);
        assert("PropertyExpression"@[0] != "DataMinCardinality"@[0]);
        assert("PropertyExpression"@[0] != "DataMaxCardinality"@[0]);

    } else if e == 40 {
        reveal_strlit("DataAllValuesFrom");
        reveal_strlit("AnnotationSubject");
        assert("AnnotationSubject"@[0] != "DataAllValuesFrom"@[0]);

    } else if e == 41 {
        reveal_strlit("NamedIndividual");
        reveal_strlit("LanguageLiteral");
        reveal_strlit("DatatypeLiteral");
        reveal_strlit("ClassExpression");
        reveal_strlit("AnnotationValue");
        assert("AnnotationValue"@[0] != "NamedIndividual"@[0]);
        assert("AnnotationValue"@[0] != "LanguageLiteral"@[0]);
        assert("AnnotationValue"@[0] != "DatatypeLiteral"@[0]);
        assert("AnnotationValue"@[0] != "ClassExpression"@[0]);

    } else if e == 42 {
        reveal_strlit("Individual");
        reveal_strlit("Annotation");
        assert("Annotation"@[0] != "Individual"@[0]);

    } else if e == 43 {
        reveal_strlit("AnnotationProperty");
        reveal_strlit("DataIntersectionOf");
        reveal_strlit("ObjectComplementOf");
        reveal_strlit("DataSomeValuesFrom");
        reveal_strlit("DataMinCardinality");
        reveal_strlit("DataMaxCardinality");
        reveal_strlit("PropertyExpression");
        reveal_strlit("OntologyAnnotation");
        assert("OntologyAnnotation"@[0] != "AnnotationProperty"@[0]);
        assert("OntologyAnnotation"@[0] != "DataIntersectionOf"@[0]);
        assert("OntologyAnnotation"@[1] != "ObjectComplementOf"@[1]);
        assert("OntologyAnnotation"@[0] != "DataSomeValuesFrom"@[0]);
        assert("OntologyAnnotation"@[0] != "DataMinCardinality"@[0]);
        assert("OntologyAnnotation"@[0] != "DataMaxCardinality"@[0]);
        assert("OntologyAnnotation"@[0] != "PropertyExpression"@[0]);

    } else if e == 44 {
        reveal_strlit("Import");

    } else if e == 45 {
        reveal_strlit("DataProperty");
        reveal_strlit("DataHasValue");
        reveal_strlit("DeclareClass");
        assert("DeclareClass"@[1] != "DataProperty"@[1]);
        assert("DeclareClass"@[1] != "DataHasValue"@[1]);

    } else if e == 46 {
        reveal_strlit("InverseObjectProperty");
        reveal_strlit("DeclareObjectProperty");
        assert("DeclareObjectProperty"@[0] != "InverseObjectProperty"@[0]);

    } else if e == 47 {
        reveal_strlit("DeclareAnnotationProperty");

    } else if e == 48 {
        reveal_strlit("AnonymousIndividual");
        reveal_strlit("DatatypeRestriction");
        reveal_strlit("ObjectAllValuesFrom");
        reveal_strlit("DeclareDataProperty");
        assert("DeclareDataProperty"@[0] != "AnonymousIndividual"@[0]);
        assert("DeclareDataProperty"@[1] != "DatatypeRestriction"@[1]);
        assert("DeclareDataProperty"@[0] != "ObjectAllValuesFrom"@[0]);

    } else if e == 49 {
        reveal_strlit("ObjectExactCardinality");
        reveal_strlit("DeclareNamedIndividual");
        assert("DeclareNamedIndividual"@[0] != "ObjectExactCardinality"@[0]);

    } else if e == 50 {
        reveal_strlit("NamedIndividual");
        reveal_strlit("LanguageLiteral");
        reveal_strlit("DatatypeLiteral");
        reveal_strlit("ClassExpression");
        reveal_strlit("AnnotationValue");
        reveal_strlit("DeclareDatatype");
        assert("DeclareDatatype"@[0] != "NamedIndividual"@[0]);
        assert("DeclareDatatype"@[0] != "LanguageLiteral"@[0]);
        assert("DeclareDatatype"@[1] != "DatatypeLiteral"@[1]);
        assert("DeclareDatatype"@[0] != "ClassExpression"@[0]);
        assert("DeclareDatatype"@[0] != "AnnotationValue"@[0]);

    } else if e == 51 {
        reveal_strlit("Individual");
        reveal_strlit("Annotation");
        reveal_strlit("SubClassOf");
        assert("SubClassOf"@[0] != "Individual"@[0]);
        assert("SubClassOf"@[0] != "Annotation"@[0]);

    } else if e == 52 {
        reveal_strlit("DataAllValuesFrom");
        reveal_strlit("AnnotationSubject");
        reveal_strlit("EquivalentClasses");
        assert("EquivalentClasses"@[0] != "DataAllValuesFrom"@[0]);
        assert("EquivalentClasses"@[0] != "AnnotationSubject"@[0]);

    } else if e == 53 {
        reveal_strlit("NamedIndividual");
        reveal_strlit("LanguageLiteral");
        reveal_strlit("DatatypeLiteral");
        reveal_strlit("ClassExpression");
        reveal_strlit("AnnotationValue");
        reveal_strlit("DeclareDatatype");
        reveal_strlit("DisjointClasses");
        assert("DisjointClasses"@[0] != "NamedIndividual"@[0]);
        assert("DisjointClasses"@[0] != "LanguageLiteral"@[0]);
        assert("DisjointClasses"@[1] != "DatatypeLiteral"@[1]);
        assert("DisjointClasses"@[0] != "ClassExpression"@[0]);
        assert("DisjointClasses"@[0] != "AnnotationValue"@[0]);
        assert("DisjointClasses"@[1] != "DeclareDatatype"@[1]);

    } else if e == 54 {
        reveal_strlit("SimpleLiteral");
        reveal_strlit("ObjectUnionOf");
        reveal_strlit("ObjectHasSelf");
        reveal_strlit("DisjointUnion");
        assert("DisjointUnion"@[0] != "SimpleLiteral"@[0]);
        assert("DisjointUnion"@[0] != "ObjectUnionOf"@[0]);
        assert("DisjointUnion"@[0] != "ObjectHasSelf"@[0]);

    } else if e == 55 {
        reveal_strlit("SubObjectPropertyExpression");

    } else if e == 56 {
        reveal_strlit("AnonymousIndividual");
        reveal_strlit("DatatypeRestriction");
        reveal_strlit("ObjectAllValuesFrom");
        reveal_strlit("DeclareDataProperty");
        reveal_strlit("SubObjectPropertyOf");
        assert("SubObjectPropertyOf"@[0] != "AnonymousIndividual"@[0]);
        assert("SubObjectPropertyOf"@[0] != "DatatypeRestriction"@[0]);
        assert("SubObjectPropertyOf"@[0] != "ObjectAllValuesFrom"@[0]);
        assert("SubObjectPropertyOf"@[0] != "DeclareDataProperty"@[0]);

    } else if e == 57 {
        reveal_strlit("EquivalentObjectProperties");

    } else if e == 58 {
        reveal_strlit("ObjectPropertyExpression");
        reveal_strlit("DisjointObjectProperties");
        assert("DisjointObjectProperties"@[0] != "ObjectPropertyExpression"@[0]);

    } else if e == 59 {
        reveal_strlit("InverseObjectProperties");

    } else if e == 60 {
        reveal_strlit("ObjectIntersectionOf");
        reveal_strlit("ObjectSomeValuesFrom");
        reveal_strlit("ObjectMinCardinality");
        reveal_strlit("ObjectMaxCardinality");
        reveal_strlit("DataExactCardinality");
        reveal_strlit("ObjectPropertyDomain");
        assert("ObjectPropertyDomain"@[6] != "ObjectIntersectionOf"@[6]);
        assert("ObjectPropertyDomain"@[6] != "ObjectSomeValuesFrom"@[6]);
        assert("ObjectPropertyDomain"@[6] != "ObjectMinCardinality"@[6]);
        assert("ObjectPropertyDomain"@[6] != "ObjectMaxCardinality"@[6]);
        assert("ObjectPropertyDomain"@[0] != "DataExactCardinality"@[0]);

    } else if e == 61 {
        reveal_strlit("AnonymousIndividual");
        reveal_strlit("DatatypeRestriction");
        reveal_strlit("ObjectAllValuesFrom");
        reveal_strlit("DeclareDataProperty");
        reveal_strlit("SubObjectPropertyOf");
        reveal_strlit("ObjectPropertyRange");
        assert("ObjectPropertyRange"@[0] != "AnonymousIndividual"@[0]);
        assert("ObjectPropertyRange"@[0] != "DatatypeRestriction"@[0]);
        assert("ObjectPropertyRange"@[6] != "ObjectAllValuesFrom"@[6]);
        assert("ObjectPropertyRange"@[0] != "DeclareDataProperty"@[0]);
        assert("ObjectPropertyRange"@[0] != "SubObjectPropertyOf"@[0]);

    } else if e == 62 {
        reveal_strlit("ObjectPropertyExpression");
        reveal_strlit("DisjointObjectProperties");
        reveal_strlit("FunctionalObjectProperty");
        assert("FunctionalObjectProperty"@[0] != "ObjectPropertyExpression"@[0]);
        assert("FunctionalObjectProperty"@[0] != "DisjointObjectProperties"@[0]);

    } else if e == 63 {
        reveal_strlit("InverseFunctionalObjectProperty");

    } else if e == 64 {
        reveal_strlit("InverseObjectProperties");
        reveal_strlit("ReflexiveObjectProperty");
        assert("ReflexiveObjectProperty"@[0] != "InverseObjectProperties"@[0]);

    } else if e == 65 {
        reveal_strlit("DeclareAnnotationProperty");
        reveal_strlit("IrreflexiveObjectProperty");
        assert("IrreflexiveObjectProperty"@[0] != "DeclareAnnotationProperty"@[0]);

    } else if e == 66 {
        reveal_strlit("InverseObjectProperties");
        reveal_strlit("ReflexiveObjectProperty");
        reveal_strlit("SymmetricObjectProperty");
        assert("SymmetricObjectProperty"@[0] != "InverseObjectProperties"@[0]);
        assert("SymmetricObjectProperty"@[0] != "ReflexiveObjectProperty"@[0]);

    } else if e == 67 {
        reveal_strlit("ObjectPropertyExpression");
        reveal_strlit("DisjointObjectProperties");
        reveal_strlit("FunctionalObjectProperty");
        reveal_strlit("AsymmetricObjectProperty");
        assert("AsymmetricObjectProperty"@[0] != "ObjectPropertyExpression"@[0]);
        assert("AsymmetricObjectProperty"@[0] != "DisjointObjectProperties"@[0]);
        assert("AsymmetricObjectProperty"@[0] != "FunctionalObjectProperty"@[0]);

    } else if e == 68 {
        reveal_strlit("ObjectPropertyExpression");
        reveal_strlit("DisjointObjectProperties");
        reveal_strlit("FunctionalObjectProperty");
        reveal_strlit("AsymmetricObjectProperty");
        reveal_strlit("TransitiveObjectProperty");
        assert("TransitiveObjectProperty"@[0] != "ObjectPropertyExpression"@[0]);
        assert("TransitiveObjectProperty"@[0] != "DisjointObjectProperties"@[0]);
        assert("TransitiveObjectProperty"@[0] != "FunctionalObjectProperty"@[0]);
        assert("TransitiveObjectProperty"@[0] != "AsymmetricObjectProperty"@[0]);

    } else if e == 69 {
        reveal_strlit("DataAllValuesFrom");
        reveal_strlit("AnnotationSubject");
        reveal_strlit("EquivalentClasses");
        reveal_strlit("SubDataPropertyOf");
        assert("SubDataPropertyOf"@[0] != "DataAllValuesFrom"@[0]);
        assert("SubDataPropertyOf"@[0] != "AnnotationSubject"@[0]);
        assert("SubDataPropertyOf"@[0] != "EquivalentClasses"@[0]);

    } else if e == 70 {
        reveal_strlit("ObjectPropertyExpression");
        reveal_strlit("DisjointObjectProperties");
        reveal_strlit("FunctionalObjectProperty");
        reveal_strlit("AsymmetricObjectProperty");
        reveal_strlit("TransitiveObjectProperty");
        reveal_strlit("EquivalentDataProperties");
        assert("EquivalentDataProperties"@[0] != "ObjectPropertyExpression"@[0]);
        assert("EquivalentDataProperties"@[0] != "DisjointObjectProperties"@[0]);
        assert("EquivalentDataProperties"@[0] != "FunctionalObjectProperty"@[0]);
        assert("EquivalentDataProperties"@[0] != "AsymmetricObjectProperty"@[0]);
        assert("EquivalentDataProperties"@[0] != "TransitiveObjectProperty"@[0]);

    } else if e == 71 {
        reveal_strlit("ObjectExactCardinality");
        reveal_strlit("DeclareNamedIndividual");
        reveal_strlit("DisjointDataProperties");
        assert("DisjointDataProperties"@[0] != "ObjectExactCardinality"@[0]);
        assert("DisjointDataProperties"@[1] != "DeclareNamedIndividual"@[1]);

    } else if e == 72 {
        reveal_strlit("AnnotationProperty");
        reveal_strlit("DataIntersectionOf");
        reveal_strlit("ObjectComplementOf");
        reveal_strlit("DataSomeValuesFrom");
        reveal_strlit("DataMinCardinality");
        reveal_strlit("DataMaxCardinality");
        reveal_strlit("PropertyExpression");
        reveal_strlit("OntologyAnnotation");
        reveal_strlit("DataPropertyDomain");
        assert("DataPropertyDomain"@[0] != "AnnotationProperty"@[0]);
        assert("DataPropertyDomain"@[4] != "DataIntersectionOf"@[4]);
        assert("DataPropertyDomain"@[0] != "ObjectComplementOf"@[0]);
        assert("DataPropertyDomain"@[4] != "DataSomeValuesFrom"@[4]);
        assert("DataPropertyDomain"@[4] != "DataMinCardinality"@[4]);
        assert("DataPropertyDomain"@[4] != "DataMaxCardinality"@[4]);
        assert("DataPropertyDomain"@[0] != "PropertyExpression"@[0]);
        assert("DataPropertyDomain"@[0] != "OntologyAnnotation"@[0]);

    } else if e == 73 {
        reveal_strlit("DataAllValuesFrom");
        reveal_strlit("AnnotationSubject");
        reveal_strlit("EquivalentClasses");
        reveal_strlit("SubDataPropertyOf");
        reveal_strlit("DataPropertyRange");
        assert("DataPropertyRange"@[4] != "DataAllValuesFrom"@[4]);
        assert("DataPropertyRange"@[0] != "AnnotationSubject"@[0]);
        assert("DataPropertyRange"@[0] != "EquivalentClasses"@[0]);
        assert("DataPropertyRange"@[0] != "SubDataPropertyOf"@[0]);

    } else if e == 74 {
        reveal_strlit("ObjectExactCardinality");
        reveal_strlit("DeclareNamedIndividual");
        reveal_strlit("DisjointDataProperties");
        reveal_strlit("FunctionalDataProperty");
        assert("FunctionalDataProperty"@[0] != "ObjectExactCardinality"@[0]);
        assert("FunctionalDataProperty"@[0] != "DeclareNamedIndividual"@[0]);
        assert("FunctionalDataProperty"@[0] != "DisjointDataProperties"@[0]);

    } else if e == 75 {
        reveal_strlit("AnnotationProperty");
        reveal_strlit("DataIntersectionOf");
        reveal_strlit("ObjectComplementOf");
        reveal_strlit("DataSomeValuesFrom");
        reveal_strlit("DataMinCardinality");
        reveal_strlit("DataMaxCardinality");
        reveal_strlit("PropertyExpression");
        reveal_strlit("OntologyAnnotation");
        reveal_strlit("DataPropertyDomain");
        reveal_strlit("DatatypeDefinition");
        assert("DatatypeDefinition"@[0] != "AnnotationProperty"@[0]);
        assert("DatatypeDefinition"@[4] != "DataIntersectionOf"@[4]);
        assert("DatatypeDefinition"@[0] != "ObjectComplementOf"@[0]);
        assert("DatatypeDefinition"@[4] != "DataSomeValuesFrom"@[4]);
        assert("DatatypeDefinition"@[4] != "DataMinCardinality"@[4]);
        assert("DatatypeDefinition"@[4] != "DataMaxCardinality"@[4]);
        assert("DatatypeDefinition"@[0] != "PropertyExpression"@[0]);
        assert("DatatypeDefinition"@[0] != "OntologyAnnotation"@[0]);
        assert("DatatypeDefinition"@[4] != "DataPropertyDomain"@[4]);

    } else if e == 76 {
        reveal_strlit("Import");
        reveal_strlit("HasKey");
        assert("HasKey"@[0] != "Import"@[0]);

    } else if e == 77 {
        reveal_strlit("ObjectProperty");
        reveal_strlit("ObjectHasValue");
        reveal_strlit("SameIndividual");
        assert("SameIndividual"@[0] != "ObjectProperty"@[0]);
        assert("SameIndividual"@[0] != "ObjectHasValue"@[0]);

    } else if e == 78 {
        reveal_strlit("ObjectIntersectionOf");
        reveal_strlit("ObjectSomeValuesFrom");
        reveal_strlit("ObjectMinCardinality");
        reveal_strlit("ObjectMaxCardinality");
        reveal_strlit("DataExactCardinality");
        reveal_strlit("ObjectPropertyDomain");
        reveal_strlit("DifferentIndividuals");
        assert("DifferentIndividuals"@[0] != "ObjectIntersectionOf"@[0]);
        assert("DifferentIndividuals"@[0] != "ObjectSomeValuesFrom"@[0]);
        assert("DifferentIndividuals"@[0] != "ObjectMinCardinality"@[0]);
        assert("DifferentIndividuals"@[0] != "ObjectMaxCardinality"@[0]);
        assert("DifferentIndividuals"@[1] != "DataExactCardinality"@[1]);
        assert("DifferentIndividuals"@[0] != "ObjectPropertyDomain"@[0]);

    } else if e == 79 {
        reveal_strlit("ObjectProperty");
        reveal_strlit("ObjectHasValue");
        reveal_strlit("SameIndividual");
        reveal_strlit("ClassAssertion");
        assert("ClassAssertion"@[0] != "ObjectProperty"@[0]);
        assert("ClassAssertion"@[0] != "ObjectHasValue"@[0]);
        assert("ClassAssertion"@[0] != "SameIndividual"@[0]);

    } else if e == 80 {
        reveal_strlit("InverseObjectProperties");
        reveal_strlit("ReflexiveObjectProperty");
        reveal_strlit("SymmetricObjectProperty");
        reveal_strlit("ObjectPropertyAssertion");
        assert("ObjectPropertyAssertion"@[0] != "InverseObjectProperties"@[0]);
        assert("ObjectPropertyAssertion"@[0] != "ReflexiveObjectProperty"@[0]);
        assert("ObjectPropertyAssertion"@[0] != "SymmetricObjectProperty"@[0]);

    } else if e == 81 {
        reveal_strlit("InverseFunctionalObjectProperty");
        reveal_strlit("NegativeObjectPropertyAssertion");
        assert("NegativeObjectPropertyAssertion"@[0] != "InverseFunctionalObjectProperty"@[0]);

    } else if e == 82 {
        reveal_strlit("InverseObjectProperty");
        reveal_strlit("DeclareObjectProperty");
        reveal_strlit("DataPropertyAssertion");
        assert("DataPropertyAssertion"@[0] != "InverseObjectProperty"@[0]);
        assert("DataPropertyAssertion"@[1] != "DeclareObjectProperty"@[1]);

    } else if e == 83 {
        reveal_strlit("NegativeDataPropertyAssertion");

    } else if e == 84 {
        reveal_strlit("AnonymousIndividual");
        reveal_strlit("DatatypeRestriction");
        reveal_strlit("ObjectAllValuesFrom");
        reveal_strlit("DeclareDataProperty");
        reveal_strlit("SubObjectPropertyOf");
        reveal_strlit("ObjectPropertyRange");
        reveal_strlit("AnnotationAssertion");
        assert("AnnotationAssertion"@[2] != "AnonymousIndividual"@[2]);
        assert("AnnotationAssertion"@[0] != "DatatypeRestriction"@[0]);
        assert("AnnotationAssertion"@[0] != "ObjectAllValuesFrom"@[0]);
        assert("AnnotationAssertion"@[0] != "DeclareDataProperty"@[0]);
        assert("AnnotationAssertion"@[0] != "SubObjectPropertyOf"@[0]);
        assert("AnnotationAssertion"@[0] != "ObjectPropertyRange"@[0]);

    } else if e == 85 {
        reveal_strlit("InverseObjectProperties");
        reveal_strlit("ReflexiveObjectProperty");
        reveal_strlit("SymmetricObjectProperty");
        reveal_strlit("ObjectPropertyAssertion");
        reveal_strlit("SubAnnotationPropertyOf");
        assert("SubAnnotationPropertyOf"@[0] != "InverseObjectProperties"@[0]);
        assert("SubAnnotationPropertyOf"@[0] != "ReflexiveObjectProperty"@[0]);
        assert("SubAnnotationPropertyOf"@[1] != "SymmetricObjectProperty"@[1]);
        assert("SubAnnotationPropertyOf"@[0] != "ObjectPropertyAssertion"@[0]);

    } else if e == 86 {
        reveal_strlit("ObjectPropertyExpression");
        reveal_strlit("DisjointObjectProperties");
        reveal_strlit("FunctionalObjectProperty");
        reveal_strlit("AsymmetricObjectProperty");
        reveal_strlit("TransitiveObjectProperty");
        reveal_strlit("EquivalentDataProperties");
        reveal_strlit("AnnotationPropertyDomain");
        assert("AnnotationPropertyDomain"@[0] != "ObjectPropertyExpression"@[0]);
        assert("AnnotationPropertyDomain"@[0] != "DisjointObjectProperties"@[0]);
        assert("AnnotationPropertyDomain"@[0] != "FunctionalObjectProperty"@[0]);
        assert("AnnotationPropertyDomain"@[1] != "AsymmetricObjectProperty"@[1]);
        assert("AnnotationPropertyDomain"@[0] != "TransitiveObjectProperty"@[0]);
        assert("AnnotationPropertyDomain"@[0] != "EquivalentDataProperties"@[0]);

    } else if e == 87 {
        reveal_strlit("InverseObjectProperties");
        reveal_strlit("ReflexiveObjectProperty");
        reveal_strlit("SymmetricObjectProperty");
        reveal_strlit("ObjectPropertyAssertion");
        reveal_strlit("SubAnnotationPropertyOf");
        reveal_strlit("AnnotationPropertyRange");
        assert("AnnotationPropertyRange"@[0] != "InverseObjectProperties"@[0]);
        assert("AnnotationPropertyRange"@[0] != "ReflexiveObjectProperty"@[0]);
        assert("AnnotationPropertyRange"@[0] != "SymmetricObjectProperty"@[0]);
        assert("AnnotationPropertyRange"@[0] != "ObjectPropertyAssertion"@[0]);
        assert("AnnotationPropertyRange"@[0] != "SubAnnotationPropertyOf"@[0]);

    } else if e == 88 {
        reveal_strlit("Class");
        reveal_strlit("Axiom");
        assert("Axiom"@[0] != "Class"@[0]);

    } else if e == 89 {
        reveal_strlit("ObjectProperty");
        reveal_strlit("ObjectHasValue");
        reveal_strlit("SameIndividual");
        reveal_strlit("ClassAssertion");
        reveal_strlit("AnnotatedAxiom");
        assert("AnnotatedAxiom"@[0] != "ObjectProperty"@[0]);
        assert("AnnotatedAxiom"@[0] != "ObjectHasValue"@[0]);
        assert("AnnotatedAxiom"@[0] != "SameIndividual"@[0]);
        assert("AnnotatedAxiom"@[0] != "ClassAssertion"@[0]);

    }
}

proof fn lemma_entry_0(r: &Schema)
    requires
        r.len() == 90,
        r.shape(0)@ == owl_shape(0),
    ensures
        r.entity_ok(0),
{
    let sh = r.shape(0);
    lemma_shape_view(sh);
    assert forall|i: int| 0 <= i < field_count(sh) implies r.ty_ok(#[trigger] field_ty(sh, i)) by {
        
    }
    assert forall|i: int, j: int| 0 <= i < j < field_count(sh) implies field_name(sh, i) != field_name(sh, j) by {
        
        
    }
    assert forall|i: int| 0 <= i < variants(sh).len() implies r.ty_ok(#[trigger] variants(sh)[i]) && rank(
        variants(sh)[i],
    ) <= 3 * 0 by {
        
    }
}

proof fn lemma_entry_1(r: &Schema)
    requires
        r.len() == 90,
        r.shape(1)@ == owl_shape(1),
    ensures
        r.entity_ok(1),
{
    let sh = r.shape(1);
    lemma_shape_view(sh);
    assert forall|i: int| 0 <= i < field_count(sh) implies r.ty_ok(#[trigger] field_ty(sh, i)) by {
        
    }
    assert forall|i: int, j: int| 0 <= i < j < field_count(sh) implies field_name(sh, i) != field_name(sh, j) by {
        
        
    }
    assert forall|i: int| 0 <= i < variants(sh).len() implies r.ty_ok(#[trigger] variants(sh)[i]) && rank(
        variants(sh)[i],
    ) <= 3 * 1 by {
        
    }
}

proof fn lemma_entry_2(r: &Schema)
    requires
        r.len() == 90,
        r.shape(2)@ == owl_shape(2),
    ensures
        r.entity_ok(2),
{
    let sh = r.shape(2);
    lemma_shape_view(sh);
    assert forall|i: int| 0 <= i < field_count(sh) implies r.ty_ok(#[trigger] field_ty(sh, i)) by {
        
    }
    assert forall|i: int, j: int| 0 <= i < j < field_count(sh) implies field_name(sh, i) != field_name(sh, j) by {
        
        
    }
    assert forall|i: int| 0 <= i < variants(sh).len() implies r.ty_ok(#[trigger] variants(sh)[i]) && rank(
        variants(sh)[i],
    ) <= 3 * 2 by {
        
    }
}

proof fn lemma_entry_3(r: &Schema)
    requires
        r.len() == 90,
        r.shape(3)@ == owl_shape(3),
    ensures
        r.entity_ok(3),
{
    let sh = r.shape(3);
    lemma_shape_view(sh);
    assert forall|i: int| 0 <= i < field_count(sh) implies r.ty_ok(#[trigger] field_ty(sh, i)) by {
        
    }
    assert forall|i: int, j: int| 0 <= i < j < field_count(sh) implies field_name(sh, i) != field_name(sh, j) by {
        
        
    }
    assert forall|i: int| 0 <= i < variants(sh).len() implies r.ty_ok(#[trigger] variants(sh)[i]) && rank(
        variants(sh)[i],
    ) <= 3 * 3 by {
        
    }
}

proof fn lemma_entry_4(r: &Schema)
    requires
        r.len() == 90,
        r.shape(4)@ == owl_shape(4),
    ensures
        r.entity_ok(4),
{
    let sh = r.shape(4);
    lemma_shape_view(sh);
    assert forall|i: int| 0 <= i < field_count(sh) implies r.ty_ok(#[trigger] field_ty(sh, i)) by {
        
    }
    assert forall|i: int, j: int| 0 <= i < j < field_count(sh) implies field_name(sh, i) != field_name(sh, j) by {
        
        
    }
    assert forall|i: int| 0 <= i < variants(sh).len() implies r.ty_ok(#[trigger] variants(sh)[i]) && rank(
        variants(sh)[i],
    ) <= 3 * 4 by {
        
    }
}

proof fn lemma_entry_5(r: &Schema)
    requires
        r.len() == 90,
        r.shape(5)@ == owl_shape(5),
    ensures
        r.entity_ok(5),
{
    let sh = r.shape(5);
    lemma_shape_view(sh);
    assert forall|i: int| 0 <= i < field_count(sh) implies r.ty_ok(#[trigger] field_ty(sh, i)) by {
        
    }
    assert forall|i: int, j: int| 0 <= i < j < field_count(sh) implies field_name(sh, i) != field_name(sh, j) by {
        
        
    }
    assert forall|i: int| 0 <= i < variants(sh).len() implies r.ty_ok(#[trigger] variants(sh)[i]) && rank(
        variants(sh)[i],
    ) <= 3 * 5 by {
        
    }
}

proof fn lemma_entry_6(r: &Schema)
    requires
        r.len() == 90,
        r.shape(6)@ == owl_shape(6),
    ensures
        r.entity_ok(6),
{
    let sh = r.shape(6);
    lemma_shape_view(sh);
    assert forall|i: int| 0 <= i < field_count(sh) implies r.ty_ok(#[trigger] field_ty(sh, i)) by {
        
    }
    assert forall|i: int, j: int| 0 <= i < j < field_count(sh) implies field_name(sh, i) != field_name(sh, j) by {
        
        
    }
    assert forall|i: int| 0 <= i < variants(sh).len() implies r.ty_ok(#[trigger] variants(sh)[i]) && rank(
        variants(sh)[i],
    ) <= 3 * 6 by {
        
    }
}

proof fn lemma_entry_7(r: &Schema)
    requires
        r.len() == 90,
        r.shape(7)@ == owl_shape(7),
    ensures
        r.entity_ok(7),
{
    let sh = r.shape(7);
    lemma_shape_view(sh);
    assert forall|i: int| 0 <= i < field_count(sh) implies r.ty_ok(#[trigger] field_ty(sh, i)) by {
        
    }
    assert forall|i: int, j: int| 0 <= i < j < field_count(sh) implies field_name(sh, i) != field_name(sh, j) by {
        
        
    }
    assert forall|i: int| 0 <= i < variants(sh).len() implies r.ty_ok(#[trigger] variants(sh)[i]) && rank(
        variants(sh)[i],
    ) <= 3 * 7 by {
        if i == 0 {} else {}
    }
}

proof fn lemma_entry_8(r: &Schema)
    requires
        r.len() == 90,
        r.shape(8)@ == owl_shape(8),
    ensures
        r.entity_ok(8),
{
    let sh = r.shape(8);
    lemma_shape_view(sh);
    assert forall|i: int| 0 <= i < field_count(sh) implies r.ty_ok(#[trigger] field_ty(sh, i)) by {
        
    }
    assert forall|i: int, j: int| 0 <= i < j < field_count(sh) implies field_name(sh, i) != field_name(sh, j) by {
        
        
    }
    assert forall|i: int| 0 <= i < variants(sh).len() implies r.ty_ok(#[trigger] variants(sh)[i]) && rank(
        variants(sh)[i],
    ) <= 3 * 8 by {
        
    }
}

proof fn lemma_entry_9(r: &Schema)
    requires
        r.len() == 90,
        r.shape(9)@ == owl_shape(9),
    ensures
        r.entity_ok(9),
{
    let sh = r.shape(9);
    lemma_shape_view(sh);
    assert forall|i: int| 0 <= i < field_count(sh) implies r.ty_ok(#[trigger] field_ty(sh, i)) by {
        
    }
    assert forall|i: int, j: int| 0 <= i < j < field_count(sh) implies field_name(sh, i) != field_name(sh, j) by {
        
        
    }
    assert forall|i: int| 0 <= i < variants(sh).len() implies r.ty_ok(#[trigger] variants(sh)[i]) && rank(
        variants(sh)[i],
    ) <= 3 * 9 by {
        if i == 0 {} else {}
    }
}

proof fn lemma_entry_10(r: &Schema)
    requires
        r.len() == 90,
        r.shape(10)@ == owl_shape(10),
    ensures
        r.entity_ok(10),
{
    let sh = r.shape(10);
    lemma_shape_view(sh);
    reveal_strlit("literal");
    assert forall|i: int| 0 <= i < field_count(sh) implies r.ty_ok(#[trigger] field_ty(sh, i)) by {
        
    }
    assert forall|i: int, j: int| 0 <= i < j < field_count(sh) implies field_name(sh, i) != field_name(sh, j) by {
        
        
    }
    assert forall|i: int| 0 <= i < variants(sh).len() implies r.ty_ok(#[trigger] variants(sh)[i]) && rank(
        variants(sh)[i],
    ) <= 3 * 10 by {
        
    }
}

proof fn lemma_entry_11(r: &Schema)
    requires
        r.len() == 90,
        r.shape(11)@ == owl_shape(11),
    ensures
        r.entity_ok(11),
{
    let sh = r.shape(11);
    lemma_shape_view(sh);
    reveal_strlit("lang");
    reveal_strlit("literal");
    assert forall|i: int| 0 <= i < field_count(sh) implies r.ty_ok(#[trigger] field_ty(sh, i)) by {
        if i == 0 {} else {}
    }
    assert forall|i: int, j: int| 0 <= i < j < field_count(sh) implies field_name(sh, i) != field_name(sh, j) by {
        if i == 0 && j == 1 {
            assert("literal"@.len() != "lang"@.len());
        }
        if i == 0 {} else {}
        if j == 0 {} else {}
    }
    assert forall|i: int| 0 <= i < variants(sh).len() implies r.ty_ok(#[trigger] variants(sh)[i]) && rank(
        variants(sh)[i],
    ) <= 3 * 11 by {
        
    }
}

proof fn lemma_entry_12(r: &Schema)
    requires
        r.len() == 90,
        r.shape(12)@ == owl_shape(12),
    ensures
        r.entity_ok(12),
{
    let sh = r.shape(12);
    lemma_shape_view(sh);
    reveal_strlit("datatype_iri");
    reveal_strlit("literal");
    assert forall|i: int| 0 <= i < field_count(sh) implies r.ty_ok(#[trigger] field_ty(sh, i)) by {
        if i == 0 {} else {}
    }
    assert forall|i: int, j: int| 0 <= i < j < field_count(sh) implies field_name(sh, i) != field_name(sh, j) by {
        if i == 0 && j == 1 {
            assert("literal"@.len() != "datatype_iri"@.len());
        }
        if i == 0 {} else {}
        if j == 0 {} else {}
    }
    assert forall|i: int| 0 <= i < variants(sh).len() implies r.ty_ok(#[trigger] variants(sh)[i]) && rank(
        variants(sh)[i],
    ) <= 3 * 12 by {
    }
}

proof fn lemma_entry_13(r: &Schema)
    requires
        r.len() == 90,
        r.shape(13)@ == owl_shape(13),
    ensures
        r.entity_ok(13),
{
    let sh = r.shape(13);
    lemma_shape_view(sh);
    assert forall|i: int| 0 <= i < field_count(sh) implies r.ty_ok(#[trigger] field_ty(sh, i)) by {
        
    }
    assert forall|i: int, j: int| 0 <= i < j < field_count(sh) implies field_name(sh, i) != field_name(sh, j) by {
        
        
    }
    assert forall|i: int| 0 <= i < variants(sh).len() implies r.ty_ok(#[trigger] variants(sh)[i]) && rank(
        variants(sh)[i],
    ) <= 3 * 13 by {
        if i == 0 {} else if i == 1 {} else {}
    }
}

proof fn lemma_entry_14(r: &Schema)
    requires
        r.len() == 90,
        r.shape(14)@ == owl_shape(14),
    ensures
        r.entity_ok(14),
{
    let sh = r.shape(14);
    lemma_shape_view(sh);
    reveal_strlit("f");
    reveal_strlit("l");
    assert forall|i: int| 0 <= i < field_count(sh) implies r.ty_ok(#[trigger] field_ty(sh, i)) by {
        if i == 0 {} else {}
    }
    assert forall|i: int, j: int| 0 <= i < j < field_count(sh) implies field_name(sh, i) != field_name(sh, j) by {
        if i == 0 && j == 1 {
            assert("f"@[0] != "l"@[0]);
        }
        if i == 0 {} else {}
        if j == 0 {} else {}
    }
    assert forall|i: int| 0 <= i < variants(sh).len() implies r.ty_ok(#[trigger] variants(sh)[i]) && rank(
        variants(sh)[i],
    ) <= 3 * 14 by {
    }
}

proof fn lemma_entry_15(r: &Schema)
    requires
        r.len() == 90,
        r.shape(15)@ == owl_shape(15),
    ensures
        r.entity_ok(15),
{
    let sh = r.shape(15);
    lemma_shape_view(sh);
    assert forall|i: int| 0 <= i < field_count(sh) implies r.ty_ok(#[trigger] field_ty(sh, i)) by {
        
    }
    assert forall|i: int, j: int| 0 <= i < j < field_count(sh) implies field_name(sh, i) != field_name(sh, j) by {
        
        
    }
    assert forall|i: int| 0 <= i < variants(sh).len() implies r.ty_ok(#[trigger] variants(sh)[i]) && rank(
        variants(sh)[i],
    ) <= 3 * 15 by {
        
    }
}

proof fn lemma_entry_16(r: &Schema)
    requires
        r.len() == 90,
        r.shape(16)@ == owl_shape(16),
    ensures
        r.entity_ok(16),
{
    let sh = r.shape(16);
    lemma_shape_view(sh);
    assert forall|i: int| 0 <= i < field_count(sh) implies r.ty_ok(#[trigger] field_ty(sh, i)) by {
        
    }
    assert forall|i: int, j: int| 0 <= i < j < field_count(sh) implies field_name(sh, i) != field_name(sh, j) by {
        
        
    }
    assert forall|i: int| 0 <= i < variants(sh).len() implies r.ty_ok(#[trigger] variants(sh)[i]) && rank(
        variants(sh)[i],
    ) <= 3 * 16 by {
        
    }
}

proof fn lemma_entry_17(r: &Schema)
    requires
        r.len() == 90,
        r.shape(17)@ == owl_shape(17),
    ensures
        r.entity_ok(17),
{
    let sh = r.shape(17);
    lemma_shape_view(sh);
    assert forall|i: int| 0 <= i < field_count(sh) implies r.ty_ok(#[trigger] field_ty(sh, i)) by {
        
    }
    assert forall|i: int, j: int| 0 <= i < j < field_count(sh) implies field_name(sh, i) != field_name(sh, j) by {
        
        
    }
    assert forall|i: int| 0 <= i < variants(sh).len() implies r.ty_ok(#[trigger] variants(sh)[i]) && rank(
        variants(sh)[i],
    ) <= 3 * 17 by {
        
    }
}

proof fn lemma_entry_18(r: &Schema)
    requires
        r.len() == 90,
        r.shape(18)@ == owl_shape(18),
    ensures
        r.entity_ok(18),
{
    let sh = r.shape(18);
    lemma_shape_view(sh);
    assert forall|i: int| 0 <= i < field_count(sh) implies r.ty_ok(#[trigger] field_ty(sh, i)) by {
        
    }
    assert forall|i: int, j: int| 0 <= i < j < field_count(sh) implies field_name(sh, i) != field_name(sh, j) by {
        
        
    }
    assert forall|i: int| 0 <= i < variants(sh).len() implies r.ty_ok(#[trigger] variants(sh)[i]) && rank(
        variants(sh)[i],
    ) <= 3 * 18 by {
        
    }
}

proof fn lemma_entry_19(r: &Schema)
    requires
        r.len() == 90,
        r.shape(19)@ == owl_shape(19),
    ensures
        r.entity_ok(19),
{
    let sh = r.shape(19);
    lemma_shape_view(sh);
    assert forall|i: int| 0 <= i < field_count(sh) implies r.ty_ok(#[trigger] field_ty(sh, i)) by {
        if i == 0 {} else {}
    }
    assert forall|i: int, j: int| 0 <= i < j < field_count(sh) implies field_name(sh, i) != field_name(sh, j) by {
        if i == 0 {} else {}
        if j == 0 {} else {}
    }
    assert forall|i: int| 0 <= i < variants(sh).len() implies r.ty_ok(#[trigger] variants(sh)[i]) && rank(
        variants(sh)[i],
    ) <= 3 * 19 by {
        
    }
}

proof fn lemma_entry_20(r: &Schema)
    requires
        r.len() == 90,
        r.shape(20)@ == owl_shape(20),
    ensures
        r.entity_ok(20),
{
    let sh = r.shape(20);
    lemma_shape_view(sh);
    assert forall|i: int| 0 <= i < field_count(sh) implies r.ty_ok(#[trigger] field_ty(sh, i)) by {
        
    }
    assert forall|i: int, j: int| 0 <= i < j < field_count(sh) implies field_name(sh, i) != field_name(sh, j) by {
        
        
    }
    assert forall|i: int| 0 <= i < variants(sh).len() implies r.ty_ok(#[trigger] variants(sh)[i]) && rank(
        variants(sh)[i],
    ) <= 3 * 20 by {
        if i == 0 {} else if i == 1 {} else if i == 2 {} else if i == 3 {} else if i == 4 {} else {}
    }
}

proof fn lemma_entry_21(r: &Schema)
    requires
        r.len() == 90,
        r.shape(21)@ == owl_shape(21),
    ensures
        r.entity_ok(21),
{
    let sh = r.shape(21);
    lemma_shape_view(sh);
    assert forall|i: int| 0 <= i < field_count(sh) implies r.ty_ok(#[trigger] field_ty(sh, i)) by {
        
    }
    assert forall|i: int, j: int| 0 <= i < j < field_count(sh) implies field_name(sh, i) != field_name(sh, j) by {
        
        
    }
    assert forall|i: int| 0 <= i < variants(sh).len() implies r.ty_ok(#[trigger] variants(sh)[i]) && rank(
        variants(sh)[i],
    ) <= 3 * 21 by {
        
    }
}

proof fn lemma_entry_22(r: &Schema)
    requires
        r.len() == 90,
        r.shape(22)@ == owl_shape(22),
    ensures
        r.entity_ok(22),
{
    let sh = r.shape(22);
    lemma_shape_view(sh);
    assert forall|i: int| 0 <= i < field_count(sh) implies r.ty_ok(#[trigger] field_ty(sh, i)) by {
        
    }
    assert forall|i: int, j: int| 0 <= i < j < field_count(sh) implies field_name(sh, i) != field_name(sh, j) by {
        
        
    }
    assert forall|i: int| 0 <= i < variants(sh).len() implies r.ty_ok(#[trigger] variants(sh)[i]) && rank(
        variants(sh)[i],
    ) <= 3 * 22 by {
        
    }
}

proof fn lemma_entry_23(r: &Schema)
    requires
        r.len() == 90,
        r.shape(23)@ == owl_shape(23),
    ensures
        r.entity_ok(23),
{
    let sh = r.shape(23);
    lemma_shape_view(sh);
    assert forall|i: int| 0 <= i < field_count(sh) implies r.ty_ok(#[trigger] field_ty(sh, i)) by {
        
    }
    assert forall|i: int, j: int| 0 <= i < j < field_count(sh) implies field_name(sh, i) != field_name(sh, j) by {
        
        
    }
    assert forall|i: int| 0 <= i < variants(sh).len() implies r.ty_ok(#[trigger] variants(sh)[i]) && rank(
        variants(sh)[i],
    ) <= 3 * 23 by {
        
    }
}

proof fn lemma_entry_24(r: &Schema)
    requires
        r.len() == 90,
        r.shape(24)@ == owl_shape(24),
    ensures
        r.entity_ok(24),
{
    let sh = r.shape(24);
    lemma_shape_view(sh);
    assert forall|i: int| 0 <= i < field_count(sh) implies r.ty_ok(#[trigger] field_ty(sh, i)) by {
        
    }
    assert forall|i: int, j: int| 0 <= i < j < field_count(sh) implies field_name(sh, i) != field_name(sh, j) by {
        
        
    }
    assert forall|i: int| 0 <= i < variants(sh).len() implies r.ty_ok(#[trigger] variants(sh)[i]) && rank(
        variants(sh)[i],
    ) <= 3 * 24 by {
        
    }
}

proof fn lemma_entry_25(r: &Schema)
    requires
        r.len() == 90,
        r.shape(25)@ == owl_shape(25),
    ensures
        r.entity_ok(25),
{
    let sh = r.shape(25);
    lemma_shape_view(sh);
    reveal_strlit("bce");
    reveal_strlit("ope");
    assert forall|i: int| 0 <= i < field_count(sh) implies r.ty_ok(#[trigger] field_ty(sh, i)) by {
        if i == 0 {} else {}
    }
    assert forall|i: int, j: int| 0 <= i < j < field_count(sh) implies field_name(sh, i) != field_name(sh, j) by {
        if i == 0 && j == 1 {
            assert("ope"@[0] != "bce"@[0]);
        }
        if i == 0 {} else {}
        if j == 0 {} else {}
    }
    assert forall|i: int| 0 <= i < variants(sh).len() implies r.ty_ok(#[trigger] variants(sh)[i]) && rank(
        variants(sh)[i],
    ) <= 3 * 25 by {
        
    }
}

proof fn lemma_entry_26(r: &Schema)
    requires
        r.len() == 90,
        r.shape(26)@ == owl_shape(26),
    ensures
        r.entity_ok(26),
{
    let sh = r.shape(26);
    lemma_shape_view(sh);
    reveal_strlit("bce");
    reveal_strlit("ope");
    assert forall|i: int| 0 <= i < field_count(sh) implies r.ty_ok(#[trigger] field_ty(sh, i)) by {
        if i == 0 {} else {}
    }
    assert forall|i: int, j: int| 0 <= i < j < field_count(sh) implies field_name(sh, i) != field_name(sh, j) by {
        if i == 0 && j == 1 {
            assert("ope"@[0] != "bce"@[0]);
        }
        if i == 0 {} else {}
        if j == 0 {} else {}
    }
    assert forall|i: int| 0 <= i < variants(sh).len() implies r.ty_ok(#[trigger] variants(sh)[i]) && rank(
        variants(sh)[i],
    ) <= 3 * 26 by {
        
    }
}

proof fn lemma_entry_27(r: &Schema)
    requires
        r.len() == 90,
        r.shape(27)@ == owl_shape(27),
    ensures
        r.entity_ok(27),
{
    let sh = r.shape(27);
    lemma_shape_view(sh);
    reveal_strlit("i");
    reveal_strlit("ope");
    assert forall|i: int| 0 <= i < field_count(sh) implies r.ty_ok(#[trigger] field_ty(sh, i)) by {
        if i == 0 {} else {}
    }
    assert forall|i: int, j: int| 0 <= i < j < field_count(sh) implies field_name(sh, i) != field_name(sh, j) by {
        if i == 0 && j == 1 {
            assert("ope"@.len() != "i"@.len());
        }
        if i == 0 {} else {}
        if j == 0 {} else {}
    }
    assert forall|i: int| 0 <= i < variants(sh).len() implies r.ty_ok(#[trigger] variants(sh)[i]) && rank(
        variants(sh)[i],
    ) <= 3 * 27 by {
        
    }
}

proof fn lemma_entry_28(r: &Schema)
    requires
        r.len() == 90,
        r.shape(28)@ == owl_shape(28),
    ensures
        r.entity_ok(28),
{
    let sh = r.shape(28);
    lemma_shape_view(sh);
    assert forall|i: int| 0 <= i < field_count(sh) implies r.ty_ok(#[trigger] field_ty(sh, i)) by {
        
    }
    assert forall|i: int, j: int| 0 <= i < j < field_count(sh) implies field_name(sh, i) != field_name(sh, j) by {
        
        
    }
    assert forall|i: int| 0 <= i < variants(sh).len() implies r.ty_ok(#[trigger] variants(sh)[i]) && rank(
        variants(sh)[i],
    ) <= 3 * 28 by {
        
    }
}

proof fn lemma_entry_29(r: &Schema)
    requires
        r.len() == 90,
        r.shape(29)@ == owl_shape(29),
    ensures
        r.entity_ok(29),
{
    let sh = r.shape(29);
    lemma_shape_view(sh);
    reveal_strlit("bce");
    reveal_strlit("n");
    reveal_strlit("ope");
    assert forall|i: int| 0 <= i < field_count(sh) implies r.ty_ok(#[trigger] field_ty(sh, i)) by {
        if i == 0 {} else if i == 1 {} else {}
    }
    assert forall|i: int, j: int| 0 <= i < j < field_count(sh) implies field_name(sh, i) != field_name(sh, j) by {
        if i == 0 && j == 1 {
            assert("n"@.len() != "ope"@.len());
        }
        if i == 0 && j == 2 {
            assert("n"@.len() != "bce"@.len());
        }
        if i == 1 && j == 2 {
            assert("ope"@[0] != "bce"@[0]);
        }
        if i == 0 {} else if i == 1 {} else {}
        if j == 0 {} else if j == 1 {} else {}
    }
    assert forall|i: int| 0 <= i < variants(sh).len() implies r.ty_ok(#[trigger] variants(sh)[i]) && rank(
        variants(sh)[i],
    ) <= 3 * 29 by {
        
    }
}

proof fn lemma_entry_30(r: &Schema)
    requires
        r.len() == 90,
        r.shape(30)@ == owl_shape(30),
    ensures
        r.entity_ok(30),
{
    let sh = r.shape(30);
    lemma_shape_view(sh);
    reveal_strlit("bce");
    reveal_strlit("n");
    reveal_strlit("ope");
    assert forall|i: int| 0 <= i < field_count(sh) implies r.ty_ok(#[trigger] field_ty(sh, i)) by {
        if i == 0 {} else if i == 1 {} else {}
    }
    assert forall|i: int, j: int| 0 <= i < j < field_count(sh) implies field_name(sh, i) != field_name(sh, j) by {
        if i == 0 && j == 1 {
            assert("n"@.len() != "ope"@.len());
        }
        if i == 0 && j == 2 {
            assert("n"@.len() != "bce"@.len());
        }
        if i == 1 && j == 2 {
            assert("ope"@[0] != "bce"@[0]);
        }
        if i == 0 {} else if i == 1 {} else {}
        if j == 0 {} else if j == 1 {} else {}
    }
    assert forall|i: int| 0 <= i < variants(sh).len() implies r.ty_ok(#[trigger] variants(sh)[i]) && rank(
        variants(sh)[i],
    ) <= 3 * 30 by {
        
    }
}

proof fn lemma_entry_31(r: &Schema)
    requires
        r.len() == 90,
        r.shape(31)@ == owl_shape(31),
    ensures
        r.entity_ok(31),
{
    let sh = r.shape(31);
    lemma_shape_view(sh);
    reveal_strlit("bce");
    reveal_strlit("n");
    reveal_strlit("ope");
    assert forall|i: int| 0 <= i < field_count(sh) implies r.ty_ok(#[trigger] field_ty(sh, i)) by {
        if i == 0 {} else if i == 1 {} else {}
    }
    assert forall|i: int, j: int| 0 <= i < j < field_count(sh) implies field_name(sh, i) != field_name(sh, j) by {
        if i == 0 && j == 1 {
            assert("n"@.len() != "ope"@.len());
        }
        if i == 0 && j == 2 {
            assert("n"@.len() != "bce"@.len());
        }
        if i == 1 && j == 2 {
            assert("ope"@[0] != "bce"@[0]);
        }
        if i == 0 {} else if i == 1 {} else {}
        if j == 0 {} else if j == 1 {} else {}
    }
    assert forall|i: int| 0 <= i < variants(sh).len() implies r.ty_ok(#[trigger] variants(sh)[i]) && rank(
        variants(sh)[i],
    ) <= 3 * 31 by {
        
    }
}

proof fn lemma_entry_32(r: &Schema)
    requires
        r.len() == 90,
        r.shape(32)@ == owl_shape(32),
    ensures
        r.entity_ok(32),
{
    let sh = r.shape(32);
    lemma_shape_view(sh);
    reveal_strlit("dp");
    reveal_strlit("dr");
    assert forall|i: int| 0 <= i < field_count(sh) implies r.ty_ok(#[trigger] field_ty(sh, i)) by {
        if i == 0 {} else {}
    }
    assert forall|i: int, j: int| 0 <= i < j < field_count(sh) implies field_name(sh, i) != field_name(sh, j) by {
        if i == 0 && j == 1 {
            assert("dp"@[1] != "dr"@[1]);
        }
        if i == 0 {} else {}
        if j == 0 {} else {}
    }
    assert forall|i: int| 0 <= i < variants(sh).len() implies r.ty_ok(#[trigger] variants(sh)[i]) && rank(
        variants(sh)[i],
    ) <= 3 * 32 by {
        
    }
}

proof fn lemma_entry_33(r: &Schema)
    requires
        r.len() == 90,
        r.shape(33)@ == owl_shape(33),
    ensures
        r.entity_ok(33),
{
    let sh = r.shape(33);
    lemma_shape_view(sh);
    reveal_strlit("dp");
    reveal_strlit("dr");
    assert forall|i: int| 0 <= i < field_count(sh) implies r.ty_ok(#[trigger] field_ty(sh, i)) by {
        if i == 0 {} else {}
    }
    assert forall|i: int, j: int| 0 <= i < j < field_count(sh) implies field_name(sh, i) != field_name(sh, j) by {
        if i == 0 && j == 1 {
            assert("dp"@[1] != "dr"@[1]);
        }
        if i == 0 {} else {}
        if j == 0 {} else {}
    }
    assert forall|i: int| 0 <= i < variants(sh).len() implies r.ty_ok(#[trigger] variants(sh)[i]) && rank(
        variants(sh)[i],
    ) <= 3 * 33 by {
        
    }
}

proof fn lemma_entry_34(r: &Schema)
    requires
        r.len() == 90,
        r.shape(34)@ == owl_shape(34),
    ensures
        r.entity_ok(34),
{
    let sh = r.shape(34);
    lemma_shape_view(sh);
    reveal_strlit("dp");
    reveal_strlit("l");
    assert forall|i: int| 0 <= i < field_count(sh) implies r.ty_ok(#[trigger] field_ty(sh, i)) by {
        if i == 0 {} else {}
    }
    assert forall|i: int, j: int| 0 <= i < j < field_count(sh) implies field_name(sh, i) != field_name(sh, j) by {
        if i == 0 && j == 1 {
            assert("dp"@.len() != "l"@.len());
        }
        if i == 0 {} else {}
        if j == 0 {} else {}
    }
    assert forall|i: int| 0 <= i < variants(sh).len() implies r.ty_ok(#[trigger] variants(sh)[i]) && rank(
        variants(sh)[i],
    ) <= 3 * 34 by {
        
    }
}

proof fn lemma_entry_35(r: &Schema)
    requires
        r.len() == 90,
        r.shape(35)@ == owl_shape(35),
    ensures
        r.entity_ok(35),
{
    let sh = r.shape(35);
    lemma_shape_view(sh);
    reveal_strlit("dp");
    reveal_strlit("dr");
    reveal_strlit("n");
    assert forall|i: int| 0 <= i < field_count(sh) implies r.ty_ok(#[trigger] field_ty(sh, i)) by {
        if i == 0 {} else if i == 1 {} else {}
    }
    assert forall|i: int, j: int| 0 <= i < j < field_count(sh) implies field_name(sh, i) != field_name(sh, j) by {
        if i == 0 && j == 1 {
            assert("n"@.len() != "dp"@.len());
        }
        if i == 0 && j == 2 {
            assert("n"@.len() != "dr"@.len());
        }
        if i == 1 && j == 2 {
            assert("dp"@[1] != "dr"@[1]);
        }
        if i == 0 {} else if i == 1 {} else {}
        if j == 0 {} else if j == 1 {} else {}
    }
    assert forall|i: int| 0 <= i < variants(sh).len() implies r.ty_ok(#[trigger] variants(sh)[i]) && rank(
        variants(sh)[i],
    ) <= 3 * 35 by {
        
    }
}

proof fn lemma_entry_36(r: &Schema)
    requires
        r.len() == 90,
        r.shape(36)@ == owl_shape(36),
    ensures
        r.entity_ok(36),
{
    let sh = r.shape(36);
    lemma_shape_view(sh);
    reveal_strlit("dp");
    reveal_strlit("dr");
    reveal_strlit("n");
    assert forall|i: int| 0 <= i < field_count(sh) implies r.ty_ok(#[trigger] field_ty(sh, i)) by {
        if i == 0 {} else if i == 1 {} else {}
    }
    assert forall|i: int, j: int| 0 <= i < j < field_count(sh) implies field_name(sh, i) != field_name(sh, j) by {
        if i == 0 && j == 1 {
            assert("n"@.len() != "dp"@.len());
        }
        if i == 0 && j == 2 {
            assert("n"@.len() != "dr"@.len());
        }
        if i == 1 && j == 2 {
            assert("dp"@[1] != "dr"@[1]);
        }
        if i == 0 {} else if i == 1 {} else {}
        if j == 0 {} else if j == 1 {} else {}
    }
    assert forall|i: int| 0 <= i < variants(sh).len() implies r.ty_ok(#[trigger] variants(sh)[i]) && rank(
        variants(sh)[i],
    ) <= 3 * 36 by {
        
    }
}

proof fn lemma_entry_37(r: &Schema)
    requires
        r.len() == 90,
        r.shape(37)@ == owl_shape(37),
    ensures
        r.entity_ok(37),
{
    let sh = r.shape(37);
    lemma_shape_view(sh);
    reveal_strlit("dp");
    reveal_strlit("dr");
    reveal_strlit("n");
    assert forall|i: int| 0 <= i < field_count(sh) implies r.ty_ok(#[trigger] field_ty(sh, i)) by {
        if i == 0 {} else if i == 1 {} else {}
    }
    assert forall|i: int, j: int| 0 <= i < j < field_count(sh) implies field_name(sh, i) != field_name(sh, j) by {
        if i == 0 && j == 1 {
            assert("n"@.len() != "dp"@.len());
        }
        if i == 0 && j == 2 {
            assert("n"@.len() != "dr"@.len());
        }
        if i == 1 && j == 2 {
            assert("dp"@[1] != "dr"@[1]);
        }
        if i == 0 {} else if i == 1 {} else {}
        if j == 0 {} else if j == 1 {} else {}
    }
    assert forall|i: int| 0 <= i < variants(sh).len() implies r.ty_ok(#[trigger] variants(sh)[i]) && rank(
        variants(sh)[i],
    ) <= 3 * 37 by {
        
    }
}

proof fn lemma_entry_38(r: &Schema)
    requires
        r.len() == 90,
        r.shape(38)@ == owl_shape(38),
    ensures
        r.entity_ok(38),
{
    let sh = r.shape(38);
    lemma_shape_view(sh);
    assert forall|i: int| 0 <= i < field_count(sh) implies r.ty_ok(#[trigger] field_ty(sh, i)) by {
        
    }
    assert forall|i: int, j: int| 0 <= i < j < field_count(sh) implies field_name(sh, i) != field_name(sh, j) by {
        
        
    }
    assert forall|i: int| 0 <= i < variants(sh).len() implies r.ty_ok(#[trigger] variants(sh)[i]) && rank(
        variants(sh)[i],
    ) <= 3 * 38 by {
        if i == 0 {} else if i == 1 {} else if i == 2 {} else if i == 3 {} else if i == 4 {} else if i == 5 {} else if i == 6 {} else if i == 7 {} else if i == 8 {} else if i == 9 {} else if i == 10 {} else if i == 11 {} else if i == 12 {} else if i == 13 {} else if i == 14 {} else if i == 15 {} else if i == 16 {} else {}
    }
}

proof fn lemma_entry_39(r: &Schema)
    requires
        r.len() == 90,
        r.shape(39)@ == owl_shape(39),
    ensures
        r.entity_ok(39),
{
    let sh = r.shape(39);
    lemma_shape_view(sh);
    assert forall|i: int| 0 <= i < field_count(sh) implies r.ty_ok(#[trigger] field_ty(sh, i)) by {
        
    }
    assert forall|i: int, j: int| 0 <= i < j < field_count(sh) implies field_name(sh, i) != field_name(sh, j) by {
        
        
    }
    assert forall|i: int| 0 <= i < variants(sh).len() implies r.ty_ok(#[trigger] variants(sh)[i]) && rank(
        variants(sh)[i],
    ) <= 3 * 39 by {
        if i == 0 {} else if i == 1 {} else {}
    }
}

proof fn lemma_entry_40(r: &Schema)
    requires
        r.len() == 90,
        r.shape(40)@ == owl_shape(40),
    ensures
        r.entity_ok(40),
{
    let sh = r.shape(40);
    lemma_shape_view(sh);
    assert forall|i: int| 0 <= i < field_count(sh) implies r.ty_ok(#[trigger] field_ty(sh, i)) by {
        
    }
    assert forall|i: int, j: int| 0 <= i < j < field_count(sh) implies field_name(sh, i) != field_name(sh, j) by {
        
        
    }
    assert forall|i: int| 0 <= i < variants(sh).len() implies r.ty_ok(#[trigger] variants(sh)[i]) && rank(
        variants(sh)[i],
    ) <= 3 * 40 by {
        if i == 0 {} else {}
    }
}

proof fn lemma_entry_41(r: &Schema)
    requires
        r.len() == 90,
        r.shape(41)@ == owl_shape(41),
    ensures
        r.entity_ok(41),
{
    let sh = r.shape(41);
    lemma_shape_view(sh);
    assert forall|i: int| 0 <= i < field_count(sh) implies r.ty_ok(#[trigger] field_ty(sh, i)) by {
        
    }
    assert forall|i: int, j: int| 0 <= i < j < field_count(sh) implies field_name(sh, i) != field_name(sh, j) by {
        
        
    }
    assert forall|i: int| 0 <= i < variants(sh).len() implies r.ty_ok(#[trigger] variants(sh)[i]) && rank(
        variants(sh)[i],
    ) <= 3 * 41 by {
        if i == 0 {} else {}
    }
}

proof fn lemma_entry_42(r: &Schema)
    requires
        r.len() == 90,
        r.shape(42)@ == owl_shape(42),
    ensures
        r.entity_ok(42),
{
    let sh = r.shape(42);
    lemma_shape_view(sh);
    reveal_strlit("ap");
    reveal_strlit("av");
    assert forall|i: int| 0 <= i < field_count(sh) implies r.ty_ok(#[trigger] field_ty(sh, i)) by {
        if i == 0 {} else {}
    }
    assert forall|i: int, j: int| 0 <= i < j < field_count(sh) implies field_name(sh, i) != field_name(sh, j) by {
        if i == 0 && j == 1 {
            assert("ap"@[1] != "av"@[1]);
        }
        if i == 0 {} else {}
        if j == 0 {} else {}
    }
    assert forall|i: int| 0 <= i < variants(sh).len() implies r.ty_ok(#[trigger] variants(sh)[i]) && rank(
        variants(sh)[i],
    ) <= 3 * 42 by {
        
    }
}

proof fn lemma_entry_43(r: &Schema)
    requires
        r.len() == 90,
        r.shape(43)@ == owl_shape(43),
    ensures
        r.entity_ok(43),
{
    let sh = r.shape(43);
    lemma_shape_view(sh);
    assert forall|i: int| 0 <= i < field_count(sh) implies r.ty_ok(#[trigger] field_ty(sh, i)) by {
        
    }
    assert forall|i: int, j: int| 0 <= i < j < field_count(sh) implies field_name(sh, i) != field_name(sh, j) by {
        
        
    }
    assert forall|i: int| 0 <= i < variants(sh).len() implies r.ty_ok(#[trigger] variants(sh)[i]) && rank(
        variants(sh)[i],
    ) <= 3 * 43 by {
        
    }
}

proof fn lemma_entry_44(r: &Schema)
    requires
        r.len() == 90,
        r.shape(44)@ == owl_shape(44),
    ensures
        r.entity_ok(44),
{
    let sh = r.shape(44);
    lemma_shape_view(sh);
    assert forall|i: int| 0 <= i < field_count(sh) implies r.ty_ok(#[trigger] field_ty(sh, i)) by {
        
    }
    assert forall|i: int, j: int| 0 <= i < j < field_count(sh) implies field_name(sh, i) != field_name(sh, j) by {
        
        
    }
    assert forall|i: int| 0 <= i < variants(sh).len() implies r.ty_ok(#[trigger] variants(sh)[i]) && rank(
        variants(sh)[i],
    ) <= 3 * 44 by {
        
    }
}

proof fn lemma_entry_45(r: &Schema)
    requires
        r.len() == 90,
        r.shape(45)@ == owl_shape(45),
    ensures
        r.entity_ok(45),
{
    let sh = r.shape(45);
    lemma_shape_view(sh);
    assert forall|i: int| 0 <= i < field_count(sh) implies r.ty_ok(#[trigger] field_ty(sh, i)) by {
        
    }
    assert forall|i: int, j: int| 0 <= i < j < field_count(sh) implies field_name(sh, i) != field_name(sh, j) by {
        
        
    }
    assert forall|i: int| 0 <= i < variants(sh).len() implies r.ty_ok(#[trigger] variants(sh)[i]) && rank(
        variants(sh)[i],
    ) <= 3 * 45 by {
        
    }
}

proof fn lemma_entry_46(r: &Schema)
    requires
        r.len() == 90,
        r.shape(46)@ == owl_shape(46),
    ensures
        r.entity_ok(46),
{
    let sh = r.shape(46);
    lemma_shape_view(sh);
    assert forall|i: int| 0 <= i < field_count(sh) implies r.ty_ok(#[trigger] field_ty(sh, i)) by {
        
    }
    assert forall|i: int, j: int| 0 <= i < j < field_count(sh) implies field_name(sh, i) != field_name(sh, j) by {
        
        
    }
    assert forall|i: int| 0 <= i < variants(sh).len() implies r.ty_ok(#[trigger] variants(sh)[i]) && rank(
        variants(sh)[i],
    ) <= 3 * 46 by {
        
    }
}

proof fn lemma_entry_47(r: &Schema)
    requires
        r.len() == 90,
        r.shape(47)@ == owl_shape(47),
    ensures
        r.entity_ok(47),
{
    let sh = r.shape(47);
    lemma_shape_view(sh);
    assert forall|i: int| 0 <= i < field_count(sh) implies r.ty_ok(#[trigger] field_ty(sh, i)) by {
        
    }
    assert forall|i: int, j: int| 0 <= i < j < field_count(sh) implies field_name(sh, i) != field_name(sh, j) by {
        
        
    }
    assert forall|i: int| 0 <= i < variants(sh).len() implies r.ty_ok(#[trigger] variants(sh)[i]) && rank(
        variants(sh)[i],
    ) <= 3 * 47 by {
        
    }
}

proof fn lemma_entry_48(r: &Schema)
    requires
        r.len() == 90,
        r.shape(48)@ == owl_shape(48),
    ensures
        r.entity_ok(48),
{
    let sh = r.shape(48);
    lemma_shape_view(sh);
    assert forall|i: int| 0 <= i < field_count(sh) implies r.ty_ok(#[trigger] field_ty(sh, i)) by {
        
    }
    assert forall|i: int, j: int| 0 <= i < j < field_count(sh) implies field_name(sh, i) != field_name(sh, j) by {
        
        
    }
    assert forall|i: int| 0 <= i < variants(sh).len() implies r.ty_ok(#[trigger] variants(sh)[i]) && rank(
        variants(sh)[i],
    ) <= 3 * 48 by {
        
    }
}

proof fn lemma_entry_49(r: &Schema)
    requires
        r.len() == 90,
        r.shape(49)@ == owl_shape(49),
    ensures
        r.entity_ok(49),
{
    let sh = r.shape(49);
    lemma_shape_view(sh);
    assert forall|i: int| 0 <= i < field_count(sh) implies r.ty_ok(#[trigger] field_ty(sh, i)) by {
        
    }
    assert forall|i: int, j: int| 0 <= i < j < field_count(sh) implies field_name(sh, i) != field_name(sh, j) by {
        
        
    }
    assert forall|i: int| 0 <= i < variants(sh).len() implies r.ty_ok(#[trigger] variants(sh)[i]) && rank(
        variants(sh)[i],
    ) <= 3 * 49 by {
        
    }
}

proof fn lemma_entry_50(r: &Schema)
    requires
        r.len() == 90,
        r.shape(50)@ == owl_shape(50),
    ensures
        r.entity_ok(50),
{
    let sh = r.shape(50);
    lemma_shape_view(sh);
    assert forall|i: int| 0 <= i < field_count(sh) implies r.ty_ok(#[trigger] field_ty(sh, i)) by {
        
    }
    assert forall|i: int, j: int| 0 <= i < j < field_count(sh) implies field_name(sh, i) != field_name(sh, j) by {
        
        
    }
    assert forall|i: int| 0 <= i < variants(sh).len() implies r.ty_ok(#[trigger] variants(sh)[i]) && rank(
        variants(sh)[i],
    ) <= 3 * 50 by {
        
    }
}

proof fn lemma_entry_51(r: &Schema)
    requires
        r.len() == 90,
        r.shape(51)@ == owl_shape(51),
    ensures
        r.entity_ok(51),
{
    let sh = r.shape(51);
    lemma_shape_view(sh);
    reveal_strlit("sub");
    reveal_strlit("sup");
    assert forall|i: int| 0 <= i < field_count(sh) implies r.ty_ok(#[trigger] field_ty(sh, i)) by {
        if i == 0 {} else {}
    }
    assert forall|i: int, j: int| 0 <= i < j < field_count(sh) implies field_name(sh, i) != field_name(sh, j) by {
        if i == 0 && j == 1 {
            assert("sup"@[2] != "sub"@[2]);
        }
        if i == 0 {} else {}
        if j == 0 {} else {}
    }
    assert forall|i: int| 0 <= i < variants(sh).len() implies r.ty_ok(#[trigger] variants(sh)[i]) && rank(
        variants(sh)[i],
    ) <= 3 * 51 by {
        
    }
}

proof fn lemma_entry_52(r: &Schema)
    requires
        r.len() == 90,
        r.shape(52)@ == owl_shape(52),
    ensures
        r.entity_ok(52),
{
    let sh = r.shape(52);
    lemma_shape_view(sh);
    assert forall|i: int| 0 <= i < field_count(sh) implies r.ty_ok(#[trigger] field_ty(sh, i)) by {
        
    }
    assert forall|i: int, j: int| 0 <= i < j < field_count(sh) implies field_name(sh, i) != field_name(sh, j) by {
        
        
    }
    assert forall|i: int| 0 <= i < variants(sh).len() implies r.ty_ok(#[trigger] variants(sh)[i]) && rank(
        variants(sh)[i],
    ) <= 3 * 52 by {
        
    }
}

proof fn lemma_entry_53(r: &Schema)
    requires
        r.len() == 90,
        r.shape(53)@ == owl_shape(53),
    ensures
        r.entity_ok(53),
{
    let sh = r.shape(53);
    lemma_shape_view(sh);
    assert forall|i: int| 0 <= i < field_count(sh) implies r.ty_ok(#[trigger] field_ty(sh, i)) by {
        
    }
    assert forall|i: int, j: int| 0 <= i < j < field_count(sh) implies field_name(sh, i) != field_name(sh, j) by {
        
        
    }
    assert forall|i: int| 0 <= i < variants(sh).len() implies r.ty_ok(#[trigger] variants(sh)[i]) && rank(
        variants(sh)[i],
    ) <= 3 * 53 by {
        
    }
}

proof fn lemma_entry_54(r: &Schema)
    requires
        r.len() == 90,
        r.shape(54)@ == owl_shape(54),
    ensures
        r.entity_ok(54),
{
    let sh = r.shape(54);
    lemma_shape_view(sh);
    assert forall|i: int| 0 <= i < field_count(sh) implies r.ty_ok(#[trigger] field_ty(sh, i)) by {
        if i == 0 {} else {}
    }
    assert forall|i: int, j: int| 0 <= i < j < field_count(sh) implies field_name(sh, i) != field_name(sh, j) by {
        if i == 0 {} else {}
        if j == 0 {} else {}
    }
    assert forall|i: int| 0 <= i < variants(sh).len() implies r.ty_ok(#[trigger] variants(sh)[i]) && rank(
        variants(sh)[i],
    ) <= 3 * 54 by {
        
    }
}

proof fn lemma_entry_55(r: &Schema)
    requires
        r.len() == 90,
        r.shape(55)@ == owl_shape(55),
    ensures
        r.entity_ok(55),
{
    let sh = r.shape(55);
    lemma_shape_view(sh);
    assert forall|i: int| 0 <= i < field_count(sh) implies r.ty_ok(#[trigger] field_ty(sh, i)) by {
        
    }
    assert forall|i: int, j: int| 0 <= i < j < field_count(sh) implies field_name(sh, i) != field_name(sh, j) by {
        
        
    }
    assert forall|i: int| 0 <= i < variants(sh).len() implies r.ty_ok(#[trigger] variants(sh)[i]) && rank(
        variants(sh)[i],
    ) <= 3 * 55 by {
        if i == 0 {} else {}
    }
}

proof fn lemma_entry_56(r: &Schema)
    requires
        r.len() == 90,
        r.shape(56)@ == owl_shape(56),
    ensures
        r.entity_ok(56),
{
    let sh = r.shape(56);
    lemma_shape_view(sh);
    reveal_strlit("sub");
    reveal_strlit("sup");
    assert forall|i: int| 0 <= i < field_count(sh) implies r.ty_ok(#[trigger] field_ty(sh, i)) by {
        if i == 0 {} else {}
    }
    assert forall|i: int, j: int| 0 <= i < j < field_count(sh) implies field_name(sh, i) != field_name(sh, j) by {
        if i == 0 && j == 1 {
            assert("sup"@[2] != "sub"@[2]);
        }
        if i == 0 {} else {}
        if j == 0 {} else {}
    }
    assert forall|i: int| 0 <= i < variants(sh).len() implies r.ty_ok(#[trigger] variants(sh)[i]) && rank(
        variants(sh)[i],
    ) <= 3 * 56 by {
        
    }
}

proof fn lemma_entry_57(r: &Schema)
    requires
        r.len() == 90,
        r.shape(57)@ == owl_shape(57),
    ensures
        r.entity_ok(57),
{
    let sh = r.shape(57);
    lemma_shape_view(sh);
    assert forall|i: int| 0 <= i < field_count(sh) implies r.ty_ok(#[trigger] field_ty(sh, i)) by {
        
    }
    assert forall|i: int, j: int| 0 <= i < j < field_count(sh) implies field_name(sh, i) != field_name(sh, j) by {
        
        
    }
    assert forall|i: int| 0 <= i < variants(sh).len() implies r.ty_ok(#[trigger] variants(sh)[i]) && rank(
        variants(sh)[i],
    ) <= 3 * 57 by {
        
    }
}

proof fn lemma_entry_58(r: &Schema)
    requires
        r.len() == 90,
        r.shape(58)@ == owl_shape(58),
    ensures
        r.entity_ok(58),
{
    let sh = r.shape(58);
    lemma_shape_view(sh);
    assert forall|i: int| 0 <= i < field_count(sh) implies r.ty_ok(#[trigger] field_ty(sh, i)) by {
        
    }
    assert forall|i: int, j: int| 0 <= i < j < field_count(sh) implies field_name(sh, i) != field_name(sh, j) by {
        
        
    }
    assert forall|i: int| 0 <= i < variants(sh).len() implies r.ty_ok(#[trigger] variants(sh)[i]) && rank(
        variants(sh)[i],
    ) <= 3 * 58 by {
        
    }
}

proof fn lemma_entry_59(r: &Schema)
    requires
        r.len() == 90,
        r.shape(59)@ == owl_shape(59),
    ensures
        r.entity_ok(59),
{
    let sh = r.shape(59);
    lemma_shape_view(sh);
    assert forall|i: int| 0 <= i < field_count(sh) implies r.ty_ok(#[trigger] field_ty(sh, i)) by {
        if i == 0 {} else {}
    }
    assert forall|i: int, j: int| 0 <= i < j < field_count(sh) implies field_name(sh, i) != field_name(sh, j) by {
        if i == 0 {} else {}
        if j == 0 {} else {}
    }
    assert forall|i: int| 0 <= i < variants(sh).len() implies r.ty_ok(#[trigger] variants(sh)[i]) && rank(
        variants(sh)[i],
    ) <= 3 * 59 by {
        
    }
}

proof fn lemma_entry_60(r: &Schema)
    requires
        r.len() == 90,
        r.shape(60)@ == owl_shape(60),
    ensures
        r.entity_ok(60),
{
    let sh = r.shape(60);
    lemma_shape_view(sh);
    reveal_strlit("ce");
    reveal_strlit("ope");
    assert forall|i: int| 0 <= i < field_count(sh) implies r.ty_ok(#[trigger] field_ty(sh, i)) by {
        if i == 0 {} else {}
    }
    assert forall|i: int, j: int| 0 <= i < j < field_count(sh) implies field_name(sh, i) != field_name(sh, j) by {
        if i == 0 && j == 1 {
            assert("ope"@.len() != "ce"@.len());
        }
        if i == 0 {} else {}
        if j == 0 {} else {}
    }
    assert forall|i: int| 0 <= i < variants(sh).len() implies r.ty_ok(#[trigger] variants(sh)[i]) && rank(
        variants(sh)[i],
    ) <= 3 * 60 by {
        
    }
}

proof fn lemma_entry_61(r: &Schema)
    requires
        r.len() == 90,
        r.shape(61)@ == owl_shape(61),
    ensures
        r.entity_ok(61),
{
    let sh = r.shape(61);
    lemma_shape_view(sh);
    reveal_strlit("ce");
    reveal_strlit("ope");
    assert forall|i: int| 0 <= i < field_count(sh) implies r.ty_ok(#[trigger] field_ty(sh, i)) by {
        if i == 0 {} else {}
    }
    assert forall|i: int, j: int| 0 <= i < j < field_count(sh) implies field_name(sh, i) != field_name(sh, j) by {
        if i == 0 && j == 1 {
            assert("ope"@.len() != "ce"@.len());
        }
        if i == 0 {} else {}
        if j == 0 {} else {}
    }
    assert forall|i: int| 0 <= i < variants(sh).len() implies r.ty_ok(#[trigger] variants(sh)[i]) && rank(
        variants(sh)[i],
    ) <= 3 * 61 by {
        
    }
}

proof fn lemma_entry_62(r: &Schema)
    requires
        r.len() == 90,
        r.shape(62)@ == owl_shape(62),
    ensures
        r.entity_ok(62),
{
    let sh = r.shape(62);
    lemma_shape_view(sh);
    assert forall|i: int| 0 <= i < field_count(sh) implies r.ty_ok(#[trigger] field_ty(sh, i)) by {
        
    }
    assert forall|i: int, j: int| 0 <= i < j < field_count(sh) implies field_name(sh, i) != field_name(sh, j) by {
        
        
    }
    assert forall|i: int| 0 <= i < variants(sh).len() implies r.ty_ok(#[trigger] variants(sh)[i]) && rank(
        variants(sh)[i],
    ) <= 3 * 62 by {
        
    }
}

proof fn lemma_entry_63(r: &Schema)
    requires
        r.len() == 90,
        r.shape(63)@ == owl_shape(63),
    ensures
        r.entity_ok(63),
{
    let sh = r.shape(63);
    lemma_shape_view(sh);
    assert forall|i: int| 0 <= i < field_count(sh) implies r.ty_ok(#[trigger] field_ty(sh, i)) by {
        
    }
    assert forall|i: int, j: int| 0 <= i < j < field_count(sh) implies field_name(sh, i) != field_name(sh, j) by {
        
        
    }
    assert forall|i: int| 0 <= i < variants(sh).len() implies r.ty_ok(#[trigger] variants(sh)[i]) && rank(
        variants(sh)[i],
    ) <= 3 * 63 by {
        
    }
}

proof fn lemma_entry_64(r: &Schema)
    requires
        r.len() == 90,
        r.shape(64)@ == owl_shape(64),
    ensures
        r.entity_ok(64),
{
    let sh = r.shape(64);
    lemma_shape_view(sh);
    assert forall|i: int| 0 <= i < field_count(sh) implies r.ty_ok(#[trigger] field_ty(sh, i)) by {
        
    }
    assert forall|i: int, j: int| 0 <= i < j < field_count(sh) implies field_name(sh, i) != field_name(sh, j) by {
        
        
    }
    assert forall|i: int| 0 <= i < variants(sh).len() implies r.ty_ok(#[trigger] variants(sh)[i]) && rank(
        variants(sh)[i],
    ) <= 3 * 64 by {
        
    }
}

proof fn lemma_entry_65(r: &Schema)
    requires
        r.len() == 90,
        r.shape(65)@ == owl_shape(65),
    ensures
        r.entity_ok(65),
{
    let sh = r.shape(65);
    lemma_shape_view(sh);
    assert forall|i: int| 0 <= i < field_count(sh) implies r.ty_ok(#[trigger] field_ty(sh, i)) by {
        
    }
    assert forall|i: int, j: int| 0 <= i < j < field_count(sh) implies field_name(sh, i) != field_name(sh, j) by {
        
        
    }
    assert forall|i: int| 0 <= i < variants(sh).len() implies r.ty_ok(#[trigger] variants(sh)[i]) && rank(
        variants(sh)[i],
    ) <= 3 * 65 by {
        
    }
}

proof fn lemma_entry_66(r: &Schema)
    requires
        r.len() == 90,
        r.shape(66)@ == owl_shape(66),
    ensures
        r.entity_ok(66),
{
    let sh = r.shape(66);
    lemma_shape_view(sh);
    assert forall|i: int| 0 <= i < field_count(sh) implies r.ty_ok(#[trigger] field_ty(sh, i)) by {
        
    }
    assert forall|i: int, j: int| 0 <= i < j < field_count(sh) implies field_name(sh, i) != field_name(sh, j) by {
        
        
    }
    assert forall|i: int| 0 <= i < variants(sh).len() implies r.ty_ok(#[trigger] variants(sh)[i]) && rank(
        variants(sh)[i],
    ) <= 3 * 66 by {
        
    }
}

proof fn lemma_entry_67(r: &Schema)
    requires
        r.len() == 90,
        r.shape(67)@ == owl_shape(67),
    ensures
        r.entity_ok(67),
{
    let sh = r.shape(67);
    lemma_shape_view(sh);
    assert forall|i: int| 0 <= i < field_count(sh) implies r.ty_ok(#[trigger] field_ty(sh, i)) by {
        
    }
    assert forall|i: int, j: int| 0 <= i < j < field_count(sh) implies field_name(sh, i) != field_name(sh, j) by {
        
        
    }
    assert forall|i: int| 0 <= i < variants(sh).len() implies r.ty_ok(#[trigger] variants(sh)[i]) && rank(
        variants(sh)[i],
    ) <= 3 * 67 by {
        
    }
}

proof fn lemma_entry_68(r: &Schema)
    requires
        r.len() == 90,
        r.shape(68)@ == owl_shape(68),
    ensures
        r.entity_ok(68),
{
    let sh = r.shape(68);
    lemma_shape_view(sh);
    assert forall|i: int| 0 <= i < field_count(sh) implies r.ty_ok(#[trigger] field_ty(sh, i)) by {
        
    }
    assert forall|i: int, j: int| 0 <= i < j < field_count(sh) implies field_name(sh, i) != field_name(sh, j) by {
        
        
    }
    assert forall|i: int| 0 <= i < variants(sh).len() implies r.ty_ok(#[trigger] variants(sh)[i]) && rank(
        variants(sh)[i],
    ) <= 3 * 68 by {
        
    }
}

proof fn lemma_entry_69(r: &Schema)
    requires
        r.len() == 90,
        r.shape(69)@ == owl_shape(69),
    ensures
        r.entity_ok(69),
{
    let sh = r.shape(69);
    lemma_shape_view(sh);
    reveal_strlit("sub");
    reveal_strlit("sup");
    assert forall|i: int| 0 <= i < field_count(sh) implies r.ty_ok(#[trigger] field_ty(sh, i)) by {
        if i == 0 {} else {}
    }
    assert forall|i: int, j: int| 0 <= i < j < field_count(sh) implies field_name(sh, i) != field_name(sh, j) by {
        if i == 0 && j == 1 {
            assert("sup"@[2] != "sub"@[2]);
        }
        if i == 0 {} else {}
        if j == 0 {} else {}
    }
    assert forall|i: int| 0 <= i < variants(sh).len() implies r.ty_ok(#[trigger] variants(sh)[i]) && rank(
        variants(sh)[i],
    ) <= 3 * 69 by {
        
    }
}

proof fn lemma_entry_70(r: &Schema)
    requires
        r.len() == 90,
        r.shape(70)@ == owl_shape(70),
    ensures
        r.entity_ok(70),
{
    let sh = r.shape(70);
    lemma_shape_view(sh);
    assert forall|i: int| 0 <= i < field_count(sh) implies r.ty_ok(#[trigger] field_ty(sh, i)) by {
        
    }
    assert forall|i: int, j: int| 0 <= i < j < field_count(sh) implies field_name(sh, i) != field_name(sh, j) by {
        
        
    }
    assert forall|i: int| 0 <= i < variants(sh).len() implies r.ty_ok(#[trigger] variants(sh)[i]) && rank(
        variants(sh)[i],
    ) <= 3 * 70 by {
        
    }
}

proof fn lemma_entry_71(r: &Schema)
    requires
        r.len() == 90,
        r.shape(71)@ == owl_shape(71),
    ensures
        r.entity_ok(71),
{
    let sh = r.shape(71);
    lemma_shape_view(sh);
    assert forall|i: int| 0 <= i < field_count(sh) implies r.ty_ok(#[trigger] field_ty(sh, i)) by {
        
    }
    assert forall|i: int, j: int| 0 <= i < j < field_count(sh) implies field_name(sh, i) != field_name(sh, j) by {
        
        
    }
    assert forall|i: int| 0 <= i < variants(sh).len() implies r.ty_ok(#[trigger] variants(sh)[i]) && rank(
        variants(sh)[i],
    ) <= 3 * 71 by {
        
    }
}

proof fn lemma_entry_72(r: &Schema)
    requires
        r.len() == 90,
        r.shape(72)@ == owl_shape(72),
    ensures
        r.entity_ok(72),
{
    let sh = r.shape(72);
    lemma_shape_view(sh);
    reveal_strlit("ce");
    reveal_strlit("dp");
    assert forall|i: int| 0 <= i < field_count(sh) implies r.ty_ok(#[trigger] field_ty(sh, i)) by {
        if i == 0 {} else {}
    }
    assert forall|i: int, j: int| 0 <= i < j < field_count(sh) implies field_name(sh, i) != field_name(sh, j) by {
        if i == 0 && j == 1 {
            assert("dp"@[0] != "ce"@[0]);
        }
        if i == 0 {} else {}
        if j == 0 {} else {}
    }
    assert forall|i: int| 0 <= i < variants(sh).len() implies r.ty_ok(#[trigger] variants(sh)[i]) && rank(
        variants(sh)[i],
    ) <= 3 * 72 by {
        
    }
}

proof fn lemma_entry_73(r: &Schema)
    requires
        r.len() == 90,
        r.shape(73)@ == owl_shape(73),
    ensures
        r.entity_ok(73),
{
    let sh = r.shape(73);
    lemma_shape_view(sh);
    reveal_strlit("dp");
    reveal_strlit("dr");
    assert forall|i: int| 0 <= i < field_count(sh) implies r.ty_ok(#[trigger] field_ty(sh, i)) by {
        if i == 0 {} else {}
    }
    assert forall|i: int, j: int| 0 <= i < j < field_count(sh) implies field_name(sh, i) != field_name(sh, j) by {
        if i == 0 && j == 1 {
            assert("dp"@[1] != "dr"@[1]);
        }
        if i == 0 {} else {}
        if j == 0 {} else {}
    }
    assert forall|i: int| 0 <= i < variants(sh).len() implies r.ty_ok(#[trigger] variants(sh)[i]) && rank(
        variants(sh)[i],
    ) <= 3 * 73 by {
        
    }
}

proof fn lemma_entry_74(r: &Schema)
    requires
        r.len() == 90,
        r.shape(74)@ == owl_shape(74),
    ensures
        r.entity_ok(74),
{
    let sh = r.shape(74);
    lemma_shape_view(sh);
    assert forall|i: int| 0 <= i < field_count(sh) implies r.ty_ok(#[trigger] field_ty(sh, i)) by {
        
    }
    assert forall|i: int, j: int| 0 <= i < j < field_count(sh) implies field_name(sh, i) != field_name(sh, j) by {
        
        
    }
    assert forall|i: int| 0 <= i < variants(sh).len() implies r.ty_ok(#[trigger] variants(sh)[i]) && rank(
        variants(sh)[i],
    ) <= 3 * 74 by {
        
    }
}

proof fn lemma_entry_75(r: &Schema)
    requires
        r.len() == 90,
        r.shape(75)@ == owl_shape(75),
    ensures
        r.entity_ok(75),
{
    let sh = r.shape(75);
    lemma_shape_view(sh);
    reveal_strlit("kind");
    reveal_strlit("range");
    assert forall|i: int| 0 <= i < field_count(sh) implies r.ty_ok(#[trigger] field_ty(sh, i)) by {
        if i == 0 {} else {}
    }
    assert forall|i: int, j: int| 0 <= i < j < field_count(sh) implies field_name(sh, i) != field_name(sh, j) by {
        if i == 0 && j == 1 {
            assert("kind"@.len() != "range"@.len());
        }
        if i == 0 {} else {}
        if j == 0 {} else {}
    }
    assert forall|i: int| 0 <= i < variants(sh).len() implies r.ty_ok(#[trigger] variants(sh)[i]) && rank(
        variants(sh)[i],
    ) <= 3 * 75 by {
        
    }
}

proof fn lemma_entry_76(r: &Schema)
    requires
        r.len() == 90,
        r.shape(76)@ == owl_shape(76),
    ensures
        r.entity_ok(76),
{
    let sh = r.shape(76);
    lemma_shape_view(sh);
    reveal_strlit("ce");
    reveal_strlit("vpe");
    assert forall|i: int| 0 <= i < field_count(sh) implies r.ty_ok(#[trigger] field_ty(sh, i)) by {
        if i == 0 {} else {}
    }
    assert forall|i: int, j: int| 0 <= i < j < field_count(sh) implies field_name(sh, i) != field_name(sh, j) by {
        if i == 0 && j == 1 {
            assert("ce"@.len() != "vpe"@.len());
        }
        if i == 0 {} else {}
        if j == 0 {} else {}
    }
    assert forall|i: int| 0 <= i < variants(sh).len() implies r.ty_ok(#[trigger] variants(sh)[i]) && rank(
        variants(sh)[i],
    ) <= 3 * 76 by {
        
    }
}

proof fn lemma_entry_77(r: &Schema)
    requires
        r.len() == 90,
        r.shape(77)@ == owl_shape(77),
    ensures
        r.entity_ok(77),
{
    let sh = r.shape(77);
    lemma_shape_view(sh);
    assert forall|i: int| 0 <= i < field_count(sh) implies r.ty_ok(#[trigger] field_ty(sh, i)) by {
        
    }
    assert forall|i: int, j: int| 0 <= i < j < field_count(sh) implies field_name(sh, i) != field_name(sh, j) by {
        
        
    }
    assert forall|i: int| 0 <= i < variants(sh).len() implies r.ty_ok(#[trigger] variants(sh)[i]) && rank(
        variants(sh)[i],
    ) <= 3 * 77 by {
        
    }
}

proof fn lemma_entry_78(r: &Schema)
    requires
        r.len() == 90,
        r.shape(78)@ == owl_shape(78),
    ensures
        r.entity_ok(78),
{
    let sh = r.shape(78);
    lemma_shape_view(sh);
    assert forall|i: int| 0 <= i < field_count(sh) implies r.ty_ok(#[trigger] field_ty(sh, i)) by {
        
    }
    assert forall|i: int, j: int| 0 <= i < j < field_count(sh) implies field_name(sh, i) != field_name(sh, j) by {
        
        
    }
    assert forall|i: int| 0 <= i < variants(sh).len() implies r.ty_ok(#[trigger] variants(sh)[i]) && rank(
        variants(sh)[i],
    ) <= 3 * 78 by {
        
    }
}

proof fn lemma_entry_79(r: &Schema)
    requires
        r.len() == 90,
        r.shape(79)@ == owl_shape(79),
    ensures
        r.entity_ok(79),
{
    let sh = r.shape(79);
    lemma_shape_view(sh);
    reveal_strlit("ce");
    reveal_strlit("i");
    assert forall|i: int| 0 <= i < field_count(sh) implies r.ty_ok(#[trigger] field_ty(sh, i)) by {
        if i == 0 {} else {}
    }
    assert forall|i: int, j: int| 0 <= i < j < field_count(sh) implies field_name(sh, i) != field_name(sh, j) by {
        if i == 0 && j == 1 {
            assert("ce"@.len() != "i"@.len());
        }
        if i == 0 {} else {}
        if j == 0 {} else {}
    }
    assert forall|i: int| 0 <= i < variants(sh).len() implies r.ty_ok(#[trigger] variants(sh)[i]) && rank(
        variants(sh)[i],
    ) <= 3 * 79 by {
        
    }
}

proof fn lemma_entry_80(r: &Schema)
    requires
        r.len() == 90,
        r.shape(80)@ == owl_shape(80),
    ensures
        r.entity_ok(80),
{
    let sh = r.shape(80);
    lemma_shape_view(sh);
    reveal_strlit("from");
    reveal_strlit("ope");
    reveal_strlit("to");
    assert forall|i: int| 0 <= i < field_count(sh) implies r.ty_ok(#[trigger] field_ty(sh, i)) by {
        if i == 0 {} else if i == 1 {} else {}
    }
    assert forall|i: int, j: int| 0 <= i < j < field_count(sh) implies field_name(sh, i) != field_name(sh, j) by {
        if i == 0 && j == 1 {
            assert("ope"@.len() != "from"@.len());
        }
        if i == 0 && j == 2 {
            assert("ope"@.len() != "to"@.len());
        }
        if i == 1 && j == 2 {
            assert("from"@.len() != "to"@.len());
        }
        if i == 0 {} else if i == 1 {} else {}
        if j == 0 {} else if j == 1 {} else {}
    }
    assert forall|i: int| 0 <= i < variants(sh).len() implies r.ty_ok(#[trigger] variants(sh)[i]) && rank(
        variants(sh)[i],
    ) <= 3 * 80 by {
        
    }
}

proof fn lemma_entry_81(r: &Schema)
    requires
        r.len() == 90,
        r.shape(81)@ == owl_shape(81),
    ensures
        r.entity_ok(81),
{
    let sh = r.shape(81);
    lemma_shape_view(sh);
    reveal_strlit("from");
    reveal_strlit("ope");
    reveal_strlit("to");
    assert forall|i: int| 0 <= i < field_count(sh) implies r.ty_ok(#[trigger] field_ty(sh, i)) by {
        if i == 0 {} else if i == 1 {} else {}
    }
    assert forall|i: int, j: int| 0 <= i < j < field_count(sh) implies field_name(sh, i) != field_name(sh, j) by {
        if i == 0 && j == 1 {
            assert("ope"@.len() != "from"@.len());
        }
        if i == 0 && j == 2 {
            assert("ope"@.len() != "to"@.len());
        }
        if i == 1 && j == 2 {
            assert("from"@.len() != "to"@.len());
        }
        if i == 0 {} else if i == 1 {} else {}
        if j == 0 {} else if j == 1 {} else {}
    }
    assert forall|i: int| 0 <= i < variants(sh).len() implies r.ty_ok(#[trigger] variants(sh)[i]) && rank(
        variants(sh)[i],
    ) <= 3 * 81 by {
        
    }
}

proof fn lemma_entry_82(r: &Schema)
    requires
        r.len() == 90,
        r.shape(82)@ == owl_shape(82),
    ensures
        r.entity_ok(82),
{
    let sh = r.shape(82);
    lemma_shape_view(sh);
    reveal_strlit("dp");
    reveal_strlit("from");
    reveal_strlit("to");
    assert forall|i: int| 0 <= i < field_count(sh) implies r.ty_ok(#[trigger] field_ty(sh, i)) by {
        if i == 0 {} else if i == 1 {} else {}
    }
    assert forall|i: int, j: int| 0 <= i < j < field_count(sh) implies field_name(sh, i) != field_name(sh, j) by {
        if i == 0 && j == 1 {
            assert("dp"@.len() != "from"@.len());
        }
        if i == 1 && j == 2 {
            assert("from"@.len() != "to"@.len());
        }
        if i == 0 && j == 2 {
            assert("dp"@[0] != "to"@[0]);
        }
        if i == 0 {} else if i == 1 {} else {}
        if j == 0 {} else if j == 1 {} else {}
    }
    assert forall|i: int| 0 <= i < variants(sh).len() implies r.ty_ok(#[trigger] variants(sh)[i]) && rank(
        variants(sh)[i],
    ) <= 3 * 82 by {
        
    }
}

proof fn lemma_entry_83(r: &Schema)
    requires
        r.len() == 90,
        r.shape(83)@ == owl_shape(83),
    ensures
        r.entity_ok(83),
{
    let sh = r.shape(83);
    lemma_shape_view(sh);
    reveal_strlit("dp");
    reveal_strlit("from");
    reveal_strlit("to");
    assert forall|i: int| 0 <= i < field_count(sh) implies r.ty_ok(#[trigger] field_ty(sh, i)) by {
        if i == 0 {} else if i == 1 {} else {}
    }
    assert forall|i: int, j: int| 0 <= i < j < field_count(sh) implies field_name(sh, i) != field_name(sh, j) by {
        if i == 0 && j == 1 {
            assert("dp"@.len() != "from"@.len());
        }
        if i == 1 && j == 2 {
            assert("from"@.len() != "to"@.len());
        }
        if i == 0 && j == 2 {
            assert("dp"@[0] != "to"@[0]);
        }
        if i == 0 {} else if i == 1 {} else {}
        if j == 0 {} else if j == 1 {} else {}
    }
    assert forall|i: int| 0 <= i < variants(sh).len() implies r.ty_ok(#[trigger] variants(sh)[i]) && rank(
        variants(sh)[i],
    ) <= 3 * 83 by {
        
    }
}

proof fn lemma_entry_84(r: &Schema)
    requires
        r.len() == 90,
        r.shape(84)@ == owl_shape(84),
    ensures
        r.entity_ok(84),
{
    let sh = r.shape(84);
    lemma_shape_view(sh);
    reveal_strlit("ann");
    reveal_strlit("subject");
    assert forall|i: int| 0 <= i < field_count(sh) implies r.ty_ok(#[trigger] field_ty(sh, i)) by {
        if i == 0 {} else {}
    }
    assert forall|i: int, j: int| 0 <= i < j < field_count(sh) implies field_name(sh, i) != field_name(sh, j) by {
        if i == 0 && j == 1 {
            assert("subject"@.len() != "ann"@.len());
        }
        if i == 0 {} else {}
        if j == 0 {} else {}
    }
    assert forall|i: int| 0 <= i < variants(sh).len() implies r.ty_ok(#[trigger] variants(sh)[i]) && rank(
        variants(sh)[i],
    ) <= 3 * 84 by {
        
    }
}

proof fn lemma_entry_85(r: &Schema)
    requires
        r.len() == 90,
        r.shape(85)@ == owl_shape(85),
    ensures
        r.entity_ok(85),
{
    let sh = r.shape(85);
    lemma_shape_view(sh);
    reveal_strlit("sub");
    reveal_strlit("sup");
    assert forall|i: int| 0 <= i < field_count(sh) implies r.ty_ok(#[trigger] field_ty(sh, i)) by {
        if i == 0 {} else {}
    }
    assert forall|i: int, j: int| 0 <= i < j < field_count(sh) implies field_name(sh, i) != field_name(sh, j) by {
        if i == 0 && j == 1 {
            assert("sup"@[2] != "sub"@[2]);
        }
        if i == 0 {} else {}
        if j == 0 {} else {}
    }
    assert forall|i: int| 0 <= i < variants(sh).len() implies r.ty_ok(#[trigger] variants(sh)[i]) && rank(
        variants(sh)[i],
    ) <= 3 * 85 by {
        
    }
}

proof fn lemma_entry_86(r: &Schema)
    requires
        r.len() == 90,
        r.shape(86)@ == owl_shape(86),
    ensures
        r.entity_ok(86),
{
    let sh = r.shape(86);
    lemma_shape_view(sh);
    reveal_strlit("ap");
    reveal_strlit("iri");
    assert forall|i: int| 0 <= i < field_count(sh) implies r.ty_ok(#[trigger] field_ty(sh, i)) by {
        if i == 0 {} else {}
    }
    assert forall|i: int, j: int| 0 <= i < j < field_count(sh) implies field_name(sh, i) != field_name(sh, j) by {
        if i == 0 && j == 1 {
            assert("ap"@.len() != "iri"@.len());
        }
        if i == 0 {} else {}
        if j == 0 {} else {}
    }
    assert forall|i: int| 0 <= i < variants(sh).len() implies r.ty_ok(#[trigger] variants(sh)[i]) && rank(
        variants(sh)[i],
    ) <= 3 * 86 by {
    }
}

proof fn lemma_entry_87(r: &Schema)
    requires
        r.len() == 90,
        r.shape(87)@ == owl_shape(87),
    ensures
        r.entity_ok(87),
{
    let sh = r.shape(87);
    lemma_shape_view(sh);
    reveal_strlit("ap");
    reveal_strlit("iri");
    assert forall|i: int| 0 <= i < field_count(sh) implies r.ty_ok(#[trigger] field_ty(sh, i)) by {
        if i == 0 {} else {}
    }
    assert forall|i: int, j: int| 0 <= i < j < field_count(sh) implies field_name(sh, i) != field_name(sh, j) by {
        if i == 0 && j == 1 {
            assert("ap"@.len() != "iri"@.len());
        }
        if i == 0 {} else {}
        if j == 0 {} else {}
    }
    assert forall|i: int| 0 <= i < variants(sh).len() implies r.ty_ok(#[trigger] variants(sh)[i]) && rank(
        variants(sh)[i],
    ) <= 3 * 87 by {
    }
}

proof fn lemma_entry_88(r: &Schema)
    requires
        r.len() == 90,
        r.shape(88)@ == owl_shape(88),
    ensures
        r.entity_ok(88),
{
    let sh = r.shape(88);
    lemma_shape_view(sh);
    assert forall|i: int| 0 <= i < field_count(sh) implies r.ty_ok(#[trigger] field_ty(sh, i)) by {
        
    }
    assert forall|i: int, j: int| 0 <= i < j < field_count(sh) implies field_name(sh, i) != field_name(sh, j) by {
        
        
    }
    assert forall|i: int| 0 <= i < variants(sh).len() implies r.ty_ok(#[trigger] variants(sh)[i]) && rank(
        variants(sh)[i],
    ) <= 3 * 88 by {
        if i == 0 {} else if i == 1 {} else if i == 2 {} else if i == 3 {} else if i == 4 {} else if i == 5 {} else if i == 6 {} else if i == 7 {} else if i == 8 {} else if i == 9 {} else if i == 10 {} else if i == 11 {} else if i == 12 {} else if i == 13 {} else if i == 14 {} else if i == 15 {} else if i == 16 {} else if i == 17 {} else if i == 18 {} else if i == 19 {} else if i == 20 {} else if i == 21 {} else if i == 22 {} else if i == 23 {} else if i == 24 {} else if i == 25 {} else if i == 26 {} else if i == 27 {} else if i == 28 {} else if i == 29 {} else if i == 30 {} else if i == 31 {} else if i == 32 {} else if i == 33 {} else if i == 34 {} else if i == 35 {} else if i == 36 {} else if i == 37 {} else if i == 38 {} else if i == 39 {} else if i == 40 {} else if i == 41 {} else if i == 42 {} else {}
    }
}

proof fn lemma_entry_89(r: &Schema)
    requires
        r.len() == 90,
        r.shape(89)@ == owl_shape(89),
    ensures
        r.entity_ok(89),
{
    let sh = r.shape(89);
    lemma_shape_view(sh);
    reveal_strlit("ann");
    reveal_strlit("axiom");
    assert forall|i: int| 0 <= i < field_count(sh) implies r.ty_ok(#[trigger] field_ty(sh, i)) by {
        if i == 0 {} else {}
    }
    assert forall|i: int, j: int| 0 <= i < j < field_count(sh) implies field_name(sh, i) != field_name(sh, j) by {
        if i == 0 && j == 1 {
            assert("axiom"@.len() != "ann"@.len());
        }
        if i == 0 {} else {}
        if j == 0 {} else {}
    }
    assert forall|i: int| 0 <= i < variants(sh).len() implies r.ty_ok(#[trigger] variants(sh)[i]) && rank(
        variants(sh)[i],
    ) <= 3 * 89 by {
        
    }
}

/// The ontology table is well formed.
pub proof fn lemma_owl_wf(r: &Schema)
    requires
        r.len() == 90,
        forall|e: int| 0 <= e < r.len() ==> r.name(e) == owl_name(e) && r.shape(e)@ == owl_shape(e),
    ensures
        r.wf(),
{
    assert forall|e: int| 0 <= e < r.len() implies #[trigger] r.entity_ok(e) by {
        if e == 0 {
            lemma_entry_0(r);
        } else if e == 1 {
            lemma_entry_1(r);
        } else if e == 2 {
            lemma_entry_2(r);
        } else if e == 3 {
            lemma_entry_3(r);
        } else if e == 4 {
            lemma_entry_4(r);
        } else if e == 5 {
            lemma_entry_5(r);
        } else if e == 6 {
            lemma_entry_6(r);
        } else if e == 7 {
            lemma_entry_7(r);
        } else if e == 8 {
            lemma_entry_8(r);
        } else if e == 9 {
            lemma_entry_9(r);
        } else if e == 10 {
            lemma_entry_10(r);
        } else if e == 11 {
            lemma_entry_11(r);
        } else if e == 12 {
            lemma_entry_12(r);
        } else if e == 13 {
            lemma_entry_13(r);
        } else if e == 14 {
            lemma_entry_14(r);
        } else if e == 15 {
            lemma_entry_15(r);
        } else if e == 16 {
            lemma_entry_16(r);
        } else if e == 17 {
            lemma_entry_17(r);
        } else if e == 18 {
            lemma_entry_18(r);
        } else if e == 19 {
            lemma_entry_19(r);
        } else if e == 20 {
            lemma_entry_20(r);
        } else if e == 21 {
            lemma_entry_21(r);
        } else if e == 22 {
            lemma_entry_22(r);
        } else if e == 23 {
            lemma_entry_23(r);
        } else if e == 24 {
            lemma_entry_24(r);
        } else if e == 25 {
            lemma_entry_25(r);
        } else if e == 26 {
            lemma_entry_26(r);
        } else if e == 27 {
            lemma_entry_27(r);
        } else if e == 28 {
            lemma_entry_28(r);
        } else if e == 29 {
            lemma_entry_29(r);
        } else if e == 30 {
            lemma_entry_30(r);
        } else if e == 31 {
            lemma_entry_31(r);
        } else if e == 32 {
            lemma_entry_32(r);
        } else if e == 33 {
            lemma_entry_33(r);
        } else if e == 34 {
            lemma_entry_34(r);
        } else if e == 35 {
            lemma_entry_35(r);
        } else if e == 36 {
            lemma_entry_36(r);
        } else if e == 37 {
            lemma_entry_37(r);
        } else if e == 38 {
            lemma_entry_38(r);
        } else if e == 39 {
            lemma_entry_39(r);
        } else if e == 40 {
            lemma_entry_40(r);
        } else if e == 41 {
            lemma_entry_41(r);
        } else if e == 42 {
            lemma_entry_42(r);
        } else if e == 43 {
            lemma_entry_43(r);
        } else if e == 44 {
            lemma_entry_44(r);
        } else if e == 45 {
            lemma_entry_45(r);
        } else if e == 46 {
            lemma_entry_46(r);
        } else if e == 47 {
            lemma_entry_47(r);
        } else if e == 48 {
            lemma_entry_48(r);
        } else if e == 49 {
            lemma_entry_49(r);
        } else if e == 50 {
            lemma_entry_50(r);
        } else if e == 51 {
            lemma_entry_51(r);
        } else if e == 52 {
            lemma_entry_52(r);
        } else if e == 53 {
            lemma_entry_53(r);
        } else if e == 54 {
            lemma_entry_54(r);
        } else if e == 55 {
            lemma_entry_55(r);
        } else if e == 56 {
            lemma_entry_56(r);
        } else if e == 57 {
            lemma_entry_57(r);
        } else if e == 58 {
            lemma_entry_58(r);
        } else if e == 59 {
            lemma_entry_59(r);
        } else if e == 60 {
            lemma_entry_60(r);
        } else if e == 61 {
            lemma_entry_61(r);
        } else if e == 62 {
            lemma_entry_62(r);
        } else if e == 63 {
            lemma_entry_63(r);
        } else if e == 64 {
            lemma_entry_64(r);
        } else if e == 65 {
            lemma_entry_65(r);
        } else if e == 66 {
            lemma_entry_66(r);
        } else if e == 67 {
            lemma_entry_67(r);
        } else if e == 68 {
            lemma_entry_68(r);
        } else if e == 69 {
            lemma_entry_69(r);
        } else if e == 70 {
            lemma_entry_70(r);
        } else if e == 71 {
            lemma_entry_71(r);
        } else if e == 72 {
            lemma_entry_72(r);
        } else if e == 73 {
            lemma_entry_73(r);
        } else if e == 74 {
            lemma_entry_74(r);
        } else if e == 75 {
            lemma_entry_75(r);
        } else if e == 76 {
            lemma_entry_76(r);
        } else if e == 77 {
            lemma_entry_77(r);
        } else if e == 78 {
            lemma_entry_78(r);
        } else if e == 79 {
            lemma_entry_79(r);
        } else if e == 80 {
            lemma_entry_80(r);
        } else if e == 81 {
            lemma_entry_81(r);
        } else if e == 82 {
            lemma_entry_82(r);
        } else if e == 83 {
            lemma_entry_83(r);
        } else if e == 84 {
            lemma_entry_84(r);
        } else if e == 85 {
            lemma_entry_85(r);
        } else if e == 86 {
            lemma_entry_86(r);
        } else if e == 87 {
            lemma_entry_87(r);
        } else if e == 88 {
            lemma_entry_88(r);
        } else if e == 89 {
            lemma_entry_89(r);
        }
    }
    assert forall|e: int, f: int| 0 <= e < f < r.len() implies r.name(e) != r.name(f) by {
        lemma_owl_index(e);
        lemma_owl_index(f);
    }
}


/// The entity that a type refers to, or -1.
pub open spec fn target(ty: Ty) -> int {
    match ty {
        Ty::Entity(x) => x as int,
        _ => -1,
    }
}

/// A union whose variants are entities without variants of their own,
/// listed in increasing table order.
pub open spec fn plain_union(r: &Schema, e: int) -> bool {
    let n = variants(r.shape(e)).len();
    &&& r.shape(e) is Union
    &&& forall|k: int|
        0 <= k < n ==> (#[trigger] r.variant(e, k)) is Entity && 0 <= target(r.variant(e, k)) < r.len()
            && !(r.shape(target(r.variant(e, k))) is Union)
    &&& forall|k: int| 0 <= k < n - 1 ==> target(#[trigger] r.variant(e, k)) < target(r.variant(e, k + 1))
}

proof fn lemma_increasing(r: &Schema, e: int, i: int, j: int)
    requires
        plain_union(r, e),
        0 <= i < j < variants(r.shape(e)).len(),
    ensures
        target(r.variant(e, i)) < target(r.variant(e, j)),
    decreases j - i,
{
    let _ = r.variant(e, j - 1);
    if j > i + 1 {
        lemma_increasing(r, e, i, j - 1);
    }
}

/// No two variants of a plain union accept a common kind.
proof fn lemma_plain_disjoint(r: &Schema, e: int)
    requires
        r.wf(),
        0 <= e < r.len(),
        plain_union(r, e),
    ensures
        forall|i: int, j: int|
            #![trigger r.variant(e, i), r.variant(e, j)]
            0 <= i < j < variants(r.shape(e)).len() ==> r.kinds(r.variant(e, i)).disjoint(r.kinds(r.variant(e, j))),
{
    assert forall|i: int, j: int|
        #![trigger r.variant(e, i), r.variant(e, j)]
        0 <= i < j < variants(r.shape(e)).len() implies r.kinds(r.variant(e, i)).disjoint(r.kinds(r.variant(e, j))) by {
        lemma_increasing(r, e, i, j);
        let x = target(r.variant(e, i));
        let y = target(r.variant(e, j));
        assert(r.name(x) != r.name(y));
        assert(r.kinds(r.variant(e, i)) =~= set![Kind::Object(r.name(x))]);
        assert(r.kinds(r.variant(e, j)) =~= set![Kind::Object(r.name(y))]);
    }
}


/// What the table says of one entry.
proof fn lemma_at(r: &Schema, x: int)
    requires
        r.len() == 90,
        0 <= x < 90,
        forall|e: int| 0 <= e < r.len() ==> r.name(e) == owl_name(e) && r.shape(e)@ == owl_shape(e),
    ensures
        r.name(x) == owl_name(x),
        r.shape(x)@ == owl_shape(x),
{
    assert(r.name(x) == owl_name(x) && r.shape(x)@ == owl_shape(x));
}

proof fn lemma_plain_7(r: &Schema)
    requires
        r.wf(),
        r.len() == 90,
        forall|e: int| 0 <= e < r.len() ==> r.name(e) == owl_name(e) && r.shape(e)@ == owl_shape(e),
    ensures
        plain_union(r, 7),
{
    lemma_at(r, 7);
    lemma_shape_view(r.shape(7));
    assert forall|k: int| 0 <= k < 2 implies (#[trigger] r.variant(7, k)) is Entity && 0 <= target(
        r.variant(7, k),
    ) < r.len() && !(r.shape(target(r.variant(7, k))) is Union) by {
        if k == 0 { lemma_at(r, 1); lemma_shape_view(r.shape(1)); } else if k == 1 { lemma_at(r, 2); lemma_shape_view(r.shape(2)); }
    }
    assert forall|k: int| 0 <= k < 1 implies target(#[trigger] r.variant(7, k)) < target(r.variant(7, k + 1)) by {
        if k == 0 {  }
    }
}

proof fn lemma_plain_9(r: &Schema)
    requires
        r.wf(),
        r.len() == 90,
        forall|e: int| 0 <= e < r.len() ==> r.name(e) == owl_name(e) && r.shape(e)@ == owl_shape(e),
    ensures
        plain_union(r, 9),
{
    lemma_at(r, 9);
    lemma_shape_view(r.shape(9));
    assert forall|k: int| 0 <= k < 2 implies (#[trigger] r.variant(9, k)) is Entity && 0 <= target(
        r.variant(9, k),
    ) < r.len() && !(r.shape(target(r.variant(9, k))) is Union) by {
        if k == 0 { lemma_at(r, 3); lemma_shape_view(r.shape(3)); } else if k == 1 { lemma_at(r, 8); lemma_shape_view(r.shape(8)); }
    }
    assert forall|k: int| 0 <= k < 1 implies target(#[trigger] r.variant(9, k)) < target(r.variant(9, k + 1)) by {
        if k == 0 {  }
    }
}

proof fn lemma_plain_13(r: &Schema)
    requires
        r.wf(),
        r.len() == 90,
        forall|e: int| 0 <= e < r.len() ==> r.name(e) == owl_name(e) && r.shape(e)@ == owl_shape(e),
    ensures
        plain_union(r, 13),
{
    lemma_at(r, 13);
    lemma_shape_view(r.shape(13));
    assert forall|k: int| 0 <= k < 3 implies (#[trigger] r.variant(13, k)) is Entity && 0 <= target(
        r.variant(13, k),
    ) < r.len() && !(r.shape(target(r.variant(13, k))) is Union) by {
        if k == 0 { lemma_at(r, 10); lemma_shape_view(r.shape(10)); } else if k == 1 { lemma_at(r, 11); lemma_shape_view(r.shape(11)); } else if k == 2 { lemma_at(r, 12); lemma_shape_view(r.shape(12)); }
    }
    assert forall|k: int| 0 <= k < 2 implies target(#[trigger] r.variant(13, k)) < target(r.variant(13, k + 1)) by {
        if k == 0 {  } else if k == 1 {  }
    }
}

proof fn lemma_plain_20(r: &Schema)
    requires
        r.wf(),
        r.len() == 90,
        forall|e: int| 0 <= e < r.len() ==> r.name(e) == owl_name(e) && r.shape(e)@ == owl_shape(e),
    ensures
        plain_union(r, 20),
{
    lemma_at(r, 20);
    lemma_shape_view(r.shape(20));
    assert forall|k: int| 0 <= k < 6 implies (#[trigger] r.variant(20, k)) is Entity && 0 <= target(
        r.variant(20, k),
    ) < r.len() && !(r.shape(target(r.variant(20, k))) is Union) by {
        if k == 0 { lemma_at(r, 4); lemma_shape_view(r.shape(4)); } else if k == 1 { lemma_at(r, 15); lemma_shape_view(r.shape(15)); } else if k == 2 { lemma_at(r, 16); lemma_shape_view(r.shape(16)); } else if k == 3 { lemma_at(r, 17); lemma_shape_view(r.shape(17)); } else if k == 4 { lemma_at(r, 18); lemma_shape_view(r.shape(18)); } else if k == 5 { lemma_at(r, 19); lemma_shape_view(r.shape(19)); }
    }
    assert forall|k: int| 0 <= k < 5 implies target(#[trigger] r.variant(20, k)) < target(r.variant(20, k + 1)) by {
        if k == 0 {  } else if k == 1 {  } else if k == 2 {  } else if k == 3 {  } else if k == 4 {  }
    }
}

proof fn lemma_plain_38(r: &Schema)
    requires
        r.wf(),
        r.len() == 90,
        forall|e: int| 0 <= e < r.len() ==> r.name(e) == owl_name(e) && r.shape(e)@ == owl_shape(e),
    ensures
        plain_union(r, 38),
{
    lemma_at(r, 38);
    lemma_shape_view(r.shape(38));
    assert forall|k: int| 0 <= k < 18 implies (#[trigger] r.variant(38, k)) is Entity && 0 <= target(
        r.variant(38, k),
    ) < r.len() && !(r.shape(target(r.variant(38, k))) is Union) by {
        if k == 0 { lemma_at(r, 0); lemma_shape_view(r.shape(0)); } else if k == 1 { lemma_at(r, 21); lemma_shape_view(r.shape(21)); } else if k == 2 { lemma_at(r, 22); lemma_shape_view(r.shape(22)); } else if k == 3 { lemma_at(r, 23); lemma_shape_view(r.shape(23)); } else if k == 4 { lemma_at(r, 24); lemma_shape_view(r.shape(24)); } else if k == 5 { lemma_at(r, 25); lemma_shape_view(r.shape(25)); } else if k == 6 { lemma_at(r, 26); lemma_shape_view(r.shape(26)); } else if k == 7 { lemma_at(r, 27); lemma_shape_view(r.shape(27)); } else if k == 8 { lemma_at(r, 28); lemma_shape_view(r.shape(28)); } else if k == 9 { lemma_at(r, 29); lemma_shape_view(r.shape(29)); } else if k == 10 { lemma_at(r, 30); lemma_shape_view(r.shape(30)); } else if k == 11 { lemma_at(r, 31); lemma_shape_view(r.shape(31)); } else if k == 12 { lemma_at(r, 32); lemma_shape_view(r.shape(32)); } else if k == 13 { lemma_at(r, 33); lemma_shape_view(r.shape(33)); } else if k == 14 { lemma_at(r, 34); lemma_shape_view(r.shape(34)); } else if k == 15 { lemma_at(r, 35); lemma_shape_view(r.shape(35)); } else if k == 16 { lemma_at(r, 36); lemma_shape_view(r.shape(36)); } else if k == 17 { lemma_at(r, 37); lemma_shape_view(r.shape(37)); }
    }
    assert forall|k: int| 0 <= k < 17 implies target(#[trigger] r.variant(38, k)) < target(r.variant(38, k + 1)) by {
        if k == 0 {  } else if k == 1 {  } else if k == 2 {  } else if k == 3 {  } else if k == 4 {  } else if k == 5 {  } else if k == 6 {  } else if k == 7 {  } else if k == 8 {  } else if k == 9 {  } else if k == 10 {  } else if k == 11 {  } else if k == 12 {  } else if k == 13 {  } else if k == 14 {  } else if k == 15 {  } else if k == 16 {  }
    }
}

proof fn lemma_plain_88(r: &Schema)
    requires
        r.wf(),
        r.len() == 90,
        forall|e: int| 0 <= e < r.len() ==> r.name(e) == owl_name(e) && r.shape(e)@ == owl_shape(e),
    ensures
        plain_union(r, 88),
{
    lemma_at(r, 88);
    lemma_shape_view(r.shape(88));
    assert forall|k: int| 0 <= k < 44 implies (#[trigger] r.variant(88, k)) is Entity && 0 <= target(
        r.variant(88, k),
    ) < r.len() && !(r.shape(target(r.variant(88, k))) is Union) by {
        if k == 0 { lemma_at(r, 43); lemma_shape_view(r.shape(43)); } else if k == 1 { lemma_at(r, 44); lemma_shape_view(r.shape(44)); } else if k == 2 { lemma_at(r, 45); lemma_shape_view(r.shape(45)); } else if k == 3 { lemma_at(r, 46); lemma_shape_view(r.shape(46)); } else if k == 4 { lemma_at(r, 47); lemma_shape_view(r.shape(47)); } else if k == 5 { lemma_at(r, 48); lemma_shape_view(r.shape(48)); } else if k == 6 { lemma_at(r, 49); lemma_shape_view(r.shape(49)); } else if k == 7 { lemma_at(r, 50); lemma_shape_view(r.shape(50)); } else if k == 8 { lemma_at(r, 51); lemma_shape_view(r.shape(51)); } else if k == 9 { lemma_at(r, 52); lemma_shape_view(r.shape(52)); } else if k == 10 { lemma_at(r, 53); lemma_shape_view(r.shape(53)); } else if k == 11 { lemma_at(r, 54); lemma_shape_view(r.shape(54)); } else if k == 12 { lemma_at(r, 56); lemma_shape_view(r.shape(56)); } else if k == 13 { lemma_at(r, 57); lemma_shape_view(r.shape(57)); } else if k == 14 { lemma_at(r, 58); lemma_shape_view(r.shape(58)); } else if k == 15 { lemma_at(r, 59); lemma_shape_view(r.shape(59)); } else if k == 16 { lemma_at(r, 60); lemma_shape_view(r.shape(60)); } else if k == 17 { lemma_at(r, 61); lemma_shape_view(r.shape(61)); } else if k == 18 { lemma_at(r, 62); lemma_shape_view(r.shape(62)); } else if k == 19 { lemma_at(r, 63); lemma_shape_view(r.shape(63)); } else if k == 20 { lemma_at(r, 64); lemma_shape_view(r.shape(64)); } else if k == 21 { lemma_at(r, 65); lemma_shape_view(r.shape(65)); } else if k == 22 { lemma_at(r, 66); lemma_shape_view(r.shape(66)); } else if k == 23 { lemma_at(r, 67); lemma_shape_view(r.shape(67)); } else if k == 24 { lemma_at(r, 68); lemma_shape_view(r.shape(68)); } else if k == 25 { lemma_at(r, 69); lemma_shape_view(r.shape(69)); } else if k == 26 { lemma_at(r, 70); lemma_shape_view(r.shape(70)); } else if k == 27 { lemma_at(r, 71); lemma_shape_view(r.shape(71)); } else if k == 28 { lemma_at(r, 72); lemma_shape_view(r.shape(72)); } else if k == 29 { lemma_at(r, 73); lemma_shape_view(r.shape(73)); } else if k == 30 { lemma_at(r, 74); lemma_shape_view(r.shape(74)); } else if k == 31 { lemma_at(r, 75); lemma_shape_view(r.shape(75)); } else if k == 32 { lemma_at(r, 76); lemma_shape_view(r.shape(76)); } else if k == 33 { lemma_at(r, 77); lemma_shape_view(r.shape(77)); } else if k == 34 { lemma_at(r, 78); lemma_shape_view(r.shape(78)); } else if k == 35 { lemma_at(r, 79); lemma_shape_view(r.shape(79)); } else if k == 36 { lemma_at(r, 80); lemma_shape_view(r.shape(80)); } else if k == 37 { lemma_at(r, 81); lemma_shape_view(r.shape(81)); } else if k == 38 { lemma_at(r, 82); lemma_shape_view(r.shape(82)); } else if k == 39 { lemma_at(r, 83); lemma_shape_view(r.shape(83)); } else if k == 40 { lemma_at(r, 84); lemma_shape_view(r.shape(84)); } else if k == 41 { lemma_at(r, 85); lemma_shape_view(r.shape(85)); } else if k == 42 { lemma_at(r, 86); lemma_shape_view(r.shape(86)); } else if k == 43 { lemma_at(r, 87); lemma_shape_view(r.shape(87)); }
    }
    assert forall|k: int| 0 <= k < 43 implies target(#[trigger] r.variant(88, k)) < target(r.variant(88, k + 1)) by {
        if k == 0 {  } else if k == 1 {  } else if k == 2 {  } else if k == 3 {  } else if k == 4 {  } else if k == 5 {  } else if k == 6 {  } else if k == 7 {  } else if k == 8 {  } else if k == 9 {  } else if k == 10 {  } else if k == 11 {  } else if k == 12 {  } else if k == 13 {  } else if k == 14 {  } else if k == 15 {  } else if k == 16 {  } else if k == 17 {  } else if k == 18 {  } else if k == 19 {  } else if k == 20 {  } else if k == 21 {  } else if k == 22 {  } else if k == 23 {  } else if k == 24 {  } else if k == 25 {  } else if k == 26 {  } else if k == 27 {  } else if k == 28 {  } else if k == 29 {  } else if k == 30 {  } else if k == 31 {  } else if k == 32 {  } else if k == 33 {  } else if k == 34 {  } else if k == 35 {  } else if k == 36 {  } else if k == 37 {  } else if k == 38 {  } else if k == 39 {  } else if k == 40 {  } else if k == 41 {  } else if k == 42 {  }
    }
}

proof fn lemma_kinds_9(r: &Schema)
    requires
        r.wf(),
        r.len() == 90,
        forall|e: int| 0 <= e < r.len() ==> r.name(e) == owl_name(e) && r.shape(e)@ == owl_shape(e),
    ensures
        r.kinds(Ty::Entity(9)) =~= set![Kind::Object(r.name(3)), Kind::Object(r.name(8))],
{
    lemma_at(r, 9);
    lemma_shape_view(r.shape(9));
    assert(r.entity_ok(9));
    let vs = variants(r.shape(9));
    lemma_at(r, 3);
    lemma_shape_view(r.shape(3));
    assert(r.kinds(Ty::Entity(3)) =~= set![Kind::Object(r.name(3))]);
    lemma_at(r, 8);
    lemma_shape_view(r.shape(8));
    assert(r.kinds(Ty::Entity(8)) =~= set![Kind::Object(r.name(8))]);
    assert(r.variant_kinds(9, vs, 1) =~= r.variant_kinds(9, vs, 0).union(r.kinds(vs[0])));
    assert(r.variant_kinds(9, vs, 2) =~= r.variant_kinds(9, vs, 1).union(r.kinds(vs[1])));
}

proof fn lemma_kinds_13(r: &Schema)
    requires
        r.wf(),
        r.len() == 90,
        forall|e: int| 0 <= e < r.len() ==> r.name(e) == owl_name(e) && r.shape(e)@ == owl_shape(e),
    ensures
        r.kinds(Ty::Entity(13)) =~= set![Kind::Object(r.name(10)), Kind::Object(r.name(11)), Kind::Object(r.name(12))],
{
    lemma_at(r, 13);
    lemma_shape_view(r.shape(13));
    assert(r.entity_ok(13));
    let vs = variants(r.shape(13));
    lemma_at(r, 10);
    lemma_shape_view(r.shape(10));
    assert(r.kinds(Ty::Entity(10)) =~= set![Kind::Object(r.name(10))]);
    lemma_at(r, 11);
    lemma_shape_view(r.shape(11));
    assert(r.kinds(Ty::Entity(11)) =~= set![Kind::Object(r.name(11))]);
    lemma_at(r, 12);
    lemma_shape_view(r.shape(12));
    assert(r.kinds(Ty::Entity(12)) =~= set![Kind::Object(r.name(12))]);
    assert(r.variant_kinds(13, vs, 1) =~= r.variant_kinds(13, vs, 0).union(r.kinds(vs[0])));
    assert(r.variant_kinds(13, vs, 2) =~= r.variant_kinds(13, vs, 1).union(r.kinds(vs[1])));
    assert(r.variant_kinds(13, vs, 3) =~= r.variant_kinds(13, vs, 2).union(r.kinds(vs[2])));
}

proof fn lemma_mixed_39(r: &Schema)
    requires
        r.wf(),
        r.len() == 90,
        forall|e: int| 0 <= e < r.len() ==> r.name(e) == owl_name(e) && r.shape(e)@ == owl_shape(e),
    ensures
        forall|i: int, j: int|
            #![trigger r.variant(39, i), r.variant(39, j)]
            0 <= i < j < variants(r.shape(39)).len() ==> r.kinds(r.variant(39, i)).disjoint(r.kinds(r.variant(39, j))),
{
    lemma_at(r, 39);
    lemma_shape_view(r.shape(39));
    lemma_kinds_9(r);
    lemma_at(r, 5);
    lemma_shape_view(r.shape(5));
    assert(r.kinds(Ty::Entity(5)) =~= set![Kind::Object(r.name(5))]);
    lemma_at(r, 6);
    lemma_shape_view(r.shape(6));
    assert(r.kinds(Ty::Entity(6)) =~= set![Kind::Object(r.name(6))]);
    assert(r.name(3) != r.name(5));
    assert(r.name(3) != r.name(6));
    assert(r.name(3) != r.name(8));
    assert(r.name(5) != r.name(6));
    assert(r.name(5) != r.name(8));
    assert(r.name(6) != r.name(8));
    assert forall|i: int, j: int|
        #![trigger r.variant(39, i), r.variant(39, j)]
        0 <= i < j < variants(r.shape(39)).len() implies r.kinds(r.variant(39, i)).disjoint(r.kinds(r.variant(39, j))) by {
        if i == 0 && j == 1 {
            assert(r.kinds(r.variant(39, 0)) =~= set![Kind::Object(r.name(3)), Kind::Object(r.name(8))]);
            assert(r.kinds(r.variant(39, 1)) =~= set![Kind::Object(r.name(5))]);
        }
        if i == 0 && j == 2 {
            assert(r.kinds(r.variant(39, 0)) =~= set![Kind::Object(r.name(3)), Kind::Object(r.name(8))]);
            assert(r.kinds(r.variant(39, 2)) =~= set![Kind::Object(r.name(6))]);
        }
        if i == 1 && j == 2 {
            assert(r.kinds(r.variant(39, 1)) =~= set![Kind::Object(r.name(5))]);
            assert(r.kinds(r.variant(39, 2)) =~= set![Kind::Object(r.name(6))]);
        }
    }
}

proof fn lemma_mixed_40(r: &Schema)
    requires
        r.wf(),
        r.len() == 90,
        forall|e: int| 0 <= e < r.len() ==> r.name(e) == owl_name(e) && r.shape(e)@ == owl_shape(e),
    ensures
        forall|i: int, j: int|
            #![trigger r.variant(40, i), r.variant(40, j)]
            0 <= i < j < variants(r.shape(40)).len() ==> r.kinds(r.variant(40, i)).disjoint(r.kinds(r.variant(40, j))),
{
    lemma_at(r, 40);
    lemma_shape_view(r.shape(40));
    lemma_at(r, 1);
    lemma_shape_view(r.shape(1));
    assert(r.kinds(Ty::Entity(1)) =~= set![Kind::Object(r.name(1))]);
    assert forall|i: int, j: int|
        #![trigger r.variant(40, i), r.variant(40, j)]
        0 <= i < j < variants(r.shape(40)).len() implies r.kinds(r.variant(40, i)).disjoint(r.kinds(r.variant(40, j))) by {
        if i == 0 && j == 1 {
            assert(r.kinds(r.variant(40, 0)) =~= set![Kind::Iri]);
            assert(r.kinds(r.variant(40, 1)) =~= set![Kind::Object(r.name(1))]);
        }
    }
}

proof fn lemma_mixed_41(r: &Schema)
    requires
        r.wf(),
        r.len() == 90,
        forall|e: int| 0 <= e < r.len() ==> r.name(e) == owl_name(e) && r.shape(e)@ == owl_shape(e),
    ensures
        forall|i: int, j: int|
            #![trigger r.variant(41, i), r.variant(41, j)]
            0 <= i < j < variants(r.shape(41)).len() ==> r.kinds(r.variant(41, i)).disjoint(r.kinds(r.variant(41, j))),
{
    lemma_at(r, 41);
    lemma_shape_view(r.shape(41));
    lemma_kinds_13(r);
    assert(r.name(10) != r.name(11));
    assert(r.name(10) != r.name(12));
    assert(r.name(11) != r.name(12));
    assert forall|i: int, j: int|
        #![trigger r.variant(41, i), r.variant(41, j)]
        0 <= i < j < variants(r.shape(41)).len() implies r.kinds(r.variant(41, i)).disjoint(r.kinds(r.variant(41, j))) by {
        if i == 0 && j == 1 {
            assert(r.kinds(r.variant(41, 0)) =~= set![Kind::Object(r.name(10)), Kind::Object(r.name(11)), Kind::Object(r.name(12))]);
            assert(r.kinds(r.variant(41, 1)) =~= set![Kind::Iri]);
        }
    }
}

proof fn lemma_mixed_55(r: &Schema)
    requires
        r.wf(),
        r.len() == 90,
        forall|e: int| 0 <= e < r.len() ==> r.name(e) == owl_name(e) && r.shape(e)@ == owl_shape(e),
    ensures
        forall|i: int, j: int|
            #![trigger r.variant(55, i), r.variant(55, j)]
            0 <= i < j < variants(r.shape(55)).len() ==> r.kinds(r.variant(55, i)).disjoint(r.kinds(r.variant(55, j))),
{
    lemma_at(r, 55);
    lemma_shape_view(r.shape(55));
    lemma_kinds_9(r);
    assert(r.name(3) != r.name(8));
    assert forall|i: int, j: int|
        #![trigger r.variant(55, i), r.variant(55, j)]
        0 <= i < j < variants(r.shape(55)).len() implies r.kinds(r.variant(55, i)).disjoint(r.kinds(r.variant(55, j))) by {
        if i == 0 && j == 1 {
            assert(r.kinds(r.variant(55, 0)) =~= set![Kind::List]);
            assert(r.kinds(r.variant(55, 1)) =~= set![Kind::Object(r.name(3)), Kind::Object(r.name(8))]);
        }
    }
}

/// No two variants of a union of the ontology table accept a common kind.
pub proof fn lemma_owl_unambiguous(r: &Schema)
    requires
        r.wf(),
        r.len() == 90,
        forall|e: int| 0 <= e < r.len() ==> r.name(e) == owl_name(e) && r.shape(e)@ == owl_shape(e),
    ensures
        r.unambiguous(),
{
    assert forall|e: int, i: int, j: int|
        #![trigger r.variant(e, i), r.variant(e, j)]
        0 <= e < r.len() && 0 <= i < j < variants(r.shape(e)).len()
            implies r.kinds(r.variant(e, i)).disjoint(r.kinds(r.variant(e, j))) by {
        if e == 7 {
            lemma_plain_7(r);
            lemma_plain_disjoint(r, 7);
        } else if e == 9 {
            lemma_plain_9(r);
            lemma_plain_disjoint(r, 9);
        } else if e == 13 {
            lemma_plain_13(r);
            lemma_plain_disjoint(r, 13);
        } else if e == 20 {
            lemma_plain_20(r);
            lemma_plain_disjoint(r, 20);
        } else if e == 38 {
            lemma_plain_38(r);
            lemma_plain_disjoint(r, 38);
        } else if e == 39 {
            lemma_mixed_39(r);
        } else if e == 40 {
            lemma_mixed_40(r);
        } else if e == 41 {
            lemma_mixed_41(r);
        } else if e == 55 {
            lemma_mixed_55(r);
        } else if e == 88 {
            lemma_plain_88(r);
            lemma_plain_disjoint(r, 88);
        } else {
            lemma_at(r, e);
            lemma_shape_view(r.shape(e));
        }
    }
}

} // verus!
