use vstd::prelude::*;
use horned_owl::model::{ArcStr, Build};
use crate::value::IRI;

verus! {

#[verifier::external_type_specification]
#[verifier::external_body]
#[verifier::reject_recursive_types(A)]
pub struct ExBuild<A>(Build<A>);

/// Relies on horned_owl's `Build::new_arc`: a fresh builder whose IRIs share
/// their text.
#[verifier::external_body]
fn new_builder() -> (r: Build<ArcStr>) {
    Build::new_arc()
}

/// Relies on horned_owl's `Build::iri`: the IRI it hands out, whether cached
/// or new, holds exactly the given text, which `IRI`'s `Display` writes out.
#[verifier::external_body]
fn build_iri(build: &Build<ArcStr>, text: &str) -> (r: String)
    ensures
        r@ == text@,
{
    build.iri(text).to_string()
}

impl IRI {
    /// An IRI of the given text, made by a builder of its own.
    pub fn parse(value: String) -> (r: IRI)
        ensures
            r.0@ == value@,
    {
        let builder = new_builder();
        IRI(build_iri(&builder, value.as_str()))
    }

    /// An IRI of the given text, made by the given builder.
    pub fn new(iri: &str, build: &Build<ArcStr>) -> (r: IRI)
        ensures
            r.0@ == iri@,
    {
        IRI(build_iri(build, iri))
    }
}

} // verus!
