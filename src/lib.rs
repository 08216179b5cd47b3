//! A schema-driven bridge between a native ontology value model and a
//! dynamically typed host value model: conversion in both directions,
//! name-based field access and interface text, all driven by one schema.

pub mod value;
pub mod schema;
pub mod convert;
pub mod codec;
pub mod reflect;
pub mod stub;
pub mod laws;
pub mod iri;
pub mod owl;
pub mod order;
pub mod kinds;
pub mod owl_laws;
