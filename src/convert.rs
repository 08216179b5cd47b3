use vstd::prelude::*;
use std::cmp::Ordering;
use crate::value::{Host, Val};
use crate::order::compare;
use crate::schema::{
    Schema, Shape, Ty, Leaf, rank, entity_rank, field_count, field_name, field_ty, variants,
};

verus! {

/// The mathematical model of a bridge failure.
pub enum Fault {
    /// A name that the entity does not declare.
    UnknownField(Seq<char>),
    /// A record could not be decoded: the named field is missing or failed.
    DecodeFailure(Seq<char>),
    /// No variant of a union accepted the value.
    NoVariantMatched,
    /// The value is not of the kind, class or range that its type needs.
    TypeMismatch,
}

/// Where the first attribute of that name stands, or -1.
pub open spec fn find_attr(attrs: Seq<(Seq<char>, Host)>, name: Seq<char>) -> int {
    if exists|k: int|
        0 <= k < attrs.len() && attrs[k].0 == name && forall|j: int|
            0 <= j < k ==> attrs[j].0 != name {
        choose|k: int|
            0 <= k < attrs.len() && attrs[k].0 == name && forall|j: int|
                0 <= j < k ==> attrs[j].0 != name
    } else {
        -1
    }
}

/// The sequence with `x` put in order: before the first element above it,
/// or nowhere if an equal element is there.
pub open spec fn insert_sorted(s: Seq<Val>, x: Val) -> Seq<Val>
    decreases s.len(),
{
    if s.len() == 0 {
        seq![x]
    } else {
        match compare(x, s[0]) {
            Ordering::Less => seq![x] + s,
            Ordering::Equal => s,
            Ordering::Greater => seq![s[0]] + insert_sorted(s.drop_first(), x),
        }
    }
}

/// The elements each once, in ascending order.
pub open spec fn sorted_set(xs: Seq<Val>) -> Seq<Val>
    decreases xs.len(),
{
    if xs.len() == 0 {
        xs
    } else {
        insert_sorted(sorted_set(xs.drop_last()), xs.last())
    }
}

pub open spec fn strictly_sorted(xs: Seq<Val>) -> bool {
    forall|i: int, j: int| 0 <= i < j < xs.len() ==> compare(xs[i], xs[j]) == Ordering::Less
}

pub open spec fn distinct(xs: Seq<Val>) -> bool {
    forall|i: int, j: int| 0 <= i < j < xs.len() ==> xs[i] != xs[j]
}

pub open spec fn u32_max() -> int {
    0xffff_ffff
}

impl Schema {
    /// What decoding a host value at a type gives.
    pub open spec fn decode(&self, ty: Ty, h: Host) -> Result<Val, Fault>
        decreases h, rank(ty), 0nat,
    {
        match ty {
            Ty::Int => match h {
                Host::Int(i) => if 0 <= i <= u32_max() {
                    Ok(Val::Int(i as u32))
                } else {
                    Err(Fault::TypeMismatch)
                },
                _ => Err(Fault::TypeMismatch),
            },
            Ty::Text => match h {
                Host::Str(t) => Ok(Val::Text(t)),
                _ => Err(Fault::TypeMismatch),
            },
            Ty::Leaf(Leaf::Iri) => match h {
                Host::Iri(t) => Ok(Val::Iri(t)),
                _ => Err(Fault::TypeMismatch),
            },
            Ty::Leaf(Leaf::Anon) => match h {
                Host::Str(t) => Ok(Val::Anon(t)),
                _ => Err(Fault::TypeMismatch),
            },
            Ty::Leaf(Leaf::Facet) => match h {
                Host::Facet(f) => Ok(Val::Facet(f)),
                _ => Err(Fault::TypeMismatch),
            },
            Ty::Entity(e) => self.decode_entity(e as nat, h),
            Ty::Owned(e) => match self.decode_entity(e as nat, h) {
                Ok(x) => Ok(Val::Owned(Box::new(x))),
                Err(f) => Err(f),
            },
            Ty::List(e) => match h {
                Host::List(items) => match self.decode_items(e as nat, items) {
                    Ok(xs) => Ok(Val::List(xs)),
                    Err(f) => Err(f),
                },
                _ => Err(Fault::TypeMismatch),
            },
            Ty::Unique(e) => match h {
                Host::List(items) => match self.decode_items(e as nat, items) {
                    Ok(xs) => Ok(Val::Unique(sorted_set(xs))),
                    Err(f) => Err(f),
                },
                Host::Unique(items) => match self.decode_items(e as nat, items) {
                    Ok(xs) => Ok(Val::Unique(sorted_set(xs))),
                    Err(f) => Err(f),
                },
                _ => Err(Fault::TypeMismatch),
            },
        }
    }

    /// Decoding at an entity: a record checks the class and decodes its fields;
    /// a union takes the first variant, in declared order, that accepts.
    pub open spec fn decode_entity(&self, e: nat, h: Host) -> Result<Val, Fault>
        decreases h, entity_rank(e), 0nat,
    {
        if e >= self.len() {
            Err(Fault::TypeMismatch)
        } else {
            match self.shape(e as int) {
                Shape::Union(_) => self.decode_variants(e, h, 0),
                _ => match h {
                    Host::Object(c, _) => if c == self.name(e as int) {
                        match self.decode_fields(e, h, 0) {
                            Ok(xs) => Ok(Val::Fields(xs)),
                            Err(f) => Err(f),
                        }
                    } else {
                        Err(Fault::TypeMismatch)
                    },
                    _ => Err(Fault::TypeMismatch),
                },
            }
        }
    }

    /// Fields `i..` of record `e`, each looked up by name in the object `h`.
    pub open spec fn decode_fields(&self, e: nat, h: Host, i: nat) -> Result<Seq<Val>, Fault>
        decreases h, (entity_rank(e) - 1) as nat, field_count(self.shape(e as int)) - i,
    {
        if e >= self.len() || i >= field_count(self.shape(e as int)) || !(h is Object) {
            Ok(Seq::empty())
        } else {
            let sh = self.shape(e as int);
            let attrs = h->Object_1;
            let name = field_name(sh, i as int);
            let k = find_attr(attrs, name);
            if k < 0 {
                Err(Fault::DecodeFailure(name))
            } else {
                match self.decode(field_ty(sh, i as int), attrs[k].1) {
                    Err(_) => Err(Fault::DecodeFailure(name)),
                    Ok(x) => match self.decode_fields(e, h, i + 1) {
                        Ok(rest) => Ok(seq![x] + rest),
                        Err(f) => Err(f),
                    },
                }
            }
        }
    }

    /// The first variant of union `e` from position `i` on that accepts `h`.
    pub open spec fn decode_variants(&self, e: nat, h: Host, i: nat) -> Result<Val, Fault>
        decreases h, (entity_rank(e) - 1) as nat, variants(self.shape(e as int)).len() - i,
    {
        let vs = variants(self.shape(e as int));
        if e >= self.len() || i >= vs.len() {
            Err(Fault::NoVariantMatched)
        } else if rank(vs[i as int]) <= 3 * e {
            match self.decode(vs[i as int], h) {
                Ok(x) => Ok(Val::Variant(i, Box::new(x))),
                Err(_) => self.decode_variants(e, h, i + 1),
            }
        } else {
            self.decode_variants(e, h, i + 1)
        }
    }

    /// Each item decoded at entity `e`; the first failure stops it.
    pub open spec fn decode_items(&self, e: nat, items: Seq<Host>) -> Result<Seq<Val>, Fault>
        decreases items, 0nat, 0nat,
    {
        if items.len() == 0 {
            Ok(Seq::empty())
        } else {
            match self.decode_items(e, items.drop_last()) {
                Err(f) => Err(f),
                Ok(xs) => match self.decode_entity(e, items.last()) {
                    Ok(x) => Ok(xs.push(x)),
                    Err(f) => Err(f),
                },
            }
        }
    }
}


impl Schema {
    /// What encoding a native value at a type gives.
    pub open spec fn encode(&self, ty: Ty, v: Val) -> Host
        decreases v, rank(ty), 0nat,
    {
        match ty {
            Ty::Entity(e) => self.encode_entity(e as nat, v),
            Ty::Owned(e) => match v {
                Val::Owned(b) => self.encode_entity(e as nat, *b),
                _ => Host::List(Seq::empty()),
            },
            Ty::List(e) => match v {
                Val::List(xs) => Host::List(self.encode_items(e as nat, xs)),
                _ => Host::List(Seq::empty()),
            },
            Ty::Unique(e) => match v {
                Val::Unique(xs) => Host::Unique(self.encode_items(e as nat, xs)),
                _ => Host::List(Seq::empty()),
            },
            _ => match v {
                Val::Int(n) => Host::Int(n as int),
                Val::Text(t) => Host::Str(t),
                Val::Iri(t) => Host::Iri(t),
                Val::Anon(t) => Host::Str(t),
                Val::Facet(f) => Host::Facet(f),
                _ => Host::List(Seq::empty()),
            },
        }
    }

    /// Encoding at an entity: a record becomes an object of its class; a
    /// union value is encoded as its variant's type says.
    pub open spec fn encode_entity(&self, e: nat, v: Val) -> Host
        decreases v, entity_rank(e), 0nat,
    {
        if e >= self.len() {
            Host::List(Seq::empty())
        } else {
            match self.shape(e as int) {
                Shape::Union(vs) => match v {
                    Val::Variant(i, b) => if i < vs@.len() && rank(vs@[i as int]) <= 3 * e {
                        self.encode(vs@[i as int], *b)
                    } else {
                        Host::List(Seq::empty())
                    },
                    _ => Host::List(Seq::empty()),
                },
                _ => match v {
                    Val::Fields(xs) => Host::Object(self.name(e as int), self.encode_fields(e, xs, 0)),
                    _ => Host::List(Seq::empty()),
                },
            }
        }
    }

    /// Attributes for fields `i..` of record `e`, named as declared.
    pub open spec fn encode_fields(&self, e: nat, xs: Seq<Val>, i: nat) -> Seq<(Seq<char>, Host)>
        decreases xs, (entity_rank(e) - 1) as nat, field_count(self.shape(e as int)) - i,
    {
        let sh = self.shape(e as int);
        if e >= self.len() || i >= field_count(sh) || i >= xs.len() {
            Seq::empty()
        } else {
            seq![(field_name(sh, i as int), self.encode(field_ty(sh, i as int), xs[i as int]))]
                + self.encode_fields(e, xs, i + 1)
        }
    }

    pub open spec fn encode_items(&self, e: nat, xs: Seq<Val>) -> Seq<Host>
        decreases xs, 0nat, 0nat,
    {
        if xs.len() == 0 {
            Seq::empty()
        } else {
            self.encode_items(e, xs.drop_last()).push(self.encode_entity(e, xs.last()))
        }
    }

    /// A native value is laid out as its type says.
    pub open spec fn conforms(&self, ty: Ty, v: Val) -> bool
        decreases v, rank(ty), 0nat,
    {
        match ty {
            Ty::Int => v is Int,
            Ty::Text => v is Text,
            Ty::Leaf(Leaf::Iri) => v is Iri,
            Ty::Leaf(Leaf::Anon) => v is Anon,
            Ty::Leaf(Leaf::Facet) => v is Facet,
            Ty::Entity(e) => self.conforms_entity(e as nat, v),
            Ty::Owned(e) => match v {
                Val::Owned(b) => self.conforms_entity(e as nat, *b),
                _ => false,
            },
            Ty::List(e) => match v {
                Val::List(xs) => self.conforms_items(e as nat, xs),
                _ => false,
            },
            Ty::Unique(e) => match v {
                Val::Unique(xs) => self.conforms_items(e as nat, xs) && strictly_sorted(xs),
                _ => false,
            },
        }
    }

    pub open spec fn conforms_entity(&self, e: nat, v: Val) -> bool
        decreases v, entity_rank(e), 0nat,
    {
        if e >= self.len() {
            false
        } else {
            match self.shape(e as int) {
                Shape::Union(vs) => match v {
                    Val::Variant(i, b) => i < vs@.len() && rank(vs@[i as int]) <= 3 * e
                        && self.conforms(vs@[i as int], *b),
                    _ => false,
                },
                sh => match v {
                    Val::Fields(xs) => xs.len() == field_count(sh) && self.conforms_fields(e, xs, 0),
                    _ => false,
                },
            }
        }
    }

    pub open spec fn conforms_fields(&self, e: nat, xs: Seq<Val>, i: nat) -> bool
        decreases xs, (entity_rank(e) - 1) as nat, field_count(self.shape(e as int)) - i,
    {
        let sh = self.shape(e as int);
        if e >= self.len() || i >= field_count(sh) || i >= xs.len() {
            true
        } else {
            self.conforms(field_ty(sh, i as int), xs[i as int]) && self.conforms_fields(e, xs, i + 1)
        }
    }

    pub open spec fn conforms_items(&self, e: nat, xs: Seq<Val>) -> bool
        decreases xs, 0nat, 0nat,
    {
        if xs.len() == 0 {
            true
        } else {
            self.conforms_items(e, xs.drop_last()) && self.conforms_entity(e, xs.last())
        }
    }
}

} // verus!
