use vstd::prelude::*;
use crate::value::{
    HostValue, Host, Value, Val, IRI, StringWrapper, VecWrap, BoxWrap, BTreeSetWrap, host_views,
    attr_views, value_views, lemma_host_views, lemma_attr_views, lemma_value_views,
    lemma_value_views_ext,
};
use crate::schema::{Schema, Shape, Ty, Leaf, rank, entity_rank, field_count, variants};
use std::cmp::Ordering;
use crate::convert::{Fault, find_attr, insert_sorted, sorted_set};
use crate::order::{value_cmp, compare};

verus! {

/// A failure of conversion or reflection.
#[derive(Debug)]
pub enum BridgeError {
    UnknownField(String),
    DecodeFailure(String),
    NoVariantMatched,
    TypeMismatch,
}

impl BridgeError {
    pub open spec fn view(&self) -> Fault {
        match self {
            BridgeError::UnknownField(n) => Fault::UnknownField(n@),
            BridgeError::DecodeFailure(n) => Fault::DecodeFailure(n@),
            BridgeError::NoVariantMatched => Fault::NoVariantMatched,
            BridgeError::TypeMismatch => Fault::TypeMismatch,
        }
    }
}

pub open spec fn decoded(r: Result<Value, BridgeError>) -> Result<Val, Fault> {
    match r {
        Ok(v) => Ok(v@),
        Err(f) => Err(f@),
    }
}

pub open spec fn decoded_all(r: Result<Vec<Value>, BridgeError>) -> Result<Seq<Val>, Fault> {
    match r {
        Ok(v) => Ok(value_views(v@)),
        Err(f) => Err(f@),
    }
}

/// Whether two native values are equal.
pub fn value_eq(a: &Value, b: &Value) -> (r: bool)
    ensures
        r == (a@ == b@),
    decreases a,
{
    match (a, b) {
        (Value::Int(x), Value::Int(y)) => *x == *y,
        (Value::Text(x), Value::Text(y)) => x.eq(y),
        (Value::Iri(x), Value::Iri(y)) => x.0.eq(&y.0),
        (Value::Anon(x), Value::Anon(y)) => x.0.eq(&y.0),
        (Value::Facet(x), Value::Facet(y)) => *x == *y,
        (Value::Fields(x), Value::Fields(y)) => values_eq(x, y),
        (Value::Variant(i, x), Value::Variant(j, y)) => {
            if *i != *j {
                false
            } else {
                value_eq(x, y)
            }
        },
        (Value::List(x), Value::List(y)) => values_eq(&x.0, &y.0),
        (Value::Owned(x), Value::Owned(y)) => value_eq(&x.0, &y.0),
        (Value::Unique(x), Value::Unique(y)) => values_eq(&x.0, &y.0),
        _ => false,
    }
}

/// Whether two sequences of native values are equal.
pub fn values_eq(a: &Vec<Value>, b: &Vec<Value>) -> (r: bool)
    ensures
        r == (value_views(a@) == value_views(b@)),
    decreases a,
{
    proof {
        lemma_value_views(a@);
        lemma_value_views(b@);
    }
    if a.len() != b.len() {
        return false;
    }
    let mut i: usize = 0;
    while i < a.len()
        invariant
            a.len() == b.len(),
            i <= a.len(),
            forall|j: int| 0 <= j < i ==> a@[j]@ == b@[j]@,
            value_views(a@).len() == a@.len(),
            value_views(b@).len() == b@.len(),
            forall|j: int| 0 <= j < a@.len() ==> #[trigger] value_views(a@)[j] == a@[j]@,
            forall|j: int| 0 <= j < b@.len() ==> #[trigger] value_views(b@)[j] == b@[j]@,
        decreases a.len() - i,
    {
        if !value_eq(&a[i], &b[i]) {
            assert(value_views(a@)[i as int] != value_views(b@)[i as int]);
            return false;
        }
        i += 1;
    }
    proof {
        lemma_value_views_ext(a@, b@);
    }
    true
}

proof fn lemma_insert_step(v: Seq<Val>, k: int, x: Val)
    requires
        0 <= k < v.len(),
        compare(x, v[k]) == Ordering::Greater,
    ensures
        v.subrange(0, k) + insert_sorted(v.subrange(k, v.len() as int), x) == v.subrange(0, k + 1)
            + insert_sorted(v.subrange(k + 1, v.len() as int), x),
{
    let rest = v.subrange(k, v.len() as int);
    assert(rest[0] == v[k]);
    assert(rest.drop_first() =~= v.subrange(k + 1, v.len() as int));
    assert(v.subrange(0, k) + (seq![rest[0]] + insert_sorted(rest.drop_first(), x)) =~= v.subrange(0, k + 1)
        + insert_sorted(v.subrange(k + 1, v.len() as int), x));
}

proof fn lemma_insert_here(v: Seq<Val>, k: int, x: Val)
    requires
        0 <= k <= v.len(),
        k < v.len() ==> compare(x, v[k]) != Ordering::Greater,
    ensures
        k == v.len() ==> v.subrange(0, k) + insert_sorted(v.subrange(k, v.len() as int), x) == v.push(x),
        k < v.len() && compare(x, v[k]) == Ordering::Less ==> v.subrange(0, k) + insert_sorted(
            v.subrange(k, v.len() as int),
            x,
        ) == v.insert(k, x),
        k < v.len() && compare(x, v[k]) == Ordering::Equal ==> v.subrange(0, k) + insert_sorted(
            v.subrange(k, v.len() as int),
            x,
        ) == v,
{
    let rest = v.subrange(k, v.len() as int);
    if k == v.len() {
        assert(rest =~= Seq::<Val>::empty());
        assert(v.subrange(0, k) + seq![x] =~= v.push(x));
    } else {
        assert(rest[0] == v[k]);
        assert(v.subrange(0, k) + (seq![x] + rest) =~= v.insert(k, x));
        assert(v.subrange(0, k) + rest =~= v);
    }
}

/// Puts `x` in order into an ascending sequence, unless an equal value is there.
pub fn insert_value(s: &mut Vec<Value>, x: Value)
    ensures
        value_views(final(s)@) == insert_sorted(value_views(old(s)@), x@),
{
    let ghost v = value_views(s@);
    proof {
        lemma_value_views(s@);
        assert(v.subrange(0, 0) + v.subrange(0, v.len() as int) =~= v);
    }
    let n = s.len();
    let mut k: usize = 0;
    let mut found = false;
    while k < n && !found
        invariant
            n == s@.len(),
            v == value_views(s@),
            v.len() == n,
            forall|j: int| 0 <= j < n ==> #[trigger] v[j] == s@[j]@,
            k <= n,
            found ==> k < n && compare(x@, v[k as int]) != Ordering::Greater,
            insert_sorted(v, x@) == v.subrange(0, k as int) + insert_sorted(v.subrange(k as int, n as int), x@),
        decreases 2 * (n - k) + if found { 0int } else { 1int },
    {
        let o = value_cmp(&x, &s[k]);
        match o {
            Ordering::Greater => {
                proof {
                    lemma_insert_step(v, k as int, x@);
                }
                k += 1;
            },
            _ => {
                found = true;
            },
        }
    }
    proof {
        lemma_insert_here(v, k as int, x@);
    }
    if !found {
        s.push(x);
        proof {
            lemma_value_views(s@);
            assert(value_views(s@) =~= v.push(x@));
        }
    } else {
        match value_cmp(&x, &s[k]) {
            Ordering::Less => {
                s.insert(k, x);
                proof {
                    lemma_value_views(s@);
                    assert(value_views(s@) =~= v.insert(k as int, x@));
                }
            },
            _ => {},
        }
    }
}

/// The values each once, in ascending order.
pub fn sorted_values(xs: Vec<Value>) -> (r: Vec<Value>)
    ensures
        value_views(r@) == sorted_set(value_views(xs@)),
    decreases xs@.len(),
{
    let ghost orig = xs@;
    let mut xs = xs;
    match xs.pop() {
        None => {
            proof {
                lemma_value_views(orig);
            }
            xs
        },
        Some(x) => {
            proof {
                lemma_value_views(orig);
                assert(orig.drop_last() =~= xs@);
                assert(value_views(orig).drop_last() =~= value_views(xs@)) by {
                    lemma_value_views(xs@);
                }
            }
            let mut d = sorted_values(xs);
            insert_value(&mut d, x);
            d
        },
    }
}

/// Where the first attribute of that name stands.
pub fn find_attr_index(attrs: &Vec<(String, HostValue)>, name: &String) -> (r: Option<usize>)
    ensures
        match r {
            Some(k) => find_attr(attr_views(attrs@), name@) == k as int && k < attrs@.len(),
            None => find_attr(attr_views(attrs@), name@) == -1,
        },
{
    proof {
        lemma_attr_views(attrs@);
    }
    let ghost av = attr_views(attrs@);
    let mut i: usize = 0;
    while i < attrs.len()
        invariant
            i <= attrs.len(),
            av == attr_views(attrs@),
            av.len() == attrs@.len(),
            forall|j: int| 0 <= j < attrs@.len() ==> #[trigger] av[j] == (attrs@[j].0@, attrs@[j].1@),
            forall|j: int| 0 <= j < i ==> av[j].0 != name@,
        decreases attrs.len() - i,
    {
        if attrs[i].0.eq(name) {
            proof {
                let k = find_attr(av, name@);
                assert(av[i as int].0 == name@);
                assert(0 <= k < av.len() && av[k].0 == name@);
                if k < i {
                    assert(av[k].0 != name@);
                } else if k > i {
                    assert(av[i as int].0 != name@);
                }
            }
            return Some(i);
        }
        i += 1;
    }
    None
}

fn below(ty: Ty, e: usize) -> (r: bool)
    ensures
        r == (rank(ty) <= 3 * e),
{
    match ty {
        Ty::Entity(j) => j < e,
        Ty::Owned(j) => j < e,
        _ => true,
    }
}

impl Schema {
    /// Decodes a host value at a type.
    pub fn decode_value(&self, ty: Ty, h: &HostValue) -> (r: Result<Value, BridgeError>)
        ensures
            decoded(r) == self.decode(ty, h@),
        decreases h, rank(ty), 0nat,
    {
        match ty {
            Ty::Int => match h {
                HostValue::Int(i) => if 0 <= *i && *i <= 0xffff_ffff {
                    Ok(Value::Int(*i as u32))
                } else {
                    Err(BridgeError::TypeMismatch)
                },
                _ => Err(BridgeError::TypeMismatch),
            },
            Ty::Text => match h {
                HostValue::Str(t) => Ok(Value::Text(t.clone())),
                _ => Err(BridgeError::TypeMismatch),
            },
            Ty::Leaf(Leaf::Iri) => match h {
                HostValue::Iri(t) => Ok(Value::Iri(IRI(t.clone()))),
                _ => Err(BridgeError::TypeMismatch),
            },
            Ty::Leaf(Leaf::Anon) => match h {
                HostValue::Str(t) => Ok(Value::Anon(StringWrapper(t.clone()))),
                _ => Err(BridgeError::TypeMismatch),
            },
            Ty::Leaf(Leaf::Facet) => match h {
                HostValue::Facet(f) => Ok(Value::Facet(*f)),
                _ => Err(BridgeError::TypeMismatch),
            },
            Ty::Entity(e) => self.decode_entity_value(e, h),
            Ty::Owned(e) => match self.decode_entity_value(e, h) {
                Ok(x) => Ok(Value::Owned(BoxWrap(Box::new(x)))),
                Err(f) => Err(f),
            },
            Ty::List(e) => match h {
                HostValue::List(items) => match {
                    proof {
                        lemma_host_views(items@);
                        assert(host_views(items@).subrange(0, items@.len() as int) =~= host_views(items@));
                    }
                    self.decode_items_value(e, items, items.len())
                } {
                    Ok(xs) => Ok(Value::List(VecWrap(xs))),
                    Err(f) => Err(f),
                },
                _ => Err(BridgeError::TypeMismatch),
            },
            Ty::Unique(e) => match h {
                HostValue::List(items) => match {
                    proof {
                        lemma_host_views(items@);
                        assert(host_views(items@).subrange(0, items@.len() as int) =~= host_views(items@));
                    }
                    self.decode_items_value(e, items, items.len())
                } {
                    Ok(xs) => Ok(Value::Unique(BTreeSetWrap(sorted_values(xs)))),
                    Err(f) => Err(f),
                },
                HostValue::Unique(items) => match {
                    proof {
                        lemma_host_views(items@);
                        assert(host_views(items@).subrange(0, items@.len() as int) =~= host_views(items@));
                    }
                    self.decode_items_value(e, items, items.len())
                } {
                    Ok(xs) => Ok(Value::Unique(BTreeSetWrap(sorted_values(xs)))),
                    Err(f) => Err(f),
                },
                _ => Err(BridgeError::TypeMismatch),
            },
        }
    }

    /// Decodes a host value as entity `e`.
    pub fn decode_entity_value(&self, e: usize, h: &HostValue) -> (r: Result<Value, BridgeError>)
        ensures
            decoded(r) == self.decode_entity(e as nat, h@),
        decreases h, entity_rank(e as nat), 0nat,
    {
        if e >= self.entities.len() {
            return Err(BridgeError::TypeMismatch);
        }
        let ent = &self.entities[e];
        match &ent.shape {
            Shape::Union(_) => self.decode_variants_value(e, h, 0),
            _ => match h {
                HostValue::Object(c, _) => if c.eq(&ent.name) {
                    match self.decode_fields_value(e, h, 0) {
                        Ok(xs) => Ok(Value::Fields(xs)),
                        Err(f) => Err(f),
                    }
                } else {
                    Err(BridgeError::TypeMismatch)
                },
                _ => Err(BridgeError::TypeMismatch),
            },
        }
    }

    fn decode_fields_value(&self, e: usize, h: &HostValue, i: usize) -> (r: Result<Vec<Value>, BridgeError>)
        requires
            e < self.len(),
            i <= field_count(self.shape(e as int)),
        ensures
            decoded_all(r) == self.decode_fields(e as nat, h@, i as nat),
        decreases h, (entity_rank(e as nat) - 1) as nat, field_count(self.shape(e as int)) - i,
    {
        let sh = &self.entities[e].shape;
        if i >= sh.field_count() {
            proof {
                lemma_value_views(Seq::<Value>::empty());
            }
            return Ok(Vec::new());
        }
        match h {
            HostValue::Object(_, attrs) => {
                let name = sh.field_name(i);
                proof {
                    lemma_attr_views(attrs@);
                }
                match find_attr_index(attrs, &name) {
                    None => Err(BridgeError::DecodeFailure(name)),
                    Some(k) => match self.decode_value(sh.field_ty(i), &attrs[k].1) {
                        Err(_) => Err(BridgeError::DecodeFailure(name)),
                        Ok(x) => match self.decode_fields_value(e, h, i + 1) {
                            Ok(rest) => {
                                let ghost before = rest@;
                                let mut rest = rest;
                                rest.insert(0, x);
                                proof {
                                    lemma_value_views(before);
                                    lemma_value_views(rest@);
                                    assert(value_views(rest@) =~= seq![x@] + value_views(before));
                                }
                                Ok(rest)
                            },
                            Err(f) => Err(f),
                        },
                    },
                }
            },
            _ => {
                proof {
                    lemma_value_views(Seq::<Value>::empty());
                }
                Ok(Vec::new())
            },
        }
    }

    fn decode_variants_value(&self, e: usize, h: &HostValue, i: usize) -> (r: Result<Value, BridgeError>)
        requires
            e < self.len(),
        ensures
            decoded(r) == self.decode_variants(e as nat, h@, i as nat),
        decreases h, (entity_rank(e as nat) - 1) as nat, variants(self.shape(e as int)).len() - i,
    {
        match &self.entities[e].shape {
            Shape::Union(vs) => {
                if i >= vs.len() {
                    return Err(BridgeError::NoVariantMatched);
                }
                let ty = vs[i];
                if below(ty, e) {
                    match self.decode_value(ty, h) {
                        Ok(x) => Ok(Value::Variant(i, Box::new(x))),
                        Err(_) => self.decode_variants_value(e, h, i + 1),
                    }
                } else {
                    self.decode_variants_value(e, h, i + 1)
                }
            },
            _ => Err(BridgeError::NoVariantMatched),
        }
    }

    /// Decodes the first `n` items, each as entity `e`.
    fn decode_items_value(&self, e: usize, items: &Vec<HostValue>, n: usize) -> (r: Result<Vec<Value>, BridgeError>)
        requires
            n <= items@.len(),
        ensures
            decoded_all(r) == self.decode_items(e as nat, host_views(items@).subrange(0, n as int)),
        decreases items, 0nat, n,
    {
        proof {
            lemma_host_views(items@);
        }
        let ghost hs = host_views(items@).subrange(0, n as int);
        if n == 0 {
            proof {
                lemma_value_views(Seq::<Value>::empty());
            }
            return Ok(Vec::new());
        }
        proof {
            assert(hs.drop_last() =~= host_views(items@).subrange(0, n - 1));
        }
        match self.decode_items_value(e, items, n - 1) {
            Err(f) => Err(f),
            Ok(xs) => match self.decode_entity_value(e, &items[n - 1]) {
                Ok(x) => {
                    let ghost before = xs@;
                    let mut xs = xs;
                    xs.push(x);
                    proof {
                        assert(xs@.drop_last() =~= before);
                    }
                    Ok(xs)
                },
                Err(f) => Err(f),
            },
        }
    }
}


impl Schema {
    /// Encodes a native value at a type; this never fails.
    pub fn encode_value(&self, ty: Ty, v: &Value) -> (r: HostValue)
        ensures
            r@ == self.encode(ty, v@),
        decreases v, rank(ty), 0nat,
    {
        match ty {
            Ty::Entity(e) => self.encode_entity_value(e, v),
            Ty::Owned(e) => match v {
                Value::Owned(b) => self.encode_entity_value(e, &b.0),
                _ => empty_host(),
            },
            Ty::List(e) => match v {
                Value::List(xs) => {
                    proof {
                        lemma_value_views(xs.0@);
                        assert(value_views(xs.0@).subrange(0, xs.0@.len() as int) =~= value_views(xs.0@));
                    }
                    HostValue::List(self.encode_items_value(e, &xs.0, xs.0.len()))
                },
                _ => empty_host(),
            },
            Ty::Unique(e) => match v {
                Value::Unique(xs) => {
                    proof {
                        lemma_value_views(xs.0@);
                        assert(value_views(xs.0@).subrange(0, xs.0@.len() as int) =~= value_views(xs.0@));
                    }
                    HostValue::Unique(self.encode_items_value(e, &xs.0, xs.0.len()))
                },
                _ => empty_host(),
            },
            _ => match v {
                Value::Int(n) => HostValue::Int(*n as i64),
                Value::Text(t) => HostValue::Str(t.clone()),
                Value::Iri(t) => HostValue::Iri(t.0.clone()),
                Value::Anon(t) => HostValue::Str(t.0.clone()),
                Value::Facet(f) => HostValue::Facet(*f),
                _ => empty_host(),
            },
        }
    }

    /// Encodes a native value as entity `e`.
    pub fn encode_entity_value(&self, e: usize, v: &Value) -> (r: HostValue)
        ensures
            r@ == self.encode_entity(e as nat, v@),
        decreases v, entity_rank(e as nat), 0nat,
    {
        if e >= self.entities.len() {
            return empty_host();
        }
        let ent = &self.entities[e];
        match &ent.shape {
            Shape::Union(vs) => match v {
                Value::Variant(i, b) => if *i < vs.len() && below(vs[*i], e) {
                    self.encode_value(vs[*i], b)
                } else {
                    empty_host()
                },
                _ => empty_host(),
            },
            _ => match v {
                Value::Fields(xs) => HostValue::Object(ent.name.clone(), self.encode_fields_value(e, xs, 0)),
                _ => empty_host(),
            },
        }
    }

    fn encode_fields_value(&self, e: usize, xs: &Vec<Value>, i: usize) -> (r: Vec<(String, HostValue)>)
        requires
            e < self.len(),
        ensures
            attr_views(r@) == self.encode_fields(e as nat, value_views(xs@), i as nat),
        decreases xs, (entity_rank(e as nat) - 1) as nat, field_count(self.shape(e as int)) - i,
    {
        proof {
            lemma_value_views(xs@);
        }
        let sh = &self.entities[e].shape;
        if i >= sh.field_count() || i >= xs.len() {
            proof {
                lemma_attr_views(Seq::<(String, HostValue)>::empty());
            }
            return Vec::new();
        }
        let name = sh.field_name(i);
        let h = self.encode_value(sh.field_ty(i), &xs[i]);
        let rest = self.encode_fields_value(e, xs, i + 1);
        let ghost before = rest@;
        let mut rest = rest;
        rest.insert(0, (name, h));
        proof {
            lemma_attr_views(before);
            lemma_attr_views(rest@);
            assert(attr_views(rest@) =~= seq![(name@, h@)] + attr_views(before));
        }
        rest
    }

    /// Encodes the first `n` values, each as entity `e`.
    fn encode_items_value(&self, e: usize, xs: &Vec<Value>, n: usize) -> (r: Vec<HostValue>)
        requires
            n <= xs@.len(),
        ensures
            host_views(r@) == self.encode_items(e as nat, value_views(xs@).subrange(0, n as int)),
        decreases xs, 0nat, n,
    {
        proof {
            lemma_value_views(xs@);
        }
        let ghost vs = value_views(xs@).subrange(0, n as int);
        if n == 0 {
            return Vec::new();
        }
        proof {
            assert(vs.drop_last() =~= value_views(xs@).subrange(0, n - 1));
        }
        let mut out = self.encode_items_value(e, xs, n - 1);
        let h = self.encode_entity_value(e, &xs[n - 1]);
        let ghost before = out@;
        out.push(h);
        proof {
            assert(out@.drop_last() =~= before);
        }
        out
    }
}

fn empty_host() -> (r: HostValue)
    ensures
        r@ == Host::List(Seq::empty()),
{
    let r = HostValue::List(Vec::new());
    proof {
        assert(host_views(Seq::<HostValue>::empty()) =~= Seq::<Host>::empty());
    }
    r
}

} // verus!
