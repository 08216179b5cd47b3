use vstd::prelude::*;
use crate::value::{Host, Val};
use crate::schema::{
    Schema, Shape, Ty, host_kind, rank, entity_rank, field_count, field_name,
    field_ty, variants,
};
use std::cmp::Ordering;
use crate::convert::{Fault, find_attr, insert_sorted, sorted_set, strictly_sorted, distinct};
use crate::order::{compare, lemma_compare_eq, lemma_compare_trans};
use crate::schema::field_index;

verus! {

/// Every kind of a listed variant is a kind of its union.
proof fn lemma_variant_kinds(s: &Schema, e: nat, n: nat, i: int)
    requires
        s.wf(),
        e < s.len(),
        0 <= i < n <= variants(s.shape(e as int)).len(),
    ensures
        s.kinds(variants(s.shape(e as int))[i]).subset_of(
            s.variant_kinds(e, variants(s.shape(e as int)), n),
        ),
    decreases n,
{
    assert(s.entity_ok(e as int));
    let vs = variants(s.shape(e as int));
    assert(rank(vs[n - 1]) <= 3 * e);
    if i < n - 1 {
        lemma_variant_kinds(s, e, (n - 1) as nat, i);
    }
}

/// An encoded value has a kind that its type's decoder accepts.
proof fn lemma_encode_kind(s: &Schema, ty: Ty, v: Val)
    requires
        s.wf(),
        s.ty_ok(ty),
        s.conforms(ty, v),
    ensures
        s.kinds(ty).contains(host_kind(s.encode(ty, v))),
    decreases v, rank(ty), 0nat,
{
    match ty {
        Ty::Entity(e) => lemma_encode_entity_kind(s, e as nat, v),
        Ty::Owned(e) => {
            if let Val::Owned(b) = v {
                lemma_encode_entity_kind(s, e as nat, *b);
            }
        },
        _ => {},
    }
}

proof fn lemma_encode_entity_kind(s: &Schema, e: nat, v: Val)
    requires
        s.wf(),
        e < s.len(),
        s.conforms_entity(e, v),
    ensures
        s.entity_kinds(e).contains(host_kind(s.encode_entity(e, v))),
    decreases v, entity_rank(e), 0nat,
{
    assert(s.entity_ok(e as int));
    match s.shape(e as int) {
        Shape::Union(vs) => {
            if let Val::Variant(i, b) = v {
                assert(s.ty_ok(variants(s.shape(e as int))[i as int]));
                lemma_encode_kind(s, vs@[i as int], *b);
                lemma_variant_kinds(s, e, vs@.len(), i as int);
            }
        },
        _ => {},
    }
}

/// A host value that decodes has a kind that the type's decoder accepts.
proof fn lemma_decode_kind(s: &Schema, ty: Ty, h: Host)
    requires
        s.wf(),
        s.ty_ok(ty),
        s.decode(ty, h) is Ok,
    ensures
        s.kinds(ty).contains(host_kind(h)),
    decreases h, rank(ty), 0nat,
{
    match ty {
        Ty::Entity(e) => lemma_decode_entity_kind(s, e as nat, h),
        Ty::Owned(e) => lemma_decode_entity_kind(s, e as nat, h),
        _ => {},
    }
}

proof fn lemma_decode_entity_kind(s: &Schema, e: nat, h: Host)
    requires
        s.wf(),
        e < s.len(),
        s.decode_entity(e, h) is Ok,
    ensures
        s.entity_kinds(e).contains(host_kind(h)),
    decreases h, entity_rank(e), 0nat,
{
    if s.shape(e as int) is Union {
        lemma_decode_variants_kind(s, e, h, 0);
    }
}

proof fn lemma_decode_variants_kind(s: &Schema, e: nat, h: Host, i: nat)
    requires
        s.wf(),
        e < s.len(),
        s.shape(e as int) is Union,
        s.decode_variants(e, h, i) is Ok,
    ensures
        s.entity_kinds(e).contains(host_kind(h)),
    decreases h, (entity_rank(e) - 1) as nat, variants(s.shape(e as int)).len() - i,
{
    let vs = variants(s.shape(e as int));
    assert(s.entity_ok(e as int));
    if i < vs.len() {
        assert(s.ty_ok(vs[i as int]));
        if s.decode(vs[i as int], h) is Ok {
            lemma_decode_kind(s, vs[i as int], h);
            lemma_variant_kinds(s, e, vs.len(), i as int);
        } else {
            lemma_decode_variants_kind(s, e, h, i + 1);
        }
    }
}

/// Decoding what was encoded gives the value back, where the schema's unions
/// are unambiguous.
pub proof fn lemma_round_trip(s: &Schema, ty: Ty, v: Val)
    requires
        s.wf(),
        s.unambiguous(),
        s.ty_ok(ty),
        s.conforms(ty, v),
    ensures
        s.decode(ty, s.encode(ty, v)) == Ok::<Val, Fault>(v),
    decreases v, rank(ty), 0nat,
{
    match ty {
        Ty::Entity(e) => lemma_round_trip_entity(s, e as nat, v),
        Ty::Owned(e) => {
            if let Val::Owned(b) = v {
                lemma_round_trip_entity(s, e as nat, *b);
            }
        },
        Ty::List(e) => {
            if let Val::List(xs) = v {
                lemma_round_trip_items(s, e as nat, xs);
            }
        },
        Ty::Unique(e) => {
            if let Val::Unique(xs) = v {
                lemma_round_trip_items(s, e as nat, xs);
                lemma_sorted_set_id(xs);
            }
        },
        Ty::Int => {
            if let Val::Int(n) = v {
                assert((n as int) as u32 == n);
            }
        },
        _ => {},
    }
}

proof fn lemma_round_trip_entity(s: &Schema, e: nat, v: Val)
    requires
        s.wf(),
        s.unambiguous(),
        e < s.len(),
        s.conforms_entity(e, v),
    ensures
        s.decode_entity(e, s.encode_entity(e, v)) == Ok::<Val, Fault>(v),
    decreases v, entity_rank(e), 0nat,
{
    assert(s.entity_ok(e as int));
    match s.shape(e as int) {
        Shape::Union(_) => {
            lemma_round_trip_variants(s, e, v, 0);
        },
        _ => {
            if let Val::Fields(xs) = v {
                lemma_encode_fields(s, e, xs, 0);
                lemma_round_trip_fields(s, e, xs, 0);
                assert(xs.subrange(0, xs.len() as int) =~= xs);
            }
        },
    }
}

/// The encoded fields from `i` on: one attribute per field, named as declared.
proof fn lemma_encode_fields(s: &Schema, e: nat, xs: Seq<Val>, i: nat)
    requires
        e < s.len(),
        !(s.shape(e as int) is Union),
        xs.len() == field_count(s.shape(e as int)),
        i <= xs.len(),
    ensures
        s.encode_fields(e, xs, i).len() == xs.len() - i,
        forall|k: int|
            0 <= k < xs.len() - i ==> #[trigger] s.encode_fields(e, xs, i)[k] == (
                field_name(s.shape(e as int), i + k),
                s.encode(field_ty(s.shape(e as int), i + k), xs[i + k]),
            ),
    decreases xs.len() - i,
{
    if i < xs.len() {
        lemma_encode_fields(s, e, xs, i + 1);
        let a = s.encode_fields(e, xs, i);
        let b = s.encode_fields(e, xs, i + 1);
        assert forall|k: int| 0 < k < xs.len() - i implies a[k] == b[k - 1] by {}
    }
}

proof fn lemma_round_trip_fields(s: &Schema, e: nat, xs: Seq<Val>, i: nat)
    requires
        s.wf(),
        s.unambiguous(),
        e < s.len(),
        !(s.shape(e as int) is Union),
        xs.len() == field_count(s.shape(e as int)),
        i <= xs.len(),
        s.conforms_fields(e, xs, i),
    ensures
        s.decode_fields(e, Host::Object(s.name(e as int), s.encode_fields(e, xs, 0)), i) == Ok::<
            Seq<Val>,
            Fault,
        >(xs.subrange(i as int, xs.len() as int)),
    decreases xs, (entity_rank(e) - 1) as nat, field_count(s.shape(e as int)) - i,
{
    let sh = s.shape(e as int);
    let attrs = s.encode_fields(e, xs, 0);
    let h = Host::Object(s.name(e as int), attrs);
    assert(s.entity_ok(e as int));
    if i < xs.len() {
        lemma_encode_fields(s, e, xs, 0);
        let name = field_name(sh, i as int);
        assert(attrs[i as int].0 == name);
        assert forall|j: int| 0 <= j < i implies attrs[j].0 != name by {
            assert(attrs[j].0 == field_name(sh, j));
        }
        let k = find_attr(attrs, name);
        assert(k == i) by {
            if k != i {
                assert(attrs[k].0 == field_name(sh, k));
                if k < i {
                } else {
                    assert(attrs[i as int].0 != name);
                }
            }
        }
        assert(s.ty_ok(field_ty(sh, i as int)));
        lemma_round_trip(s, field_ty(sh, i as int), xs[i as int]);
        lemma_round_trip_fields(s, e, xs, i + 1);
        assert(seq![xs[i as int]] + xs.subrange((i + 1) as int, xs.len() as int) =~= xs.subrange(
            i as int,
            xs.len() as int,
        ));
    } else {
        assert(xs.subrange(i as int, xs.len() as int) =~= Seq::<Val>::empty());
    }
}

proof fn lemma_round_trip_variants(s: &Schema, e: nat, v: Val, j: nat)
    requires
        s.wf(),
        s.unambiguous(),
        e < s.len(),
        s.shape(e as int) is Union,
        s.conforms_entity(e, v),
        v is Variant,
        j <= v->Variant_0,
    ensures
        s.decode_variants(e, s.encode_entity(e, v), j) == Ok::<Val, Fault>(v),
    decreases v, (entity_rank(e) - 1) as nat, variants(s.shape(e as int)).len() - j,
{
    assert(s.entity_ok(e as int));
    let vs = variants(s.shape(e as int));
    let i = v->Variant_0;
    let b = *v->Variant_1;
    let h = s.encode_entity(e, v);
    assert(s.ty_ok(vs[i as int]));
    if j == i {
        lemma_round_trip(s, vs[i as int], b);
    } else {
        assert(s.ty_ok(vs[j as int]));
        if s.decode(vs[j as int], h) is Ok {
            lemma_decode_kind(s, vs[j as int], h);
            lemma_encode_kind(s, vs[i as int], b);
            assert(s.kinds(s.variant(e as int, j as int)).disjoint(s.kinds(s.variant(e as int, i as int))));
            assert(false);
        }
        lemma_round_trip_variants(s, e, v, j + 1);
    }
}

proof fn lemma_round_trip_items(s: &Schema, e: nat, xs: Seq<Val>)
    requires
        s.wf(),
        s.unambiguous(),
        e < s.len(),
        s.conforms_items(e, xs),
    ensures
        s.decode_items(e, s.encode_items(e, xs)) == Ok::<Seq<Val>, Fault>(xs),
    decreases xs, 0nat, 0nat,
{
    if xs.len() > 0 {
        lemma_round_trip_items(s, e, xs.drop_last());
        lemma_round_trip_entity(s, e, xs.last());
        let hs = s.encode_items(e, xs);
        assert(hs.drop_last() =~= s.encode_items(e, xs.drop_last()));
        assert(hs.last() == s.encode_entity(e, xs.last()));
        assert(xs.drop_last().push(xs.last()) =~= xs);
    } else {
        assert(xs =~= Seq::<Val>::empty());
    }
}


/// A union decodes a host value as the first variant, in declared order, that
/// accepts it; a later variant that accepts the same value is never chosen.
pub proof fn lemma_first_variant_wins(s: &Schema, e: nat, h: Host, i: nat)
    requires
        s.wf(),
        e < s.len(),
        s.shape(e as int) is Union,
        i < variants(s.shape(e as int)).len(),
        s.decode(variants(s.shape(e as int))[i as int], h) is Ok,
        forall|j: int| 0 <= j < i ==> s.decode(variants(s.shape(e as int))[j], h) is Err,
    ensures
        s.decode_entity(e, h) == Ok::<Val, Fault>(
            Val::Variant(i, Box::new(s.decode(variants(s.shape(e as int))[i as int], h)->Ok_0)),
        ),
{
    lemma_variants_from(s, e, h, i, 0);
}

proof fn lemma_variants_from(s: &Schema, e: nat, h: Host, i: nat, j: nat)
    requires
        s.wf(),
        e < s.len(),
        s.shape(e as int) is Union,
        j <= i < variants(s.shape(e as int)).len(),
        s.decode(variants(s.shape(e as int))[i as int], h) is Ok,
        forall|k: int| 0 <= k < i ==> s.decode(variants(s.shape(e as int))[k], h) is Err,
    ensures
        s.decode_variants(e, h, j) == Ok::<Val, Fault>(
            Val::Variant(i, Box::new(s.decode(variants(s.shape(e as int))[i as int], h)->Ok_0)),
        ),
    decreases i - j,
{
    assert(s.entity_ok(e as int));
    let vs = variants(s.shape(e as int));
    assert(rank(vs[j as int]) <= 3 * e);
    if j < i {
        lemma_variants_from(s, e, h, i, j + 1);
    }
}

/// Reading or writing a name that an entity does not declare fails with
/// `UnknownField`, for every entity and every value.
pub proof fn lemma_unknown_field(s: &Schema, e: nat, v: Val, name: Seq<char>, h: Host)
    requires
        s.wf(),
        e < s.len(),
        forall|i: int| 0 <= i < field_count(s.shape(e as int)) ==> field_name(s.shape(e as int), i) != name,
    ensures
        s.get_field(e, v, name) == Err::<Host, Fault>(Fault::UnknownField(name)),
        s.set_field(e, v, name, h) == Err::<Val, Fault>(Fault::UnknownField(name)),
{
}

/// The names that reading and writing accept are exactly the field names that
/// the entity's interface text lists.
pub proof fn lemma_reflection_matches_stub(s: &Schema, e: nat, v: Val, name: Seq<char>, h: Host)
    requires
        s.wf(),
        e < s.len(),
    ensures
        (s.get_field(e, v, name) != Err::<Host, Fault>(Fault::UnknownField(name))) <==> (exists|i: int|
            0 <= i < s.stub_entries(e as int).len() && (#[trigger] s.stub_entries(e as int)[i]).0
                == name),
        (s.set_field(e, v, name, h) != Err::<Val, Fault>(Fault::UnknownField(name))) <==> (exists|
            i: int,
        |
            0 <= i < s.stub_entries(e as int).len() && (#[trigger] s.stub_entries(e as int)[i]).0
                == name),
{
    let sh = s.shape(e as int);
    let es = s.stub_entries(e as int);
    if exists|i: int| 0 <= i < es.len() && (#[trigger] es[i]).0 == name {
        let i = choose|i: int| 0 <= i < es.len() && (#[trigger] es[i]).0 == name;
        assert(field_name(sh, i) == name);
        assert(field_index(sh, name) >= 0);
    } else {
        assert forall|i: int| 0 <= i < field_count(sh) implies field_name(sh, i) != name by {
            assert(es[i].0 == field_name(sh, i));
        }
    }
}


proof fn lemma_contains_cons(a: Val, s: Seq<Val>)
    ensures
        forall|y: Val| #[trigger] (seq![a] + s).contains(y) <==> (y == a || s.contains(y)),
{
    let r = seq![a] + s;
    assert forall|y: Val| #[trigger] r.contains(y) <==> (y == a || s.contains(y)) by {
        if r.contains(y) {
            let k = choose|k: int| 0 <= k < r.len() && r[k] == y;
            if k > 0 {
                assert(s[k - 1] == y);
            }
        }
        if y == a {
            assert(r[0] == y);
        }
        if s.contains(y) {
            let k = choose|k: int| 0 <= k < s.len() && s[k] == y;
            assert(r[k + 1] == y);
        }
    }
}

proof fn lemma_contains_push(s: Seq<Val>, a: Val)
    ensures
        forall|y: Val| #[trigger] s.push(a).contains(y) <==> (s.contains(y) || y == a),
{
    let r = s.push(a);
    assert forall|y: Val| #[trigger] r.contains(y) <==> (s.contains(y) || y == a) by {
        if r.contains(y) {
            let k = choose|k: int| 0 <= k < r.len() && r[k] == y;
            if k < s.len() {
                assert(s[k] == y);
            }
        }
        if y == a {
            assert(r[s.len() as int] == y);
        }
        if s.contains(y) {
            let k = choose|k: int| 0 <= k < s.len() && s[k] == y;
            assert(r[k] == y);
        }
    }
}

proof fn lemma_sorted_distinct(xs: Seq<Val>)
    requires
        strictly_sorted(xs),
    ensures
        distinct(xs),
{
    assert forall|i: int, j: int| 0 <= i < j < xs.len() implies xs[i] != xs[j] by {
        lemma_compare_eq(xs[i], xs[j]);
    }
}

proof fn lemma_insert_last(s: Seq<Val>, x: Val)
    requires
        forall|k: int| 0 <= k < s.len() ==> compare(#[trigger] s[k], x) == Ordering::Less,
    ensures
        insert_sorted(s, x) == s.push(x),
    decreases s.len(),
{
    if s.len() > 0 {
        lemma_compare_eq(s[0], x);
        let t = s.drop_first();
        assert forall|k: int| 0 <= k < t.len() implies compare(#[trigger] t[k], x) == Ordering::Less by {
            assert(t[k] == s[k + 1]);
        }
        lemma_insert_last(t, x);
        assert(seq![s[0]] + t.push(x) =~= s.push(x));
    }
}

proof fn lemma_sorted_set_id(ys: Seq<Val>)
    requires
        strictly_sorted(ys),
    ensures
        sorted_set(ys) == ys,
    decreases ys.len(),
{
    if ys.len() > 0 {
        let p = ys.drop_last();
        assert(strictly_sorted(p)) by {
            assert forall|i: int, j: int| 0 <= i < j < p.len() implies compare(p[i], p[j]) == Ordering::Less by {
                assert(p[i] == ys[i] && p[j] == ys[j]);
            }
        }
        lemma_sorted_set_id(p);
        assert forall|k: int| 0 <= k < p.len() implies compare(#[trigger] p[k], ys.last()) == Ordering::Less by {
            assert(p[k] == ys[k]);
        }
        lemma_insert_last(p, ys.last());
        assert(p.push(ys.last()) =~= ys);
    }
}

proof fn lemma_insert_sorted(s: Seq<Val>, x: Val)
    requires
        strictly_sorted(s),
    ensures
        strictly_sorted(insert_sorted(s, x)),
        forall|y: Val| #[trigger] insert_sorted(s, x).contains(y) <==> (s.contains(y) || y == x),
    decreases s.len(),
{
    let r = insert_sorted(s, x);
    if s.len() == 0 {
        lemma_contains_cons(x, s);
        assert(r =~= seq![x] + s);
    } else {
        lemma_compare_eq(x, s[0]);
        let t = s.drop_first();
        assert(s =~= seq![s[0]] + t);
        lemma_contains_cons(s[0], t);
        match compare(x, s[0]) {
            Ordering::Less => {
                lemma_contains_cons(x, s);
                assert forall|i: int, j: int| 0 <= i < j < r.len() implies compare(r[i], r[j]) == Ordering::Less by {
                    if i == 0 {
                        if j > 1 {
                            lemma_compare_trans(x, s[0], s[j - 1]);
                        }
                    } else {
                        assert(r[i] == s[i - 1] && r[j] == s[j - 1]);
                    }
                }
            },
            Ordering::Equal => {},
            Ordering::Greater => {
                assert(strictly_sorted(t)) by {
                    assert forall|i: int, j: int| 0 <= i < j < t.len() implies compare(t[i], t[j]) == Ordering::Less by {
                        assert(t[i] == s[i + 1] && t[j] == s[j + 1]);
                    }
                }
                lemma_insert_sorted(t, x);
                let u = insert_sorted(t, x);
                lemma_contains_cons(s[0], u);
                assert forall|i: int, j: int| 0 <= i < j < r.len() implies compare(r[i], r[j]) == Ordering::Less by {
                    if i == 0 {
                        assert(r[j] == u[j - 1]);
                        assert(u.contains(u[j - 1]));
                        if t.contains(u[j - 1]) {
                            let m = choose|m: int| 0 <= m < t.len() && t[m] == u[j - 1];
                            assert(s[m + 1] == t[m]);
                        }
                    } else {
                        assert(r[i] == u[i - 1] && r[j] == u[j - 1]);
                    }
                }
            },
        }
    }
}

proof fn lemma_sorted_set(xs: Seq<Val>)
    ensures
        strictly_sorted(sorted_set(xs)),
        forall|y: Val| #[trigger] sorted_set(xs).contains(y) <==> xs.contains(y),
    decreases xs.len(),
{
    if xs.len() > 0 {
        let p = xs.drop_last();
        lemma_sorted_set(p);
        lemma_insert_sorted(sorted_set(p), xs.last());
        lemma_contains_push(p, xs.last());
        assert(p.push(xs.last()) =~= xs);
    }
}

proof fn lemma_conforms_items(s: &Schema, e: nat, xs: Seq<Val>)
    ensures
        s.conforms_items(e, xs) <==> forall|k: int| 0 <= k < xs.len() ==> s.conforms_entity(e, #[trigger] xs[k]),
    decreases xs.len(),
{
    if xs.len() > 0 {
        lemma_conforms_items(s, e, xs.drop_last());
        if forall|k: int| 0 <= k < xs.len() ==> s.conforms_entity(e, #[trigger] xs[k]) {
            assert forall|k: int| 0 <= k < xs.drop_last().len() implies s.conforms_entity(e, #[trigger] xs.drop_last()[k]) by {
                assert(xs.drop_last()[k] == xs[k]);
            }
        }
        if s.conforms_items(e, xs) {
            assert forall|k: int| 0 <= k < xs.len() implies s.conforms_entity(e, #[trigger] xs[k]) by {
                if k < xs.len() - 1 {
                    assert(xs.drop_last()[k] == xs[k]);
                }
            }
        }
    }
}

proof fn lemma_conforms_fields(s: &Schema, e: nat, xs: Seq<Val>, i: nat)
    requires
        forall|k: int| i <= k < xs.len() && k < field_count(s.shape(e as int))
            ==> s.conforms(field_ty(s.shape(e as int), k), #[trigger] xs[k]),
    ensures
        s.conforms_fields(e, xs, i),
    decreases field_count(s.shape(e as int)) - i,
{
    if e < s.len() && i < field_count(s.shape(e as int)) && i < xs.len() {
        lemma_conforms_fields(s, e, xs, i + 1);
    }
}

/// A decoded value is laid out as its type says.
proof fn lemma_decode_conforms(s: &Schema, ty: Ty, h: Host)
    requires
        s.wf(),
        s.ty_ok(ty),
        s.decode(ty, h) is Ok,
    ensures
        s.conforms(ty, s.decode(ty, h)->Ok_0),
    decreases h, rank(ty), 0nat,
{
    match ty {
        Ty::Entity(e) => lemma_decode_entity_conforms(s, e as nat, h),
        Ty::Owned(e) => lemma_decode_entity_conforms(s, e as nat, h),
        Ty::List(e) => {
            if let Host::List(items) = h {
                lemma_decode_items_conforms(s, e as nat, items);
                lemma_conforms_items(s, e as nat, s.decode_items(e as nat, items)->Ok_0);
            }
        },
        Ty::Unique(e) => {
            let items = match h {
                Host::List(items) => items,
                Host::Unique(items) => items,
                _ => Seq::empty(),
            };
            if h is List || h is Unique {
                lemma_decode_items_conforms(s, e as nat, items);
                let xs = s.decode_items(e as nat, items)->Ok_0;
                lemma_sorted_set(xs);
                let d = sorted_set(xs);
                assert forall|k: int| 0 <= k < d.len() implies s.conforms_entity(e as nat, #[trigger] d[k]) by {
                    assert(d.contains(d[k]));
                    assert(xs.contains(d[k]));
                    let m = choose|m: int| 0 <= m < xs.len() && xs[m] == d[k];
                }
                lemma_conforms_items(s, e as nat, d);
            }
        },
        _ => {},
    }
}

proof fn lemma_decode_entity_conforms(s: &Schema, e: nat, h: Host)
    requires
        s.wf(),
        e < s.len(),
        s.decode_entity(e, h) is Ok,
    ensures
        s.conforms_entity(e, s.decode_entity(e, h)->Ok_0),
    decreases h, entity_rank(e), 0nat,
{
    if s.shape(e as int) is Union {
        lemma_decode_variants_conforms(s, e, h, 0);
    } else {
        lemma_decode_fields_conforms(s, e, h, 0);
        let xs = s.decode_fields(e, h, 0)->Ok_0;
        lemma_conforms_fields(s, e, xs, 0);
    }
}

proof fn lemma_decode_fields_conforms(s: &Schema, e: nat, h: Host, i: nat)
    requires
        s.wf(),
        e < s.len(),
        h is Object,
        i <= field_count(s.shape(e as int)),
        s.decode_fields(e, h, i) is Ok,
    ensures
        s.decode_fields(e, h, i)->Ok_0.len() == field_count(s.shape(e as int)) - i,
        forall|k: int|
            0 <= k < field_count(s.shape(e as int)) - i ==> s.conforms(
                field_ty(s.shape(e as int), i + k),
                #[trigger] s.decode_fields(e, h, i)->Ok_0[k],
            ),
    decreases h, (entity_rank(e) - 1) as nat, field_count(s.shape(e as int)) - i,
{
    let sh = s.shape(e as int);
    assert(s.entity_ok(e as int));
    if i < field_count(sh) {
        let attrs = h->Object_1;
        let k = find_attr(attrs, field_name(sh, i as int));
        assert(s.ty_ok(field_ty(sh, i as int)));
        lemma_decode_conforms(s, field_ty(sh, i as int), attrs[k].1);
        lemma_decode_fields_conforms(s, e, h, i + 1);
        let ys = s.decode_fields(e, h, i)->Ok_0;
        let rest = s.decode_fields(e, h, i + 1)->Ok_0;
        assert forall|m: int| 0 <= m < field_count(sh) - i implies s.conforms(field_ty(sh, i + m), #[trigger] ys[m]) by {
            if m > 0 {
                assert(ys[m] == rest[m - 1]);
            }
        }
    }
}

proof fn lemma_decode_variants_conforms(s: &Schema, e: nat, h: Host, i: nat)
    requires
        s.wf(),
        e < s.len(),
        s.shape(e as int) is Union,
        s.decode_variants(e, h, i) is Ok,
    ensures
        s.conforms_entity(e, s.decode_variants(e, h, i)->Ok_0),
    decreases h, (entity_rank(e) - 1) as nat, variants(s.shape(e as int)).len() - i,
{
    let vs = variants(s.shape(e as int));
    assert(s.entity_ok(e as int));
    if i < vs.len() {
        assert(s.ty_ok(vs[i as int]));
        if rank(vs[i as int]) <= 3 * e && s.decode(vs[i as int], h) is Ok {
            lemma_decode_conforms(s, vs[i as int], h);
        } else {
            lemma_decode_variants_conforms(s, e, h, i + 1);
        }
    }
}

proof fn lemma_decode_items_conforms(s: &Schema, e: nat, items: Seq<Host>)
    requires
        s.wf(),
        e < s.len(),
        s.decode_items(e, items) is Ok,
    ensures
        s.decode_items(e, items)->Ok_0.len() == items.len(),
        forall|k: int|
            0 <= k < items.len() ==> s.conforms_entity(e, #[trigger] s.decode_items(e, items)->Ok_0[k]),
    decreases items, 0nat, 0nat,
{
    if items.len() > 0 {
        lemma_decode_items_conforms(s, e, items.drop_last());
        lemma_decode_entity_conforms(s, e, items.last());
        let xs = s.decode_items(e, items)->Ok_0;
        let p = s.decode_items(e, items.drop_last())->Ok_0;
        assert forall|k: int| 0 <= k < items.len() implies s.conforms_entity(e, #[trigger] xs[k]) by {
            if k < items.len() - 1 {
                assert(xs[k] == p[k]);
            }
        }
    }
}

proof fn lemma_encode_items(s: &Schema, e: nat, xs: Seq<Val>)
    ensures
        s.encode_items(e, xs).len() == xs.len(),
        forall|k: int| 0 <= k < xs.len() ==> #[trigger] s.encode_items(e, xs)[k] == s.encode_entity(e, xs[k]),
    decreases xs.len(),
{
    if xs.len() > 0 {
        lemma_encode_items(s, e, xs.drop_last());
    }
}

/// Decoding a host sequence into a unique set collapses duplicates: the set
/// holds each decoded element exactly once, in ascending order.
pub proof fn lemma_set_decode(s: &Schema, e: usize, h: Host)
    requires
        h is List || h is Unique,
        s.decode(Ty::Unique(e), h) is Ok,
    ensures
        ({
            let items = if h is List { h->List_0 } else { h->Unique_0 };
            let ys = s.decode(Ty::Unique(e), h)->Ok_0->Unique_0;
            let xs = s.decode_items(e as nat, items)->Ok_0;
            &&& s.decode(Ty::Unique(e), h)->Ok_0 is Unique
            &&& distinct(ys)
            &&& strictly_sorted(ys)
            &&& forall|x: Val| ys.contains(x) <==> xs.contains(x)
        }),
{
    let items = if h is List { h->List_0 } else { h->Unique_0 };
    let xs = s.decode_items(e as nat, items)->Ok_0;
    lemma_sorted_set(xs);
    lemma_sorted_distinct(sorted_set(xs));
}

/// Encoding a decoded unique set gives a host set without duplicates, where
/// the schema's unions are unambiguous.
pub proof fn lemma_set_dedup(s: &Schema, e: usize, h: Host)
    requires
        s.wf(),
        s.unambiguous(),
        e < s.len(),
        h is List || h is Unique,
        s.decode(Ty::Unique(e), h) is Ok,
    ensures
        ({
            let ys = s.decode(Ty::Unique(e), h)->Ok_0->Unique_0;
            &&& s.encode(Ty::Unique(e), s.decode(Ty::Unique(e), h)->Ok_0) is Unique
            &&& s.encode(Ty::Unique(e), s.decode(Ty::Unique(e), h)->Ok_0)->Unique_0.len() == ys.len()
            &&& forall|i: int, j: int|
                0 <= i < j < ys.len() ==> s.encode(Ty::Unique(e), s.decode(Ty::Unique(e), h)->Ok_0)->Unique_0[i]
                    != s.encode(Ty::Unique(e), s.decode(Ty::Unique(e), h)->Ok_0)->Unique_0[j]
        }),
{
    let items = if h is List { h->List_0 } else { h->Unique_0 };
    let xs = s.decode_items(e as nat, items)->Ok_0;
    let ys = sorted_set(xs);
    lemma_set_decode(s, e, h);
    lemma_decode_conforms(s, Ty::Unique(e), h);
    lemma_conforms_items(s, e as nat, ys);
    lemma_encode_items(s, e as nat, ys);
    let hs = s.encode_items(e as nat, ys);
    assert forall|i: int, j: int| 0 <= i < j < ys.len() implies hs[i] != hs[j] by {
        if hs[i] == hs[j] {
            lemma_round_trip_entity(s, e as nat, ys[i]);
            lemma_round_trip_entity(s, e as nat, ys[j]);
        }
    }
}

/// Encoding a decoded host value gives a host value of the same meaning: it
/// decodes to the same native value, where the schema's unions are
/// unambiguous. (The host value may differ in form: attributes that the type
/// does not declare are dropped, and a set comes back ordered and without
/// duplicates.)
pub proof fn lemma_reencode(s: &Schema, ty: Ty, h: Host)
    requires
        s.wf(),
        s.unambiguous(),
        s.ty_ok(ty),
        s.decode(ty, h) is Ok,
    ensures
        s.decode(ty, s.encode(ty, s.decode(ty, h)->Ok_0)) == s.decode(ty, h),
{
    lemma_decode_conforms(s, ty, h);
    lemma_round_trip(s, ty, s.decode(ty, h)->Ok_0);
}

} // verus!
