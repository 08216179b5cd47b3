use vstd::prelude::*;
use std::cmp::Ordering;
use vstd::string::StrSliceExecFns;
use crate::value::{Facet, Val, Value, value_views, lemma_value_views};

verus! {

pub open spec fn compare_int(x: int, y: int) -> Ordering {
    if x < y {
        Ordering::Less
    } else if x == y {
        Ordering::Equal
    } else {
        Ordering::Greater
    }
}

/// Facets are ordered as declared.
pub open spec fn facet_index(f: Facet) -> int {
    match f {
        Facet::Length => 0,
        Facet::MinLength => 1,
        Facet::MaxLength => 2,
        Facet::Pattern => 3,
        Facet::MinInclusive => 4,
        Facet::MinExclusive => 5,
        Facet::MaxInclusive => 6,
        Facet::MaxExclusive => 7,
        Facet::TotalDigits => 8,
        Facet::FractionDigits => 9,
        Facet::LangRange => 10,
    }
}

/// Kinds of native value are ordered as declared.
pub open spec fn tag(v: Val) -> int {
    match v {
        Val::Int(_) => 0,
        Val::Text(_) => 1,
        Val::Iri(_) => 2,
        Val::Anon(_) => 3,
        Val::Facet(_) => 4,
        Val::Fields(_) => 5,
        Val::Variant(_, _) => 6,
        Val::List(_) => 7,
        Val::Owned(_) => 8,
        Val::Unique(_) => 9,
    }
}

/// Lexicographic order on texts, by code point.
pub open spec fn compare_text(a: Seq<char>, b: Seq<char>) -> Ordering
    decreases a.len(),
{
    if a.len() == 0 {
        if b.len() == 0 {
            Ordering::Equal
        } else {
            Ordering::Less
        }
    } else if b.len() == 0 {
        Ordering::Greater
    } else if a[0] != b[0] {
        compare_int(a[0] as int, b[0] as int)
    } else {
        compare_text(a.drop_first(), b.drop_first())
    }
}

/// The total order on native values: by kind, then by content; fields,
/// elements and variants in declared order.
pub open spec fn compare(a: Val, b: Val) -> Ordering
    decreases a,
{
    if tag(a) != tag(b) {
        compare_int(tag(a), tag(b))
    } else {
        match (a, b) {
            (Val::Int(x), Val::Int(y)) => compare_int(x as int, y as int),
            (Val::Text(x), Val::Text(y)) => compare_text(x, y),
            (Val::Iri(x), Val::Iri(y)) => compare_text(x, y),
            (Val::Anon(x), Val::Anon(y)) => compare_text(x, y),
            (Val::Facet(x), Val::Facet(y)) => compare_int(facet_index(x), facet_index(y)),
            (Val::Fields(x), Val::Fields(y)) => compare_all(x, y),
            (Val::Variant(i, x), Val::Variant(j, y)) => if i != j {
                compare_int(i as int, j as int)
            } else {
                compare(*x, *y)
            },
            (Val::List(x), Val::List(y)) => compare_all(x, y),
            (Val::Owned(x), Val::Owned(y)) => compare(*x, *y),
            (Val::Unique(x), Val::Unique(y)) => compare_all(x, y),
            _ => Ordering::Equal,
        }
    }
}

/// Lexicographic order on sequences of native values.
pub open spec fn compare_all(a: Seq<Val>, b: Seq<Val>) -> Ordering
    decreases a,
{
    if a.len() == 0 {
        if b.len() == 0 {
            Ordering::Equal
        } else {
            Ordering::Less
        }
    } else if b.len() == 0 {
        Ordering::Greater
    } else {
        match compare(a[0], b[0]) {
            Ordering::Equal => compare_all(a.drop_first(), b.drop_first()),
            o => o,
        }
    }
}

pub open spec fn flip(o: Ordering) -> Ordering {
    match o {
        Ordering::Less => Ordering::Greater,
        Ordering::Equal => Ordering::Equal,
        Ordering::Greater => Ordering::Less,
    }
}

proof fn lemma_text_eq(a: Seq<char>, b: Seq<char>)
    ensures
        (compare_text(a, b) == Ordering::Equal) == (a == b),
        compare_text(b, a) == flip(compare_text(a, b)),
    decreases a.len(),
{
    if a.len() > 0 && b.len() > 0 && a[0] == b[0] {
        lemma_text_eq(a.drop_first(), b.drop_first());
        if a.drop_first() == b.drop_first() {
            assert(a =~= seq![a[0]] + a.drop_first());
            assert(b =~= seq![b[0]] + b.drop_first());
        }
    }
    if a.len() == 0 && b.len() == 0 {
        assert(a =~= b);
    }
}

proof fn lemma_text_trans(a: Seq<char>, b: Seq<char>, c: Seq<char>)
    requires
        compare_text(a, b) == Ordering::Less,
        compare_text(b, c) == Ordering::Less,
    ensures
        compare_text(a, c) == Ordering::Less,
    decreases a.len(),
{
    if a.len() > 0 && b.len() > 0 && c.len() > 0 && a[0] == b[0] && b[0] == c[0] {
        lemma_text_trans(a.drop_first(), b.drop_first(), c.drop_first());
    }
}

/// The order agrees with equality and reverses when its arguments swap.
pub proof fn lemma_compare_eq(a: Val, b: Val)
    ensures
        (compare(a, b) == Ordering::Equal) == (a == b),
        compare(b, a) == flip(compare(a, b)),
    decreases a,
{
    if tag(a) == tag(b) {
        match (a, b) {
            (Val::Text(x), Val::Text(y)) => lemma_text_eq(x, y),
            (Val::Iri(x), Val::Iri(y)) => lemma_text_eq(x, y),
            (Val::Anon(x), Val::Anon(y)) => lemma_text_eq(x, y),
            (Val::Facet(x), Val::Facet(y)) => {},
            (Val::Fields(x), Val::Fields(y)) => lemma_compare_all_eq(x, y),
            (Val::Variant(i, x), Val::Variant(j, y)) => lemma_compare_eq(*x, *y),
            (Val::List(x), Val::List(y)) => lemma_compare_all_eq(x, y),
            (Val::Owned(x), Val::Owned(y)) => lemma_compare_eq(*x, *y),
            (Val::Unique(x), Val::Unique(y)) => lemma_compare_all_eq(x, y),
            _ => {},
        }
    }
}

pub proof fn lemma_compare_all_eq(a: Seq<Val>, b: Seq<Val>)
    ensures
        (compare_all(a, b) == Ordering::Equal) == (a == b),
        compare_all(b, a) == flip(compare_all(a, b)),
    decreases a,
{
    if a.len() > 0 && b.len() > 0 {
        lemma_compare_eq(a[0], b[0]);
        lemma_compare_all_eq(a.drop_first(), b.drop_first());
        if a[0] == b[0] && a.drop_first() == b.drop_first() {
            assert(a =~= seq![a[0]] + a.drop_first());
            assert(b =~= seq![b[0]] + b.drop_first());
        }
    }
    if a.len() == 0 && b.len() == 0 {
        assert(a =~= b);
    }
}

/// The order is transitive.
pub proof fn lemma_compare_trans(a: Val, b: Val, c: Val)
    requires
        compare(a, b) == Ordering::Less,
        compare(b, c) == Ordering::Less,
    ensures
        compare(a, c) == Ordering::Less,
    decreases a,
{
    if tag(a) == tag(b) && tag(b) == tag(c) {
        match (a, b, c) {
            (Val::Text(x), Val::Text(y), Val::Text(z)) => lemma_text_trans(x, y, z),
            (Val::Iri(x), Val::Iri(y), Val::Iri(z)) => lemma_text_trans(x, y, z),
            (Val::Anon(x), Val::Anon(y), Val::Anon(z)) => lemma_text_trans(x, y, z),
            (Val::Fields(x), Val::Fields(y), Val::Fields(z)) => lemma_compare_all_trans(x, y, z),
            (Val::Variant(i, x), Val::Variant(j, y), Val::Variant(k, z)) => {
                if i == j && j == k {
                    lemma_compare_trans(*x, *y, *z);
                }
            },
            (Val::List(x), Val::List(y), Val::List(z)) => lemma_compare_all_trans(x, y, z),
            (Val::Owned(x), Val::Owned(y), Val::Owned(z)) => lemma_compare_trans(*x, *y, *z),
            (Val::Unique(x), Val::Unique(y), Val::Unique(z)) => lemma_compare_all_trans(x, y, z),
            _ => {},
        }
    }
}

pub proof fn lemma_compare_all_trans(a: Seq<Val>, b: Seq<Val>, c: Seq<Val>)
    requires
        compare_all(a, b) == Ordering::Less,
        compare_all(b, c) == Ordering::Less,
    ensures
        compare_all(a, c) == Ordering::Less,
    decreases a,
{
    if a.len() > 0 && b.len() > 0 && c.len() > 0 {
        lemma_compare_eq(a[0], b[0]);
        lemma_compare_eq(b[0], c[0]);
        let ab = compare(a[0], b[0]);
        let bc = compare(b[0], c[0]);
        if ab == Ordering::Less && bc == Ordering::Less {
            lemma_compare_trans(a[0], b[0], c[0]);
        } else if ab == Ordering::Equal && bc == Ordering::Equal {
            lemma_compare_all_trans(a.drop_first(), b.drop_first(), c.drop_first());
        }
    }
}


fn compare_usize(x: usize, y: usize) -> (r: Ordering)
    ensures
        r == compare_int(x as int, y as int),
{
    if x < y {
        Ordering::Less
    } else if x == y {
        Ordering::Equal
    } else {
        Ordering::Greater
    }
}

fn facet_position(f: Facet) -> (r: usize)
    ensures
        r as int == facet_index(f),
{
    match f {
        Facet::Length => 0,
        Facet::MinLength => 1,
        Facet::MaxLength => 2,
        Facet::Pattern => 3,
        Facet::MinInclusive => 4,
        Facet::MinExclusive => 5,
        Facet::MaxInclusive => 6,
        Facet::MaxExclusive => 7,
        Facet::TotalDigits => 8,
        Facet::FractionDigits => 9,
        Facet::LangRange => 10,
    }
}

fn tag_of(v: &Value) -> (r: usize)
    ensures
        r as int == tag(v@),
{
    match v {
        Value::Int(_) => 0,
        Value::Text(_) => 1,
        Value::Iri(_) => 2,
        Value::Anon(_) => 3,
        Value::Facet(_) => 4,
        Value::Fields(_) => 5,
        Value::Variant(_, _) => 6,
        Value::List(_) => 7,
        Value::Owned(_) => 8,
        Value::Unique(_) => 9,
    }
}

/// Compares two texts by code point.
pub fn compare_strings(a: &String, b: &String) -> (r: Ordering)
    ensures
        r == compare_text(a@, b@),
{
    let la = a.as_str().unicode_len();
    let lb = b.as_str().unicode_len();
    let mut i: usize = 0;
    proof {
        assert(a@.subrange(0, la as int) =~= a@);
        assert(b@.subrange(0, lb as int) =~= b@);
    }
    while i < la && i < lb
        invariant
            la == a@.len(),
            lb == b@.len(),
            i <= la,
            i <= lb,
            compare_text(a@, b@) == compare_text(a@.subrange(i as int, la as int), b@.subrange(i as int, lb as int)),
        decreases la - i,
    {
        let x = a.as_str().get_char(i);
        let y = b.as_str().get_char(i);
        let ghost sa = a@.subrange(i as int, la as int);
        let ghost sb = b@.subrange(i as int, lb as int);
        if x != y {
            assert(sa[0] == x && sb[0] == y);
            return compare_usize(x as usize, y as usize);
        }
        proof {
            assert(sa.drop_first() =~= a@.subrange(i + 1, la as int));
            assert(sb.drop_first() =~= b@.subrange(i + 1, lb as int));
        }
        i += 1;
    }
    compare_usize(la - i, lb - i)
}

/// Compares two native values in the total order.
pub fn value_cmp(a: &Value, b: &Value) -> (r: Ordering)
    ensures
        r == compare(a@, b@),
    decreases a,
{
    let ta = tag_of(a);
    let tb = tag_of(b);
    if ta != tb {
        return compare_usize(ta, tb);
    }
    match (a, b) {
        (Value::Int(x), Value::Int(y)) => compare_usize(*x as usize, *y as usize),
        (Value::Text(x), Value::Text(y)) => compare_strings(x, y),
        (Value::Iri(x), Value::Iri(y)) => compare_strings(&x.0, &y.0),
        (Value::Anon(x), Value::Anon(y)) => compare_strings(&x.0, &y.0),
        (Value::Facet(x), Value::Facet(y)) => compare_usize(facet_position(*x), facet_position(*y)),
        (Value::Fields(x), Value::Fields(y)) => values_cmp(x, y),
        (Value::Variant(i, x), Value::Variant(j, y)) => if *i != *j {
            compare_usize(*i, *j)
        } else {
            value_cmp(x, y)
        },
        (Value::List(x), Value::List(y)) => values_cmp(&x.0, &y.0),
        (Value::Owned(x), Value::Owned(y)) => value_cmp(&x.0, &y.0),
        (Value::Unique(x), Value::Unique(y)) => values_cmp(&x.0, &y.0),
        _ => Ordering::Equal,
    }
}

/// Compares two sequences of native values lexicographically.
pub fn values_cmp(a: &Vec<Value>, b: &Vec<Value>) -> (r: Ordering)
    ensures
        r == compare_all(value_views(a@), value_views(b@)),
    decreases a,
{
    proof {
        lemma_value_views(a@);
        lemma_value_views(b@);
    }
    let ghost va = value_views(a@);
    let ghost vb = value_views(b@);
    let mut i: usize = 0;
    proof {
        assert(va.subrange(0, va.len() as int) =~= va);
        assert(vb.subrange(0, vb.len() as int) =~= vb);
    }
    while i < a.len() && i < b.len()
        invariant
            va == value_views(a@),
            vb == value_views(b@),
            va.len() == a@.len(),
            vb.len() == b@.len(),
            forall|j: int| 0 <= j < a@.len() ==> #[trigger] va[j] == a@[j]@,
            forall|j: int| 0 <= j < b@.len() ==> #[trigger] vb[j] == b@[j]@,
            i <= a.len(),
            i <= b.len(),
            compare_all(va, vb) == compare_all(va.subrange(i as int, va.len() as int), vb.subrange(i as int, vb.len() as int)),
        decreases a.len() - i,
    {
        let o = value_cmp(&a[i], &b[i]);
        let ghost sa = va.subrange(i as int, va.len() as int);
        let ghost sb = vb.subrange(i as int, vb.len() as int);
        proof {
            assert(sa[0] == a@[i as int]@ && sb[0] == b@[i as int]@);
        }
        match o {
            Ordering::Equal => {},
            _ => {
                return o;
            },
        }
        proof {
            assert(sa.drop_first() =~= va.subrange(i + 1, va.len() as int));
            assert(sb.drop_first() =~= vb.subrange(i + 1, vb.len() as int));
        }
        i += 1;
    }
    compare_usize(a.len() - i, b.len() - i)
}

} // verus!
