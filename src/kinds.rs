use vstd::prelude::*;
use crate::schema::{Schema, Shape, Ty, Leaf, Kind, rank, entity_rank, variants};

verus! {

/// The top-level kind of a host value, as a run-time value.
#[derive(Debug)]
pub enum HostKind {
    Int,
    Str,
    Iri,
    Facet,
    List,
    Unique,
    Object(String),
}

impl HostKind {
    pub open spec fn view(&self) -> Kind {
        match self {
            HostKind::Int => Kind::Int,
            HostKind::Str => Kind::Str,
            HostKind::Iri => Kind::Iri,
            HostKind::Facet => Kind::Facet,
            HostKind::List => Kind::List,
            HostKind::Unique => Kind::Unique,
            HostKind::Object(c) => Kind::Object(c@),
        }
    }
}

pub open spec fn has_kind(s: Seq<HostKind>, k: Kind) -> bool {
    exists|i: int| 0 <= i < s.len() && #[trigger] s[i]@ == k
}

fn same_kind(a: &HostKind, b: &HostKind) -> (r: bool)
    ensures
        r == (a@ == b@),
{
    match (a, b) {
        (HostKind::Int, HostKind::Int) => true,
        (HostKind::Str, HostKind::Str) => true,
        (HostKind::Iri, HostKind::Iri) => true,
        (HostKind::Facet, HostKind::Facet) => true,
        (HostKind::List, HostKind::List) => true,
        (HostKind::Unique, HostKind::Unique) => true,
        (HostKind::Object(x), HostKind::Object(y)) => x.eq(y),
        _ => false,
    }
}

fn push_kind(out: &mut Vec<HostKind>, k: HostKind)
    ensures
        forall|q: Kind| has_kind(final(out)@, q) <==> (has_kind(old(out)@, q) || q == k@),
{
    let ghost before = out@;
    out.push(k);
    proof {
        assert forall|q: Kind| has_kind(out@, q) <==> (has_kind(before, q) || q == k@) by {
            if has_kind(out@, q) {
                let i = choose|i: int| 0 <= i < out@.len() && #[trigger] out@[i]@ == q;
                if i < before.len() {
                    assert(before[i]@ == q);
                }
            }
            if has_kind(before, q) {
                let i = choose|i: int| 0 <= i < before.len() && #[trigger] before[i]@ == q;
                assert(out@[i]@ == q);
            }
            if q == k@ {
                assert(out@[before.len() as int]@ == q);
            }
        }
    }
}

impl Schema {
    /// Adds to `out` the kinds that the decoder of `ty` accepts.
    fn kinds_into(&self, ty: Ty, out: &mut Vec<HostKind>)
        requires
            self.wf(),
            self.ty_ok(ty),
        ensures
            forall|q: Kind| has_kind(final(out)@, q) <==> (has_kind(old(out)@, q) || self.kinds(ty).contains(q)),
        decreases rank(ty), 1nat,
    {
        match ty {
            Ty::Int => push_kind(out, HostKind::Int),
            Ty::Text => push_kind(out, HostKind::Str),
            Ty::Leaf(Leaf::Iri) => push_kind(out, HostKind::Iri),
            Ty::Leaf(Leaf::Anon) => push_kind(out, HostKind::Str),
            Ty::Leaf(Leaf::Facet) => push_kind(out, HostKind::Facet),
            Ty::List(_) => push_kind(out, HostKind::List),
            Ty::Unique(_) => {
                push_kind(out, HostKind::List);
                push_kind(out, HostKind::Unique);
            },
            Ty::Entity(e) => self.entity_kinds_into(e, out),
            Ty::Owned(e) => self.entity_kinds_into(e, out),
        }
    }

    fn entity_kinds_into(&self, e: usize, out: &mut Vec<HostKind>)
        requires
            self.wf(),
            e < self.len(),
        ensures
            forall|q: Kind| has_kind(final(out)@, q) <==> (has_kind(old(out)@, q) || self.entity_kinds(e as nat).contains(q)),
        decreases entity_rank(e as nat), 0nat,
    {
        assert(self.entity_ok(e as int));
        match &self.entities[e].shape {
            Shape::Union(vs) => {
                let ghost start = out@;
                let mut k: usize = 0;
                while k < vs.len()
                    invariant
                        self.wf(),
                        e < self.len(),
                        self.entity_ok(e as int),
                        variants(self.shape(e as int)) == vs@,
                        k <= vs@.len(),
                        forall|q: Kind| #[trigger] has_kind(out@, q) <==> (has_kind(start, q) || self.variant_kinds(e as nat, vs@, k as nat).contains(q)),
                    decreases vs.len() - k,
                {
                    assert(self.ty_ok(vs@[k as int]) && rank(vs@[k as int]) <= 3 * e);
                    let ghost mid = out@;
                    self.kinds_into(vs[k], out);
                    proof {
                        let vk = self.variant_kinds(e as nat, vs@, k as nat);
                        let kk = self.kinds(vs@[k as int]);
                        assert forall|q: Kind| has_kind(out@, q) <==> (has_kind(start, q) || vk.union(kk).contains(q)) by {
                            assert(has_kind(out@, q) <==> (has_kind(mid, q) || kk.contains(q)));
                            assert(has_kind(mid, q) <==> (has_kind(start, q) || vk.contains(q)));
                        }
                        assert(self.variant_kinds(e as nat, vs@, (k + 1) as nat) == self.variant_kinds(
                            e as nat,
                            vs@,
                            k as nat,
                        ).union(self.kinds(vs@[k as int])));
                    }
                    k += 1;
                }
            },
            _ => push_kind(out, HostKind::Object(self.entities[e].name.clone())),
        }
    }

    /// Whether two kind lists share no kind.
    fn disjoint_kinds(a: &Vec<HostKind>, b: &Vec<HostKind>) -> (r: bool)
        ensures
            r == !(exists|q: Kind| has_kind(a@, q) && has_kind(b@, q)),
    {
        let mut i: usize = 0;
        while i < a.len()
            invariant
                i <= a@.len(),
                forall|x: int, y: int| 0 <= x < i && 0 <= y < b@.len() ==> a@[x]@ != b@[y]@,
            decreases a.len() - i,
        {
            let mut j: usize = 0;
            while j < b.len()
                invariant
                    i < a@.len(),
                    j <= b@.len(),
                    forall|x: int, y: int| 0 <= x < i && 0 <= y < b@.len() ==> a@[x]@ != b@[y]@,
                    forall|y: int| 0 <= y < j ==> a@[i as int]@ != b@[y]@,
                decreases b.len() - j,
            {
                if same_kind(&a[i], &b[j]) {
                    proof {
                        let q = a@[i as int]@;
                        assert(has_kind(a@, q) && has_kind(b@, q));
                    }
                    return false;
                }
                j += 1;
            }
            i += 1;
        }
        proof {
            assert forall|q: Kind| !(has_kind(a@, q) && has_kind(b@, q)) by {
                if has_kind(a@, q) && has_kind(b@, q) {
                    let x = choose|x: int| 0 <= x < a@.len() && #[trigger] a@[x]@ == q;
                    let y = choose|y: int| 0 <= y < b@.len() && #[trigger] b@[y]@ == q;
                    assert(a@[x]@ != b@[y]@);
                }
            }
        }
        true
    }

    fn kinds_of(&self, ty: Ty) -> (r: Vec<HostKind>)
        requires
            self.wf(),
            self.ty_ok(ty),
        ensures
            forall|q: Kind| has_kind(r@, q) <==> self.kinds(ty).contains(q),
    {
        let mut out: Vec<HostKind> = Vec::new();
        self.kinds_into(ty, &mut out);
        out
    }

    /// Whether no two variants of any union accept host values of a common kind.
    pub fn is_unambiguous(&self) -> (r: bool)
        requires
            self.wf(),
        ensures
            r == self.unambiguous(),
    {
        let mut e: usize = 0;
        while e < self.entities.len()
            invariant
                self.wf(),
                e <= self.len(),
                forall|f: int, i: int, j: int|
                    #![trigger self.variant(f, i), self.variant(f, j)]
                    0 <= f < e && 0 <= i < j < variants(self.shape(f)).len()
                        ==> self.kinds(self.variant(f, i)).disjoint(self.kinds(self.variant(f, j))),
            decreases self.len() - e,
        {
            assert(self.entity_ok(e as int));
            match &self.entities[e].shape {
                Shape::Union(vs) => {
                    let mut i: usize = 0;
                    while i < vs.len()
                        invariant
                            self.wf(),
                            e < self.len(),
                            self.entity_ok(e as int),
                            variants(self.shape(e as int)) == vs@,
                            i <= vs@.len(),
                            forall|f: int, x: int, y: int|
                                #![trigger self.variant(f, x), self.variant(f, y)]
                                0 <= f < e && 0 <= x < y < variants(self.shape(f)).len()
                                    ==> self.kinds(self.variant(f, x)).disjoint(self.kinds(self.variant(f, y))),
                            forall|x: int, y: int|
                                #![trigger self.variant(e as int, x), self.variant(e as int, y)]
                                0 <= x < i && x < y < vs@.len()
                                    ==> self.kinds(self.variant(e as int, x)).disjoint(self.kinds(self.variant(e as int, y))),
                        decreases vs.len() - i,
                    {
                        assert(self.ty_ok(vs@[i as int]));
                        let a = self.kinds_of(vs[i]);
                        let mut j: usize = i + 1;
                        while j < vs.len()
                            invariant
                                self.wf(),
                                e < self.len(),
                                self.entity_ok(e as int),
                                variants(self.shape(e as int)) == vs@,
                                i < j <= vs@.len(),
                                forall|q: Kind| has_kind(a@, q) <==> self.kinds(vs@[i as int]).contains(q),
                                forall|f: int, x: int, y: int|
                                    #![trigger self.variant(f, x), self.variant(f, y)]
                                    0 <= f < e && 0 <= x < y < variants(self.shape(f)).len()
                                        ==> self.kinds(self.variant(f, x)).disjoint(self.kinds(self.variant(f, y))),
                                forall|x: int, y: int|
                                    #![trigger self.variant(e as int, x), self.variant(e as int, y)]
                                    0 <= x < i && x < y < vs@.len()
                                        ==> self.kinds(self.variant(e as int, x)).disjoint(self.kinds(self.variant(e as int, y))),
                                forall|y: int|
                                    #![trigger self.variant(e as int, y)]
                                    i < y < j ==> self.kinds(self.variant(e as int, i as int)).disjoint(self.kinds(self.variant(e as int, y))),
                            decreases vs.len() - j,
                        {
                            assert(self.ty_ok(vs@[j as int]));
                            let b = self.kinds_of(vs[j]);
                            let ok = Self::disjoint_kinds(&a, &b);
                            let ghost ka = self.kinds(self.variant(e as int, i as int));
                            let ghost kb = self.kinds(self.variant(e as int, j as int));
                            if !ok {
                                proof {
                                    let q = choose|q: Kind| has_kind(a@, q) && has_kind(b@, q);
                                    assert(ka.contains(q) && kb.contains(q));
                                    assert(!ka.disjoint(kb));
                                }
                                return false;
                            }
                            proof {
                                assert forall|q: Kind| !(ka.contains(q) && kb.contains(q)) by {
                                    if ka.contains(q) && kb.contains(q) {
                                        assert(has_kind(a@, q) && has_kind(b@, q));
                                    }
                                }
                                assert(ka.disjoint(kb));
                            }
                            j += 1;
                        }
                        i += 1;
                    }
                },
                _ => {},
            }
            e += 1;
        }
        true
    }
}

} // verus!
