use vstd::prelude::*;
use vstd::string::StringExecFns;
use crate::value::{Host, Facet};

verus! {

/// The opaque leaves: primitives with their own conversion and no fields.
#[derive(Clone, Copy, Debug, PartialEq, Eq, Structural)]
pub enum Leaf {
    Iri,
    Anon,
    Facet,
}

/// A field's type expression. Entities are named by their index in the schema.
#[derive(Clone, Copy, Debug, PartialEq, Eq, Structural)]
pub enum Ty {
    Int,
    Text,
    Leaf(Leaf),
    Entity(usize),
    List(usize),
    Owned(usize),
    Unique(usize),
}

#[derive(Clone, Debug)]
pub struct Field {
    pub name: String,
    pub ty: Ty,
}

/// The shape descriptor of one entity.
#[derive(Clone, Debug)]
pub enum Shape {
    /// Named fields in declared order.
    Record(Vec<Field>),
    /// One or two fields, known to the host as `first` and `second`.
    Positional(Ty, Option<Ty>),
    /// Variants in declared order; each is decoded as its type says.
    Union(Vec<Ty>),
}

/// The mathematical model of a shape descriptor.
pub enum ShapeModel {
    Record(Seq<(Seq<char>, Ty)>),
    Positional(Ty, Option<Ty>),
    Union(Seq<Ty>),
}

pub open spec fn field_views(fs: Seq<Field>) -> Seq<(Seq<char>, Ty)> {
    fs.map_values(|f: Field| (f.name@, f.ty))
}

impl Shape {
    pub open spec fn view(&self) -> ShapeModel {
        match self {
            Shape::Record(fs) => ShapeModel::Record(field_views(fs@)),
            Shape::Positional(a, b) => ShapeModel::Positional(*a, *b),
            Shape::Union(vs) => ShapeModel::Union(vs@),
        }
    }
}

#[derive(Clone, Debug)]
pub struct Entity {
    pub name: String,
    pub shape: Shape,
}

/// The table that drives conversion, reflection and interface text.
#[derive(Clone, Debug)]
pub struct Schema {
    pub entities: Vec<Entity>,
}

/// What a host value is at its top level: the kind of the value, or the
/// class of an object.
pub enum Kind {
    Int,
    Str,
    Iri,
    Facet,
    List,
    Unique,
    Object(Seq<char>),
}

pub open spec fn host_kind(h: Host) -> Kind {
    match h {
        Host::Int(_) => Kind::Int,
        Host::Str(_) => Kind::Str,
        Host::Iri(_) => Kind::Iri,
        Host::Facet(_) => Kind::Facet,
        Host::List(_) => Kind::List,
        Host::Unique(_) => Kind::Unique,
        Host::Object(c, _) => Kind::Object(c),
    }
}

pub open spec fn first_name() -> Seq<char> {
    seq!['f', 'i', 'r', 's', 't']
}

pub open spec fn second_name() -> Seq<char> {
    seq!['s', 'e', 'c', 'o', 'n', 'd']
}

pub open spec fn model_count(m: ShapeModel) -> nat {
    match m {
        ShapeModel::Record(fs) => fs.len(),
        ShapeModel::Positional(_, second) => if second is Some { 2 } else { 1 },
        ShapeModel::Union(_) => 0,
    }
}

pub open spec fn model_name(m: ShapeModel, i: int) -> Seq<char> {
    match m {
        ShapeModel::Record(fs) => fs[i].0,
        ShapeModel::Positional(_, _) => if i == 0 { first_name() } else { second_name() },
        ShapeModel::Union(_) => Seq::empty(),
    }
}

pub open spec fn model_ty(m: ShapeModel, i: int) -> Ty {
    match m {
        ShapeModel::Record(fs) => fs[i].1,
        ShapeModel::Positional(a, b) => if i == 0 { a } else { b->0 },
        ShapeModel::Union(_) => Ty::Int,
    }
}

pub open spec fn model_variants(m: ShapeModel) -> Seq<Ty> {
    match m {
        ShapeModel::Union(vs) => vs,
        _ => Seq::empty(),
    }
}

/// A shape's fields and variants are those of its model.
pub proof fn lemma_shape_view(sh: Shape)
    ensures
        field_count(sh) == model_count(sh@),
        forall|i: int| 0 <= i < field_count(sh) ==> field_name(sh, i) == model_name(sh@, i)
            && field_ty(sh, i) == model_ty(sh@, i),
        variants(sh) == model_variants(sh@),
        (sh is Union) == (sh@ is Union),
{
}

/// Number of fields of a record or positional shape; a union has none.
pub open spec fn field_count(sh: Shape) -> nat {
    match sh {
        Shape::Record(fs) => fs@.len(),
        Shape::Positional(_, second) => if second is Some { 2 } else { 1 },
        Shape::Union(_) => 0,
    }
}

pub open spec fn field_name(sh: Shape, i: int) -> Seq<char> {
    match sh {
        Shape::Record(fs) => fs@[i].name@,
        Shape::Positional(_, _) => if i == 0 { first_name() } else { second_name() },
        Shape::Union(_) => Seq::empty(),
    }
}

pub open spec fn field_ty(sh: Shape, i: int) -> Ty {
    match sh {
        Shape::Record(fs) => fs@[i].ty,
        Shape::Positional(a, b) => if i == 0 { a } else { b->0 },
        Shape::Union(_) => Ty::Int,
    }
}

pub open spec fn variants(sh: Shape) -> Seq<Ty> {
    match sh {
        Shape::Union(vs) => vs@,
        _ => Seq::empty(),
    }
}

/// Where a name stands among the fields of a shape, or -1.
pub open spec fn field_index(sh: Shape, name: Seq<char>) -> int {
    if exists|i: int| 0 <= i < field_count(sh) && field_name(sh, i) == name {
        choose|i: int| 0 <= i < field_count(sh) && field_name(sh, i) == name
    } else {
        -1
    }
}

/// The measure that orders a type below the union that lists it.
pub open spec fn rank(ty: Ty) -> nat {
    match ty {
        Ty::Entity(e) => 3 * e as nat + 3,
        Ty::Owned(e) => 3 * e as nat + 3,
        _ => 0,
    }
}

pub open spec fn entity_rank(e: nat) -> nat {
    3 * e + 2
}

impl Schema {
    pub open spec fn len(&self) -> nat {
        self.entities@.len()
    }

    pub open spec fn name(&self, e: int) -> Seq<char> {
        self.entities@[e].name@
    }

    pub open spec fn shape(&self, e: int) -> Shape {
        self.entities@[e].shape
    }

    pub open spec fn variant(&self, e: int, i: int) -> Ty {
        variants(self.shape(e))[i]
    }

    pub open spec fn ty_ok(&self, ty: Ty) -> bool {
        match ty {
            Ty::Entity(e) => e < self.len(),
            Ty::List(e) => e < self.len(),
            Ty::Owned(e) => e < self.len(),
            Ty::Unique(e) => e < self.len(),
            _ => true,
        }
    }

    /// Each entity is well formed: its types refer to entities of the table,
    /// its field names are distinct, and a union lists only entities declared
    /// before it (so that recursion goes through host structure).
    pub open spec fn entity_ok(&self, e: int) -> bool {
        let sh = self.shape(e);
        &&& forall|i: int| 0 <= i < field_count(sh) ==> self.ty_ok(#[trigger] field_ty(sh, i))
        &&& forall|i: int, j: int|
            0 <= i < j < field_count(sh) ==> field_name(sh, i) != field_name(sh, j)
        &&& forall|i: int| 0 <= i < variants(sh).len() ==> self.ty_ok(#[trigger] variants(sh)[i])
            && rank(variants(sh)[i]) <= 3 * e
    }

    pub open spec fn wf(&self) -> bool {
        &&& self.len() < 0x1000_0000
        &&& forall|e: int| 0 <= e < self.len() ==> #[trigger] self.entity_ok(e)
        &&& forall|e: int, f: int| 0 <= e < f < self.len() ==> self.name(e) != self.name(f)
    }

    /// The host kinds that a type's decoder may accept.
    pub open spec fn kinds(&self, ty: Ty) -> Set<Kind>
        decreases rank(ty), 0nat,
    {
        match ty {
            Ty::Int => set![Kind::Int],
            Ty::Text => set![Kind::Str],
            Ty::Leaf(Leaf::Iri) => set![Kind::Iri],
            Ty::Leaf(Leaf::Anon) => set![Kind::Str],
            Ty::Leaf(Leaf::Facet) => set![Kind::Facet],
            Ty::List(_) => set![Kind::List],
            Ty::Unique(_) => set![Kind::List, Kind::Unique],
            Ty::Entity(e) => self.entity_kinds(e as nat),
            Ty::Owned(e) => self.entity_kinds(e as nat),
        }
    }

    pub open spec fn entity_kinds(&self, e: nat) -> Set<Kind>
        decreases entity_rank(e), 1nat,
    {
        if e >= self.len() {
            Set::empty()
        } else {
            match self.shape(e as int) {
                Shape::Union(vs) => self.variant_kinds(e, vs@, vs@.len()),
                _ => set![Kind::Object(self.name(e as int))],
            }
        }
    }

    /// The kinds of the first `n` variants of union `e`.
    pub open spec fn variant_kinds(&self, e: nat, vs: Seq<Ty>, n: nat) -> Set<Kind>
        decreases entity_rank(e), 0nat, n,
    {
        if n == 0 || n > vs.len() || e >= self.len() || vs != variants(self.shape(e as int)) {
            Set::empty()
        } else {
            let ty = vs[n - 1];
            if rank(ty) <= 3 * e {
                self.variant_kinds(e, vs, (n - 1) as nat).union(self.kinds(ty))
            } else {
                Set::empty()
            }
        }
    }

    /// No two variants of a union accept host values of a common kind.
    pub open spec fn unambiguous(&self) -> bool {
        forall|e: int, i: int, j: int|
            #![trigger self.variant(e, i), self.variant(e, j)]
            0 <= e < self.len() && 0 <= i < j < variants(self.shape(e)).len()
                ==> self.kinds(self.variant(e, i)).disjoint(self.kinds(self.variant(e, j)))
    }
}


impl Shape {
    pub fn field_count(&self) -> (r: usize)
        ensures
            r == field_count(*self),
    {
        match self {
            Shape::Record(fs) => fs.len(),
            Shape::Positional(_, second) => if second.is_some() {
                2
            } else {
                1
            },
            Shape::Union(_) => 0,
        }
    }

    pub fn field_name(&self, i: usize) -> (r: String)
        requires
            i < field_count(*self),
        ensures
            r@ == field_name(*self, i as int),
    {
        match self {
            Shape::Record(fs) => fs[i].name.clone(),
            Shape::Positional(_, _) => {
                proof {
                    reveal_strlit("first");
                    reveal_strlit("second");
                }
                if i == 0 {
                    let r = String::from_str("first");
                    assert(r@ =~= first_name());
                    r
                } else {
                    let r = String::from_str("second");
                    assert(r@ =~= second_name());
                    r
                }
            },
            Shape::Union(_) => String::new(),
        }
    }

    pub fn field_ty(&self, i: usize) -> (r: Ty)
        requires
            i < field_count(*self),
        ensures
            r == field_ty(*self, i as int),
    {
        match self {
            Shape::Record(fs) => fs[i].ty,
            Shape::Positional(a, b) => if i == 0 {
                *a
            } else {
                b.unwrap()
            },
            Shape::Union(_) => Ty::Int,
        }
    }
}


impl Schema {
    fn ty_valid(&self, ty: Ty) -> (r: bool)
        ensures
            r == self.ty_ok(ty),
    {
        let n = self.entities.len();
        match ty {
            Ty::Entity(e) => e < n,
            Ty::List(e) => e < n,
            Ty::Owned(e) => e < n,
            Ty::Unique(e) => e < n,
            _ => true,
        }
    }

    fn entity_valid(&self, e: usize) -> (r: bool)
        requires
            e < self.len(),
        ensures
            r == self.entity_ok(e as int),
    {
        let sh = &self.entities[e].shape;
        let ghost s = *sh;
        let n = sh.field_count();
        let mut i: usize = 0;
        while i < n
            invariant
                *sh == s,
                s == self.shape(e as int),
                e < self.len(),
                n == field_count(s),
                i <= n,
                forall|k: int| 0 <= k < i ==> self.ty_ok(#[trigger] field_ty(s, k)),
                forall|k: int, j: int| 0 <= k < j < i ==> field_name(s, k) != field_name(s, j),
            decreases n - i,
        {
            if !self.ty_valid(sh.field_ty(i)) {
                return false;
            }
            let name = sh.field_name(i);
            let mut j: usize = 0;
            while j < i
                invariant
                    *sh == s,
                    s == self.shape(e as int),
                    e < self.len(),
                    n == field_count(s),
                    j <= i < n,
                    name@ == field_name(s, i as int),
                    forall|k: int| 0 <= k < j ==> field_name(s, k) != field_name(s, i as int),
                decreases i - j,
            {
                let other = sh.field_name(j);
                if other.eq(&name) {
                    assert(field_name(s, j as int) == field_name(s, i as int));
                    assert(!self.entity_ok(e as int));
                    return false;
                }
                j += 1;
            }
            i += 1;
        }
        match sh {
            Shape::Union(vs) => {
                let mut k: usize = 0;
                while k < vs.len()
                    invariant
                        *sh == s,
                        s == self.shape(e as int),
                        variants(s) == vs@,
                        k <= vs@.len(),
                        forall|m: int| 0 <= m < k ==> self.ty_ok(#[trigger] vs@[m]) && rank(vs@[m]) <= 3 * e,
                    decreases vs.len() - k,
                {
                    let ty = vs[k];
                    let below = match ty {
                        Ty::Entity(j) => j < e,
                        Ty::Owned(j) => j < e,
                        _ => true,
                    };
                    if !self.ty_valid(ty) || !below {
                        return false;
                    }
                    k += 1;
                }
                true
            },
            _ => true,
        }
    }

    /// Whether the table is well formed.
    pub fn validate(&self) -> (r: bool)
        ensures
            r == self.wf(),
    {
        let n = self.entities.len();
        if n >= 0x1000_0000 {
            return false;
        }
        let mut e: usize = 0;
        while e < n
            invariant
                n == self.len(),
                n < 0x1000_0000,
                e <= n,
                forall|k: int| 0 <= k < e ==> #[trigger] self.entity_ok(k),
                forall|k: int, f: int| 0 <= k < f < e ==> self.name(k) != self.name(f),
            decreases n - e,
        {
            if !self.entity_valid(e) {
                return false;
            }
            let mut f: usize = 0;
            while f < e
                invariant
                    n == self.len(),
                    f <= e < n,
                    forall|k: int| 0 <= k < f ==> self.name(k) != self.name(e as int),
                decreases e - f,
            {
                if self.entities[f].name.eq(&self.entities[e].name) {
                    assert(self.name(f as int) == self.name(e as int));
                    assert(!self.wf());
                    return false;
                }
                f += 1;
            }
            e += 1;
        }
        true
    }
}


impl Schema {
    /// Where the entity of that name stands in the table.
    pub fn find_entity(&self, name: &str) -> (r: Option<usize>)
        ensures
            match r {
                Some(e) => e < self.len() && self.name(e as int) == name@,
                None => forall|e: int| 0 <= e < self.len() ==> self.name(e) != name@,
            },
    {
        let target = String::from_str(name);
        let mut e: usize = 0;
        while e < self.entities.len()
            invariant
                e <= self.len(),
                target@ == name@,
                forall|k: int| 0 <= k < e ==> self.name(k) != name@,
            decreases self.len() - e,
        {
            if self.entities[e].name.eq(&target) {
                return Some(e);
            }
            e += 1;
        }
        None
    }
}

} // verus!
