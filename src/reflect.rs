use vstd::prelude::*;
use crate::value::{HostValue, Host, Value, Val, attr_views, host_views, value_views,
    lemma_attr_views, lemma_host_views, lemma_value_views};
use crate::schema::{Schema, Shape, field_count, field_name, field_ty, field_index};
use crate::convert::Fault;
use crate::codec::{BridgeError, decoded};

verus! {

/// The attributes that name each argument after its field, in declared order.
pub open spec fn named_args(sh: Shape, args: Seq<Host>) -> Seq<(Seq<char>, Host)> {
    Seq::new(args.len(), |i: int| (field_name(sh, i), args[i]))
}

impl Schema {
    /// What reading a field by name gives.
    pub open spec fn get_field(&self, e: nat, v: Val, name: Seq<char>) -> Result<Host, Fault> {
        let sh = self.shape(e as int);
        let k = field_index(sh, name);
        if e >= self.len() || k < 0 {
            Err(Fault::UnknownField(name))
        } else {
            match v {
                Val::Fields(xs) => if k < xs.len() {
                    Ok(self.encode(field_ty(sh, k), xs[k]))
                } else {
                    Err(Fault::TypeMismatch)
                },
                _ => Err(Fault::TypeMismatch),
            }
        }
    }

    /// What writing a field by name gives: the updated value.
    pub open spec fn set_field(&self, e: nat, v: Val, name: Seq<char>, h: Host) -> Result<Val, Fault> {
        let sh = self.shape(e as int);
        let k = field_index(sh, name);
        if e >= self.len() || k < 0 {
            Err(Fault::UnknownField(name))
        } else {
            match v {
                Val::Fields(xs) => if k < xs.len() {
                    match self.decode(field_ty(sh, k), h) {
                        Ok(x) => Ok(Val::Fields(xs.update(k, x))),
                        Err(_) => Err(Fault::TypeMismatch),
                    }
                } else {
                    Err(Fault::TypeMismatch)
                },
                _ => Err(Fault::TypeMismatch),
            }
        }
    }

    /// What constructing entity `e` from arguments in declared order gives.
    pub open spec fn construct(&self, e: nat, args: Seq<Host>) -> Result<Val, Fault> {
        let sh = self.shape(e as int);
        if e >= self.len() || sh is Union || args.len() != field_count(sh) {
            Err(Fault::TypeMismatch)
        } else {
            self.decode_entity(e, Host::Object(self.name(e as int), named_args(sh, args)))
        }
    }

    /// Where the field of that name stands.
    pub fn find_field(&self, e: usize, name: &String) -> (r: Option<usize>)
        requires
            self.wf(),
            e < self.len(),
        ensures
            match r {
                Some(k) => field_index(self.shape(e as int), name@) == k as int
                    && k < field_count(self.shape(e as int)),
                None => field_index(self.shape(e as int), name@) == -1,
            },
    {
        let sh = &self.entities[e].shape;
        let n = sh.field_count();
        let ghost s = *sh;
        assert(self.entity_ok(e as int));
        let mut i: usize = 0;
        while i < n
            invariant
                self.wf(),
                e < self.len(),
                i <= n,
                n == field_count(s),
                s == self.shape(e as int),
                *sh == s,
                forall|j: int| 0 <= j < i ==> field_name(s, j) != name@,
            decreases n - i,
        {
            let fname = sh.field_name(i);
            if fname.eq(name) {
                proof {
                    let k = field_index(s, name@);
                    assert(0 <= k < n && field_name(s, k) == name@);
                    if k != i {
                        assert(self.entity_ok(e as int));
                    }
                }
                return Some(i);
            }
            i += 1;
        }
        None
    }

    /// Reads a field of a record value of entity `e` by name, as a host value.
    pub fn get(&self, e: usize, v: &Value, name: &String) -> (r: Result<HostValue, BridgeError>)
        requires
            self.wf(),
        ensures
            match r {
                Ok(h) => self.get_field(e as nat, v@, name@) == Ok::<Host, Fault>(h@),
                Err(f) => self.get_field(e as nat, v@, name@) == Err::<Host, Fault>(f@),
            },
    {
        if e >= self.entities.len() {
            return Err(BridgeError::UnknownField(name.clone()));
        }
        match self.find_field(e, name) {
            None => Err(BridgeError::UnknownField(name.clone())),
            Some(k) => match v {
                Value::Fields(xs) => {
                    proof {
                        lemma_value_views(xs@);
                    }
                    if k < xs.len() {
                        Ok(self.encode_value(self.entities[e].shape.field_ty(k), &xs[k]))
                    } else {
                        Err(BridgeError::TypeMismatch)
                    }
                },
                _ => Err(BridgeError::TypeMismatch),
            },
        }
    }

    /// Writes a field of a record value of entity `e` by name, decoding the
    /// host value as the field's type says; on failure the value is unchanged.
    pub fn set(&self, e: usize, v: &mut Value, name: &String, h: &HostValue) -> (r: Result<(), BridgeError>)
        requires
            self.wf(),
        ensures
            match self.set_field(e as nat, old(v)@, name@, h@) {
                Ok(nv) => r is Ok && final(v)@ == nv,
                Err(f) => r matches Err(g) && g@ == f && final(v)@ == old(v)@,
            },
    {
        if e >= self.entities.len() {
            return Err(BridgeError::UnknownField(name.clone()));
        }
        match self.find_field(e, name) {
            None => Err(BridgeError::UnknownField(name.clone())),
            Some(k) => match v {
                Value::Fields(xs) => {
                    proof {
                        lemma_value_views(xs@);
                    }
                    if k >= xs.len() {
                        return Err(BridgeError::TypeMismatch);
                    }
                    match self.decode_value(self.entities[e].shape.field_ty(k), h) {
                        Ok(x) => {
                            let ghost before = xs@;
                            proof {
                                lemma_value_views(before);
                            }
                            xs.set(k, x);
                            proof {
                                lemma_value_views(xs@);
                                assert(value_views(xs@) =~= value_views(before).update(k as int, xs@[k as int]@));
                            }
                            Ok(())
                        },
                        Err(_) => Err(BridgeError::TypeMismatch),
                    }
                },
                _ => Err(BridgeError::TypeMismatch),
            },
        }
    }

    /// Builds a value of record or positional entity `e` from arguments given
    /// in declared field order, decoding each as its field's type says.
    pub fn new_instance(&self, e: usize, args: Vec<HostValue>) -> (r: Result<Value, BridgeError>)
        requires
            self.wf(),
        ensures
            decoded(r) == self.construct(e as nat, host_views(args@)),
    {
        proof {
            lemma_host_views(args@);
        }
        if e >= self.entities.len() {
            return Err(BridgeError::TypeMismatch);
        }
        let ent = &self.entities[e];
        let n = ent.shape.field_count();
        if ent.shape.is_union() || args.len() != n {
            return Err(BridgeError::TypeMismatch);
        }
        let ghost hs = host_views(args@);
        let mut attrs: Vec<(String, HostValue)> = Vec::new();
        let mut rest = args;
        let mut i: usize = 0;
        while i < n
            invariant
                i <= n,
                n == field_count(ent.shape),
                rest@.len() == n - i,
                hs.len() == n,
                forall|j: int| 0 <= j < rest@.len() ==> #[trigger] rest@[j]@ == hs[i + j],
                attr_views(attrs@) =~= named_args(ent.shape, hs).subrange(0, i as int),
            decreases n - i,
        {
            let a = rest.remove(0);
            let ghost before = attrs@;
            attrs.push((ent.shape.field_name(i), a));
            proof {
                lemma_attr_views(before);
                lemma_attr_views(attrs@);
                assert(attrs@.drop_last() =~= before);
            }
            i += 1;
        }
        let obj = HostValue::Object(ent.name.clone(), attrs);
        proof {
            assert(named_args(ent.shape, hs).subrange(0, n as int) =~= named_args(ent.shape, hs));
        }
        self.decode_entity_value(e, &obj)
    }
}

impl Schema {
    /// What constructing entity `e` from arguments given by field name gives.
    pub open spec fn construct_named(&self, e: nat, args: Seq<(Seq<char>, Host)>) -> Result<Val, Fault> {
        if e >= self.len() || self.shape(e as int) is Union {
            Err(Fault::TypeMismatch)
        } else {
            self.decode_entity(e, Host::Object(self.name(e as int), args))
        }
    }

    /// Builds a value of record or positional entity `e` from arguments given
    /// by field name, decoding each as its field's type says.
    pub fn new_named_instance(&self, e: usize, args: Vec<(String, HostValue)>) -> (r: Result<Value, BridgeError>)
        ensures
            decoded(r) == self.construct_named(e as nat, attr_views(args@)),
    {
        if e >= self.entities.len() || self.entities[e].shape.is_union() {
            return Err(BridgeError::TypeMismatch);
        }
        let obj = HostValue::Object(self.entities[e].name.clone(), args);
        self.decode_entity_value(e, &obj)
    }
}

impl Shape {
    pub fn is_union(&self) -> (r: bool)
        ensures
            r == (*self is Union),
    {
        match self {
            Shape::Union(_) => true,
            _ => false,
        }
    }
}

} // verus!
