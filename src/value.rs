use vstd::prelude::*;
use vstd::string::StringExecFns;

verus! {

/// The facets that may restrict a datatype.
#[derive(Clone, Copy, Debug, PartialEq, Eq, Structural, PartialOrd, Ord, Hash)]
pub enum Facet {
    Length,
    MinLength,
    MaxLength,
    Pattern,
    MinInclusive,
    MinExclusive,
    MaxInclusive,
    MaxExclusive,
    TotalDigits,
    FractionDigits,
    LangRange,
}

/// A value as the host environment sees it: dynamically typed.
#[derive(Debug)]
pub enum HostValue {
    Int(i64),
    Str(String),
    Iri(String),
    Facet(Facet),
    List(Vec<HostValue>),
    Unique(Vec<HostValue>),
    /// An instance of the host class named by the first field, with its
    /// attributes by name.
    Object(String, Vec<(String, HostValue)>),
}

/// The mathematical model of a host value.
pub enum Host {
    Int(int),
    Str(Seq<char>),
    Iri(Seq<char>),
    Facet(Facet),
    List(Seq<Host>),
    Unique(Seq<Host>),
    Object(Seq<char>, Seq<(Seq<char>, Host)>),
}

impl HostValue {
    pub open spec fn view(&self) -> Host
        decreases self,
    {
        match self {
            HostValue::Int(i) => Host::Int(*i as int),
            HostValue::Str(s) => Host::Str(s@),
            HostValue::Iri(s) => Host::Iri(s@),
            HostValue::Facet(f) => Host::Facet(*f),
            HostValue::List(v) => Host::List(host_views(v@)),
            HostValue::Unique(v) => Host::Unique(host_views(v@)),
            HostValue::Object(c, a) => Host::Object(c@, attr_views(a@)),
        }
    }
}

pub open spec fn host_views(s: Seq<HostValue>) -> Seq<Host>
    decreases s,
{
    if s.len() == 0 {
        Seq::empty()
    } else {
        host_views(s.drop_last()).push(s.last().view())
    }
}

pub open spec fn attr_views(s: Seq<(String, HostValue)>) -> Seq<(Seq<char>, Host)>
    decreases s,
{
    if s.len() == 0 {
        Seq::empty()
    } else {
        attr_views(s.drop_last()).push((s.last().0@, s.last().1.view()))
    }
}


/// An IRI, held as its text.
#[derive(Clone, Debug)]
pub struct IRI(pub String);

/// A plain string leaf, such as the identifier of an anonymous individual.
#[derive(Clone, Debug)]
pub struct StringWrapper(pub String);

/// The sequence adapter: an ordered list of elements.
#[derive(Clone, Debug)]
pub struct VecWrap<T>(pub Vec<T>);

/// The owned-indirection adapter: exactly one element, held by a box.
#[derive(Clone, Debug)]
pub struct BoxWrap<T>(pub Box<T>);

/// The unique-set adapter: distinct elements in ascending order.
#[derive(Clone, Debug)]
pub struct BTreeSetWrap<T>(pub Vec<T>);

/// A native value, laid out as the schema says for its type.
#[derive(Debug)]
pub enum Value {
    Int(u32),
    Text(String),
    Iri(IRI),
    Anon(StringWrapper),
    Facet(Facet),
    /// A record or positional entity: its fields in declared order.
    Fields(Vec<Value>),
    /// A union value: the declared position of its variant, and the payload.
    Variant(usize, Box<Value>),
    List(VecWrap<Value>),
    Owned(BoxWrap<Value>),
    Unique(BTreeSetWrap<Value>),
}

/// The mathematical model of a native value.
pub enum Val {
    Int(u32),
    Text(Seq<char>),
    Iri(Seq<char>),
    Anon(Seq<char>),
    Facet(Facet),
    Fields(Seq<Val>),
    Variant(nat, Box<Val>),
    List(Seq<Val>),
    Owned(Box<Val>),
    Unique(Seq<Val>),
}

impl Value {
    pub open spec fn view(&self) -> Val
        decreases self,
    {
        match self {
            Value::Int(n) => Val::Int(*n),
            Value::Text(s) => Val::Text(s@),
            Value::Iri(i) => Val::Iri(i.0@),
            Value::Anon(a) => Val::Anon(a.0@),
            Value::Facet(f) => Val::Facet(*f),
            Value::Fields(v) => Val::Fields(value_views(v@)),
            Value::Variant(i, b) => Val::Variant(*i as nat, Box::new((**b).view())),
            Value::List(l) => Val::List(value_views(l.0@)),
            Value::Owned(b) => Val::Owned(Box::new((*b.0).view())),
            Value::Unique(u) => Val::Unique(value_views(u.0@)),
        }
    }
}

pub open spec fn value_views(s: Seq<Value>) -> Seq<Val>
    decreases s,
{
    if s.len() == 0 {
        Seq::empty()
    } else {
        value_views(s.drop_last()).push(s.last().view())
    }
}


pub proof fn lemma_host_views(s: Seq<HostValue>)
    ensures
        host_views(s).len() == s.len(),
        forall|i: int| 0 <= i < s.len() ==> #[trigger] host_views(s)[i] == s[i]@,
    decreases s.len(),
{
    if s.len() > 0 {
        lemma_host_views(s.drop_last());
    }
}

pub proof fn lemma_attr_views(s: Seq<(String, HostValue)>)
    ensures
        attr_views(s).len() == s.len(),
        forall|i: int| 0 <= i < s.len() ==> #[trigger] attr_views(s)[i] == (s[i].0@, s[i].1@),
    decreases s.len(),
{
    if s.len() > 0 {
        lemma_attr_views(s.drop_last());
    }
}

pub proof fn lemma_value_views(s: Seq<Value>)
    ensures
        value_views(s).len() == s.len(),
        forall|i: int| 0 <= i < s.len() ==> #[trigger] value_views(s)[i] == s[i]@,
    decreases s.len(),
{
    if s.len() > 0 {
        lemma_value_views(s.drop_last());
    }
}

/// Two sequences with the same element views have the same view.
pub proof fn lemma_value_views_ext(a: Seq<Value>, b: Seq<Value>)
    requires
        a.len() == b.len(),
        forall|i: int| 0 <= i < a.len() ==> a[i]@ == b[i]@,
    ensures
        value_views(a) == value_views(b),
{
    lemma_value_views(a);
    lemma_value_views(b);
    assert(value_views(a) =~= value_views(b));
}


impl Facet {
    /// The interface text of the facet enumeration.
    pub fn __pyi__() -> (r: String)
        ensures
            r@ == facet_stub(),
    {
        String::from_str(
            "class Facet:\n    Length: Facet\n    MinLength: Facet\n    MaxLength: Facet\n    Pattern: Facet\n    MinInclusive: Facet\n    MinExclusive: Facet\n    MaxInclusive: Facet\n    MaxExclusive: Facet\n    TotalDigits: Facet\n    FractionDigits: Facet\n    LangRange: Facet\n",
        )
    }
}

pub open spec fn facet_stub() -> Seq<char> {
    "class Facet:\n    Length: Facet\n    MinLength: Facet\n    MaxLength: Facet\n    Pattern: Facet\n    MinInclusive: Facet\n    MinExclusive: Facet\n    MaxInclusive: Facet\n    MaxExclusive: Facet\n    TotalDigits: Facet\n    FractionDigits: Facet\n    LangRange: Facet\n"@
}

impl IRI {
    /// The text of the IRI.
    pub fn __str__(&self) -> (r: String)
        ensures
            r@ == self.0@,
    {
        self.0.clone()
    }

    /// The host expression that rebuilds the IRI.
    pub fn __repr__(&self) -> (r: String)
        ensures
            r@ == "IRI.parse(\""@ + self.0@ + "\")"@,
    {
        let mut r = String::from_str("IRI.parse(\"");
        r.append(self.0.as_str());
        r.append("\")");
        r
    }
}

impl<T> From<Vec<T>> for VecWrap<T> {
    fn from(value: Vec<T>) -> Self {
        VecWrap(value)
    }
}

impl<T> vstd::std_specs::convert::FromSpecImpl<Vec<T>> for VecWrap<T> {
    open spec fn obeys_from_spec() -> bool {
        true
    }

    open spec fn from_spec(value: Vec<T>) -> Self {
        VecWrap(value)
    }
}

impl<T> From<VecWrap<T>> for Vec<T> {
    fn from(value: VecWrap<T>) -> Self {
        value.0
    }
}

impl<T> vstd::std_specs::convert::FromSpecImpl<VecWrap<T>> for Vec<T> {
    open spec fn obeys_from_spec() -> bool {
        true
    }

    open spec fn from_spec(value: VecWrap<T>) -> Self {
        value.0
    }
}

} // verus!
