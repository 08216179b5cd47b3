use vstd::prelude::*;
use vstd::string::StringExecFns;
use crate::schema::{Schema, Shape, Ty, Leaf, field_count, field_name, field_ty, variants};

verus! {

/// What stripping every `path::` qualifier from a type spelling gives.
pub uninterp spec fn qualifiers_stripped(s: Seq<char>) -> Seq<char>;

/// Where the line that holds position `i` ends.
pub open spec fn line_end(s: Seq<char>, i: int) -> int
    decreases s.len() - i,
{
    if i < 0 || i >= s.len() {
        s.len() as int
    } else if s[i] == '\n' {
        i
    } else {
        line_end(s, i + 1)
    }
}

/// The last `>` in `s[i..end)`, or -1.
pub open spec fn last_close(s: Seq<char>, i: int, end: int) -> int
    decreases end - i,
{
    if end <= i {
        -1
    } else if s[end - 1] == '>' {
        end - 1
    } else {
        last_close(s, i, end - 1)
    }
}

/// Each `BoxWrap<...>`, from its leftmost start to the last `>` on the same
/// line, replaced by what it encloses, left to right.
pub open spec fn owned_unwrapped(s: Seq<char>) -> Seq<char>
    decreases s.len(),
{
    let k = last_close(s, 8, line_end(s, 8));
    if s.len() == 0 {
        s
    } else if s.len() >= 8 && s.subrange(0, 8) == "BoxWrap<"@ && 8 <= k < s.len() {
        s.subrange(8, k) + owned_unwrapped(s.subrange(k + 1, s.len() as int))
    } else {
        seq![s[0]] + owned_unwrapped(s.subrange(1, s.len() as int))
    }
}

/// Relies on regex's `Regex::replace_all` with the pattern `(?:\w+::)*(\w+)`
/// and the replacement `$1`: every path-qualified name becomes its last segment.
#[verifier::external_body]
fn strip_qualifiers(s: &str) -> (r: String)
    ensures
        r@ == qualifiers_stripped(s@),
{
    let re = regex::Regex::new(r"(?m)(?:\w+::)*(\w+)").unwrap();
    re.replace_all(s, "$1").to_string()
}

/// Relies on regex's `Regex::replace_all` with the pattern `BoxWrap<(.*)>`
/// and the replacement `$1`: leftmost-first matches, left to right, where `.`
/// is any character but a line feed and `.*` is greedy.
#[verifier::external_body]
fn unwrap_owned(s: &str) -> (r: String)
    ensures
        r@ == owned_unwrapped(s@),
{
    let re = regex::Regex::new(r"BoxWrap<(.*)>").unwrap();
    re.replace_all(s, "$1").to_string()
}

/// Every match of a non-empty pattern, left to right and without overlap,
/// replaced by `to`.
pub open spec fn replaced(s: Seq<char>, from: Seq<char>, to: Seq<char>) -> Seq<char>
    decreases s.len(),
{
    if from.len() == 0 || s.len() < from.len() {
        s
    } else if s.subrange(0, from.len() as int) == from {
        to + replaced(s.subrange(from.len() as int, s.len() as int), from, to)
    } else {
        seq![s[0]] + replaced(s.subrange(1, s.len() as int), from, to)
    }
}

/// Relies on `str::replace`, which replaces all matches of a pattern.
#[verifier::external_body]
fn replace_text(s: &str, from: &str, to: &str) -> (r: String)
    requires
        from@.len() > 0,
    ensures
        r@ == replaced(s@, from@, to@),
{
    s.replace(from, to)
}

/// The host's spelling of a native type spelling.
pub open spec fn host_spelling(native: Seq<char>) -> Seq<char> {
    host_names(owned_unwrapped(qualifiers_stripped(native)))
}

/// The host's names for the adapters, the string types and the integer type,
/// with square brackets for angle brackets.
pub open spec fn host_names(s: Seq<char>) -> Seq<char> {
    let s = replaced(s, "<"@, "["@);
    let s = replaced(s, ">"@, "]"@);
    let s = replaced(s, "VecWrap"@, "list"@);
    let s = replaced(s, "StringWrapper"@, "str"@);
    let s = replaced(s, "BTreeSetWrap"@, "set"@);
    let s = replaced(s, "u32"@, "int"@);
    let s = replaced(s, "&str"@, "str"@);
    replaced(s, "String"@, "str"@)
}

/// Rewrites a native type spelling into the host's: no qualifiers, no owned
/// indirection, sequences as `list`, sets as `set`, strings and integers in the
/// host's own names.
pub fn to_py_type(native: &str) -> (r: String)
    ensures
        r@ == host_spelling(native@),
{
    let s = strip_qualifiers(native);
    let s = unwrap_owned(s.as_str());
    rename_to_host(s.as_str())
}

/// Renames, in a spelling already stripped of qualifiers and of the owned
/// indirection, the adapters and primitive types to the host's names.
pub fn rename_to_host(s: &str) -> (r: String)
    ensures
        r@ == host_names(s@),
{
    proof {
        reveal_strlit("<");
        reveal_strlit(">");
        reveal_strlit("VecWrap");
        reveal_strlit("StringWrapper");
        reveal_strlit("BTreeSetWrap");
        reveal_strlit("u32");
        reveal_strlit("&str");
        reveal_strlit("String");
    }
    let s = replace_text(s, "<", "[");
    let s = replace_text(s.as_str(), ">", "]");
    let s = replace_text(s.as_str(), "VecWrap", "list");
    let s = replace_text(s.as_str(), "StringWrapper", "str");
    let s = replace_text(s.as_str(), "BTreeSetWrap", "set");
    let s = replace_text(s.as_str(), "u32", "int");
    let s = replace_text(s.as_str(), "&str", "str");
    replace_text(s.as_str(), "String", "str")
}

pub open spec fn native_path() -> Seq<char> {
    "pyhornedowl::model::"@
}

impl Schema {
    /// The native spelling of a type, as the native layout names it.
    pub open spec fn native_name(&self, ty: Ty) -> Seq<char> {
        match ty {
            Ty::Int => "u32"@,
            Ty::Text => "alloc::string::String"@,
            Ty::Leaf(Leaf::Iri) => native_path() + "IRI"@,
            Ty::Leaf(Leaf::Anon) => native_path() + "StringWrapper"@,
            Ty::Leaf(Leaf::Facet) => native_path() + "Facet"@,
            Ty::Entity(e) => native_path() + self.name(e as int),
            Ty::List(e) => native_path() + "VecWrap<"@ + native_path() + self.name(e as int) + ">"@,
            Ty::Owned(e) => native_path() + "BoxWrap<"@ + native_path() + self.name(e as int) + ">"@,
            Ty::Unique(e) => native_path() + "BTreeSetWrap<"@ + native_path() + self.name(e as int)
                + ">"@,
        }
    }

    pub open spec fn spelling(&self, ty: Ty) -> Seq<char> {
        host_spelling(self.native_name(ty))
    }

    /// Each field of entity `e` with its host type, in declared order.
    pub open spec fn stub_entries(&self, e: int) -> Seq<(Seq<char>, Seq<char>)> {
        let sh = self.shape(e);
        Seq::new(
            field_count(sh),
            |i: int| (field_name(sh, i), self.spelling(field_ty(sh, i))),
        )
    }

    pub fn native_name_of(&self, ty: Ty) -> (r: String)
        requires
            self.ty_ok(ty),
        ensures
            r@ == self.native_name(ty),
    {
        let mut r = String::new();
        match ty {
            Ty::Int => r.append("u32"),
            Ty::Text => r.append("alloc::string::String"),
            Ty::Leaf(Leaf::Iri) => {
                r.append("pyhornedowl::model::");
                r.append("IRI");
            },
            Ty::Leaf(Leaf::Anon) => {
                r.append("pyhornedowl::model::");
                r.append("StringWrapper");
            },
            Ty::Leaf(Leaf::Facet) => {
                r.append("pyhornedowl::model::");
                r.append("Facet");
            },
            Ty::Entity(e) => {
                r.append("pyhornedowl::model::");
                r.append(self.entities[e].name.as_str());
            },
            Ty::List(e) => {
                r.append("pyhornedowl::model::");
                r.append("VecWrap<");
                r.append("pyhornedowl::model::");
                r.append(self.entities[e].name.as_str());
                r.append(">");
            },
            Ty::Owned(e) => {
                r.append("pyhornedowl::model::");
                r.append("BoxWrap<");
                r.append("pyhornedowl::model::");
                r.append(self.entities[e].name.as_str());
                r.append(">");
            },
            Ty::Unique(e) => {
                r.append("pyhornedowl::model::");
                r.append("BTreeSetWrap<");
                r.append("pyhornedowl::model::");
                r.append(self.entities[e].name.as_str());
                r.append(">");
            },
        }
        proof {
            assert(r@ =~= self.native_name(ty));
        }
        r
    }
}


/// One line per field: its name and host type.
pub open spec fn field_lines(entries: Seq<(Seq<char>, Seq<char>)>) -> Seq<char>
    decreases entries.len(),
{
    if entries.len() == 0 {
        Seq::empty()
    } else {
        field_lines(entries.drop_last()) + "    "@ + entries.last().0 + ": "@ + entries.last().1
            + "\n"@
    }
}

/// The constructor's parameters after `self`, in declared order.
pub open spec fn init_params(entries: Seq<(Seq<char>, Seq<char>)>) -> Seq<char>
    decreases entries.len(),
{
    if entries.len() == 0 {
        Seq::empty()
    } else {
        init_params(entries.drop_last()) + ", "@ + entries.last().0 + ": "@ + entries.last().1
    }
}

/// The interface text of a class with these fields.
pub open spec fn render_class(name: Seq<char>, entries: Seq<(Seq<char>, Seq<char>)>) -> Seq<char> {
    "class "@ + name + ":\n"@ + field_lines(entries) + "    def __init__(self"@ + init_params(entries)
        + "):\n        ...\n"@ + "    ...\n"@
}

/// The alternatives joined by `, ` inside `typing.Union[...]`.
pub open spec fn joined(parts: Seq<Seq<char>>) -> Seq<char>
    decreases parts.len(),
{
    if parts.len() == 0 {
        Seq::empty()
    } else if parts.len() == 1 {
        parts[0]
    } else {
        joined(parts.drop_last()) + ", "@ + parts.last()
    }
}

pub open spec fn render_union(parts: Seq<Seq<char>>) -> Seq<char> {
    "typing.Union["@ + joined(parts) + "]\n"@
}

impl Schema {
    /// The alternatives that a union variant contributes: a variant that is
    /// itself a union contributes its own variants, one level down.
    pub open spec fn members_of(&self, ty: Ty) -> Seq<Seq<char>> {
        match ty {
            Ty::Entity(j) => if j < self.len() && self.shape(j as int) is Union {
                let vs = variants(self.shape(j as int));
                Seq::new(vs.len(), |k: int| self.spelling(vs[k]))
            } else {
                seq![self.spelling(ty)]
            },
            _ => seq![self.spelling(ty)],
        }
    }

    /// The alternatives of union `e`, in declared order.
    pub open spec fn union_members(&self, e: int, n: nat) -> Seq<Seq<char>>
        decreases n,
    {
        if n == 0 {
            Seq::empty()
        } else {
            self.union_members(e, (n - 1) as nat) + self.members_of(variants(self.shape(e))[n - 1])
        }
    }

    /// The interface text of entity `e`.
    pub open spec fn stub_text(&self, e: int) -> Seq<char> {
        match self.shape(e) {
            Shape::Union(vs) => render_union(self.union_members(e, vs@.len())),
            _ => render_class(self.name(e), self.stub_entries(e)),
        }
    }

    fn spelling_of(&self, ty: Ty) -> (r: String)
        requires
            self.ty_ok(ty),
        ensures
            r@ == self.spelling(ty),
    {
        let n = self.native_name_of(ty);
        to_py_type(n.as_str())
    }

    fn members_into(&self, ty: Ty, out: &mut Vec<String>)
        requires
            self.wf(),
            self.ty_ok(ty),
        ensures
            final(out)@.len() == old(out)@.len() + self.members_of(ty).len(),
            forall|i: int| 0 <= i < old(out)@.len() ==> final(out)@[i]@ == old(out)@[i]@,
            forall|i: int|
                0 <= i < self.members_of(ty).len() ==> #[trigger] final(out)@[old(out)@.len() + i]@
                    == self.members_of(ty)[i],
    {
        match ty {
            Ty::Entity(j) => {
                match &self.entities[j].shape {
                    Shape::Union(vs) => {
                        assert(self.entity_ok(j as int));
                        let ghost start = out@.len();
                        let mut k: usize = 0;
                        while k < vs.len()
                            invariant
                                self.wf(),
                                j < self.len(),
                                self.shape(j as int) == Shape::Union(*vs),
                                self.entity_ok(j as int),
                                k <= vs@.len(),
                                out@.len() == start + k,
                                start == old(out)@.len(),
                                forall|i: int| 0 <= i < start ==> out@[i]@ == old(out)@[i]@,
                                forall|i: int|
                                    0 <= i < k ==> #[trigger] out@[start + i]@ == self.spelling(vs@[i]),
                            decreases vs.len() - k,
                        {
                            assert(self.ty_ok(variants(self.shape(j as int))[k as int]));
                            out.push(self.spelling_of(vs[k]));
                            k += 1;
                        }
                        return;
                    },
                    _ => {},
                }
            },
            _ => {},
        }
        out.push(self.spelling_of(ty));
    }

    /// The interface text of entity `e`: for a record or positional entity,
    /// its fields and host types in declared order and a constructor in the
    /// same order; for a union, the union of its alternatives.
    pub fn stub(&self, e: usize) -> (r: String)
        requires
            self.wf(),
            e < self.len(),
        ensures
            r@ == self.stub_text(e as int),
    {
        assert(self.entity_ok(e as int));
        let ent = &self.entities[e];
        match &ent.shape {
            Shape::Union(vs) => {
                let mut parts: Vec<String> = Vec::new();
                let mut k: usize = 0;
                while k < vs.len()
                    invariant
                        self.wf(),
                        e < self.len(),
                        self.shape(e as int) == Shape::Union(*vs),
                        self.entity_ok(e as int),
                        k <= vs@.len(),
                        parts@.len() == self.union_members(e as int, k as nat).len(),
                        forall|i: int|
                            0 <= i < parts@.len() ==> #[trigger] parts@[i]@ == self.union_members(
                                e as int,
                                k as nat,
                            )[i],
                    decreases vs.len() - k,
                {
                    assert(self.ty_ok(variants(self.shape(e as int))[k as int]));
                    self.members_into(vs[k], &mut parts);
                    proof {
                        assert(variants(self.shape(e as int))[k as int] == vs@[k as int]);
                        let m = self.union_members(e as int, (k + 1) as nat);
                        assert(m == self.union_members(e as int, k as nat) + self.members_of(vs@[k as int]));
                        assert forall|i: int| 0 <= i < parts@.len() implies #[trigger] parts@[i]@ == m[i] by {
                            let base = self.union_members(e as int, k as nat).len();
                            if i >= base {
                                assert(parts@[base + (i - base)]@ == self.members_of(vs@[k as int])[i - base]);
                            }
                        }
                    }
                    k += 1;
                }
                let ghost ps = self.union_members(e as int, vs@.len());
                let mut body = String::new();
                let mut i: usize = 0;
                while i < parts.len()
                    invariant
                        i <= parts@.len(),
                        parts@.len() == ps.len(),
                        forall|j: int| 0 <= j < parts@.len() ==> #[trigger] parts@[j]@ == ps[j],
                        body@ == joined(ps.subrange(0, i as int)),
                    decreases parts.len() - i,
                {
                    proof {
                        assert(ps.subrange(0, i + 1).drop_last() =~= ps.subrange(0, i as int));
                    }
                    if i > 0 {
                        body.append(", ");
                    }
                    body.append(parts[i].as_str());
                    proof {
                        if i == 0 {
                            assert(body@ =~= joined(ps.subrange(0, 1)));
                        }
                    }
                    i += 1;
                }
                proof {
                    assert(ps.subrange(0, ps.len() as int) =~= ps);
                }
                let mut r = String::new();
                r.append("typing.Union[");
                r.append(body.as_str());
                r.append("]\n");
                proof {
                    assert(r@ =~= render_union(ps));
                }
                r
            },
            sh => {
                let n = sh.field_count();
                let ghost es = self.stub_entries(e as int);
                let mut lines = String::new();
                let mut params = String::new();
                let mut i: usize = 0;
                while i < n
                    invariant
                        self.wf(),
                        e < self.len(),
                        self.entity_ok(e as int),
                        *sh == self.shape(e as int),
                        n == field_count(*sh),
                        es == self.stub_entries(e as int),
                        i <= n,
                        lines@ == field_lines(es.subrange(0, i as int)),
                        params@ == init_params(es.subrange(0, i as int)),
                    decreases n - i,
                {
                    proof {
                        assert(es.subrange(0, i + 1).drop_last() =~= es.subrange(0, i as int));
                        assert(self.ty_ok(field_ty(*sh, i as int)));
                    }
                    let name = sh.field_name(i);
                    let t = self.spelling_of(sh.field_ty(i));
                    lines.append("    ");
                    lines.append(name.as_str());
                    lines.append(": ");
                    lines.append(t.as_str());
                    lines.append("\n");
                    params.append(", ");
                    params.append(name.as_str());
                    params.append(": ");
                    params.append(t.as_str());
                    proof {
                        let last = es.subrange(0, i + 1).last();
                        assert(last == es[i as int]);
                        assert(lines@ =~= field_lines(es.subrange(0, i + 1)));
                        assert(params@ =~= init_params(es.subrange(0, i + 1)));
                    }
                    i += 1;
                }
                proof {
                    assert(es.subrange(0, n as int) =~= es);
                }
                let mut r = String::new();
                r.append("class ");
                r.append(ent.name.as_str());
                r.append(":\n");
                r.append(lines.as_str());
                r.append("    def __init__(self");
                r.append(params.as_str());
                r.append("):\n        ...\n");
                r.append("    ...\n");
                proof {
                    assert(r@ =~= render_class(self.name(e as int), es));
                }
                r
            },
        }
    }
}


impl Schema {
    /// A union is named by an alias; any other entity stands as its class.
    pub open spec fn module_entry(&self, e: int) -> Seq<char> {
        if self.shape(e) is Union {
            self.name(e) + " = "@ + self.stub_text(e)
        } else {
            self.stub_text(e)
        }
    }

    /// The entries of the first `n` entities, in table order.
    pub open spec fn module_text(&self, n: nat) -> Seq<char>
        decreases n,
    {
        if n == 0 {
            Seq::empty()
        } else {
            self.module_text((n - 1) as nat) + self.module_entry(n - 1)
        }
    }

    /// The interface text of the whole table: every class, and an alias for
    /// every union.
    pub fn module_stub(&self) -> (r: String)
        requires
            self.wf(),
        ensures
            r@ == self.module_text(self.len()),
    {
        let mut r = String::new();
        let mut e: usize = 0;
        while e < self.entities.len()
            invariant
                self.wf(),
                e <= self.len(),
                r@ == self.module_text(e as nat),
            decreases self.len() - e,
        {
            let text = self.stub(e);
            if self.entities[e].shape.is_union() {
                r.append(self.entities[e].name.as_str());
                r.append(" = ");
            }
            r.append(text.as_str());
            proof {
                assert(r@ =~= self.module_text((e + 1) as nat));
            }
            e += 1;
        }
        r
    }
}

} // verus!
