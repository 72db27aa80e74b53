use vstd::prelude::*;

verus! {

/// In-memory JSON value: the shape every codec of this crate reads and
/// builds. Numbers are the protocol's unsigned integers.
#[derive(Debug)]
pub enum JsonVal {
    Null,
    Bool(bool),
    Num(u32),
    Str(String),
    Arr(Vec<JsonVal>),
    Obj(Vec<(String, JsonVal)>),
}

/// Mathematical mirror of `JsonVal`: strings as character sequences,
/// collections as sequences.
pub enum JVal {
    Null,
    Bool(bool),
    Num(u32),
    Str(Seq<char>),
    Arr(Seq<JVal>),
    Obj(Seq<(Seq<char>, JVal)>),
}

/// The abstraction of a `JsonVal`.
pub open spec fn jv_view(v: JsonVal) -> JVal
    decreases v, 0int,
    via jv_view_decreases
{
    match v {
        JsonVal::Null => JVal::Null,
        JsonVal::Bool(b) => JVal::Bool(b),
        JsonVal::Num(n) => JVal::Num(n),
        JsonVal::Str(s) => JVal::Str(s@),
        JsonVal::Arr(a) => JVal::Arr(jv_view_list(a@)),
        JsonVal::Obj(e) => JVal::Obj(jv_view_entries(e@)),
    }
}

/// Element-wise abstraction of an array's members.
pub open spec fn jv_view_list(elems: Seq<JsonVal>) -> Seq<JVal>
    decreases elems, 1int,
    via jv_view_list_decreases
{
    if elems.len() == 0 {
        Seq::empty()
    } else {
        seq![jv_view(elems[0])] + jv_view_list(elems.skip(1))
    }
}

/// Element-wise abstraction of an object's entries.
pub open spec fn jv_view_entries(entries: Seq<(String, JsonVal)>) -> Seq<(Seq<char>, JVal)>
    decreases entries, 1int,
    via jv_view_entries_decreases
{
    if entries.len() == 0 {
        Seq::empty()
    } else {
        seq![(entries[0].0@, jv_view(entries[0].1))] + jv_view_entries(entries.skip(1))
    }
}

#[via_fn]
proof fn jv_view_decreases(v: JsonVal) {
    match v {
        JsonVal::Arr(a) => {
            assert(decreases_to!(v => a));
            assert(decreases_to!(a => a@));
        },
        JsonVal::Obj(e) => {
            assert(decreases_to!(v => e));
            assert(decreases_to!(e => e@));
        },
        _ => {},
    }
}

#[via_fn]
proof fn jv_view_list_decreases(elems: Seq<JsonVal>) {
    if elems.len() > 0 {
        assert(decreases_to!(elems => elems[0]));
        assert(decreases_to!(elems => elems.subrange(1, elems.len() as int)));
    }
}

#[via_fn]
proof fn jv_view_entries_decreases(entries: Seq<(String, JsonVal)>) {
    if entries.len() > 0 {
        assert(decreases_to!(entries => entries[0]));
        assert(decreases_to!(entries[0] => entries[0].1));
        assert(decreases_to!(entries => entries.subrange(1, entries.len() as int)));
    }
}

/// The abstraction of an array member list, element by element.
pub broadcast proof fn lemma_jv_view_list(elems: Seq<JsonVal>)
    ensures
        (#[trigger] jv_view_list(elems)).len() == elems.len(),
        forall|i: int| 0 <= i < elems.len() ==> jv_view_list(elems)[i] == jv_view(#[trigger] elems[i]),
    decreases elems.len(),
{
    if elems.len() > 0 {
        lemma_jv_view_list(elems.skip(1));
        assert forall|i: int| 0 <= i < elems.len() implies jv_view_list(elems)[i] == jv_view(
            #[trigger] elems[i],
        ) by {
            if i > 0 {
                assert(jv_view_list(elems)[i] == jv_view_list(elems.skip(1))[i - 1]);
                assert(elems.skip(1)[i - 1] == elems[i]);
            }
        }
    }
}

/// The abstraction of an object entry list, entry by entry.
pub broadcast proof fn lemma_jv_view_entries(entries: Seq<(String, JsonVal)>)
    ensures
        (#[trigger] jv_view_entries(entries)).len() == entries.len(),
        forall|i: int|
            0 <= i < entries.len() ==> jv_view_entries(entries)[i] == (
            (#[trigger] entries[i]).0@,
            jv_view(entries[i].1),
            ),
    decreases entries.len(),
{
    if entries.len() > 0 {
        lemma_jv_view_entries(entries.skip(1));
        assert forall|i: int| 0 <= i < entries.len() implies jv_view_entries(entries)[i] == (
            (#[trigger] entries[i]).0@,
            jv_view(entries[i].1),
        ) by {
            if i > 0 {
                assert(jv_view_entries(entries)[i] == jv_view_entries(entries.skip(1))[i - 1]);
                assert(entries.skip(1)[i - 1] == entries[i]);
            }
        }
    }
}

/// An entry list whose keys and values each abstract to `expected` does so
/// as a whole.
pub proof fn lemma_jv_view_entries_pointwise(
    entries: Seq<(String, JsonVal)>,
    expected: Seq<(Seq<char>, JVal)>,
)
    requires
        entries.len() == expected.len(),
        forall|i: int|
            0 <= i < entries.len() ==> (#[trigger] entries[i]).0@ == expected[i].0 && jv_view(
                entries[i].1,
            ) == expected[i].1,
    ensures
        jv_view_entries(entries) == expected,
{
    lemma_jv_view_entries(entries);
    assert forall|i: int| 0 <= i < entries.len() implies jv_view_entries(entries)[i]
        == expected[i] by {
        assert((entries[i]).0@ == expected[i].0 && jv_view(entries[i].1) == expected[i].1);
    }
    assert(jv_view_entries(entries) =~= expected);
}

impl View for JsonVal {
    type V = JVal;

    open spec fn view(&self) -> JVal {
        jv_view(*self)
    }
}

/// First entry of `entries` whose key is `key`, if any.
pub open spec fn jv_lookup(entries: Seq<(Seq<char>, JVal)>, key: Seq<char>) -> Option<JVal>
    decreases entries.len(),
{
    if entries.len() == 0 {
        None
    } else if entries[0].0 == key {
        Some(entries[0].1)
    } else {
        jv_lookup(entries.skip(1), key)
    }
}

/// A key is found exactly when some entry carries it.
pub proof fn lemma_jv_lookup_exists(entries: Seq<(Seq<char>, JVal)>, key: Seq<char>)
    ensures
        jv_lookup(entries, key) is Some <==> exists|i: int|
            0 <= i < entries.len() && (#[trigger] entries[i]).0 == key,
    decreases entries.len(),
{
    if entries.len() > 0 {
        lemma_jv_lookup_exists(entries.skip(1), key);
        if entries[0].0 == key {
        } else {
            if jv_lookup(entries, key) is Some {
                let i = choose|i: int|
                    0 <= i < entries.skip(1).len() && (#[trigger] entries.skip(1)[i]).0 == key;
                assert(entries[i + 1].0 == key);
            }
            if exists|i: int| 0 <= i < entries.len() && (#[trigger] entries[i]).0 == key {
                let i = choose|i: int| 0 <= i < entries.len() && (#[trigger] entries[i]).0 == key;
                assert(entries.skip(1)[i - 1] == entries[i]);
            }
        }
    }
}

impl JVal {
    /// The member of an object under `key`; `None` for a missing key or a
    /// non-object.
    pub open spec fn get_key(self, key: Seq<char>) -> Option<JVal> {
        match self {
            JVal::Obj(e) => jv_lookup(e, key),
            _ => None,
        }
    }

    /// The object holds `key`.
    pub open spec fn has_key(self, key: Seq<char>) -> bool {
        self.get_key(key) is Some
    }
}

impl JsonVal {
    /// Looks `key` up in an object, first match wins.
    pub fn obj_get<'a>(&'a self, key: &str) -> (r: Option<&'a JsonVal>)
        ensures
            match r {
                Some(v) => self@.get_key(key@) == Some(v@),
                None => self@.get_key(key@) is None,
            },
    {
        match self {
            JsonVal::Obj(entries) => {
                proof {
                    broadcast use lemma_jv_view_entries;

                }
                let ghost gentries = jv_view_entries(entries@);
                proof {
                    assert(gentries.skip(0) =~= gentries);
                }
                let mut i: usize = 0;
                while i < entries.len()
                    invariant
                        i <= entries@.len(),
                        *self == JsonVal::Obj(*entries),
                        gentries == jv_view_entries(entries@),
                        gentries.len() == entries@.len(),
                        forall|j: int|
                            0 <= j < entries@.len() ==> #[trigger] gentries[j] == (
                            entries@[j].0@,
                            jv_view(entries@[j].1),
                            ),
                        jv_lookup(gentries, key@) == jv_lookup(gentries.skip(i as int), key@),
                    decreases entries@.len() - i,
                {
                    let e = &entries[i];
                    if crate::strutil::str_eq(e.0.as_str(), key) {
                        proof {
                            assert(gentries.skip(i as int)[0] == gentries[i as int]);
                        }
                        return Some(&e.1);
                    }
                    proof {
                        assert(gentries.skip(i as int)[0] == gentries[i as int]);
                        assert(gentries.skip(i as int).skip(1) =~= gentries.skip(i + 1));
                    }
                    i = i + 1;
                }
                proof {
                    assert(gentries.skip(i as int) =~= Seq::<(Seq<char>, JVal)>::empty());
                }
                None
            },
            _ => None,
        }
    }

    /// The object holds `key`.
    pub fn has_key(&self, key: &str) -> (r: bool)
        ensures
            r == self@.has_key(key@),
    {
        self.obj_get(key).is_some()
    }

    /// Structural copy; the copy abstracts to the same value.
    pub fn deep_clone(&self) -> (r: JsonVal)
        ensures
            r@ == self@,
        decreases *self,
    {
        match self {
            JsonVal::Null => JsonVal::Null,
            JsonVal::Bool(b) => JsonVal::Bool(*b),
            JsonVal::Num(n) => JsonVal::Num(*n),
            JsonVal::Str(s) => JsonVal::Str(s.clone()),
            JsonVal::Arr(a) => {
                let mut out: Vec<JsonVal> = Vec::new();
                let mut i: usize = 0;
                while i < a.len()
                    invariant
                        i <= a@.len(),
                        *self == JsonVal::Arr(*a),
                        out@.len() == i,
                        forall|j: int| 0 <= j < i ==> (#[trigger] out@[j])@ == a@[j]@,
                    decreases a@.len() - i,
                {
                    proof {
                        assert(decreases_to!(*self => (*self)->Arr_0));
                        assert((*self)->Arr_0 == *a);
                        assert(decreases_to!(*a => a@));
                        assert(decreases_to!(a@ => a@[i as int]));
                    }
                    let c = a[i].deep_clone();
                    out.push(c);
                    i = i + 1;
                }
                proof {
                    lemma_jv_view_list(out@);
                    lemma_jv_view_list(a@);
                    assert forall|j: int| 0 <= j < out@.len() implies jv_view_list(out@)[j]
                        == jv_view_list(a@)[j] by {
                        assert(out@[j]@ == a@[j]@);
                    }
                    assert(jv_view_list(out@) =~= jv_view_list(a@));
                }
                JsonVal::Arr(out)
            },
            JsonVal::Obj(e) => {
                let mut out: Vec<(String, JsonVal)> = Vec::new();
                let mut i: usize = 0;
                while i < e.len()
                    invariant
                        i <= e@.len(),
                        *self == JsonVal::Obj(*e),
                        out@.len() == i,
                        forall|j: int|
                            0 <= j < i ==> (#[trigger] out@[j]).0@ == e@[j].0@ && out@[j].1@
                                == e@[j].1@,
                    decreases e@.len() - i,
                {
                    proof {
                        assert(decreases_to!(*self => (*self)->Obj_0));
                        assert((*self)->Obj_0 == *e);
                        assert(decreases_to!(*e => e@));
                        assert(decreases_to!(e@ => e@[i as int]));
                        assert(decreases_to!(e@[i as int] => e@[i as int].1));
                    }
                    let entry = &e[i];
                    let k = entry.0.clone();
                    let v = entry.1.deep_clone();
                    out.push((k, v));
                    i = i + 1;
                }
                proof {
                    lemma_jv_view_entries(out@);
                    lemma_jv_view_entries(e@);
                    assert forall|j: int| 0 <= j < out@.len() implies jv_view_entries(out@)[j]
                        == jv_view_entries(e@)[j] by {
                        assert(out@[j].0@ == e@[j].0@ && out@[j].1@ == e@[j].1@);
                    }
                    assert(jv_view_entries(out@) =~= jv_view_entries(e@));
                }
                JsonVal::Obj(out)
            },
        }
    }
}

impl Clone for JsonVal {
    fn clone(&self) -> (r: Self)
        ensures
            r@ == self@,
    {
        self.deep_clone()
    }
}

/// JSON escape of one character.
pub open spec fn esc_char(c: char) -> Seq<char> {
    if c == '"' {
        seq!['\\', '"']
    } else if c == '\\' {
        seq!['\\', '\\']
    } else if c == '\n' {
        seq!['\\', 'n']
    } else if c == '\r' {
        seq!['\\', 'r']
    } else if c == '\t' {
        seq!['\\', 't']
    } else {
        seq![c]
    }
}

/// Escape of the first `i` characters of `s`.
pub open spec fn esc_prefix(s: Seq<char>, i: int) -> Seq<char>
    decreases i,
{
    if i <= 0 || i > s.len() {
        Seq::empty()
    } else {
        esc_prefix(s, i - 1) + esc_char(s[i - 1])
    }
}

/// A quoted, escaped JSON string literal.
pub open spec fn quoted(s: Seq<char>) -> Seq<char> {
    seq!['"'] + esc_prefix(s, s.len() as int) + seq!['"']
}

/// Line break plus current indentation, present only when pretty-printing.
pub open spec fn ser_break(pretty: bool, ind: Seq<char>) -> Seq<char> {
    if pretty {
        seq!['\n'] + ind
    } else {
        Seq::empty()
    }
}

/// Serialization of a JSON value: compact when `pretty` is false, indented
/// by three spaces per level when true.
pub open spec fn ser(v: JVal, pretty: bool, ind: Seq<char>) -> Seq<char>
    decreases v, 0int,
{
    match v {
        JVal::Null => "null"@,
        JVal::Bool(b) => if b {
            "true"@
        } else {
            "false"@
        },
        JVal::Num(n) => crate::strutil::dec_str(n as int),
        JVal::Str(s) => quoted(s),
        JVal::Arr(elems) => if elems.len() == 0 {
            "[]"@
        } else {
            seq!['['] + ser_list(elems, 0, pretty, ind + "   "@) + ser_break(pretty, ind)
                + seq![']']
        },
        JVal::Obj(entries) => if entries.len() == 0 {
            "{}"@
        } else {
            seq!['{'] + ser_entries(entries, 0, pretty, ind + "   "@) + ser_break(pretty, ind)
                + seq!['}']
        },
    }
}

/// Serialization of the members of an array from position `i` on.
pub open spec fn ser_list(elems: Seq<JVal>, i: int, pretty: bool, ind: Seq<char>) -> Seq<char>
    decreases elems, 1int, elems.len() - i,
{
    if i < 0 || i >= elems.len() {
        Seq::empty()
    } else {
        ser_break(pretty, ind) + ser(elems[i], pretty, ind) + (
        if i + 1 < elems.len() {
            seq![','] + ser_list(elems, i + 1, pretty, ind)
        } else {
            Seq::empty()
        })
    }
}

/// Serialization of the entries of an object from position `i` on.
pub open spec fn ser_entries(
    entries: Seq<(Seq<char>, JVal)>,
    i: int,
    pretty: bool,
    ind: Seq<char>,
) -> Seq<char>
    decreases entries, 1int, entries.len() - i,
{
    if i < 0 || i >= entries.len() {
        Seq::empty()
    } else {
        ser_break(pretty, ind) + quoted(entries[i].0) + (
        if pretty {
            ": "@
        } else {
            ":"@
        }) + ser(entries[i].1, pretty, ind) + (
        if i + 1 < entries.len() {
            seq![','] + ser_entries(entries, i + 1, pretty, ind)
        } else {
            Seq::empty()
        })
    }
}

/// Compact serialization of a value.
pub open spec fn dump_spec(v: JVal) -> Seq<char> {
    ser(v, false, Seq::empty())
}

/// Indented serialization of a value, three spaces per level.
pub open spec fn pretty_spec(v: JVal) -> Seq<char> {
    ser(v, true, Seq::empty())
}

/// Appends the quoted, escaped form of `s`.
fn quote_into(s: &str, out: &mut String)
    ensures
        final(out)@ == old(out)@ + quoted(s@),
{
    crate::strutil::push_char(out, '"');
    let n = s.unicode_len();
    let mut i: usize = 0;
    while i < n
        invariant
            i <= n,
            n == s@.len(),
            out@ == old(out)@ + seq!['"'] + esc_prefix(s@, i as int),
        decreases n - i,
    {
        let c = s.get_char(i);
        if c == '"' {
            crate::strutil::push_char(out, '\\');
            crate::strutil::push_char(out, '"');
        } else if c == '\\' {
            crate::strutil::push_char(out, '\\');
            crate::strutil::push_char(out, '\\');
        } else if c == '\n' {
            crate::strutil::push_char(out, '\\');
            crate::strutil::push_char(out, 'n');
        } else if c == '\r' {
            crate::strutil::push_char(out, '\\');
            crate::strutil::push_char(out, 'r');
        } else if c == '\t' {
            crate::strutil::push_char(out, '\\');
            crate::strutil::push_char(out, 't');
        } else {
            crate::strutil::push_char(out, c);
        }
        proof {
            assert(out@ =~= old(out)@ + seq!['"'] + esc_prefix(s@, i + 1));
        }
        i = i + 1;
    }
    crate::strutil::push_char(out, '"');
    proof {
        assert(final(out)@ =~= old(out)@ + quoted(s@));
    }
}

/// Appends the break-and-indent of pretty output.
fn break_into(pretty: bool, ind: &String, out: &mut String)
    ensures
        final(out)@ == old(out)@ + ser_break(pretty, ind@),
{
    if pretty {
        crate::strutil::push_char(out, '\n');
        out.append(ind.as_str());
        proof {
            assert(final(out)@ =~= old(out)@ + ser_break(pretty, ind@));
        }
    }
}

/// Appends the serialization of `v`.
fn ser_into(v: &JsonVal, pretty: bool, ind: &String, out: &mut String)
    ensures
        final(out)@ == old(out)@ + ser(v@, pretty, ind@),
    decreases *v, 0int, 0int,
{
    match v {
        JsonVal::Null => {
            out.append("null");
        },
        JsonVal::Bool(b) => {
            if *b {
                out.append("true");
            } else {
                out.append("false");
            }
        },
        JsonVal::Num(n) => {
            crate::strutil::dec_u64_into(*n as u64, out);
        },
        JsonVal::Str(s) => {
            quote_into(s.as_str(), out);
        },
        JsonVal::Arr(a) => {
            proof {
                lemma_jv_view_list(a@);
            }
            if a.len() == 0 {
                out.append("[]");
            } else {
                crate::strutil::push_char(out, '[');
                let mut ind2 = ind.clone();
                ind2.append("   ");
                proof {
                    assert(decreases_to!(*v => (*v)->Arr_0));
                    assert((*v)->Arr_0 == *a);
                    assert(decreases_to!(*a => a@));
                }
                ser_list_into(a, 0, pretty, &ind2, out);
                break_into(pretty, ind, out);
                crate::strutil::push_char(out, ']');
                proof {
                    assert(final(out)@ =~= old(out)@ + ser(v@, pretty, ind@));
                }
            }
        },
        JsonVal::Obj(e) => {
            proof {
                lemma_jv_view_entries(e@);
            }
            if e.len() == 0 {
                out.append("{}");
            } else {
                crate::strutil::push_char(out, '{');
                let mut ind2 = ind.clone();
                ind2.append("   ");
                proof {
                    assert(decreases_to!(*v => (*v)->Obj_0));
                    assert((*v)->Obj_0 == *e);
                    assert(decreases_to!(*e => e@));
                }
                ser_entries_into(e, 0, pretty, &ind2, out);
                break_into(pretty, ind, out);
                crate::strutil::push_char(out, '}');
                proof {
                    assert(final(out)@ =~= old(out)@ + ser(v@, pretty, ind@));
                }
            }
        },
    }
}

/// Appends the serialization of the members of `a` from position `i` on.
fn ser_list_into(a: &Vec<JsonVal>, i: usize, pretty: bool, ind: &String, out: &mut String)
    requires
        i < a@.len(),
    ensures
        final(out)@ == old(out)@ + ser_list(jv_view_list(a@), i as int, pretty, ind@),
    decreases a@, 1int, a@.len() - i,
{
    proof {
        lemma_jv_view_list(a@);
        assert(decreases_to!(a@ => a@[i as int]));
    }
    break_into(pretty, ind, out);
    ser_into(&a[i], pretty, ind, out);
    let n = a.len();
    if i < n - 1 {
        crate::strutil::push_char(out, ',');
        ser_list_into(a, i + 1, pretty, ind, out);
    }
    proof {
        assert(final(out)@ =~= old(out)@ + ser_list(jv_view_list(a@), i as int, pretty, ind@));
    }
}

/// Appends the serialization of the entries of `e` from position `i` on.
fn ser_entries_into(
    e: &Vec<(String, JsonVal)>,
    i: usize,
    pretty: bool,
    ind: &String,
    out: &mut String,
)
    requires
        i < e@.len(),
    ensures
        final(out)@ == old(out)@ + ser_entries(jv_view_entries(e@), i as int, pretty, ind@),
    decreases e@, 1int, e@.len() - i,
{
    proof {
        lemma_jv_view_entries(e@);
        assert(decreases_to!(e@ => e@[i as int]));
        assert(decreases_to!(e@[i as int] => e@[i as int].1));
    }
    break_into(pretty, ind, out);
    let entry = &e[i];
    quote_into(entry.0.as_str(), out);
    if pretty {
        out.append(": ");
    } else {
        out.append(":");
    }
    ser_into(&entry.1, pretty, ind, out);
    let n = e.len();
    if i < n - 1 {
        crate::strutil::push_char(out, ',');
        ser_entries_into(e, i + 1, pretty, ind, out);
    }
    proof {
        assert(final(out)@ =~= old(out)@ + ser_entries(jv_view_entries(e@), i as int, pretty, ind@));
    }
}

impl JsonVal {
    /// Compact one-line JSON text of this value.
    pub fn dump(&self) -> (r: String)
        ensures
            r@ == dump_spec(self@),
    {
        let mut out = String::new();
        let ind = String::new();
        ser_into(self, false, &ind, &mut out);
        proof {
            assert(out@ =~= dump_spec(self@));
        }
        out
    }

    /// Indented JSON text of this value, three spaces per level.
    pub fn pretty(&self) -> (r: String)
        ensures
            r@ == pretty_spec(self@),
    {
        let mut out = String::new();
        let ind = String::new();
        ser_into(self, true, &ind, &mut out);
        proof {
            assert(out@ =~= pretty_spec(self@));
        }
        out
    }
}

} // verus!
