//! A small JSON document model.
//!
//! `JsonValue` is the executable tree; its mathematical counterpart is
//! `Json`, built from `Seq`s. Every encoder in this crate produces a
//! `JsonValue` whose view is stated exactly, and `render` turns a tree
//! into its compact JSON text, also stated exactly (`json_text`).
//! Numbers are unsigned integers: that is all this wire schema carries.

use vstd::prelude::*;

verus! {

broadcast use vstd::std_specs::vec::axiom_vec_index_decreases;

/// Mathematical model of a JSON document.
#[verifier::ext_equal]
pub enum Json {
    Null,
    Bool(bool),
    Num(u64),
    Str(Seq<char>),
    Arr(Seq<Json>),
    Obj(Seq<(Seq<char>, Json)>),
}

/// A JSON document as executable data. Object members keep their
/// insertion order, as the remote API's documented shapes do.
#[derive(Debug)]
pub enum JsonValue {
    Null,
    Bool(bool),
    Num(u64),
    Str(String),
    Arr(Vec<JsonValue>),
    Obj(Vec<(String, JsonValue)>),
}

pub open spec fn json_view(v: JsonValue) -> Json
    decreases v, 0int, 0int,
{
    match v {
        JsonValue::Null => Json::Null,
        JsonValue::Bool(b) => Json::Bool(b),
        JsonValue::Num(n) => Json::Num(n),
        JsonValue::Str(s) => Json::Str(s@),
        JsonValue::Arr(items) => Json::Arr(arr_views(items, items.len() as int)),
        JsonValue::Obj(entries) => Json::Obj(obj_views(entries, entries.len() as int)),
    }
}

/// The views of the first `n` elements of `items`, oldest first.
pub open spec fn arr_views(items: Vec<JsonValue>, n: int) -> Seq<Json>
    decreases items, n, 1int,
{
    if 0 < n <= items.len() {
        arr_views(items, n - 1).push(json_view(items[n - 1]))
    } else {
        Seq::empty()
    }
}

/// The views of the first `n` members of `entries`, oldest first.
pub open spec fn obj_views(entries: Vec<(String, JsonValue)>, n: int) -> Seq<(Seq<char>, Json)>
    decreases entries, n, 1int,
{
    if 0 < n <= entries.len() {
        obj_views(entries, n - 1).push(member_view(entries[n - 1]))
    } else {
        Seq::empty()
    }
}

pub open spec fn member_view(entry: (String, JsonValue)) -> (Seq<char>, Json)
    decreases entry, 0int, 1int,
{
    (entry.0@, json_view(entry.1))
}

impl View for JsonValue {
    type V = Json;

    open spec fn view(&self) -> Json {
        json_view(*self)
    }
}

/// Element-wise form of `arr_views`, the shape callers reason with.
pub open spec fn seq_views(s: Seq<JsonValue>) -> Seq<Json> {
    Seq::new(s.len(), |i: int| json_view(s[i]))
}

/// Element-wise form of `obj_views`.
pub open spec fn entries_view(s: Seq<(String, JsonValue)>) -> Seq<(Seq<char>, Json)> {
    Seq::new(s.len(), |i: int| member_view(s[i]))
}

proof fn lemma_arr_views_eq(items: Vec<JsonValue>, n: int)
    requires
        0 <= n <= items@.len(),
    ensures
        arr_views(items, n) == seq_views(items@.take(n)),
    decreases n,
{
    if n > 0 {
        lemma_arr_views_eq(items, n - 1);
        assert(items@.take(n - 1) =~= items@.take(n).drop_last());
        assert(arr_views(items, n) =~= seq_views(items@.take(n)));
    } else {
        assert(arr_views(items, n) =~= seq_views(items@.take(n)));
    }
}

proof fn lemma_obj_views_eq(entries: Vec<(String, JsonValue)>, n: int)
    requires
        0 <= n <= entries@.len(),
    ensures
        obj_views(entries, n) == entries_view(entries@.take(n)),
    decreases n,
{
    if n > 0 {
        lemma_obj_views_eq(entries, n - 1);
        assert(entries@.take(n - 1) =~= entries@.take(n).drop_last());
        assert(obj_views(entries, n) =~= entries_view(entries@.take(n)));
    } else {
        assert(obj_views(entries, n) =~= entries_view(entries@.take(n)));
    }
}

pub broadcast proof fn lemma_json_view_arr(items: Vec<JsonValue>)
    ensures
        #[trigger] json_view(JsonValue::Arr(items)) == Json::Arr(seq_views(items@)),
{
    lemma_arr_views_eq(items, items@.len() as int);
    assert(items@.take(items@.len() as int) =~= items@);
}

pub broadcast proof fn lemma_json_view_obj(entries: Vec<(String, JsonValue)>)
    ensures
        #[trigger] json_view(JsonValue::Obj(entries)) == Json::Obj(entries_view(entries@)),
{
    lemma_obj_views_eq(entries, entries@.len() as int);
    assert(entries@.take(entries@.len() as int) =~= entries@);
}

pub broadcast proof fn lemma_seq_views_push(s: Seq<JsonValue>, x: JsonValue)
    ensures
        #[trigger] seq_views(s.push(x)) == seq_views(s).push(json_view(x)),
{
    assert(seq_views(s.push(x)) =~= seq_views(s).push(json_view(x)));
}

pub broadcast proof fn lemma_entries_view_push(s: Seq<(String, JsonValue)>, e: (String, JsonValue))
    ensures
        #[trigger] entries_view(s.push(e)) == entries_view(s).push(member_view(e)),
{
    assert(entries_view(s.push(e)) =~= entries_view(s).push(member_view(e)));
}

// ---------------------------------------------------------------------------
// The compact JSON text of a document.
// ---------------------------------------------------------------------------

pub open spec fn digit_char(d: int) -> char {
    if d == 0 {
        '0'
    } else if d == 1 {
        '1'
    } else if d == 2 {
        '2'
    } else if d == 3 {
        '3'
    } else if d == 4 {
        '4'
    } else if d == 5 {
        '5'
    } else if d == 6 {
        '6'
    } else if d == 7 {
        '7'
    } else if d == 8 {
        '8'
    } else {
        '9'
    }
}

pub open spec fn hex_char(d: int) -> char {
    if d < 10 {
        digit_char(d)
    } else if d == 10 {
        'a'
    } else if d == 11 {
        'b'
    } else if d == 12 {
        'c'
    } else if d == 13 {
        'd'
    } else if d == 14 {
        'e'
    } else {
        'f'
    }
}

/// The decimal digits of a non-negative number, most significant first.
pub open spec fn num_text(n: int) -> Seq<char>
    decreases n,
{
    if n < 10 {
        seq![digit_char(n)]
    } else {
        num_text(n / 10).push(digit_char(n % 10))
    }
}

/// How one character appears inside a JSON string literal.
pub open spec fn esc_char(c: char) -> Seq<char> {
    if c == '"' {
        "\\\""@
    } else if c == '\\' {
        "\\\\"@
    } else if c == '\n' {
        "\\n"@
    } else if c == '\r' {
        "\\r"@
    } else if c == '\t' {
        "\\t"@
    } else if (c as u32) < 32 {
        "\\u00"@ + seq![hex_char(c as u32 as int / 16), hex_char(c as u32 as int % 16)]
    } else {
        seq![c]
    }
}

pub open spec fn str_body(s: Seq<char>) -> Seq<char>
    decreases s.len(),
{
    if s.len() == 0 {
        Seq::empty()
    } else {
        str_body(s.drop_last()) + esc_char(s.last())
    }
}

/// A JSON string literal: the escaped body between double quotes.
pub open spec fn str_text(s: Seq<char>) -> Seq<char> {
    "\""@ + str_body(s) + "\""@
}

pub open spec fn json_text(j: Json) -> Seq<char>
    decreases j, 0int,
{
    match j {
        Json::Null => "null"@,
        Json::Bool(b) => if b {
            "true"@
        } else {
            "false"@
        },
        Json::Num(n) => num_text(n as int),
        Json::Str(s) => str_text(s),
        Json::Arr(items) => "["@ + arr_text(items) + "]"@,
        Json::Obj(entries) => "{"@ + obj_text(entries) + "}"@,
    }
}

pub open spec fn arr_text(items: Seq<Json>) -> Seq<char>
    decreases items, 1int,
{
    if items.len() == 0 {
        Seq::empty()
    } else if items.len() == 1 {
        json_text(items.last())
    } else {
        arr_text(items.drop_last()) + ","@ + json_text(items.last())
    }
}

pub open spec fn member_text(e: (Seq<char>, Json)) -> Seq<char>
    decreases e, 1int,
{
    str_text(e.0) + ":"@ + json_text(e.1)
}

pub open spec fn obj_text(entries: Seq<(Seq<char>, Json)>) -> Seq<char>
    decreases entries, 1int,
{
    if entries.len() == 0 {
        Seq::empty()
    } else if entries.len() == 1 {
        member_text(entries.last())
    } else {
        obj_text(entries.drop_last()) + ","@ + member_text(entries.last())
    }
}

// ---------------------------------------------------------------------------
// Executable rendering.
// ---------------------------------------------------------------------------

/// Relies on `String::push`: appends the given character to the end of
/// this `String`, and nothing else.
#[verifier::external_body]
fn push_char(out: &mut String, c: char)
    ensures
        final(out)@ == old(out)@.push(c),
{
    out.push(c);
}

/// Character-wise string comparison; `&str` has no specified `==`.
pub fn str_eq(a: &str, b: &str) -> (r: bool)
    ensures
        r == (a@ == b@),
{
    let alen = a.unicode_len();
    let blen = b.unicode_len();
    if alen != blen {
        return false;
    }
    let mut i: usize = 0;
    while i < alen
        invariant
            alen == a@.len(),
            alen == b@.len(),
            0 <= i <= alen,
            forall|j: int| 0 <= j < i ==> a@[j] == b@[j],
        decreases alen - i,
    {
        if a.get_char(i) != b.get_char(i) {
            return false;
        }
        i += 1;
    }
    proof {
        assert(a@ =~= b@);
    }
    true
}

fn digit(d: u64) -> (c: char)
    requires
        d < 10,
    ensures
        c == digit_char(d as int),
{
    match d {
        0 => '0',
        1 => '1',
        2 => '2',
        3 => '3',
        4 => '4',
        5 => '5',
        6 => '6',
        7 => '7',
        8 => '8',
        _ => '9',
    }
}

fn hex(d: u32) -> (c: char)
    requires
        d < 16,
    ensures
        c == hex_char(d as int),
{
    match d {
        0 => '0',
        1 => '1',
        2 => '2',
        3 => '3',
        4 => '4',
        5 => '5',
        6 => '6',
        7 => '7',
        8 => '8',
        9 => '9',
        10 => 'a',
        11 => 'b',
        12 => 'c',
        13 => 'd',
        14 => 'e',
        _ => 'f',
    }
}

fn append_num(out: &mut String, n: u64)
    ensures
        final(out)@ == old(out)@ + num_text(n as int),
    decreases n,
{
    if n < 10 {
        push_char(out, digit(n));
        proof {
            assert(final(out)@ =~= old(out)@ + num_text(n as int));
        }
    } else {
        append_num(out, n / 10);
        push_char(out, digit(n % 10));
        proof {
            assert(final(out)@ =~= old(out)@ + num_text(n as int));
        }
    }
}

fn append_esc(out: &mut String, c: char)
    ensures
        final(out)@ == old(out)@ + esc_char(c),
{
    if c == '"' {
        out.append("\\\"");
    } else if c == '\\' {
        out.append("\\\\");
    } else if c == '\n' {
        out.append("\\n");
    } else if c == '\r' {
        out.append("\\r");
    } else if c == '\t' {
        out.append("\\t");
    } else if (c as u32) < 32 {
        out.append("\\u00");
        push_char(out, hex(c as u32 / 16));
        push_char(out, hex(c as u32 % 16));
        proof {
            assert(final(out)@ =~= old(out)@ + esc_char(c));
        }
    } else {
        push_char(out, c);
        proof {
            assert(final(out)@ =~= old(out)@ + esc_char(c));
        }
    }
}

fn append_str_text(out: &mut String, s: &str)
    ensures
        final(out)@ == old(out)@ + str_text(s@),
{
    out.append("\"");
    let n = s.unicode_len();
    let mut i: usize = 0;
    while i < n
        invariant
            n == s@.len(),
            0 <= i <= n,
            out@ == old(out)@ + "\""@ + str_body(s@.take(i as int)),
        decreases n - i,
    {
        append_esc(out, s.get_char(i));
        proof {
            assert(s@.take(i + 1 as int).drop_last() =~= s@.take(i as int));
            assert(s@.take(i + 1 as int).last() == s@[i as int]);
        }
        i += 1;
    }
    proof {
        assert(s@.take(n as int) =~= s@);
    }
    out.append("\"");
    proof {
        assert(final(out)@ =~= old(out)@ + str_text(s@));
    }
}

impl JsonValue {
    /// The compact JSON text of this document.
    pub fn render(&self) -> (r: String)
        ensures
            r@ == json_text(self@),
    {
        let mut out = String::new();
        self.render_into(&mut out);
        out
    }

    fn render_into(&self, out: &mut String)
        ensures
            final(out)@ == old(out)@ + json_text(self@),
        decreases self,
    {
        match self {
            JsonValue::Null => {
                out.append("null");
            },
            JsonValue::Bool(b) => {
                if *b {
                    out.append("true");
                } else {
                    out.append("false");
                }
            },
            JsonValue::Num(n) => {
                append_num(out, *n);
            },
            JsonValue::Str(s) => {
                append_str_text(out, s.as_str());
            },
            JsonValue::Arr(items) => {
                proof {
                    lemma_json_view_arr(*items);
                }
                let ghost vs = seq_views(items@);
                out.append("[");
                let n = items.len();
                let mut i: usize = 0;
                while i < n
                    invariant
                        *self == JsonValue::Arr(*items),
                        n == items@.len(),
                        0 <= i <= n,
                        vs == seq_views(items@),
                        out@ == old(out)@ + "["@ + arr_text(vs.take(i as int)),
                    decreases n - i,
                {
                    if i > 0 {
                        out.append(",");
                    }
                    proof {
                        assert(decreases_to!(*self => self->Arr_0));
                        assert(decreases_to!(*items => items[i as int]));
                    }
                    items[i].render_into(out);
                    proof {
                        assert(vs.take(i + 1 as int).drop_last() =~= vs.take(i as int));
                        assert(vs.take(i + 1 as int).last() == vs[i as int]);
                        assert(out@ =~= old(out)@ + "["@ + arr_text(vs.take(i + 1 as int)));
                    }
                    i += 1;
                }
                proof {
                    assert(vs.take(n as int) =~= vs);
                }
                out.append("]");
                proof {
                    assert(final(out)@ =~= old(out)@ + json_text(self@));
                }
            },
            JsonValue::Obj(entries) => {
                proof {
                    lemma_json_view_obj(*entries);
                }
                let ghost vs = entries_view(entries@);
                out.append("{");
                let n = entries.len();
                let mut i: usize = 0;
                while i < n
                    invariant
                        *self == JsonValue::Obj(*entries),
                        n == entries@.len(),
                        0 <= i <= n,
                        vs == entries_view(entries@),
                        out@ == old(out)@ + "{"@ + obj_text(vs.take(i as int)),
                    decreases n - i,
                {
                    if i > 0 {
                        out.append(",");
                    }
                    append_str_text(out, entries[i].0.as_str());
                    out.append(":");
                    proof {
                        assert(decreases_to!(*self => self->Obj_0));
                        assert(decreases_to!(*entries => entries[i as int]));
                    }
                    entries[i].1.render_into(out);
                    proof {
                        assert(vs[i as int] == member_view(entries@[i as int]));
                        assert(member_text(vs[i as int]) == str_text(entries@[i as int].0@) + ":"@
                            + json_text(json_view(entries@[i as int].1)));
                        assert(vs.take(i + 1 as int).drop_last() =~= vs.take(i as int));
                        assert(vs.take(i + 1 as int).last() == vs[i as int]);
                        assert(out@ =~= old(out)@ + "{"@ + obj_text(vs.take(i + 1 as int)));
                    }
                    i += 1;
                }
                proof {
                    assert(vs.take(n as int) =~= vs);
                }
                out.append("}");
                proof {
                    assert(final(out)@ =~= old(out)@ + json_text(self@));
                }
            },
        }
    }
}

// ---------------------------------------------------------------------------
// Building and reading objects.
// ---------------------------------------------------------------------------

/// Accumulates the members of a JSON object in order.
pub struct ObjBuilder {
    entries: Vec<(String, JsonValue)>,
}

impl View for ObjBuilder {
    type V = Seq<(Seq<char>, Json)>;

    closed spec fn view(&self) -> Seq<(Seq<char>, Json)> {
        entries_view(self.entries@)
    }
}

impl ObjBuilder {
    pub fn new() -> (r: ObjBuilder)
        ensures
            r@ == Seq::<(Seq<char>, Json)>::empty(),
    {
        let r = ObjBuilder { entries: Vec::new() };
        proof {
            assert(r@ =~= Seq::<(Seq<char>, Json)>::empty());
        }
        r
    }

    /// Appends one member; an object is built by one `field` call per key.
    pub fn field(self, key: &str, v: JsonValue) -> (r: ObjBuilder)
        ensures
            r@ == self@.push((key@, v@)),
    {
        let ghost prior = self@;
        let mut entries = self.entries;
        let ghost prior_entries = entries@;
        entries.push((String::from_str(key), v));
        let r = ObjBuilder { entries };
        proof {
            assert(r.entries@ =~= prior_entries.push((r.entries@[prior_entries.len() as int].0, v)));
            assert(r@ =~= prior.push((key@, v@)));
        }
        r
    }

    pub fn finish(self) -> (r: JsonValue)
        ensures
            r@ == Json::Obj(self@),
    {
        let r = JsonValue::Obj(self.entries);
        proof {
            lemma_json_view_obj(r->Obj_0);
        }
        r
    }
}

impl JsonValue {
    /// A structurally equal copy of this document.
    pub fn deep_clone(&self) -> (r: JsonValue)
        ensures
            r@ == self@,
        decreases self,
    {
        match self {
            JsonValue::Null => JsonValue::Null,
            JsonValue::Bool(b) => JsonValue::Bool(*b),
            JsonValue::Num(n) => JsonValue::Num(*n),
            JsonValue::Str(s) => JsonValue::Str(s.clone()),
            JsonValue::Arr(items) => {
                let mut out: Vec<JsonValue> = Vec::new();
                let n = items.len();
                let mut i: usize = 0;
                while i < n
                    invariant
                        *self == JsonValue::Arr(*items),
                        n == items@.len(),
                        0 <= i <= n,
                        seq_views(out@) == seq_views(items@.take(i as int)),
                    decreases n - i,
                {
                    proof {
                        assert(decreases_to!(*self => self->Arr_0));
                        assert(decreases_to!(*items => items[i as int]));
                    }
                    let c = items[i].deep_clone();
                    let ghost prior = out@;
                    out.push(c);
                    proof {
                        lemma_seq_views_push(prior, c);
                        assert(items@.take(i + 1 as int) =~= items@.take(i as int).push(items@[i as int]));
                        lemma_seq_views_push(items@.take(i as int), items@[i as int]);
                    }
                    i += 1;
                }
                let r = JsonValue::Arr(out);
                proof {
                    assert(items@.take(n as int) =~= items@);
                    lemma_json_view_arr(r->Arr_0);
                    lemma_json_view_arr(*items);
                }
                r
            },
            JsonValue::Obj(entries) => {
                let mut out: Vec<(String, JsonValue)> = Vec::new();
                let n = entries.len();
                let mut i: usize = 0;
                while i < n
                    invariant
                        *self == JsonValue::Obj(*entries),
                        n == entries@.len(),
                        0 <= i <= n,
                        entries_view(out@) == entries_view(entries@.take(i as int)),
                    decreases n - i,
                {
                    proof {
                        assert(decreases_to!(*self => self->Obj_0));
                        assert(decreases_to!(*entries => entries[i as int]));
                    }
                    let c = entries[i].1.deep_clone();
                    let key = entries[i].0.clone();
                    let ghost prior = out@;
                    out.push((key, c));
                    proof {
                        lemma_entries_view_push(prior, out@.last());
                        assert(entries@.take(i + 1 as int) =~= entries@.take(i as int).push(entries@[i as int]));
                        lemma_entries_view_push(entries@.take(i as int), entries@[i as int]);
                        assert(member_view(out@.last()) == member_view(entries@[i as int]));
                        assert(out@.drop_last() =~= prior);
                    }
                    i += 1;
                }
                let r = JsonValue::Obj(out);
                proof {
                    assert(entries@.take(n as int) =~= entries@);
                    lemma_json_view_obj(r->Obj_0);
                    lemma_json_view_obj(*entries);
                }
                r
            },
        }
    }
}

/// The value under `key` in an object's members, first occurrence.
pub open spec fn spec_obj_get(entries: Seq<(Seq<char>, Json)>, key: Seq<char>) -> Option<Json>
    decreases entries.len(),
{
    if entries.len() == 0 {
        None
    } else if entries[0].0 == key {
        Some(entries[0].1)
    } else {
        spec_obj_get(entries.drop_first(), key)
    }
}

impl JsonValue {
    /// Looks a key up in an object; `None` on any other document shape.
    pub fn get<'a>(&'a self, key: &str) -> (r: Option<&'a JsonValue>)
        ensures
            match self@ {
                Json::Obj(es) => match r {
                    Some(v) => spec_obj_get(es, key@) == Some(v@),
                    None => spec_obj_get(es, key@) is None,
                },
                _ => r is None,
            },
    {
        match self {
            JsonValue::Obj(entries) => {
                proof {
                    lemma_json_view_obj(*entries);
                }
                let ghost es = entries_view(entries@);
                proof {
                    assert(es.skip(0) =~= es);
                }
                let n = entries.len();
                let mut i: usize = 0;
                while i < n
                    invariant
                        self@ == Json::Obj(es),
                        n == entries@.len(),
                        0 <= i <= n,
                        es == entries_view(entries@),
                        spec_obj_get(es, key@) == spec_obj_get(es.skip(i as int), key@),
                    decreases n - i,
                {
                    let hit = str_eq(entries[i].0.as_str(), key);
                    proof {
                        assert(es.skip(i as int)[0] == es[i as int]);
                        assert(es.skip(i as int).drop_first() =~= es.skip(i + 1 as int));
                    }
                    if hit {
                        proof {
                            assert(es[i as int] == member_view(entries@[i as int]));
                            assert(spec_obj_get(es.skip(i as int), key@) == Some(es[i as int].1));
                        }
                        return Some(&entries[i].1);
                    }
                    i += 1;
                }
                proof {
                    assert(es.skip(n as int) =~= Seq::<(Seq<char>, Json)>::empty());
                }
                None
            },
            _ => None,
        }
    }
}

} // verus!
