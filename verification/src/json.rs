//! A small JSON value model.
//!
//! Gateway frames and event payloads are carried as `JsonValue` trees.
//! Numbers are integers: none of the gateway's frames carries a fraction,
//! and JSON-RPC ids are integral.  The text encoder produces a canonical
//! compact form; incoming text is parsed through `serde_json`.

use vstd::prelude::*;

verus! {

/// A JSON document: the executable representation.
#[derive(Debug)]
pub enum JsonValue {
    Null,
    Bool(bool),
    Int(i64),
    Str(String),
    Arr(Vec<JsonValue>),
    Obj(Vec<(String, JsonValue)>),
}

/// The mathematical shape of a JSON document.
#[verifier::ext_equal]
pub enum JsonValS {
    Null,
    Bool(bool),
    Int(int),
    Str(Seq<char>),
    Arr(Seq<JsonValS>),
    Obj(Seq<(Seq<char>, JsonValS)>),
}

/// Abstraction of a `JsonValue` to its mathematical shape.
pub open spec fn jv(v: JsonValue) -> JsonValS
    decreases v,
{
    match v {
        JsonValue::Null => JsonValS::Null,
        JsonValue::Bool(b) => JsonValS::Bool(b),
        JsonValue::Int(i) => JsonValS::Int(i as int),
        JsonValue::Str(s) => JsonValS::Str(s@),
        JsonValue::Arr(a) => JsonValS::Arr(jv_seq(a@)),
        JsonValue::Obj(o) => JsonValS::Obj(jv_entries(o@)),
    }
}

/// Abstraction of a sequence of array elements.
pub open spec fn jv_seq(a: Seq<JsonValue>) -> Seq<JsonValS>
    decreases a,
{
    if a.len() == 0 {
        Seq::empty()
    } else {
        jv_seq(a.drop_last()).push(jv(a.last()))
    }
}

/// Abstraction of a sequence of object entries.
pub open spec fn jv_entries(o: Seq<(String, JsonValue)>) -> Seq<(Seq<char>, JsonValS)>
    decreases o,
{
    if o.len() == 0 {
        Seq::empty()
    } else {
        jv_entries(o.drop_last()).push((o.last().0@, jv(o.last().1)))
    }
}

/// `jv_seq` maps `jv` over every element.
pub proof fn lemma_jv_seq(a: Seq<JsonValue>)
    ensures
        jv_seq(a).len() == a.len(),
        forall|i: int| 0 <= i < a.len() ==> jv_seq(a)[i] == jv(a[i]),
    decreases a.len(),
{
    if a.len() > 0 {
        lemma_jv_seq(a.drop_last());
    }
}

/// `jv_entries` maps the view and `jv` over every entry.
pub proof fn lemma_jv_entries(o: Seq<(String, JsonValue)>)
    ensures
        jv_entries(o).len() == o.len(),
        forall|i: int| 0 <= i < o.len() ==> jv_entries(o)[i] == (o[i].0@, jv(o[i].1)),
    decreases o.len(),
{
    if o.len() > 0 {
        lemma_jv_entries(o.drop_last());
    }
}

impl DeepView for JsonValue {
    type V = JsonValS;

    open spec fn deep_view(&self) -> JsonValS {
        jv(*self)
    }
}

fn clone_arr(a: &Vec<JsonValue>) -> (r: Vec<JsonValue>)
    ensures
        jv_seq(r@) == jv_seq(a@),
    decreases a,
{
    let mut r: Vec<JsonValue> = Vec::new();
    let mut i: usize = 0;
    while i < a.len()
        invariant
            0 <= i <= a@.len(),
            r@.len() == i,
            forall|j: int| 0 <= j < i ==> jv(r@[j]) == jv(a@[j]),
        decreases a@.len() - i,
    {
        r.push(a[i].clone());
        i += 1;
    }
    proof {
        lemma_jv_seq(a@);
        lemma_jv_seq(r@);
        assert(jv_seq(r@) =~= jv_seq(a@));
    }
    r
}

fn clone_entries(o: &Vec<(String, JsonValue)>) -> (r: Vec<(String, JsonValue)>)
    ensures
        jv_entries(r@) == jv_entries(o@),
    decreases o,
{
    let mut r: Vec<(String, JsonValue)> = Vec::new();
    let mut i: usize = 0;
    while i < o.len()
        invariant
            0 <= i <= o@.len(),
            r@.len() == i,
            forall|j: int| 0 <= j < i ==> r@[j].0@ == o@[j].0@ && jv(r@[j].1) == jv(o@[j].1),
        decreases o@.len() - i,
    {
        let entry = &o[i];
        r.push((entry.0.clone(), entry.1.clone()));
        i += 1;
    }
    proof {
        lemma_jv_entries(o@);
        lemma_jv_entries(r@);
        assert(jv_entries(r@) =~= jv_entries(o@));
    }
    r
}

impl Clone for JsonValue {
    /// Cloning preserves the mathematical shape.
    fn clone(&self) -> (r: JsonValue)
        ensures
            r.deep_view() == self.deep_view(),
        decreases self,
    {
        match self {
            JsonValue::Null => JsonValue::Null,
            JsonValue::Bool(b) => JsonValue::Bool(*b),
            JsonValue::Int(i) => JsonValue::Int(*i),
            JsonValue::Str(s) => JsonValue::Str(s.clone()),
            JsonValue::Arr(a) => JsonValue::Arr(clone_arr(a)),
            JsonValue::Obj(o) => JsonValue::Obj(clone_entries(o)),
        }
    }
}

/// Character-for-character string comparison.
pub fn str_eq(a: &str, b: &str) -> (r: bool)
    ensures
        r == (a@ == b@),
{
    let alen: usize = a.unicode_len();
    let blen: usize = b.unicode_len();
    if alen != blen {
        return false;
    }
    let mut i: usize = 0;
    while i < alen
        invariant
            0 <= i <= alen,
            alen == a@.len(),
            alen == b@.len(),
            forall|j: int| 0 <= j < i ==> a@[j] == b@[j],
        decreases alen - i,
    {
        if a.get_char(i) != b.get_char(i) {
            return false;
        }
        i += 1;
    }
    proof {
        assert(a@ =~= b@);
    }
    true
}

fn arr_eq(a: &Vec<JsonValue>, b: &Vec<JsonValue>) -> (r: bool)
    ensures
        r == (jv_seq(a@) == jv_seq(b@)),
    decreases a,
{
    proof {
        lemma_jv_seq(a@);
        lemma_jv_seq(b@);
    }
    if a.len() != b.len() {
        return false;
    }
    let mut i: usize = 0;
    while i < a.len()
        invariant
            0 <= i <= a@.len(),
            a@.len() == b@.len(),
            jv_seq(a@).len() == a@.len(),
            jv_seq(b@).len() == b@.len(),
            forall|j: int| 0 <= j < a@.len() ==> jv_seq(a@)[j] == jv(a@[j]),
            forall|j: int| 0 <= j < b@.len() ==> jv_seq(b@)[j] == jv(b@[j]),
            forall|j: int| 0 <= j < i ==> jv(a@[j]) == jv(b@[j]),
        decreases a@.len() - i,
    {
        if !json_eq(&a[i], &b[i]) {
            proof {
                assert(jv_seq(a@)[i as int] != jv_seq(b@)[i as int]);
            }
            return false;
        }
        i += 1;
    }
    proof {
        assert(jv_seq(a@) =~= jv_seq(b@));
    }
    true
}

fn entries_eq(a: &Vec<(String, JsonValue)>, b: &Vec<(String, JsonValue)>) -> (r: bool)
    ensures
        r == (jv_entries(a@) == jv_entries(b@)),
    decreases a,
{
    proof {
        lemma_jv_entries(a@);
        lemma_jv_entries(b@);
    }
    if a.len() != b.len() {
        return false;
    }
    let mut i: usize = 0;
    while i < a.len()
        invariant
            0 <= i <= a@.len(),
            a@.len() == b@.len(),
            jv_entries(a@).len() == a@.len(),
            jv_entries(b@).len() == b@.len(),
            forall|j: int| 0 <= j < a@.len() ==> jv_entries(a@)[j] == (a@[j].0@, jv(a@[j].1)),
            forall|j: int| 0 <= j < b@.len() ==> jv_entries(b@)[j] == (b@[j].0@, jv(b@[j].1)),
            forall|j: int| 0 <= j < i ==> a@[j].0@ == b@[j].0@ && jv(a@[j].1) == jv(b@[j].1),
        decreases a@.len() - i,
    {
        let ea = &a[i];
        let eb = &b[i];
        if !str_eq(ea.0.as_str(), eb.0.as_str()) {
            proof {
                assert(jv_entries(a@)[i as int] != jv_entries(b@)[i as int]);
            }
            return false;
        }
        if !json_eq(&ea.1, &eb.1) {
            proof {
                assert(jv_entries(a@)[i as int] != jv_entries(b@)[i as int]);
            }
            return false;
        }
        i += 1;
    }
    proof {
        assert(jv_entries(a@) =~= jv_entries(b@));
    }
    true
}

/// Deep structural equality of two JSON documents.
pub fn json_eq(a: &JsonValue, b: &JsonValue) -> (r: bool)
    ensures
        r == (a.deep_view() == b.deep_view()),
    decreases a,
{
    match (a, b) {
        (JsonValue::Null, JsonValue::Null) => true,
        (JsonValue::Bool(x), JsonValue::Bool(y)) => x == y,
        (JsonValue::Int(x), JsonValue::Int(y)) => x == y,
        (JsonValue::Str(x), JsonValue::Str(y)) => str_eq(x.as_str(), y.as_str()),
        (JsonValue::Arr(x), JsonValue::Arr(y)) => arr_eq(x, y),
        (JsonValue::Obj(x), JsonValue::Obj(y)) => entries_eq(x, y),
        _ => false,
    }
}

/// The value stored under `key` by the first entry that carries it.
pub open spec fn spec_obj_get(o: Seq<(Seq<char>, JsonValS)>, key: Seq<char>) -> Option<JsonValS>
    decreases o,
{
    if o.len() == 0 {
        None
    } else if o.first().0 == key {
        Some(o.first().1)
    } else {
        spec_obj_get(o.drop_first(), key)
    }
}

impl JsonValue {
    /// Looks `key` up when the document is an object.
    pub fn get<'a>(&'a self, key: &str) -> (r: Option<&'a JsonValue>)
        ensures
            match r {
                Some(v) => self.deep_view() matches JsonValS::Obj(entries)
                    && spec_obj_get(entries, key@) == Some(v.deep_view()),
                None => self.deep_view() matches JsonValS::Obj(entries)
                    ==> spec_obj_get(entries, key@) is None,
            },
    {
        match self {
            JsonValue::Obj(entries) => obj_lookup(entries, key),
            _ => None,
        }
    }

    /// The carried string when the document is a string.
    pub fn as_str<'a>(&'a self) -> (r: Option<&'a String>)
        ensures
            match r {
                Some(s) => self.deep_view() == JsonValS::Str(s@),
                None => !(self.deep_view() is Str),
            },
    {
        match self {
            JsonValue::Str(s) => Some(s),
            _ => None,
        }
    }

    /// The carried boolean when the document is a boolean.
    pub fn as_bool(&self) -> (r: Option<bool>)
        ensures
            match r {
                Some(b) => self.deep_view() == JsonValS::Bool(b),
                None => !(self.deep_view() is Bool),
            },
    {
        match self {
            JsonValue::Bool(b) => Some(*b),
            _ => None,
        }
    }

    /// The carried integer when the document is a number.
    pub fn as_int(&self) -> (r: Option<i64>)
        ensures
            match r {
                Some(i) => self.deep_view() == JsonValS::Int(i as int),
                None => !(self.deep_view() is Int),
            },
    {
        match self {
            JsonValue::Int(i) => Some(*i),
            _ => None,
        }
    }
}

fn obj_lookup<'a>(entries: &'a Vec<(String, JsonValue)>, key: &str) -> (r: Option<&'a JsonValue>)
    ensures
        match r {
            Some(v) => spec_obj_get(jv_entries(entries@), key@) == Some(v.deep_view()),
            None => spec_obj_get(jv_entries(entries@), key@) is None,
        },
{
    proof {
        lemma_jv_entries(entries@);
        assert(jv_entries(entries@).skip(0) =~= jv_entries(entries@));
    }
    let mut i: usize = 0;
    while i < entries.len()
        invariant
            0 <= i <= entries@.len(),
            jv_entries(entries@).len() == entries@.len(),
            forall|j: int| 0 <= j < entries@.len()
                ==> jv_entries(entries@)[j] == (entries@[j].0@, jv(entries@[j].1)),
            spec_obj_get(jv_entries(entries@), key@)
                == spec_obj_get(jv_entries(entries@).skip(i as int), key@),
            forall|j: int| 0 <= j < i ==> entries@[j].0@ != key@,
        decreases entries@.len() - i,
    {
        let entry = &entries[i];
        if str_eq(entry.0.as_str(), key) {
            proof {
                assert(jv_entries(entries@).skip(i as int).first()
                    == (entries@[i as int].0@, jv(entries@[i as int].1)));
            }
            return Some(&entry.1);
        }
        proof {
            assert(jv_entries(entries@).skip(i as int).drop_first()
                =~= jv_entries(entries@).skip(i as int + 1));
        }
        i += 1;
    }
    proof {
        assert(jv_entries(entries@).skip(i as int).len() == 0);
    }
    None
}

} // verus!

verus! {

/// The decimal digit character for `d`.
pub open spec fn spec_digit_char(d: int) -> char {
    if d == 0 { '0' }
    else if d == 1 { '1' }
    else if d == 2 { '2' }
    else if d == 3 { '3' }
    else if d == 4 { '4' }
    else if d == 5 { '5' }
    else if d == 6 { '6' }
    else if d == 7 { '7' }
    else if d == 8 { '8' }
    else { '9' }
}

/// The digits of `n` without a leading zero; empty for zero.
pub open spec fn spec_digits(n: nat) -> Seq<char>
    decreases n,
{
    if n == 0 {
        Seq::empty()
    } else {
        spec_digits(n / 10).push(spec_digit_char((n % 10) as int))
    }
}

/// The decimal text of `n`.
pub open spec fn spec_nat_text(n: nat) -> Seq<char> {
    if n == 0 {
        seq!['0']
    } else {
        spec_digits(n)
    }
}

/// The decimal text of `i`, with a sign when negative.
pub open spec fn spec_int_text(i: int) -> Seq<char> {
    if i < 0 {
        seq!['-'] + spec_nat_text((-i) as nat)
    } else {
        spec_nat_text(i as nat)
    }
}

/// How one character appears inside a JSON string literal.
pub open spec fn spec_esc_char(c: char) -> Seq<char> {
    if c == '"' {
        seq!['\\', '"']
    } else if c == '\\' {
        seq!['\\', '\\']
    } else if c == '\n' {
        seq!['\\', 'n']
    } else if c == '\r' {
        seq!['\\', 'r']
    } else if c == '\t' {
        seq!['\\', 't']
    } else {
        seq![c]
    }
}

/// The escaped body of a JSON string literal.
pub open spec fn spec_escape(s: Seq<char>) -> Seq<char>
    decreases s.len(),
{
    if s.len() == 0 {
        Seq::empty()
    } else {
        spec_escape(s.drop_last()) + spec_esc_char(s.last())
    }
}

/// A JSON string literal: quoted and escaped.
pub open spec fn spec_str_text(s: Seq<char>) -> Seq<char> {
    seq!['"'] + spec_escape(s) + seq!['"']
}

/// The canonical compact text of a JSON document.
pub open spec fn spec_json_text(v: JsonValS) -> Seq<char>
    decreases v,
{
    match v {
        JsonValS::Null => seq!['n', 'u', 'l', 'l'],
        JsonValS::Bool(b) => if b { seq!['t', 'r', 'u', 'e'] } else { seq!['f', 'a', 'l', 's', 'e'] },
        JsonValS::Int(i) => spec_int_text(i),
        JsonValS::Str(s) => spec_str_text(s),
        JsonValS::Arr(a) => seq!['['] + spec_items_text(a) + seq![']'],
        JsonValS::Obj(o) => seq!['{'] + spec_entries_text(o) + seq!['}'],
    }
}

/// Array elements joined by commas.
pub open spec fn spec_items_text(a: Seq<JsonValS>) -> Seq<char>
    decreases a,
{
    if a.len() == 0 {
        Seq::empty()
    } else if a.len() == 1 {
        spec_json_text(a.last())
    } else {
        spec_items_text(a.drop_last()) + seq![','] + spec_json_text(a.last())
    }
}

/// Object entries joined by commas, each a quoted key, a colon and a value.
pub open spec fn spec_entries_text(o: Seq<(Seq<char>, JsonValS)>) -> Seq<char>
    decreases o,
{
    if o.len() == 0 {
        Seq::empty()
    } else if o.len() == 1 {
        spec_str_text(o.last().0) + seq![':'] + spec_json_text(o.last().1)
    } else {
        spec_entries_text(o.drop_last()) + seq![','] + spec_str_text(o.last().0) + seq![':']
            + spec_json_text(o.last().1)
    }
}

fn digit_str(d: u64) -> (r: &'static str)
    requires
        d < 10,
    ensures
        r@ == seq![spec_digit_char(d as int)],
{
    proof {
        reveal_strlit("0");
        reveal_strlit("1");
        reveal_strlit("2");
        reveal_strlit("3");
        reveal_strlit("4");
        reveal_strlit("5");
        reveal_strlit("6");
        reveal_strlit("7");
        reveal_strlit("8");
        reveal_strlit("9");
    }
    let r: &'static str = match d {
        0 => "0",
        1 => "1",
        2 => "2",
        3 => "3",
        4 => "4",
        5 => "5",
        6 => "6",
        7 => "7",
        8 => "8",
        _ => "9",
    };
    proof {
        assert(r@ =~= seq![spec_digit_char(d as int)]);
    }
    r
}

fn write_digits(out: &mut String, n: u64)
    requires
        n > 0,
    ensures
        final(out)@ == old(out)@ + spec_digits(n as nat),
    decreases n,
{
    if n >= 10 {
        write_digits(out, n / 10);
    }
    out.append(digit_str(n % 10));
    proof {
        if n < 10 {
            assert(spec_digits((n / 10) as nat) =~= Seq::<char>::empty());
        }
        assert(final(out)@ =~= old(out)@ + spec_digits(n as nat));
    }
}

fn write_nat(out: &mut String, n: u64)
    ensures
        final(out)@ == old(out)@ + spec_nat_text(n as nat),
{
    if n == 0 {
        out.append("0");
        proof {
            reveal_strlit("0");
            assert(final(out)@ =~= old(out)@ + spec_nat_text(0));
        }
    } else {
        write_digits(out, n);
    }
}

fn write_int(out: &mut String, i: i64)
    ensures
        final(out)@ == old(out)@ + spec_int_text(i as int),
{
    if i < 0 {
        out.append("-");
        let m: u64 = (-(i as i128)) as u64;
        write_nat(out, m);
        proof {
            reveal_strlit("-");
            assert("-"@ =~= seq!['-']);
            assert(final(out)@ =~= old(out)@ + spec_int_text(i as int));
        }
    } else {
        write_nat(out, i as u64);
    }
}

fn write_escaped(out: &mut String, s: &str)
    ensures
        final(out)@ == old(out)@ + spec_escape(s@),
{
    let len: usize = s.unicode_len();
    let mut i: usize = 0;
    proof {
        assert(s@.take(0).len() == 0);
        assert(out@ =~= old(out)@ + spec_escape(s@.take(0)));
    }
    while i < len
        invariant
            0 <= i <= len,
            len == s@.len(),
            out@ == old(out)@ + spec_escape(s@.take(i as int)),
        decreases len - i,
    {
        let c = s.get_char(i);
        if c == '"' {
            out.append("\\\"");
            proof {
                reveal_strlit("\\\"");
            }
        } else if c == '\\' {
            out.append("\\\\");
            proof {
                reveal_strlit("\\\\");
            }
        } else if c == '\n' {
            out.append("\\n");
            proof {
                reveal_strlit("\\n");
            }
        } else if c == '\r' {
            out.append("\\r");
            proof {
                reveal_strlit("\\r");
            }
        } else if c == '\t' {
            out.append("\\t");
            proof {
                reveal_strlit("\\t");
            }
        } else {
            let piece = s.substring_char(i, i + 1);
            out.append(piece);
        }
        proof {
            assert(s@.take(i as int + 1).drop_last() =~= s@.take(i as int));
            assert(s@.take(i as int + 1).last() == s@[i as int]);
            assert(out@ =~= old(out)@ + spec_escape(s@.take(i as int + 1)));
        }
        i += 1;
    }
    proof {
        assert(s@.take(len as int) =~= s@);
    }
}

fn write_str(out: &mut String, s: &str)
    ensures
        final(out)@ == old(out)@ + spec_str_text(s@),
{
    proof {
        reveal_strlit("\"");
    }
    out.append("\"");
    write_escaped(out, s);
    out.append("\"");
    proof {
        assert("\""@ =~= seq!['"']);
        assert(final(out)@ =~= old(out)@ + spec_str_text(s@));
    }
}

#[verifier::loop_isolation(false)]
fn write_json(out: &mut String, v: &JsonValue)
    ensures
        final(out)@ == old(out)@ + spec_json_text(v.deep_view()),
    decreases v,
{
    match v {
        JsonValue::Null => {
            out.append("null");
            proof {
                reveal_strlit("null");
                assert(final(out)@ =~= old(out)@ + spec_json_text(v.deep_view()));
            }
        },
        JsonValue::Bool(b) => {
            if *b {
                out.append("true");
                proof {
                    reveal_strlit("true");
                    assert(final(out)@ =~= old(out)@ + spec_json_text(v.deep_view()));
                }
            } else {
                out.append("false");
                proof {
                    reveal_strlit("false");
                    assert(final(out)@ =~= old(out)@ + spec_json_text(v.deep_view()));
                }
            }
        },
        JsonValue::Int(i) => {
            write_int(out, *i);
        },
        JsonValue::Str(s) => {
            write_str(out, s.as_str());
        },
        JsonValue::Arr(a) => {
            proof {
                reveal_strlit("[");
                reveal_strlit("]");
                reveal_strlit(",");
                lemma_jv_seq(a@);
            }
            out.append("[");
            let ghost items = jv_seq(a@);
            let mut j: usize = 0;
            proof {
                assert(items.take(0).len() == 0);
                assert(out@ =~= old(out)@ + seq!['['] + spec_items_text(items.take(0)));
            }
            while j < a.len()
                invariant
                    0 <= j <= a@.len(),
                    items == jv_seq(a@),
                    items.len() == a@.len(),
                    forall|k: int| 0 <= k < a@.len() ==> items[k] == jv(a@[k]),
                    out@ == old(out)@ + seq!['['] + spec_items_text(items.take(j as int)),
                decreases a@.len() - j,
            {
                if j > 0 {
                    out.append(",");
                }
                proof {
                    assert(decreases_to!(*v => v->Arr_0));
                    assert(v->Arr_0 == *a);
                    assert(decreases_to!(*a => a@));
                    assert(decreases_to!(a@ => a@[j as int]));
                }
                write_json(out, &a[j]);
                proof {
                    reveal_strlit(",");
                    assert(","@ =~= seq![',']);
                    assert(items.take(j as int + 1).drop_last() =~= items.take(j as int));
                    assert(items.take(j as int + 1).last() == items[j as int]);
                    assert(out@ =~= old(out)@ + seq!['['] + spec_items_text(items.take(j as int + 1)));
                }
                j += 1;
            }
            out.append("]");
            proof {
                assert(items.take(a@.len() as int) =~= items);
                assert(final(out)@ =~= old(out)@ + spec_json_text(v.deep_view()));
            }
        },
        JsonValue::Obj(o) => {
            proof {
                reveal_strlit("{");
                reveal_strlit("}");
                reveal_strlit(",");
                reveal_strlit(":");
                lemma_jv_entries(o@);
            }
            out.append("{");
            let ghost items = jv_entries(o@);
            let mut j: usize = 0;
            proof {
                assert(items.take(0).len() == 0);
                assert(out@ =~= old(out)@ + seq!['{'] + spec_entries_text(items.take(0)));
            }
            while j < o.len()
                invariant
                    0 <= j <= o@.len(),
                    items == jv_entries(o@),
                    items.len() == o@.len(),
                    forall|k: int| 0 <= k < o@.len() ==> items[k] == (o@[k].0@, jv(o@[k].1)),
                    out@ == old(out)@ + seq!['{'] + spec_entries_text(items.take(j as int)),
                decreases o@.len() - j,
            {
                if j > 0 {
                    out.append(",");
                }
                let entry = &o[j];
                write_str(out, entry.0.as_str());
                out.append(":");
                proof {
                    assert(decreases_to!(*v => v->Obj_0));
                    assert(v->Obj_0 == *o);
                    assert(decreases_to!(*o => o@));
                    assert(decreases_to!(o@ => o@[j as int]));
                    assert(decreases_to!(o@[j as int] => o@[j as int].1));
                }
                write_json(out, &entry.1);
                proof {
                    reveal_strlit(",");
                    reveal_strlit(":");
                    assert(":"@ =~= seq![':']);
                    assert(","@ =~= seq![',']);
                    assert(items.take(j as int + 1).drop_last() =~= items.take(j as int));
                    assert(items.take(j as int + 1).last() == items[j as int]);
                    assert(out@ =~= old(out)@ + seq!['{'] + spec_entries_text(items.take(j as int + 1)));
                }
                j += 1;
            }
            out.append("}");
            proof {
                assert(items.take(o@.len() as int) =~= items);
                assert(final(out)@ =~= old(out)@ + spec_json_text(v.deep_view()));
            }
        },
    }
}

/// Encodes a JSON document into its canonical compact text.
pub fn encode_json(v: &JsonValue) -> (r: String)
    ensures
        r@ == spec_json_text(v.deep_view()),
{
    let mut out = String::new();
    write_json(&mut out, v);
    out
}

} // verus!

verus! {

/// Declares `serde_json::Value` so the conversion below may take it.
#[verifier::external_type_specification]
#[verifier::external_body]
pub struct ExSerdeValue(serde_json::Value);

/// The JSON document denoted by a piece of text, if the text is
/// well-formed JSON whose numbers are 64-bit integers.
pub uninterp spec fn parsed_json(s: Seq<char>) -> Option<JsonValS>;

/// Converts a parsed `serde_json::Value` into the library's document,
/// arm for arm; a number that is not a 64-bit integer fails the whole
/// conversion.  Nothing is promised of it: it only feeds
/// `parse_json_text`, whose contract names the combined result.
#[verifier::external_body]
fn from_serde_value(v: serde_json::Value) -> Option<JsonValue> {
    match v {
        serde_json::Value::Null => Some(JsonValue::Null),
        serde_json::Value::Bool(b) => Some(JsonValue::Bool(b)),
        serde_json::Value::Number(n) => n.as_i64().map(JsonValue::Int),
        serde_json::Value::String(s) => Some(JsonValue::Str(s)),
        serde_json::Value::Array(a) => {
            let items: Option<Vec<JsonValue>> = a.into_iter().map(from_serde_value).collect();
            items.map(JsonValue::Arr)
        },
        serde_json::Value::Object(m) => {
            let entries: Option<Vec<(String, JsonValue)>> =
                m.into_iter().map(|(k, x)| from_serde_value(x).map(|y| (k, y))).collect();
            entries.map(JsonValue::Obj)
        },
    }
}

/// Relies on `serde_json::from_str`: parses JSON text into a document.
/// Text whose numbers do not fit a 64-bit integer is rejected here.
#[verifier::external_body]
pub fn parse_json_text(s: &str) -> (r: Option<JsonValue>)
    ensures
        match r {
            Some(v) => parsed_json(s@) == Some(v.deep_view()),
            None => parsed_json(s@) is None,
        },
{
    match serde_json::from_str::<serde_json::Value>(s) {
        Ok(v) => from_serde_value(v),
        Err(_) => None,
    }
}

} // verus!
