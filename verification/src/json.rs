//! JSON documents: what rule values, job payloads and response bodies hold.

use crate::text;
use vstd::prelude::*;
use vstd::string::*;

verus! {

/// A JSON number.
#[derive(Debug, PartialEq)]
pub enum Number {
    /// An integer of the signed range.
    Int(i64),
    /// An integer of the unsigned range.
    UInt(u64),
    /// A number with a fraction or an exponent: its integer part, cut off
    /// towards zero and held within the signed range, and its text.
    Float { whole: i64, text: String },
}

/// A JSON document.
#[derive(Debug, PartialEq)]
pub enum Value {
    Null,
    Bool(bool),
    Number(Number),
    String(String),
    Array(Vec<Value>),
    Object(Vec<(String, Value)>),
}

/// What a JSON document says, independent of how its parts are stored.
pub enum Json {
    Null,
    Bool(bool),
    Int(int),
    Float(i64, Seq<char>),
    Text(Seq<char>),
    List(Seq<Json>),
    Fields(Seq<(Seq<char>, Json)>),
}

impl View for Number {
    type V = Json;

    open spec fn view(&self) -> Json {
        match self {
            Number::Int(n) => Json::Int(*n as int),
            Number::UInt(n) => Json::Int(*n as int),
            Number::Float { whole, text } => Json::Float(*whole, text@),
        }
    }
}

impl Number {
    /// True for the numbers of JSON: the text of one with a fraction or an exponent
    /// ends with a digit.
    pub open spec fn valid(self) -> bool {
        self@.valid()
    }
}

/// What a JSON document says.
pub open spec fn json_of(v: Value) -> Json
    decreases v,
{
    match v {
        Value::Null => Json::Null,
        Value::Bool(b) => Json::Bool(b),
        Value::Number(n) => n@,
        Value::String(s) => Json::Text(s@),
        Value::Array(items) => Json::List(
            Seq::new(
                items@.len(),
                |i: int|
                    if 0 <= i < items@.len() {
                        json_of(items@[i])
                    } else {
                        Json::Null
                    },
            ),
        ),
        Value::Object(fields) => Json::Fields(
            Seq::new(
                fields@.len(),
                |i: int|
                    if 0 <= i < fields@.len() {
                        (fields@[i].0@, json_of(fields@[i].1))
                    } else {
                        (Seq::empty(), Json::Null)
                    },
            ),
        ),
    }
}

impl View for Value {
    type V = Json;

    open spec fn view(&self) -> Json {
        json_of(*self)
    }
}

impl Json {
    /// True for what a document can say: integers are of the signed or the unsigned
    /// range, and the text of any other number ends, as JSON has it, with a digit.
    pub open spec fn valid(self) -> bool
        decreases self,
    {
        match self {
            Json::Int(n) => i64::MIN <= n <= u64::MAX,
            Json::Float(_, t) => t.len() > 0 && text::is_digit(t.last()),
            Json::List(items) => forall|i: int| 0 <= i < items.len() ==> (#[trigger] items[i]).valid(),
            Json::Fields(fields) => forall|i: int|
                0 <= i < fields.len() ==> (#[trigger] fields[i]).1.valid(),
            _ => true,
        }
    }

    /// The boolean that this is, if it is one.
    pub open spec fn as_bool(self) -> Option<bool> {
        match self {
            Json::Bool(b) => Some(b),
            _ => None,
        }
    }

    /// The integer of the signed range that this is, if it is one.
    pub open spec fn as_i64(self) -> Option<i64> {
        match self {
            Json::Int(n) => if i64::MIN <= n <= i64::MAX {
                Some(n as i64)
            } else {
                None
            },
            _ => None,
        }
    }

    /// The text that this is, if it is one.
    pub open spec fn as_text(self) -> Option<Seq<char>> {
        match self {
            Json::Text(s) => Some(s),
            _ => None,
        }
    }

    /// An object without fields.
    pub open spec fn object() -> Json {
        Json::Fields(Seq::empty())
    }

    /// The object with one more field behind the others.
    pub open spec fn with(self, name: Seq<char>, value: Json) -> Json {
        Json::Fields(self->Fields_0.push((name, value)))
    }

    /// The first field of that name, if this is an object that has one.
    pub open spec fn field(self, name: Seq<char>) -> Option<Json> {
        match self {
            Json::Fields(fields) => field_of(fields, name),
            _ => None,
        }
    }
}

/// The first field of that name.
pub open spec fn field_of(fields: Seq<(Seq<char>, Json)>, name: Seq<char>) -> Option<Json>
    decreases fields.len(),
{
    if fields.len() == 0 {
        None
    } else if fields[0].0 == name {
        Some(fields[0].1)
    } else {
        field_of(fields.skip(1), name)
    }
}

/// What each document of a list says.
pub open spec fn json_list(items: Seq<Value>) -> Seq<Json> {
    items.map_values(|v: Value| v@)
}

impl Value {
    /// What the elements of a list say, one by one.
    pub proof fn array_view(items: Vec<Value>)
        ensures
            Value::Array(items)@ == Json::List(json_list(items@)),
    {
        assert(json_of(Value::Array(items))->List_0 =~= json_list(items@));
    }

    pub fn as_bool(&self) -> (r: Option<bool>)
        ensures
            r == self@.as_bool(),
    {
        match self {
            Value::Bool(b) => Some(*b),
            _ => None,
        }
    }

    pub fn as_i64(&self) -> (r: Option<i64>)
        ensures
            r == self@.as_i64(),
    {
        match self {
            Value::Number(Number::Int(n)) => Some(*n),
            Value::Number(Number::UInt(n)) => {
                if *n <= i64::MAX as u64 {
                    Some(*n as i64)
                } else {
                    None
                }
            },
            _ => None,
        }
    }

    pub fn as_str(&self) -> (r: Option<&str>)
        ensures
            text::opt_str_view(r) == self@.as_text(),
    {
        match self {
            Value::String(s) => Some(s.as_str()),
            _ => None,
        }
    }

    pub fn as_array(&self) -> (r: Option<&Vec<Value>>)
        ensures
            match r {
                Some(items) => self@ == Json::List(json_list(items@)),
                None => !(self@ is List),
            },
    {
        match self {
            Value::Array(items) => {
                proof {
                    Value::array_view(*items);
                }
                Some(items)
            },
            _ => None,
        }
    }

    /// The first field of that name, if this is an object that has one.
    pub fn get(&self, name: &str) -> (r: Option<&Value>)
        ensures
            match r {
                Some(v) => self@.field(name@) == Some(v@),
                None => self@.field(name@) is None,
            },
    {
        match self {
            Value::Object(fields) => {
                let ghost all = self@->Fields_0;
                let mut i: usize = 0;
                proof {
                    assert(all.skip(0) == all);
                }
                while i < fields.len()
                    invariant
                        i <= fields@.len(),
                        self == Value::Object(*fields),
                        all == self@->Fields_0,
                        field_of(all, name@) == field_of(all.skip(i as int), name@),
                    decreases fields@.len() - i,
                {
                    proof {
                        assert(all.skip(i as int)[0] == (fields@[i as int].0@, fields@[i as int].1@));
                        assert(all.skip(i as int).skip(1) == all.skip(i + 1));
                    }
                    if text::same(fields[i].0.as_str(), name) {
                        return Some(&fields[i].1);
                    }
                    i += 1;
                }
                None
            },
            _ => None,
        }
    }

    /// A JSON string.
    pub fn text(s: &str) -> (r: Value)
        ensures
            r@ == Json::Text(s@),
    {
        Value::String(s.to_owned())
    }

    /// A JSON string, or null where there is none.
    pub fn opt_text(s: Option<&str>) -> (r: Value)
        ensures
            r@ == opt_text(text::opt_str_view(s)),
    {
        match s {
            Some(t) => Value::text(t),
            None => Value::Null,
        }
    }

    /// A JSON integer.
    pub fn number(n: i64) -> (r: Value)
        ensures
            r@ == Json::Int(n as int),
    {
        Value::Number(Number::Int(n))
    }

    /// A count as a JSON integer.
    pub fn count(n: usize) -> (r: Value)
        ensures
            r@ == Json::Int(n as int),
    {
        Value::Number(Number::UInt(n as u64))
    }

    /// An object without fields.
    pub fn object() -> (r: Value)
        ensures
            r@ == Json::object(),
            r@ is Fields,
    {
        let r = Value::Object(Vec::new());
        proof {
            assert(r@->Fields_0 =~= Seq::empty());
        }
        r
    }

    /// The object with one more field behind the others.
    pub fn with(self, name: &str, value: Value) -> (r: Value)
        requires
            self@ is Fields,
        ensures
            r@ == self@.with(name@, value@),
            r@ is Fields,
    {
        let ghost before = self@->Fields_0;
        match self {
            Value::Object(mut fields) => {
                fields.push((name.to_owned(), value));
                let r = Value::Object(fields);
                proof {
                    assert(r@->Fields_0 =~= before.push((name@, value@)));
                }
                r
            },
            other => other,
        }
    }
}

/// A text, or null where there is none.
pub open spec fn opt_text(s: Option<Seq<char>>) -> Json {
    match s {
        Some(t) => Json::Text(t),
        None => Json::Null,
    }
}

impl Clone for Number {
    fn clone(&self) -> (r: Self)
        ensures
            r@ == self@,
    {
        match self {
            Number::Int(n) => Number::Int(*n),
            Number::UInt(n) => Number::UInt(*n),
            Number::Float { whole, text } => Number::Float { whole: *whole, text: text.clone() },
        }
    }
}

impl Clone for Value {
    fn clone(&self) -> (r: Self)
        ensures
            r@ == self@,
        decreases self,
    {
        match self {
            Value::Null => Value::Null,
            Value::Bool(b) => Value::Bool(*b),
            Value::Number(n) => Value::Number(n.clone()),
            Value::String(s) => Value::String(s.clone()),
            Value::Array(items) => {
                let mut out: Vec<Value> = Vec::new();
                let mut i: usize = 0;
                while i < items.len()
                    invariant
                        self == Value::Array(*items),
                        i <= items@.len(),
                        out@.len() == i,
                        forall|k: int| 0 <= k < i ==> (#[trigger] out@[k])@ == items@[k]@,
                    decreases items@.len() - i,
                {
                    proof {
                        assert(decreases_to!(*self => (self->Array_0)@[i as int]));
                    }
                    out.push(items[i].clone());
                    i += 1;
                }
                let r = Value::Array(out);
                proof {
                    assert(r@->List_0 =~= self@->List_0);
                }
                r
            },
            Value::Object(fields) => {
                let mut out: Vec<(String, Value)> = Vec::new();
                let mut i: usize = 0;
                while i < fields.len()
                    invariant
                        self == Value::Object(*fields),
                        i <= fields@.len(),
                        out@.len() == i,
                        forall|k: int|
                            0 <= k < i ==> (#[trigger] out@[k]).0@ == fields@[k].0@ && out@[k].1@
                                == fields@[k].1@,
                    decreases fields@.len() - i,
                {
                    proof {
                        assert(decreases_to!(*self => (self->Object_0)@[i as int].1));
                    }
                    let name = fields[i].0.clone();
                    let value = fields[i].1.clone();
                    out.push((name, value));
                    i += 1;
                }
                let r = Value::Object(out);
                proof {
                    assert(r@->Fields_0 =~= self@->Fields_0);
                }
                r
            },
        }
    }
}

// ---------------------------------------------------------------------------
// Compact text
// ---------------------------------------------------------------------------

/// The lower-case hexadecimal digit of `d`.
pub open spec fn hex_digit(d: int) -> char {
    if d < 10 {
        (('0' as int) + d) as char
    } else {
        (('a' as int) + d - 10) as char
    }
}

/// How a character is written inside a JSON string.
pub open spec fn json_char(c: char) -> Seq<char> {
    if c == '"' || c == '\\' {
        seq!['\\', c]
    } else if c == '\u{8}' {
        seq!['\\', 'b']
    } else if c == '\t' {
        seq!['\\', 't']
    } else if c == '\n' {
        seq!['\\', 'n']
    } else if c == '\u{c}' {
        seq!['\\', 'f']
    } else if c == '\r' {
        seq!['\\', 'r']
    } else if (c as int) < 0x20 {
        seq!['\\', 'u', '0', '0', hex_digit((c as int) / 16), hex_digit((c as int) % 16)]
    } else {
        seq![c]
    }
}

/// `s` as a JSON string: in quotation marks, with escapes.
pub open spec fn quoted(s: Seq<char>) -> Seq<char> {
    seq!['"'] + text::expanded(s, |c: char| json_char(c)) + seq!['"']
}

/// The compact JSON text of a document: no spaces, fields in their order.
pub open spec fn json_text(j: Json) -> Seq<char>
    decreases j,
{
    match j {
        Json::Null => "null"@,
        Json::Bool(b) => if b {
            "true"@
        } else {
            "false"@
        },
        Json::Int(n) => text::int_dec(n),
        Json::Float(_, t) => t,
        Json::Text(s) => quoted(s),
        Json::List(items) => seq!['['] + text::joined(json_parts(items), seq![',']) + seq![']'],
        Json::Fields(fields) => seq!['{'] + text::joined(field_parts(fields), seq![','])
            + seq!['}'],
    }
}

/// The text of each element of a list.
pub open spec fn json_parts(items: Seq<Json>) -> Seq<Seq<char>>
    decreases items,
{
    Seq::new(
        items.len(),
        |i: int|
            if 0 <= i < items.len() {
                json_text(items[i])
            } else {
                Seq::empty()
            },
    )
}

/// The text of each field of an object.
pub open spec fn field_parts(fields: Seq<(Seq<char>, Json)>) -> Seq<Seq<char>>
    decreases fields,
{
    Seq::new(
        fields.len(),
        |i: int|
            if 0 <= i < fields.len() {
                quoted(fields[i].0) + seq![':'] + json_text(fields[i].1)
            } else {
                Seq::empty()
            },
    )
}

/// `serde_json::to_string` on a string: the string in quotation marks, with the
/// quotation mark, the backslash and the control characters below U+0020 escaped
/// and every other character as it stands. It never fails on a string.
#[verifier::external_body]
fn quote(s: &str) -> (r: String)
    ensures
        r@ == quoted(s@),
{
    serde_json::to_string(s).expect("a string is always valid JSON")
}

/// Writes a document as compact JSON text.
pub fn render(v: &Value) -> (r: String)
    ensures
        r@ == json_text(v@),
    decreases v,
{
    match v {
        Value::Null => "null".to_owned(),
        Value::Bool(b) => if *b {
            "true".to_owned()
        } else {
            "false".to_owned()
        },
        Value::Number(Number::Int(n)) => text::signed_decimal(*n),
        Value::Number(Number::UInt(n)) => text::decimal(*n as u128),
        Value::Number(Number::Float { whole: _, text }) => text.clone(),
        Value::String(s) => quote(s.as_str()),
        Value::Array(items) => {
            let ghost parts = json_parts(v@->List_0);
            let mut list: Vec<String> = Vec::new();
            let mut i: usize = 0;
            while i < items.len()
                invariant
                    v == Value::Array(*items),
                    parts == json_parts(v@->List_0),
                    i <= items@.len(),
                    text::views(list@) == parts.take(i as int),
                decreases items@.len() - i,
            {
                proof {
                    assert(decreases_to!(*v => (v->Array_0)@[i as int]));
                }
                let ghost before = list@;
                list.push(render(&items[i]));
                proof {
                    assert(parts.take(i + 1) == parts.take(i as int).push(json_text(v@->List_0[i as int])));
                    assert(text::views(list@) == text::views(before).push(list@.last()@));
                }
                i += 1;
            }
            proof {
                assert(parts.take(parts.len() as int) == parts);
            }
            enclose('[', &list, ']')
        },
        Value::Object(fields) => {
            let ghost parts = field_parts(v@->Fields_0);
            let mut list: Vec<String> = Vec::new();
            let mut i: usize = 0;
            while i < fields.len()
                invariant
                    v == Value::Object(*fields),
                    parts == field_parts(v@->Fields_0),
                    i <= fields@.len(),
                    text::views(list@) == parts.take(i as int),
                decreases fields@.len() - i,
            {
                proof {
                    assert(decreases_to!(*v => (v->Object_0)@[i as int].1));
                }
                let ghost before = list@;
                let mut part = quote(fields[i].0.as_str());
                part.push(':');
                let value = render(&fields[i].1);
                part.append(value.as_str());
                list.push(part);
                proof {
                    let f = v@->Fields_0[i as int];
                    assert(part@ == quoted(f.0) + seq![':'] + json_text(f.1));
                    assert(parts.take(i + 1) == parts.take(i as int).push(part@));
                    assert(text::views(list@) == text::views(before).push(part@));
                }
                i += 1;
            }
            proof {
                assert(parts.take(parts.len() as int) == parts);
            }
            enclose('{', &list, '}')
        },
    }
}

fn enclose(open: char, parts: &Vec<String>, close: char) -> (r: String)
    ensures
        r@ == seq![open] + text::joined(text::views(parts@), seq![',']) + seq![close],
{
    let mut out = String::new();
    out.push(open);
    let inner = text::join(parts, ",");
    out.append(inner.as_str());
    out.push(close);
    proof {
        reveal_strlit(",");
        assert(","@ == seq![',']);
        assert(out@ == seq![open] + inner@ + seq![close]);
    }
    out
}

/// A field is found under its name unless one before it has the same name.
pub proof fn lemma_field_at(fields: Seq<(Seq<char>, Json)>, i: int)
    requires
        0 <= i < fields.len(),
        forall|k: int| 0 <= k < i ==> (#[trigger] fields[k]).0 != fields[i].0,
    ensures
        field_of(fields, fields[i].0) == Some(fields[i].1),
    decreases i,
{
    if i > 0 {
        let rest = fields.skip(1);
        assert(fields[0].0 != fields[i].0);
        assert(rest[i - 1] == fields[i]);
        assert forall|k: int| 0 <= k < i - 1 implies (#[trigger] rest[k]).0 != rest[i - 1].0 by {
            assert(rest[k] == fields[k + 1]);
        }
        lemma_field_at(rest, i - 1);
    }
}

/// A field that is added is found under its name, where there was none, and hides no
/// other.
pub proof fn law_added_fields_are_found(
    fields: Seq<(Seq<char>, Json)>,
    name: Seq<char>,
    value: Json,
    other: Seq<char>,
)
    ensures
        Json::Fields(fields).with(name, value).field(other) == match Json::Fields(fields).field(
            other,
        ) {
            Some(found) => Some(found),
            None => if other == name {
                Some(value)
            } else {
                None
            },
        },
    decreases fields.len(),
{
    let more = fields.push((name, value));
    if fields.len() == 0 {
        assert(more.skip(1) =~= Seq::empty());
        assert(more[0] == (name, value));
        assert(field_of(more.skip(1), other) is None);
        assert(field_of(fields, other) is None);
    } else {
        assert(more.skip(1) =~= fields.skip(1).push((name, value)));
        law_added_fields_are_found(fields.skip(1), name, value, other);
        assert(more[0] == fields[0]);
    }
}

} // verus!
