//! JSON values: the model that contracts speak of, the executable type, and
//! the compact text form.
//!
//! An object keeps its members in ascending key order with each key at most
//! once, so two objects with the same members are the same value.

use serde_json::Value;
use vstd::prelude::*;
use vstd::string::*;

use crate::ir::canonical_laws;
use crate::keyed;
use crate::keyed::Keyed;
use crate::order::text_before;
use crate::text;
use crate::text::{decimal_text, same_text};

verus! {

/// A JSON number: an integer, or the text of a number with a fraction or an
/// exponent.
pub enum NumberV {
    /// A non-negative integer.
    Unsigned(u64),
    /// A signed integer.
    Signed(i64),
    /// Any other number, as its text.
    Decimal(Seq<char>),
}

/// A JSON value, as contracts see it.
pub enum JsonV {
    /// `null`.
    Null,
    /// `true` or `false`.
    Bool(bool),
    /// A number.
    Number(NumberV),
    /// A string.
    Text(Seq<char>),
    /// An array.
    Array(Seq<JsonV>),
    /// An object.
    Object(Members),
}

/// The members of a JSON object, in ascending key order.
pub type Members = Keyed<JsonV>;

impl Keyed<JsonV> {
    /// The object with these members.
    pub open spec fn object(self) -> JsonV {
        JsonV::Object(self)
    }
}

impl JsonV {
    /// The member of an object under `key`.
    pub open spec fn member(self, key: Seq<char>) -> Option<JsonV> {
        match self {
            JsonV::Object(m) => m.get(key),
            _ => None,
        }
    }
}

/// A non-negative integer as a JSON value.
pub open spec fn uint(n: u64) -> JsonV {
    JsonV::Number(NumberV::Unsigned(n))
}

/// A list of texts as a JSON array.
pub open spec fn text_array(v: Seq<Seq<char>>) -> JsonV {
    JsonV::Array(v.map_values(|s: Seq<char>| JsonV::Text(s)))
}

/// A JSON number.
#[derive(Debug, PartialEq, Eq)]
pub enum JsonNumber {
    /// A non-negative integer.
    Unsigned(u64),
    /// A signed integer.
    Signed(i64),
    /// Any other number, as its text.
    Decimal(String),
}

impl JsonNumber {
    /// The number, as contracts see it.
    pub open spec fn view(&self) -> NumberV {
        match self {
            JsonNumber::Unsigned(n) => NumberV::Unsigned(*n),
            JsonNumber::Signed(n) => NumberV::Signed(*n),
            JsonNumber::Decimal(t) => NumberV::Decimal(t@),
        }
    }
}

impl Clone for JsonNumber {
    fn clone(&self) -> (r: Self)
        ensures
            r@ == self@,
    {
        match self {
            JsonNumber::Unsigned(n) => JsonNumber::Unsigned(*n),
            JsonNumber::Signed(n) => JsonNumber::Signed(*n),
            JsonNumber::Decimal(t) => JsonNumber::Decimal(t.clone()),
        }
    }
}

/// A JSON value.
#[derive(Debug, PartialEq, Eq)]
pub enum Json {
    /// `null`.
    Null,
    /// `true` or `false`.
    Bool(bool),
    /// A number.
    Number(JsonNumber),
    /// A string.
    Text(String),
    /// An array.
    Array(Vec<Json>),
    /// An object.
    Object(JsonMap),
}

/// The members of a JSON object, in ascending key order.
#[derive(Debug, PartialEq, Eq)]
pub struct JsonMap {
    entries: Vec<(String, Json)>,
}

impl Json {
    /// The value, as contracts see it.
    pub open spec fn view(&self) -> JsonV
        decreases self,
    {
        match self {
            Json::Null => JsonV::Null,
            Json::Bool(b) => JsonV::Bool(*b),
            Json::Number(n) => JsonV::Number(n@),
            Json::Text(t) => JsonV::Text(t@),
            Json::Array(v) => JsonV::Array(
                Seq::new(
                    v@.len(),
                    |i: int|
                        if 0 <= i < v@.len() {
                            v@[i].view()
                        } else {
                            JsonV::Null
                        },
                ),
            ),
            Json::Object(m) => JsonV::Object(m.view()),
        }
    }
}

impl JsonMap {
    /// The members, as contracts see them.
    pub closed spec fn view(&self) -> Members
        decreases self,
    {
        Members {
            entries: Seq::new(
                self.entries@.len(),
                |i: int|
                    if 0 <= i < self.entries@.len() {
                        (self.entries@[i].0@, self.entries@[i].1.view())
                    } else {
                        (Seq::empty(), JsonV::Null)
                    },
            ),
        }
    }

    #[verifier::type_invariant]
    spec fn ascending(self) -> bool {
        self.view().sorted()
    }
}

/// The values of a list, as contracts see them.
pub open spec fn json_views(v: Seq<Json>) -> Seq<JsonV> {
    v.map_values(|x: Json| x@)
}

/// An array's model holds the models of its items.
pub proof fn lemma_array_view(v: Vec<Json>)
    ensures
        Json::Array(v)@ == JsonV::Array(json_views(v@)),
{
    assert(Json::Array(v)@->Array_0 =~= json_views(v@));
}

impl JsonMap {
    /// An object without members.
    pub fn new() -> (r: Self)
        ensures
            r@ == Members::none(),
    {
        let r = JsonMap { entries: Vec::new() };
        assert(r@.entries =~= Members::none().entries);
        r
    }

    /// The keys ascend.
    pub fn in_order(&self)
        ensures
            self@.sorted(),
    {
        proof {
            use_type_invariant(self);
        }
    }

    /// The number of members.
    pub fn len(&self) -> (n: usize)
        ensures
            n == self@.entries.len(),
    {
        self.entries.len()
    }

    /// The key at position `i`.
    pub fn key_at(&self, i: usize) -> (r: &str)
        requires
            i < self@.entries.len(),
        ensures
            r@ == self@.entries[i as int].0,
    {
        self.entries[i].0.as_str()
    }

    /// The value at position `i`.
    pub fn value_at(&self, i: usize) -> (r: &Json)
        requires
            i < self@.entries.len(),
        ensures
            r@ == self@.entries[i as int].1,
    {
        &self.entries[i].1
    }

    /// The position where `key` stands or would stand.
    fn slot(&self, key: &str) -> (r: usize)
        ensures
            r == self@.slot(key@),
            0 <= r <= self@.entries.len(),
    {
        let mut i: usize = 0;
        while i < self.entries.len() && text_before(self.entries[i].0.as_str(), key)
            invariant
                i <= self.entries@.len(),
                self@.entries.len() == self.entries@.len(),
                self@.slot(key@) == self@.slot_from(key@, i as int),
            decreases self.entries@.len() - i,
        {
            assert(self@.entries[i as int].0 == self.entries@[i as int].0@);
            i = i + 1;
        }
        proof {
            if i < self.entries@.len() {
                assert(self@.entries[i as int].0 == self.entries@[i as int].0@);
            }
        }
        i
    }

    /// The value under `key`.
    pub fn get(&self, key: &str) -> (r: Option<&Json>)
        ensures
            r is Some <==> self@.get(key@) is Some,
            r matches Some(v) ==> Some(v@) == self@.get(key@),
    {
        let at = self.slot(key);
        if at < self.entries.len() && same_text(self.entries[at].0.as_str(), key) {
            Some(&self.entries[at].1)
        } else {
            None
        }
    }

    /// Whether there is a member with this key.
    pub fn has(&self, key: &str) -> (r: bool)
        ensures
            r == self@.has(key@),
    {
        self.get(key).is_some()
    }

    /// These members with `key` set to `value`.
    pub fn with(self, key: &str, value: Json) -> (r: Self)
        ensures
            r@ == self@.with(key@, value@),
    {
        proof {
            use_type_invariant(&self);
            keyed::lemma_with_sorted(self@, key@, value@);
        }
        let ghost before = self@;
        let at = self.slot(key);
        let present = at < self.entries.len() && same_text(self.entries[at].0.as_str(), key);
        let mut entries = self.entries;
        if present {
            entries.set(at, (key.to_owned(), value));
        } else {
            entries.insert(at, (key.to_owned(), value));
        }
        assert(JsonMap { entries }@.entries =~= before.with(key@, value@).entries);
        JsonMap { entries }
    }

    /// These members, with `key` set where there is a value.
    pub fn with_some(self, key: &str, value: Option<Json>) -> (r: Self)
        ensures
            r@ == self@.with_some(key@, opt_json(value)),
    {
        match value {
            Some(v) => self.with(key, v),
            None => self,
        }
    }

    /// These members without the one under `key`.
    pub fn without(self, key: &str) -> (r: Self)
        ensures
            r@ == self@.without(key@),
    {
        proof {
            use_type_invariant(&self);
            keyed::lemma_without_sorted(self@, key@);
        }
        let ghost before = self@;
        let at = self.slot(key);
        if at < self.entries.len() && same_text(self.entries[at].0.as_str(), key) {
            let mut entries = self.entries;
            entries.remove(at);
            assert(JsonMap { entries }@.entries =~= before.without(key@).entries);
            JsonMap { entries }
        } else {
            self
        }
    }

    /// The object with these members.
    pub fn object(self) -> (r: Json)
        ensures
            r@ == self@.object(),
    {
        Json::Object(self)
    }
}

/// An optional value, as contracts see it.
pub open spec fn opt_json(value: Option<Json>) -> Option<JsonV> {
    match value {
        Some(v) => Some(v@),
        None => None,
    }
}

impl Json {
    /// A string value.
    pub fn text(s: &str) -> (r: Self)
        ensures
            r@ == JsonV::Text(s@),
    {
        Json::Text(s.to_owned())
    }

    /// A non-negative integer value.
    pub fn uint(n: u64) -> (r: Self)
        ensures
            r@ == uint(n),
    {
        Json::Number(JsonNumber::Unsigned(n))
    }

    /// An array value.
    pub fn array(items: Vec<Json>) -> (r: Self)
        ensures
            r@ == JsonV::Array(json_views(items@)),
    {
        proof {
            lemma_array_view(items);
        }
        Json::Array(items)
    }

    /// An array of strings.
    pub fn texts(items: &Vec<String>) -> (r: Self)
        ensures
            r@ == text_array(crate::text::texts(items@)),
    {
        let mut out: Vec<Json> = Vec::new();
        let mut i: usize = 0;
        while i < items.len()
            invariant
                i <= items@.len(),
                out@.len() == i,
                forall|j: int| 0 <= j < i ==> #[trigger] out@[j]@ == JsonV::Text(items@[j]@),
            decreases items@.len() - i,
        {
            out.push(Json::text(items[i].as_str()));
            i = i + 1;
        }
        assert(json_views(out@) =~= crate::text::texts(items@).map_values(
            |s: Seq<char>| JsonV::Text(s),
        ));
        Json::array(out)
    }

    /// The member of an object under `key`.
    pub fn member(&self, key: &str) -> (r: Option<&Json>)
        ensures
            r is Some <==> self@.member(key@) is Some,
            r matches Some(v) ==> Some(v@) == self@.member(key@),
    {
        match self {
            Json::Object(m) => m.get(key),
            _ => None,
        }
    }

    /// Whether this is the string `s`.
    pub fn is_text(&self, s: &str) -> (r: bool)
        ensures
            r == (self@ == JsonV::Text(s@)),
    {
        match self {
            Json::Text(t) => same_text(t.as_str(), s),
            _ => false,
        }
    }
}

impl Clone for Json {
    fn clone(&self) -> (r: Self)
        ensures
            r@ == self@,
        decreases self,
    {
        match self {
            Json::Null => Json::Null,
            Json::Bool(b) => Json::Bool(*b),
            Json::Number(n) => Json::Number(n.clone()),
            Json::Text(t) => Json::Text(t.clone()),
            Json::Array(v) => {
                let mut out: Vec<Json> = Vec::new();
                let mut i: usize = 0;
                while i < v.len()
                    invariant
                        i <= v@.len(),
                        out@.len() == i,
                        *self == Json::Array(*v),
                        forall|j: int| 0 <= j < i ==> #[trigger] out@[j]@ == v@[j]@,
                    decreases v@.len() - i,
                {
                    assert(decreases_to!(*self => self->Array_0));
                    let item = &v[i];
                    assert(decreases_to!(*v => v@));
                    assert(decreases_to!(v@ => v@[i as int]));
                    out.push(item.clone());
                    i = i + 1;
                }
                proof {
                    lemma_array_view(out);
                    lemma_array_view(*v);
                    assert(json_views(out@) =~= json_views(v@));
                }
                Json::Array(out)
            },
            Json::Object(m) => Json::Object(m.clone()),
        }
    }
}

impl Clone for JsonMap {
    fn clone(&self) -> (r: Self)
        ensures
            r@ == self@,
        decreases self,
    {
        let mut entries: Vec<(String, Json)> = Vec::new();
        let mut i: usize = 0;
        while i < self.entries.len()
            invariant
                i <= self.entries@.len(),
                entries@.len() == i,
                forall|j: int|
                    0 <= j < i ==> (#[trigger] entries@[j]).0@ == self.entries@[j].0@
                        && entries@[j].1@ == self.entries@[j].1@,
            decreases self.entries@.len() - i,
        {
            entries.push((self.entries[i].0.clone(), self.entries[i].1.clone()));
            i = i + 1;
        }
        proof {
            use_type_invariant(self);
            assert(JsonMap { entries }@.entries =~= self@.entries);
        }
        JsonMap { entries }
    }
}

/// Whether two JSON values are the same.
pub fn same_json(a: &Json, b: &Json) -> (r: bool)
    ensures
        r == (a@ == b@),
    decreases a,
{
    match (a, b) {
        (Json::Null, Json::Null) => true,
        (Json::Bool(x), Json::Bool(y)) => *x == *y,
        (Json::Number(x), Json::Number(y)) => match (x, y) {
            (JsonNumber::Unsigned(m), JsonNumber::Unsigned(n)) => *m == *n,
            (JsonNumber::Signed(m), JsonNumber::Signed(n)) => *m == *n,
            (JsonNumber::Decimal(m), JsonNumber::Decimal(n)) => same_text(m.as_str(), n.as_str()),
            _ => false,
        },
        (Json::Text(x), Json::Text(y)) => same_text(x.as_str(), y.as_str()),
        (Json::Array(x), Json::Array(y)) => {
            proof {
                lemma_array_view(*x);
                lemma_array_view(*y);
            }
            if x.len() != y.len() {
                assert(json_views(x@).len() != json_views(y@).len());
                return false;
            }
            let mut i: usize = 0;
            while i < x.len()
                invariant
                    i <= x@.len(),
                    x@.len() == y@.len(),
                    *a == Json::Array(*x),
                    *b == Json::Array(*y),
                    a@ == JsonV::Array(json_views(x@)),
                    b@ == JsonV::Array(json_views(y@)),
                    forall|j: int| 0 <= j < i ==> #[trigger] x@[j]@ == y@[j]@,
                decreases x@.len() - i,
            {
                if !same_json(&x[i], &y[i]) {
                    assert(json_views(x@)[i as int] == x@[i as int]@);
                    assert(json_views(y@)[i as int] == y@[i as int]@);
                    return false;
                }
                i = i + 1;
            }
            assert(json_views(x@) =~= json_views(y@));
            true
        },
        (Json::Object(x), Json::Object(y)) => same_members(x, y),
        _ => false,
    }
}

fn same_members(a: &JsonMap, b: &JsonMap) -> (r: bool)
    ensures
        r == (a@ == b@),
    decreases a,
{
    if a.entries.len() != b.entries.len() {
        assert(a@.entries.len() != b@.entries.len());
        return false;
    }
    let mut i: usize = 0;
    while i < a.entries.len()
        invariant
            i <= a.entries@.len(),
            a.entries@.len() == b.entries@.len(),
            forall|j: int| 0 <= j < i ==> #[trigger] a@.entries[j] == b@.entries[j],
        decreases a.entries@.len() - i,
    {
        let (ka, va) = (&a.entries[i].0, &a.entries[i].1);
        let (kb, vb) = (&b.entries[i].0, &b.entries[i].1);
        assert(a@.entries[i as int] == (ka@, va@));
        assert(b@.entries[i as int] == (kb@, vb@));
        if !same_text(ka.as_str(), kb.as_str()) || !same_json(va, vb) {
            return false;
        }
        i = i + 1;
    }
    assert(a@.entries =~= b@.entries);
    true
}

/// One character inside a JSON string literal: quotation mark, reverse
/// solidus and control characters are escaped.
pub open spec fn escaped_char(c: char) -> Seq<char> {
    let n = c as int;
    if c == '"' {
        seq!['\\', '"']
    } else if c == '\\' {
        seq!['\\', '\\']
    } else if n == 8 {
        seq!['\\', 'b']
    } else if n == 9 {
        seq!['\\', 't']
    } else if n == 10 {
        seq!['\\', 'n']
    } else if n == 12 {
        seq!['\\', 'f']
    } else if n == 13 {
        seq!['\\', 'r']
    } else if n < 32 {
        seq!['\\', 'u', '0', '0', crate::text::hex_digit(n / 16), crate::text::hex_digit(n % 16)]
    } else {
        seq![c]
    }
}

/// The characters of `s` inside a JSON string literal.
pub open spec fn escaped(s: Seq<char>) -> Seq<char>
    decreases s.len(),
{
    if s.len() == 0 {
        Seq::empty()
    } else {
        escaped(s.drop_last()) + escaped_char(s.last())
    }
}

/// The JSON string literal of `s`.
pub open spec fn string_literal(s: Seq<char>) -> Seq<char> {
    seq!['"'] + escaped(s) + seq!['"']
}

/// `serde_json::to_string` on a string slice: the JSON string literal, with
/// the short escapes, `\u00xx` in lowercase for the other control characters,
/// and every other character as it is. Writing a string slice never fails.
#[verifier::external_body]
pub(crate) fn write_string_literal(s: &str) -> (r: String)
    ensures
        r@ == string_literal(s@),
{
    serde_json::to_string(s).expect("a string slice always serializes")
}

/// The text of a number.
pub open spec fn number_text(n: NumberV) -> Seq<char> {
    match n {
        NumberV::Unsigned(v) => text::decimal(v as nat),
        NumberV::Signed(v) => if v < 0 {
            seq!['-'] + text::decimal((-v) as nat)
        } else {
            text::decimal(v as nat)
        },
        NumberV::Decimal(t) => t,
    }
}

/// Writes the text of a number.
pub fn write_number(n: &JsonNumber) -> (r: String)
    ensures
        r@ == number_text(n@),
{
    match n {
        JsonNumber::Unsigned(v) => decimal_text(*v),
        JsonNumber::Signed(v) => {
            if *v >= 0 {
                decimal_text(*v as u64)
            } else {
                let magnitude: u64 = if *v == i64::MIN {
                    0x8000_0000_0000_0000u64
                } else {
                    (-*v) as u64
                };
                let mut out = String::new();
                out.push('-');
                out.append(decimal_text(magnitude).as_str());
                assert(out@ =~= seq!['-'] + text::decimal((-*v) as nat));
                out
            }
        },
        JsonNumber::Decimal(t) => t.clone(),
    }
}

/// The compact text of a JSON value: members in their order, no white space.
pub open spec fn compact(v: JsonV) -> Seq<char>
    decreases v,
{
    match v {
        JsonV::Null => "null"@,
        JsonV::Bool(b) => if b {
            "true"@
        } else {
            "false"@
        },
        JsonV::Number(n) => number_text(n),
        JsonV::Text(t) => string_literal(t),
        JsonV::Array(items) => seq!['['] + compact_items(items) + seq![']'],
        JsonV::Object(m) => seq!['{'] + compact_members(m.entries) + seq!['}'],
    }
}

/// The compact texts of the items, with commas between them.
pub open spec fn compact_items(items: Seq<JsonV>) -> Seq<char>
    decreases items,
{
    if items.len() == 0 {
        Seq::empty()
    } else {
        compact_items(items.drop_last()) + separator(items.len()) + compact(items.last())
    }
}

/// The compact texts of the members, with commas between them.
pub open spec fn compact_members(entries: Seq<(Seq<char>, JsonV)>) -> Seq<char>
    decreases entries,
{
    if entries.len() == 0 {
        Seq::empty()
    } else {
        compact_members(entries.drop_last()) + separator(entries.len()) + string_literal(
            entries.last().0,
        ) + seq![':'] + compact(entries.last().1)
    }
}

/// What stands before the last of `count` items: a comma, or nothing.
pub open spec fn separator(count: nat) -> Seq<char> {
    if count > 1 {
        seq![',']
    } else {
        Seq::empty()
    }
}

/// Writes the compact text of a JSON value.
pub fn write_compact(v: &Json) -> (r: String)
    ensures
        r@ == compact(v@),
    decreases v@,
{
    match v {
        Json::Null => "null".to_owned(),
        Json::Bool(b) => if *b {
            "true".to_owned()
        } else {
            "false".to_owned()
        },
        Json::Number(n) => write_number(n),
        Json::Text(t) => write_string_literal(t.as_str()),
        Json::Array(items) => {
            proof {
                lemma_array_view(*items);
            }
            let ghost views = json_views(items@);
            let mut out = String::new();
            out.push('[');
            let mut i: usize = 0;
            assert(out@ =~= seq!['['] + compact_items(views.take(0)));
            while i < items.len()
                invariant
                    i <= items@.len(),
                    v@ == JsonV::Array(views),
                    views == json_views(items@),
                    out@ == seq!['['] + compact_items(views.take(i as int)),
                decreases items@.len() - i,
            {
                if i > 0 {
                    out.push(',');
                }
                assert(views[i as int] == items@[i as int]@);
                assert(decreases_to!(v@ => v@->Array_0));
                assert(decreases_to!(views => views[i as int]));
                out.append(write_compact(&items[i]).as_str());
                assert(views.take(i + 1).drop_last() =~= views.take(i as int));
                assert(out@ =~= seq!['['] + compact_items(views.take(i + 1)));
                i = i + 1;
            }
            assert(views.take(i as int) =~= views);
            out.push(']');
            assert(out@ =~= compact(v@));
            out
        },
        Json::Object(m) => {
            let ghost entries = m@.entries;
            let mut out = String::new();
            out.push('{');
            let mut i: usize = 0;
            assert(out@ =~= seq!['{'] + compact_members(entries.take(0)));
            while i < m.len()
                invariant
                    i <= entries.len(),
                    entries == m@.entries,
                    v@ == JsonV::Object(m@),
                    out@ == seq!['{'] + compact_members(entries.take(i as int)),
                decreases entries.len() - i,
            {
                if i > 0 {
                    out.push(',');
                }
                assert(decreases_to!(v@ => v@->Object_0));
                assert(decreases_to!(m@ => m@.entries));
                assert(decreases_to!(entries => entries[i as int]));
                assert(decreases_to!(entries[i as int] => entries[i as int].1));
                out.append(write_string_literal(m.key_at(i)).as_str());
                out.push(':');
                out.append(write_compact(m.value_at(i)).as_str());
                assert(entries.take(i + 1).drop_last() =~= entries.take(i as int));
                assert(out@ =~= seq!['{'] + compact_members(entries.take(i + 1)));
                i = i + 1;
            }
            assert(entries.take(i as int) =~= entries);
            out.push('}');
            assert(out@ =~= compact(v@));
            out
        },
    }
}

/// A parsed JSON value of the crate `serde_json`.
#[verifier::external_type_specification]
#[verifier::external_body]
pub struct ExValue(serde_json::Value);

/// The JSON value that a value of the crate `serde_json` holds.
pub uninterp spec fn held_json(value: Value) -> JsonV;

/// What `serde_json` reads from a text: a JSON value, or why there is none.
pub uninterp spec fn read_json(text: Seq<char>) -> Result<JsonV, Seq<char>>;

/// What was read from a text, as contracts see it.
pub open spec fn held_result(r: Result<Value, String>) -> Result<JsonV, Seq<char>> {
    match r {
        Ok(value) => Ok(held_json(value)),
        Err(detail) => Err(detail@),
    }
}

/// `serde_json::from_str` into `serde_json::Value`: the value that the text
/// spells, or the text of the error. What is read is only named: it depends on
/// the text alone. The canonical text of a value is read back as that value,
/// as long as its numbers are integers and it is nested at most 127 deep, where
/// the reader's recursion limit begins.
#[verifier::external_body]
fn read_value(text: &str) -> (r: Result<Value, String>)
    ensures
        held_result(r) == read_json(text@),
        canonical_laws::reads_back(text@, held_result(r)),
{
    serde_json::from_str(text).map_err(|e| e.to_string())
}

/// The variants of `serde_json::Value`, each as its counterpart here:
/// `Number::as_u64` and `Number::as_i64` tell the integers, any other number
/// keeps the text that it is written with.
#[verifier::external_body]
fn json_of(value: Value) -> (r: Json)
    ensures
        r@ == held_json(value),
{
    match value {
        Value::Null => Json::Null,
        Value::Bool(b) => Json::Bool(b),
        Value::Number(n) => Json::Number(match (n.as_u64(), n.as_i64()) {
            (Some(v), _) => JsonNumber::Unsigned(v),
            (None, Some(v)) => JsonNumber::Signed(v),
            (None, None) => JsonNumber::Decimal(n.to_string()),
        }),
        Value::String(s) => Json::Text(s),
        Value::Array(v) => Json::Array(v.into_iter().map(json_of).collect()),
        Value::Object(m) => {
            m.into_iter().fold(JsonMap::new(), |o, (k, v)| o.with(&k, json_of(v))).object()
        },
    }
}

/// What was read from a text, as contracts see it.
pub open spec fn json_result(r: Result<Json, String>) -> Result<JsonV, Seq<char>> {
    match r {
        Ok(value) => Ok(value@),
        Err(detail) => Err(detail@),
    }
}

/// Reads a JSON text. Reading undoes canonical writing: the canonical text of a
/// value without fractions and exponents is read as that value.
pub fn parse_json(text: &str) -> (r: Result<Json, String>)
    ensures
        json_result(r) == read_json(text@),
        canonical_laws::reads_back(text@, json_result(r)),
{
    match read_value(text) {
        Ok(value) => Ok(json_of(value)),
        Err(detail) => Err(detail),
    }
}

} // verus!
