//! Canonical text tells values apart: two JSON values in normal form with the
//! same canonical text are the same value, so different contents never share
//! the input of a hash.

use vstd::prelude::*;
use vstd::string::*;
use vstd::utf8::*;

use crate::ir::canonical;
use crate::ir::canonical::MemberText;
use crate::ir::hash;
use crate::json;
use crate::json::{JsonV, Members, NumberV};
use crate::keyed;
use crate::text;

verus! {

/// Whether `c` can stand in the text of a number.
pub open spec fn in_number(c: char) -> bool {
    text::is_digit(c) || c == '-' || c == '+' || c == '.' || c == 'e' || c == 'E'
}

/// Whether a number is in normal form: a signed integer is negative, and any
/// other number is written with a fraction or an exponent.
pub open spec fn normal_number(n: NumberV) -> bool {
    match n {
        NumberV::Unsigned(_) => true,
        NumberV::Signed(v) => v < 0,
        NumberV::Decimal(t) => {
            &&& t.len() > 0
            &&& forall|i: int| 0 <= i < t.len() ==> in_number(#[trigger] t[i])
            &&& t.contains('.') || t.contains('e') || t.contains('E')
        },
    }
}

/// Whether a value is in normal form: its numbers are, and its objects hold
/// each key once, in ascending order.
pub open spec fn normal(v: JsonV) -> bool
    decreases v,
{
    match v {
        JsonV::Number(n) => normal_number(n),
        JsonV::Array(items) => normal_items(items),
        JsonV::Object(m) => m.sorted() && normal_entries(m.entries),
        _ => true,
    }
}

/// Whether all items are in normal form.
pub open spec fn normal_items(items: Seq<JsonV>) -> bool
    decreases items,
{
    forall|i: int| 0 <= i < items.len() ==> normal(#[trigger] items[i])
}

/// Whether all members are in normal form.
pub open spec fn normal_entries(entries: Seq<(Seq<char>, JsonV)>) -> bool
    decreases entries,
{
    forall|i: int| 0 <= i < entries.len() ==> normal((#[trigger] entries[i]).1)
}

/// Whether a value holds no number with a fraction or an exponent, and its
/// arrays and objects are nested at most `levels` deep.
pub open spec fn whole_within(v: JsonV, levels: nat) -> bool
    decreases v,
{
    match v {
        JsonV::Number(n) => !(n is Decimal),
        JsonV::Array(items) => levels > 0 && whole_items((levels - 1) as nat, items),
        JsonV::Object(m) => levels > 0 && whole_entries((levels - 1) as nat, m.entries),
        _ => true,
    }
}

/// Whether all items are whole and nested at most `levels` deep.
pub open spec fn whole_items(levels: nat, items: Seq<JsonV>) -> bool
    decreases items,
{
    forall|i: int| 0 <= i < items.len() ==> whole_within(#[trigger] items[i], levels)
}

/// Whether all members are whole and nested at most `levels` deep.
pub open spec fn whole_entries(levels: nat, entries: Seq<(Seq<char>, JsonV)>) -> bool
    decreases entries,
{
    forall|i: int| 0 <= i < entries.len() ==> whole_within((#[trigger] entries[i]).1, levels)
}

/// Whether `text` is the canonical text of `v`, a value in normal form that can
/// be read back: without fractions and exponents, and nested no deeper than a
/// reader goes.
pub open spec fn spells(text: Seq<char>, v: JsonV) -> bool {
    normal(v) && whole_within(v, 127) && text == canonical::canonical(v)
}

/// Whether reading undoes canonical writing: what `text` spells is what was
/// read from it.
pub open spec fn reads_back(text: Seq<char>, read: Result<JsonV, Seq<char>>) -> bool {
    forall|v: JsonV| #[trigger] spells(text, v) ==> read == Ok::<JsonV, Seq<char>>(v)
}

/// A text spells one value at most.
pub proof fn law_texts_spell_one_value(text: Seq<char>, a: JsonV, b: JsonV)
    requires
        spells(text, a),
        spells(text, b),
    ensures
        a == b,
{
    law_canonical_text_tells_values_apart(a, b);
}

/// Whether a value can end where `rest` begins: nothing follows, or what ends
/// an item or a member.
spec fn ends(rest: Seq<char>) -> bool {
    rest.len() == 0 || rest[0] == ',' || rest[0] == ']' || rest[0] == '}'
}

/// Equal texts with parts of equal length in front have equal parts.
proof fn lemma_split(a: Seq<char>, x: Seq<char>, b: Seq<char>, y: Seq<char>)
    requires
        a + x == b + y,
        a.len() == b.len(),
    ensures
        a == b,
        x == y,
{
    assert((a + x).take(a.len() as int) =~= a);
    assert((b + y).take(a.len() as int) =~= b);
    assert((a + x).skip(a.len() as int) =~= x);
    assert((b + y).skip(a.len() as int) =~= y);
}

/// The text of a normal number is not empty and consists of the characters of
/// numbers.
proof fn lemma_number_chars(n: NumberV)
    requires
        normal_number(n),
    ensures
        json::number_text(n).len() > 0,
        forall|i: int|
            0 <= i < json::number_text(n).len() ==> in_number(#[trigger] json::number_text(n)[i]),
{
    match n {
        NumberV::Unsigned(v) => {
            text::lemma_decimal_digits(v as nat);
        },
        NumberV::Signed(v) => {
            text::lemma_decimal_digits((-v) as nat);
            let digits = text::decimal((-v) as nat);
            assert forall|i: int| 0 <= i < json::number_text(n).len() implies in_number(
                #[trigger] json::number_text(n)[i],
            ) by {
                if i > 0 {
                    assert(json::number_text(n)[i] == digits[i - 1]);
                }
            }
        },
        NumberV::Decimal(_) => {},
    }
}

/// Normal numbers with the same text are the same.
proof fn lemma_number_text(a: NumberV, b: NumberV)
    requires
        normal_number(a),
        normal_number(b),
        json::number_text(a) == json::number_text(b),
    ensures
        a == b,
{
    lemma_integer_marks(a);
    lemma_integer_marks(b);
    match (a, b) {
        (NumberV::Unsigned(v), NumberV::Unsigned(w)) => {
            text::lemma_decimal_value(v as nat);
            text::lemma_decimal_value(w as nat);
        },
        (NumberV::Signed(v), NumberV::Signed(w)) => {
            text::lemma_decimal_value((-v) as nat);
            text::lemma_decimal_value((-w) as nat);
            lemma_split(
                seq!['-'],
                text::decimal((-v) as nat),
                seq!['-'],
                text::decimal((-w) as nat),
            );
        },
        _ => {},
    }
}

/// What tells the kinds of numbers apart: a minus sign in front, and the mark
/// of a fraction or an exponent.
proof fn lemma_integer_marks(n: NumberV)
    requires
        normal_number(n),
    ensures
        n is Decimal || {
            let t = json::number_text(n);
            &&& !t.contains('.') && !t.contains('e') && !t.contains('E')
            &&& t.len() > 0
            &&& n is Signed <==> t[0] == '-'
        },
{
    match n {
        NumberV::Unsigned(v) => {
            text::lemma_decimal_digits(v as nat);
            let t = json::number_text(n);
            assert(text::is_digit(t[0]));
            assert forall|i: int| 0 <= i < t.len() implies text::is_digit(#[trigger] t[i]) by {}
        },
        NumberV::Signed(v) => {
            text::lemma_decimal_digits((-v) as nat);
            let t = json::number_text(n);
            let digits = text::decimal((-v) as nat);
            assert forall|i: int| 1 <= i < t.len() implies text::is_digit(#[trigger] t[i]) by {
                assert(t[i] == digits[i - 1]);
            }
            assert(t[0] == '-');
        },
        NumberV::Decimal(_) => {},
    }
}

/// A number reads back from the text it stands in front of.
proof fn lemma_number_read(a: NumberV, x: Seq<char>, b: NumberV, y: Seq<char>)
    requires
        normal_number(a),
        normal_number(b),
        ends(x),
        ends(y),
        json::number_text(a) + x == json::number_text(b) + y,
    ensures
        a == b,
        x == y,
{
    let s = json::number_text(a);
    let t = json::number_text(b);
    lemma_number_chars(a);
    lemma_number_chars(b);
    if s.len() < t.len() {
        assert((s + x)[s.len() as int] == (t + y)[s.len() as int]);
        assert(in_number(t[s.len() as int]));
        assert(x.len() > 0 && (s + x)[s.len() as int] == x[0]);
    } else if t.len() < s.len() {
        assert((s + x)[t.len() as int] == (t + y)[t.len() as int]);
        assert(in_number(s[t.len() as int]));
        assert(y.len() > 0 && (t + y)[t.len() as int] == y[0]);
    }
    lemma_split(s, x, t, y);
    lemma_number_text(a, b);
}

/// Escaping goes through a text character by character.
proof fn lemma_escaped_front(s: Seq<char>)
    requires
        s.len() > 0,
    ensures
        json::escaped(s) == json::escaped_char(s[0]) + json::escaped(s.skip(1)),
    decreases s.len(),
{
    if s.len() == 1 {
        assert(s.drop_last() =~= Seq::<char>::empty());
        assert(s.skip(1) =~= Seq::<char>::empty());
        assert(json::escaped(s.drop_last()).len() == 0);
        assert(json::escaped(s) =~= json::escaped_char(s[0]) + json::escaped(s.skip(1)));
    } else {
        lemma_escaped_front(s.drop_last());
        assert(s.drop_last().skip(1) =~= s.skip(1).drop_last());
        assert(json::escaped(s) =~= json::escaped_char(s[0]) + json::escaped(s.skip(1)));
    }
}

/// An escaped character reads back from the text it stands in front of, and
/// never starts like the end of a literal.
proof fn lemma_escaped_char_read(c: char, x: Seq<char>, d: char, y: Seq<char>)
    requires
        json::escaped_char(c) + x == json::escaped_char(d) + y,
    ensures
        c == d,
        x == y,
{
    let s = json::escaped_char(c);
    let t = json::escaped_char(d);
    assert(s[0] == (s + x)[0]);
    assert(t[0] == (t + y)[0]);
    if s.len() > 1 && t.len() > 1 {
        assert(s[1] == (s + x)[1]);
        assert(t[1] == (t + y)[1]);
        if s.len() == 6 && t.len() == 6 {
            assert(s[4] == (s + x)[4]);
            assert(t[4] == (t + y)[4]);
            assert(s[5] == (s + x)[5]);
            assert(t[5] == (t + y)[5]);
        }
    }
    lemma_split(s, x, t, y);
}

/// A string literal reads back from the text it stands in front of.
proof fn lemma_escaped_read(s: Seq<char>, x: Seq<char>, t: Seq<char>, y: Seq<char>)
    requires
        json::escaped(s) + seq!['"'] + x == json::escaped(t) + seq!['"'] + y,
    ensures
        s == t,
        x == y,
    decreases s.len(),
{
    let p = json::escaped(s) + seq!['"'] + x;
    let q = json::escaped(t) + seq!['"'] + y;
    if s.len() > 0 {
        lemma_escaped_front(s);
        assert(p[0] == json::escaped_char(s[0])[0]);
        assert(p[0] != '"');
    } else {
        assert(p[0] == '"');
    }
    if t.len() > 0 {
        lemma_escaped_front(t);
        assert(q[0] == json::escaped_char(t[0])[0]);
        assert(q[0] != '"');
    } else {
        assert(q[0] == '"');
    }
    if s.len() > 0 {
        let rest_s = json::escaped(s.skip(1)) + seq!['"'] + x;
        let rest_t = json::escaped(t.skip(1)) + seq!['"'] + y;
        assert(p =~= json::escaped_char(s[0]) + rest_s);
        assert(q =~= json::escaped_char(t[0]) + rest_t);
        lemma_escaped_char_read(s[0], rest_s, t[0], rest_t);
        lemma_escaped_read(s.skip(1), x, t.skip(1), y);
        assert(s =~= seq![s[0]] + s.skip(1));
        assert(t =~= seq![t[0]] + t.skip(1));
    } else {
        assert(s =~= t);
        assert(p.skip(1) =~= x);
        assert(q.skip(1) =~= y);
    }
}

/// A string literal reads back from the text it stands in front of.
proof fn lemma_literal_read(s: Seq<char>, x: Seq<char>, t: Seq<char>, y: Seq<char>)
    requires
        json::string_literal(s) + x == json::string_literal(t) + y,
    ensures
        s == t,
        x == y,
{
    let rest_s = json::escaped(s) + seq!['"'] + x;
    let rest_t = json::escaped(t) + seq!['"'] + y;
    assert(json::string_literal(s) + x =~= seq!['"'] + rest_s);
    assert(json::string_literal(t) + y =~= seq!['"'] + rest_t);
    lemma_split(seq!['"'], rest_s, seq!['"'], rest_t);
    lemma_escaped_read(s, x, t, y);
}

/// The canonical texts of the items from position `i` on, with the commas
/// before them and the closing bracket.
spec fn items_from(items: Seq<JsonV>, i: int) -> Seq<char>
    decreases items.len() - i,
{
    if i < 0 || i >= items.len() {
        seq![']']
    } else {
        json::separator((i + 1) as nat) + canonical::canonical(items[i]) + items_from(items, i + 1)
    }
}

proof fn lemma_items_from(items: Seq<JsonV>, i: int)
    requires
        0 <= i <= items.len(),
    ensures
        canonical::canonical_items(items) + seq![']'] == canonical::canonical_items(items.take(i))
            + items_from(items, i),
    decreases items.len() - i,
{
    if i == items.len() {
        assert(items.take(i) =~= items);
    } else {
        lemma_items_from(items, i + 1);
        assert(items.take(i + 1).drop_last() =~= items.take(i));
        assert(canonical::canonical_items(items.take(i + 1)) + items_from(items, i + 1)
            =~= canonical::canonical_items(items.take(i)) + items_from(items, i));
    }
}

/// The texts of the members from position `i` on, with the commas before them
/// and the closing brace.
spec fn members_from(members: Seq<MemberText>, i: int) -> Seq<char>
    decreases members.len() - i,
{
    if i < 0 || i >= members.len() {
        seq!['}']
    } else {
        json::separator((i + 1) as nat) + json::string_literal(members[i].key) + seq![':']
            + members[i].text + members_from(members, i + 1)
    }
}

proof fn lemma_members_from(members: Seq<MemberText>, i: int)
    requires
        0 <= i <= members.len(),
    ensures
        canonical::joined_members(members) + seq!['}'] == canonical::joined_members(members.take(i))
            + members_from(members, i),
    decreases members.len() - i,
{
    if i == members.len() {
        assert(members.take(i) =~= members);
    } else {
        lemma_members_from(members, i + 1);
        assert(members.take(i + 1).drop_last() =~= members.take(i));
        assert(canonical::joined_members(members.take(i + 1)) + members_from(members, i + 1)
            =~= canonical::joined_members(members.take(i)) + members_from(members, i));
    }
}

/// The member texts stand for the entries, position by position.
proof fn lemma_member_texts(entries: Seq<(Seq<char>, JsonV)>)
    ensures
        canonical::member_texts(entries).len() == entries.len(),
        forall|i: int|
            0 <= i < entries.len() ==> #[trigger] canonical::member_texts(entries)[i] == (MemberText {
                key: entries[i].0,
                text: canonical::canonical(entries[i].1),
            }),
    decreases entries.len(),
{
    if entries.len() > 0 {
        lemma_member_texts(entries.drop_last());
    }
}

/// The written members are the entries in another order.
proof fn lemma_written_members(m: Members)
    requires
        m.sorted(),
    ensures
        ({
            let texts = canonical::member_texts(m.entries);
            let written = canonical::by_utf16(texts);
            &&& forall|i: int| 0 <= i < written.len() ==> texts.contains(#[trigger] written[i])
            &&& forall|i: int| 0 <= i < texts.len() ==> written.contains(#[trigger] texts[i])
        }),
{
    let texts = canonical::member_texts(m.entries);
    let written = canonical::by_utf16(texts);
    lemma_member_texts(m.entries);
    assert forall|i: int, j: int| 0 <= i < j < texts.len() implies (#[trigger] texts[i]).key != (
    #[trigger] texts[j]).key by {
        assert(crate::order::text_less(m.entries[i].0, m.entries[j].0));
        crate::order::lemma_lex_irreflexive(crate::order::code_points(m.entries[i].0));
    }
    canonical::law_members_sorted_by_utf16(texts);
    texts.to_multiset_ensures();
    written.to_multiset_ensures();
    assert forall|i: int| 0 <= i < written.len() implies texts.contains(#[trigger] written[i]) by {
        assert(written.contains(written[i]));
        assert(texts.to_multiset().count(written[i]) > 0);
    }
    assert forall|i: int| 0 <= i < texts.len() implies written.contains(#[trigger] texts[i]) by {
        assert(texts.contains(texts[i]));
        assert(written.to_multiset().count(texts[i]) > 0);
    }
}

/// The entry that a written member stands for.
proof fn lemma_member_entry(m: Members, i: int) -> (k: int)
    requires
        m.sorted(),
        0 <= i < canonical::by_utf16(canonical::member_texts(m.entries)).len(),
    ensures
        0 <= k < m.entries.len(),
        canonical::by_utf16(canonical::member_texts(m.entries))[i] == (MemberText {
            key: m.entries[k].0,
            text: canonical::canonical(m.entries[k].1),
        }),
{
    lemma_written_members(m);
    lemma_member_texts(m.entries);
    let texts = canonical::member_texts(m.entries);
    let written = canonical::by_utf16(texts);
    assert(texts.contains(written[i]));
    choose|k: int| 0 <= k < texts.len() && texts[k] == written[i]
}

/// How the canonical text of a value begins tells its kind.
spec fn begins(v: JsonV, c: char) -> bool {
    match v {
        JsonV::Null => c == 'n',
        JsonV::Bool(b) => c == if b {
            't'
        } else {
            'f'
        },
        JsonV::Number(_) => in_number(c),
        JsonV::Text(_) => c == '"',
        JsonV::Array(_) => c == '[',
        JsonV::Object(_) => c == '{',
    }
}

proof fn lemma_begins(v: JsonV)
    requires
        normal(v),
    ensures
        canonical::canonical(v).len() > 0,
        begins(v, canonical::canonical(v)[0]),
{
    reveal_strlit("null");
    reveal_strlit("true");
    reveal_strlit("false");
    if v is Number {
        lemma_number_chars(v->Number_0);
    }
}

/// A value reads back from the canonical text it stands in front of.
proof fn lemma_read(a: JsonV, x: Seq<char>, b: JsonV, y: Seq<char>)
    requires
        normal(a),
        normal(b),
        ends(x),
        ends(y),
        canonical::canonical(a) + x == canonical::canonical(b) + y,
    ensures
        a == b,
        x == y,
    decreases a, 0int,
{
    let s = canonical::canonical(a);
    let t = canonical::canonical(b);
    lemma_begins(a);
    lemma_begins(b);
    assert((s + x)[0] == s[0]);
    assert((t + y)[0] == t[0]);
    match (a, b) {
        (JsonV::Null, JsonV::Null) => {
            lemma_split(s, x, t, y);
        },
        (JsonV::Bool(_), JsonV::Bool(_)) => {
            lemma_split(s, x, t, y);
        },
        (JsonV::Number(m), JsonV::Number(n)) => {
            lemma_number_read(m, x, n, y);
        },
        (JsonV::Text(m), JsonV::Text(n)) => {
            lemma_literal_read(m, x, n, y);
        },
        (JsonV::Array(m), JsonV::Array(n)) => {
            lemma_items_from(m, 0);
            lemma_items_from(n, 0);
            assert(m.take(0) =~= Seq::<JsonV>::empty());
            assert(n.take(0) =~= Seq::<JsonV>::empty());
            assert(s + x =~= seq!['['] + (items_from(m, 0) + x));
            assert(t + y =~= seq!['['] + (items_from(n, 0) + y));
            lemma_split(seq!['['], items_from(m, 0) + x, seq!['['], items_from(n, 0) + y);
            assert(decreases_to!(a => a->Array_0));
            lemma_items_read(m, x, n, y, 0);
            assert(m =~= n);
        },
        (JsonV::Object(m), JsonV::Object(n)) => {
            let p = canonical::by_utf16(canonical::member_texts(m.entries));
            let q = canonical::by_utf16(canonical::member_texts(n.entries));
            lemma_members_from(p, 0);
            lemma_members_from(q, 0);
            assert(p.take(0) =~= Seq::<MemberText>::empty());
            assert(q.take(0) =~= Seq::<MemberText>::empty());
            assert(s + x =~= seq!['{'] + (members_from(p, 0) + x));
            assert(t + y =~= seq!['{'] + (members_from(q, 0) + y));
            lemma_split(seq!['{'], members_from(p, 0) + x, seq!['{'], members_from(q, 0) + y);
            assert(decreases_to!(a => a->Object_0));
            assert(decreases_to!(m => m.entries));
            lemma_members_read(m, x, n, y, 0);
            assert(p =~= q);
            lemma_same_members(m, n);
        },
        _ => {},
    }
}

proof fn lemma_items_read(a: Seq<JsonV>, x: Seq<char>, b: Seq<JsonV>, y: Seq<char>, i: int)
    requires
        normal_items(a),
        normal_items(b),
        0 <= i <= a.len(),
        i <= b.len(),
        items_from(a, i) + x == items_from(b, i) + y,
    ensures
        a.len() == b.len(),
        forall|j: int| i <= j < a.len() ==> a[j] == b[j],
        x == y,
    decreases a, a.len() - i,
{
    let s = items_from(a, i) + x;
    let t = items_from(b, i) + y;
    if i < a.len() {
        lemma_begins(a[i]);
        assert(s[0] == if i > 0 {
            ','
        } else {
            canonical::canonical(a[i])[0]
        });
    }
    if i < b.len() {
        lemma_begins(b[i]);
        assert(t[0] == if i > 0 {
            ','
        } else {
            canonical::canonical(b[i])[0]
        });
    }
    if i < a.len() && i < b.len() {
        let rest_a = items_from(a, i + 1) + x;
        let rest_b = items_from(b, i + 1) + y;
        let sep = json::separator((i + 1) as nat);
        assert(s =~= sep + (canonical::canonical(a[i]) + rest_a));
        assert(t =~= sep + (canonical::canonical(b[i]) + rest_b));
        lemma_split(
            sep,
            canonical::canonical(a[i]) + rest_a,
            sep,
            canonical::canonical(b[i]) + rest_b,
        );
        assert(decreases_to!(a => a[i]));
        lemma_read(a[i], rest_a, b[i], rest_b);
        lemma_items_read(a, x, b, y, i + 1);
    } else {
        lemma_split(seq![']'], x, seq![']'], y);
    }
}

#[verifier::spinoff_prover]
#[verifier::rlimit(60)]
proof fn lemma_members_read(a: Members, x: Seq<char>, b: Members, y: Seq<char>, i: int)
    requires
        a.sorted(),
        b.sorted(),
        normal_entries(a.entries),
        normal_entries(b.entries),
        0 <= i <= canonical::by_utf16(canonical::member_texts(a.entries)).len(),
        i <= canonical::by_utf16(canonical::member_texts(b.entries)).len(),
        members_from(canonical::by_utf16(canonical::member_texts(a.entries)), i) + x
            == members_from(canonical::by_utf16(canonical::member_texts(b.entries)), i) + y,
    ensures
        canonical::by_utf16(canonical::member_texts(a.entries)).len() == canonical::by_utf16(
            canonical::member_texts(b.entries),
        ).len(),
        forall|j: int|
            i <= j < canonical::by_utf16(canonical::member_texts(a.entries)).len()
                ==> canonical::by_utf16(canonical::member_texts(a.entries))[j]
                == canonical::by_utf16(canonical::member_texts(b.entries))[j],
        x == y,
    decreases a.entries, canonical::by_utf16(canonical::member_texts(a.entries)).len() - i,
{
    let p = canonical::by_utf16(canonical::member_texts(a.entries));
    let q = canonical::by_utf16(canonical::member_texts(b.entries));
    let s = members_from(p, i) + x;
    let t = members_from(q, i) + y;
    if i < p.len() {
        assert(s[0] == if i > 0 {
            ','
        } else {
            '"'
        });
    }
    if i < q.len() {
        assert(t[0] == if i > 0 {
            ','
        } else {
            '"'
        });
    }
    if i < p.len() && i < q.len() {
        let rest_a = members_from(p, i + 1) + x;
        let rest_b = members_from(q, i + 1) + y;
        let sep = json::separator((i + 1) as nat);
        let after_a = json::string_literal(p[i].key) + (seq![':'] + (p[i].text + rest_a));
        let after_b = json::string_literal(q[i].key) + (seq![':'] + (q[i].text + rest_b));
        assert(s =~= sep + after_a);
        assert(t =~= sep + after_b);
        lemma_split(sep, after_a, sep, after_b);
        lemma_literal_read(
            p[i].key,
            seq![':'] + (p[i].text + rest_a),
            q[i].key,
            seq![':'] + (q[i].text + rest_b),
        );
        lemma_split(seq![':'], p[i].text + rest_a, seq![':'], q[i].text + rest_b);
        let k = lemma_member_entry(a, i);
        let l = lemma_member_entry(b, i);
        assert(decreases_to!(a.entries => a.entries[k]));
        assert(decreases_to!(a.entries[k] => a.entries[k].1));
        lemma_read(a.entries[k].1, rest_a, b.entries[l].1, rest_b);
        lemma_members_read(a, x, b, y, i + 1);
    } else {
        lemma_split(seq!['}'], x, seq!['}'], y);
    }
}

/// Objects whose members are written alike are the same.
proof fn lemma_same_members(a: Members, b: Members)
    requires
        a.sorted(),
        b.sorted(),
        normal_entries(a.entries),
        normal_entries(b.entries),
        canonical::by_utf16(canonical::member_texts(a.entries)) == canonical::by_utf16(
            canonical::member_texts(b.entries),
        ),
    ensures
        a == b,
    decreases a.entries, -1int,
{
    assert forall|key: Seq<char>| #[trigger] a.get(key) == b.get(key) by {
        keyed::lemma_slot(a, key, 0);
        keyed::lemma_slot(b, key, 0);
        if a.has(key) {
            let k = a.slot(key);
            let l = lemma_counterpart(a, b, k);
            keyed::lemma_get_at(b, l);
            assert(decreases_to!(a.entries => a.entries[k]));
            assert(decreases_to!(a.entries[k] => a.entries[k].1));
            assert(canonical::canonical(a.entries[k].1) + Seq::<char>::empty()
                == canonical::canonical(b.entries[l].1) + Seq::<char>::empty());
            lemma_read(a.entries[k].1, Seq::empty(), b.entries[l].1, Seq::empty());
        } else if b.has(key) {
            let l = lemma_counterpart(b, a, b.slot(key));
            keyed::lemma_get_at(a, l);
        }
    }
    keyed::lemma_same_entries(a, b);
}

/// The entry of `b` that is written like the entry of `a` at `k`.
proof fn lemma_counterpart(a: Members, b: Members, k: int) -> (l: int)
    requires
        a.sorted(),
        b.sorted(),
        0 <= k < a.entries.len(),
        canonical::by_utf16(canonical::member_texts(a.entries)) == canonical::by_utf16(
            canonical::member_texts(b.entries),
        ),
    ensures
        0 <= l < b.entries.len(),
        b.entries[l].0 == a.entries[k].0,
        canonical::canonical(b.entries[l].1) == canonical::canonical(a.entries[k].1),
{
    lemma_written_members(a);
    lemma_member_texts(a.entries);
    let texts = canonical::member_texts(a.entries);
    let written = canonical::by_utf16(texts);
    assert(written.contains(texts[k]));
    let i = choose|i: int| 0 <= i < written.len() && written[i] == texts[k];
    lemma_member_entry(b, i)
}

/// An object in normal form stays in normal form when a member is set to a
/// value in normal form.
pub broadcast proof fn lemma_normal_with(m: Members, key: Seq<char>, value: JsonV)
    requires
        normal(m.object()),
        normal(value),
    ensures
        normal(#[trigger] m.with(key, value).object()),
{
    keyed::lemma_with_sorted(m, key, value);
    keyed::lemma_slot(m, key, 0);
    let at = m.slot(key);
    let entries = m.with(key, value).entries;
    assert forall|i: int| 0 <= i < entries.len() implies normal((#[trigger] entries[i]).1) by {
        if i == at {
            assert(entries[i] == (key, value));
        } else if m.has(key) || i < at {
            assert(entries[i] == m.entries[i]);
        } else {
            assert(entries[i] == m.entries[i - 1]);
        }
    }
}

/// An object in normal form stays in normal form when a member is set where
/// there is a value in normal form.
pub broadcast proof fn lemma_normal_with_some(m: Members, key: Seq<char>, value: Option<JsonV>)
    requires
        normal(m.object()),
        value matches Some(v) ==> normal(v),
    ensures
        normal(#[trigger] m.with_some(key, value).object()),
{
    if let Some(v) = value {
        lemma_normal_with(m, key, v);
    }
}

/// The empty object is in normal form.
pub proof fn lemma_normal_none()
    ensures
        normal(Members::none().object()),
{
}

/// Values in normal form with the same canonical text are the same value.
pub proof fn law_canonical_text_tells_values_apart(a: JsonV, b: JsonV)
    requires
        normal(a),
        normal(b),
    ensures
        canonical::canonical(a) == canonical::canonical(b) ==> a == b,
{
    if canonical::canonical(a) == canonical::canonical(b) {
        lemma_read(a, Seq::empty(), b, Seq::empty());
    }
}

/// Different contents never share the bytes that are hashed: under one tag,
/// two subtrees in normal form with the same bytes are the same subtree.
pub proof fn law_hashed_bytes_tell_contents_apart(tag: Seq<char>, a: JsonV, b: JsonV)
    requires
        normal(a),
        normal(b),
        a != b,
    ensures
        encode_utf8(hash::preimage(tag, a)) != encode_utf8(hash::preimage(tag, b)),
{
    law_canonical_text_tells_values_apart(a, b);
    let p = hash::preimage(tag, a);
    let q = hash::preimage(tag, b);
    encode_utf8_decode_utf8(p);
    encode_utf8_decode_utf8(q);
    if p == q {
        let front = tag + "\n"@;
        lemma_split(front, canonical::canonical(a), front, canonical::canonical(b));
    }
}

} // verus!
