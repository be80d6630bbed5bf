//! What numbers, texts and JSON values look like when they are written.

use vstd::prelude::*;
use vstd::string::*;

use crate::ir::canonical;
use crate::ir::canonical::MemberText;
use crate::json;
use crate::json::{Json, JsonV, NumberV};
use crate::order;
use crate::text;

verus! {

/// A number is written in decimal, digit by digit, without zeros in front.
pub proof fn law_decimals(n: nat, d: nat)
    requires
        d < 10,
    ensures
        text::decimal(d).len() == 1,
        text::decimal(d)[0] as int == 48 + d,
        n > 0 ==> text::decimal(10 * n + d) == text::decimal(n) + text::decimal(d),
{
    assert((48 + d) as char as int == 48 + d);
    if n > 0 {
        assert((10 * n + d) / 10 == n);
        assert((10 * n + d) % 10 == d);
        assert(text::decimal(10 * n + d) =~= text::decimal(n) + text::decimal(d));
    }
}

/// Bytes are written with two hexadecimal digits each.
pub proof fn law_hexadecimal(bytes: Seq<u8>, b: u8)
    ensures
        text::hex(bytes.push(b)).len() == text::hex(bytes).len() + 2,
        text::hex(bytes.push(b)).take(text::hex(bytes).len() as int) == text::hex(bytes),
        text::hex(Seq::empty()).len() == 0,
        forall|d: int| 0 <= d < 10 ==> #[trigger] text::hex_digit(d) as int == 48 + d,
        forall|d: int| 10 <= d < 16 ==> #[trigger] text::hex_digit(d) as int == 87 + d,
{
    assert(bytes.push(b).drop_last() =~= bytes);
    assert(text::hex(bytes.push(b)).take(text::hex(bytes).len() as int) =~= text::hex(bytes));
    assert forall|d: int| 0 <= d < 10 implies #[trigger] text::hex_digit(d) as int == 48 + d by {
        assert((48 + d) as char as int == 48 + d);
    }
    assert forall|d: int| 10 <= d < 16 implies #[trigger] text::hex_digit(d) as int == 87 + d by {
        assert((87 + d) as char as int == 87 + d);
    }
}

/// A character below the supplementary planes is one code unit, itself. Any other is a pair of
/// surrogates, which spell it.
pub proof fn law_code_units(c: char, s: Seq<char>)
    ensures
        ({
            let u = order::utf16_char(c);
            &&& (c as int) < 0x10000 ==> u.len() == 1 && u[0] == c as int
            &&& c as int >= 0x10000 ==> {
                &&& u.len() == 2
                &&& 0xD800 <= u[0] <= 0xDBFF
                &&& 0xDC00 <= u[1] <= 0xDFFF
                &&& 0x10000 + (u[0] - 0xD800) * 0x400 + (u[1] - 0xDC00) == c as int
            }
            &&& order::utf16_units(s.push(c)) == order::utf16_units(s) + u
        }),
{
    assert(s.push(c).drop_last() =~= s);
    assert((c as int) <= 0x10FFFF);
}

/// Texts are ordered by where they first differ: the one that ends there, or has the smaller
/// code there, comes first.
pub proof fn law_order_is_by_the_first_difference(a: Seq<u32>, b: Seq<u32>, at: int)
    requires
        0 <= at <= a.len(),
        at < b.len(),
        forall|i: int| 0 <= i < at ==> a[i] == b[i],
        at < a.len() ==> a[at] != b[at],
    ensures
        order::lex_less(a, b) <==> at == a.len() || a[at] < b[at],
        !order::lex_less(a, a),
    decreases at,
{
    order::lemma_lex_irreflexive(a);
    if at > 0 {
        assert(a[0] == b[0]);
        let x = a.skip(1);
        let y = b.skip(1);
        assert forall|i: int| 0 <= i < at - 1 implies x[i] == y[i] by {
            assert(a[i + 1] == b[i + 1]);
        }
        assert(at < a.len() ==> x[at - 1] == a[at]);
        assert(y[at - 1] == b[at]);
        law_order_is_by_the_first_difference(x, y, at - 1);
    }
}

/// Literals, numbers and texts are written as JSON has them.
pub proof fn law_plain_values_are_written(b: bool, n: u64, m: i64, t: Seq<char>)
    ensures
        json::compact(JsonV::Null) == "null"@,
        json::compact(JsonV::Bool(b)) == (if b {
            "true"@
        } else {
            "false"@
        }),
        json::compact(JsonV::Number(NumberV::Unsigned(n))) == text::decimal(n as nat),
        m < 0 ==> json::compact(JsonV::Number(NumberV::Signed(m))) == seq!['-'] + text::decimal(
            (-m) as nat,
        ),
        m >= 0 ==> json::compact(JsonV::Number(NumberV::Signed(m))) == text::decimal(m as nat),
        json::compact(JsonV::Text(t)) == seq!['"'] + json::escaped(t) + seq!['"'],
{
}

/// An array is its items in brackets with commas between them, an object its members in braces
/// with commas between them, each the key, a colon and the value.
pub proof fn law_lists_are_written(
    items: Seq<JsonV>,
    item: JsonV,
    entries: Seq<(Seq<char>, JsonV)>,
    key: Seq<char>,
    value: JsonV,
)
    ensures
        json::compact_items(Seq::empty()).len() == 0,
        json::compact_items(items.push(item)) == (if items.len() == 0 {
            json::compact(item)
        } else {
            json::compact_items(items) + seq![','] + json::compact(item)
        }),
        json::compact(JsonV::Array(items)) == seq!['['] + json::compact_items(items) + seq![']'],
        json::compact_members(Seq::empty()).len() == 0,
        json::compact_members(entries.push((key, value))) == (if entries.len() == 0 {
            json::string_literal(key) + seq![':'] + json::compact(value)
        } else {
            json::compact_members(entries) + seq![','] + json::string_literal(key) + seq![':']
                + json::compact(value)
        }),
        json::compact(JsonV::Object(crate::keyed::Keyed { entries })) == seq!['{']
            + json::compact_members(entries) + seq!['}'],
{
    reveal_with_fuel(json::compact_items, 2);
    reveal_with_fuel(json::compact_members, 2);
    assert(items.push(item).drop_last() =~= items);
    assert(entries.push((key, value)).drop_last() =~= entries);
    if items.len() == 0 {
        assert(items =~= Seq::empty());
        assert(json::compact_items(items.push(item)) =~= json::compact(item));
    }
    if entries.len() == 0 {
        assert(entries =~= Seq::empty());
        assert(json::compact_members(entries.push((key, value))) =~= json::string_literal(key)
            + seq![':'] + json::compact(value));
    }
}

/// Parts are joined in order with the separator between each two of them.
pub proof fn law_parts_are_joined(parts: Seq<Seq<char>>, part: Seq<char>, sep: Seq<char>)
    ensures
        text::join(Seq::empty(), sep).len() == 0,
        text::join(parts.push(part), sep) == (if parts.len() == 0 {
            part
        } else {
            text::join(parts, sep) + sep + part
        }),
        text::debug_texts(seq![part]) == "["@ + text::debug_text(part) + "]"@,
{
    assert(parts.push(part).drop_last() =~= parts);
    let one = seq![part].map_values(|s: Seq<char>| text::debug_text(s));
    assert(one =~= seq![text::debug_text(part)]);
}

/// Lists of values are seen item by item.
pub proof fn law_lists_are_seen_whole(v: Seq<Json>, t: Seq<String>, i: int)
    ensures
        json::json_views(v).len() == v.len(),
        0 <= i < v.len() ==> json::json_views(v)[i] == v[i]@,
        text::texts(t).len() == t.len(),
        0 <= i < t.len() ==> text::texts(t)[i] == t[i]@,
        forall|x: Json| #[trigger] json::opt_json(Some(x)) == Some(x@),
        json::opt_json(None) is None,
        forall|x: String| #[trigger] text::opt_text(Some(x)) == Some(x@),
        text::opt_text(None) is None,
{
}

/// The canonical text has the same punctuation: brackets, braces, commas, colons and nothing
/// else between the values.
pub proof fn law_canonical_texts_are_compact(
    b: bool,
    t: Seq<char>,
    n: NumberV,
    items: Seq<JsonV>,
    item: JsonV,
    key: Seq<char>,
)
    ensures
        canonical::canonical(JsonV::Null) == "null"@,
        canonical::canonical(JsonV::Bool(b)) == (if b {
            "true"@
        } else {
            "false"@
        }),
        canonical::canonical(JsonV::Text(t)) == json::compact(JsonV::Text(t)),
        canonical::canonical(JsonV::Number(n)) == json::compact(JsonV::Number(n)),
        canonical::canonical(JsonV::Array(items)) == seq!['['] + canonical::canonical_items(items)
            + seq![']'],
        canonical::canonical_items(items.push(item)) == (if items.len() == 0 {
            canonical::canonical(item)
        } else {
            canonical::canonical_items(items) + seq![','] + canonical::canonical(item)
        }),
        canonical::joined_members(seq![MemberText { key, text: t }]) == json::string_literal(key)
            + seq![':'] + t,
{
    reveal_with_fuel(canonical::canonical_items, 2);
    reveal_with_fuel(canonical::joined_members, 2);
    assert(items.push(item).drop_last() =~= items);
    if items.len() == 0 {
        assert(items =~= Seq::empty());
        assert(canonical::canonical_items(items.push(item)) =~= canonical::canonical(item));
    }
    let one = seq![MemberText { key, text: t }];
    assert(one.drop_last() =~= Seq::empty());
    assert(canonical::joined_members(one) =~= json::string_literal(key) + seq![':'] + t);
}

} // verus!
