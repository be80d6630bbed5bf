//! Canonical JSON text: the byte form that all content hashes are computed
//! over. Object members are sorted by ascending UTF-16 code units and no
//! insignificant white space is written; numbers keep the text they have.

use vstd::prelude::*;
use vstd::string::*;

use crate::json;
use crate::json::{write_number, write_string_literal, Json, JsonV};
use crate::order;
use crate::order::utf16_before;

verus! {

/// A member's key with the canonical text of its value.
pub struct MemberText {
    /// The key.
    pub key: Seq<char>,
    /// The canonical text of the value.
    pub text: Seq<char>,
}

/// The canonical text of a JSON value.
pub open spec fn canonical(v: JsonV) -> Seq<char>
    decreases v,
{
    match v {
        JsonV::Null => "null"@,
        JsonV::Bool(b) => if b {
            "true"@
        } else {
            "false"@
        },
        JsonV::Number(n) => json::number_text(n),
        JsonV::Text(t) => json::string_literal(t),
        JsonV::Array(items) => seq!['['] + canonical_items(items) + seq![']'],
        JsonV::Object(m) => seq!['{'] + joined_members(by_utf16(member_texts(m.entries))) + seq![
            '}',
        ],
    }
}

/// The canonical texts of the items, with commas between them.
pub open spec fn canonical_items(items: Seq<JsonV>) -> Seq<char>
    decreases items,
{
    if items.len() == 0 {
        Seq::empty()
    } else {
        canonical_items(items.drop_last()) + json::separator(items.len()) + canonical(items.last())
    }
}

/// The keys with the canonical texts of their values.
pub open spec fn member_texts(entries: Seq<(Seq<char>, JsonV)>) -> Seq<MemberText>
    decreases entries,
{
    if entries.len() == 0 {
        Seq::empty()
    } else {
        member_texts(entries.drop_last()).push(
            MemberText { key: entries.last().0, text: canonical(entries.last().1) },
        )
    }
}

/// The first position at or after `from` whose key is not before `key`.
pub open spec fn utf16_slot(members: Seq<MemberText>, key: Seq<char>, from: int) -> int
    decreases members.len() - from,
{
    if from < 0 || from >= members.len() {
        members.len() as int
    } else if order::utf16_less(members[from].key, key) {
        utf16_slot(members, key, from + 1)
    } else {
        from
    }
}

/// The members sorted by the UTF-16 code units of their keys.
pub open spec fn by_utf16(members: Seq<MemberText>) -> Seq<MemberText>
    decreases members.len(),
{
    if members.len() == 0 {
        Seq::empty()
    } else {
        let sorted = by_utf16(members.drop_last());
        sorted.insert(utf16_slot(sorted, members.last().key, 0), members.last())
    }
}

/// The texts of the members, with commas between them.
pub open spec fn joined_members(members: Seq<MemberText>) -> Seq<char>
    decreases members.len(),
{
    if members.len() == 0 {
        Seq::empty()
    } else {
        joined_members(members.drop_last()) + json::separator(members.len()) + json::string_literal(
            members.last().key,
        ) + seq![':'] + members.last().text
    }
}

struct MemberLine {
    key: String,
    text: String,
}

spec fn line_views(lines: Seq<MemberLine>) -> Seq<MemberText> {
    lines.map_values(|l: MemberLine| MemberText { key: l.key@, text: l.text@ })
}

fn insert_sorted(lines: &mut Vec<MemberLine>, line: MemberLine)
    ensures
        line_views(final(lines)@) == line_views(old(lines)@).insert(
            utf16_slot(line_views(old(lines)@), line.key@, 0),
            (MemberText { key: line.key@, text: line.text@ }),
        ),
{
    let ghost before = line_views(lines@);
    let mut i: usize = 0;
    while i < lines.len() && utf16_before(lines[i].key.as_str(), line.key.as_str())
        invariant
            i <= lines@.len(),
            before == line_views(lines@),
            utf16_slot(before, line.key@, 0) == utf16_slot(before, line.key@, i as int),
        decreases lines@.len() - i,
    {
        assert(before[i as int].key == lines@[i as int].key@);
        i = i + 1;
    }
    proof {
        if i < lines@.len() {
            assert(before[i as int].key == lines@[i as int].key@);
        }
        assert(utf16_slot(before, line.key@, 0) == i);
    }
    let ghost view = MemberText { key: line.key@, text: line.text@ };
    lines.insert(i, line);
    assert(line_views(lines@) =~= before.insert(i as int, view));
}

/// Writes the canonical text of a JSON value.
pub fn to_canonical_json(value: &Json) -> (r: String)
    ensures
        r@ == canonical(value@),
    decreases value@,
{
    match value {
        Json::Null => "null".to_owned(),
        Json::Bool(b) => if *b {
            "true".to_owned()
        } else {
            "false".to_owned()
        },
        Json::Number(n) => write_number(n),
        Json::Text(t) => write_string_literal(t.as_str()),
        Json::Array(items) => {
            proof {
                json::lemma_array_view(*items);
            }
            let ghost views = json::json_views(items@);
            let mut out = String::new();
            out.push('[');
            let mut i: usize = 0;
            assert(out@ =~= seq!['['] + canonical_items(views.take(0)));
            while i < items.len()
                invariant
                    i <= items@.len(),
                    value@ == JsonV::Array(views),
                    views == json::json_views(items@),
                    out@ == seq!['['] + canonical_items(views.take(i as int)),
                decreases items@.len() - i,
            {
                if i > 0 {
                    out.push(',');
                }
                assert(views[i as int] == items@[i as int]@);
                assert(decreases_to!(value@ => value@->Array_0));
                assert(decreases_to!(views => views[i as int]));
                out.append(to_canonical_json(&items[i]).as_str());
                assert(views.take(i + 1).drop_last() =~= views.take(i as int));
                assert(out@ =~= seq!['['] + canonical_items(views.take(i + 1)));
                i = i + 1;
            }
            assert(views.take(i as int) =~= views);
            out.push(']');
            assert(out@ =~= canonical(value@));
            out
        },
        Json::Object(m) => {
            let ghost entries = m@.entries;
            let mut lines: Vec<MemberLine> = Vec::new();
            let mut i: usize = 0;
            assert(member_texts(entries.take(0)) =~= Seq::<MemberText>::empty());
            assert(line_views(lines@) =~= by_utf16(member_texts(entries.take(0))));
            while i < m.len()
                invariant
                    i <= entries.len(),
                    entries == m@.entries,
                    value@ == JsonV::Object(m@),
                    line_views(lines@) == by_utf16(member_texts(entries.take(i as int))),
                decreases entries.len() - i,
            {
                assert(decreases_to!(value@ => value@->Object_0));
                assert(decreases_to!(m@ => m@.entries));
                assert(decreases_to!(entries => entries[i as int]));
                assert(decreases_to!(entries[i as int] => entries[i as int].1));
                let line = MemberLine {
                    key: m.key_at(i).to_owned(),
                    text: to_canonical_json(m.value_at(i)),
                };
                proof {
                    let next = member_texts(entries.take(i + 1));
                    assert(entries.take(i + 1).drop_last() =~= entries.take(i as int));
                    assert(next.drop_last() =~= member_texts(entries.take(i as int)));
                    assert(next.last() == (MemberText { key: line.key@, text: line.text@ }));
                }
                insert_sorted(&mut lines, line);
                i = i + 1;
            }
            assert(entries.take(i as int) =~= entries);
            let ghost members = line_views(lines@);
            let mut out = String::new();
            out.push('{');
            let mut j: usize = 0;
            assert(out@ =~= seq!['{'] + joined_members(members.take(0)));
            while j < lines.len()
                invariant
                    j <= lines@.len(),
                    members == line_views(lines@),
                    out@ == seq!['{'] + joined_members(members.take(j as int)),
                decreases lines@.len() - j,
            {
                if j > 0 {
                    out.push(',');
                }
                out.append(write_string_literal(lines[j].key.as_str()).as_str());
                out.push(':');
                out.append(lines[j].text.as_str());
                assert(members.take(j + 1).drop_last() =~= members.take(j as int));
                assert(out@ =~= seq!['{'] + joined_members(members.take(j + 1)));
                j = j + 1;
            }
            assert(members.take(j as int) =~= members);
            out.push('}');
            assert(out@ =~= canonical(value@));
            out
        },
    }
}

/// Whether the keys ascend strictly by UTF-16 code units.
pub open spec fn utf16_ascending(members: Seq<MemberText>) -> bool {
    forall|i: int, j: int|
        0 <= i < j < members.len() ==> order::utf16_less(
            (#[trigger] members[i]).key,
            (#[trigger] members[j]).key,
        )
}

/// Whether no key occurs twice.
pub open spec fn distinct_keys(members: Seq<MemberText>) -> bool {
    forall|i: int, j: int|
        0 <= i < j < members.len() ==> (#[trigger] members[i]).key != (#[trigger] members[j]).key
}

proof fn lemma_utf16_slot(members: Seq<MemberText>, key: Seq<char>, from: int)
    requires
        0 <= from <= members.len(),
        forall|i: int| 0 <= i < from ==> order::utf16_less((#[trigger] members[i]).key, key),
    ensures
        from <= utf16_slot(members, key, from) <= members.len(),
        forall|i: int|
            0 <= i < utf16_slot(members, key, from) ==> order::utf16_less((#[trigger] members[i]).key, key),
        utf16_slot(members, key, from) < members.len() ==> !order::utf16_less(
            members[utf16_slot(members, key, from)].key,
            key,
        ),
    decreases members.len() - from,
{
    if from < members.len() && order::utf16_less(members[from].key, key) {
        lemma_utf16_slot(members, key, from + 1);
    }
}

/// Canonical member order: the members of an object are written in ascending
/// order of the UTF-16 code units of their keys, and each exactly once.
pub proof fn law_members_sorted_by_utf16(members: Seq<MemberText>)
    requires
        distinct_keys(members),
    ensures
        utf16_ascending(by_utf16(members)),
        by_utf16(members).to_multiset() == members.to_multiset(),
    decreases members.len(),
{
    members.to_multiset_ensures();
    if members.len() == 0 {
        assert(by_utf16(members) =~= members);
    } else {
        let front = members.drop_last();
        let last = members.last();
        assert forall|i: int, j: int| 0 <= i < j < front.len() implies (#[trigger] front[i]).key
            != (#[trigger] front[j]).key by {
            assert(front[i] == members[i] && front[j] == members[j]);
        }
        law_members_sorted_by_utf16(front);
        let sorted = by_utf16(front);
        lemma_utf16_slot(sorted, last.key, 0);
        let at = utf16_slot(sorted, last.key, 0);
        let r = sorted.insert(at, last);
        assert(front.push(last) =~= members);
        vstd::seq_lib::to_multiset_build(front, last);
        vstd::seq_lib::to_multiset_insert(sorted, at, last);
        assert(r.to_multiset() =~= members.to_multiset());
        front.to_multiset_ensures();
        sorted.to_multiset_ensures();
        assert forall|i: int| 0 <= i < sorted.len() implies (#[trigger] sorted[i]).key
            != last.key by {
            assert(sorted.contains(sorted[i]));
            assert(front.to_multiset().count(sorted[i]) > 0);
            assert(front.contains(sorted[i]));
            let k = choose|k: int| 0 <= k < front.len() && front[k] == sorted[i];
            assert(front[k] == members[k]);
            assert(members[members.len() - 1] == last);
        }
        assert forall|i: int, j: int| 0 <= i < j < r.len() implies order::utf16_less(
            (#[trigger] r[i]).key,
            (#[trigger] r[j]).key,
        ) by {
            if at < sorted.len() {
                crate::order::lemma_utf16_total(sorted[at].key, last.key);
                assert(order::utf16_less(last.key, sorted[at].key));
            }
            if j < at {
                assert(r[i] == sorted[i] && r[j] == sorted[j]);
            } else if j == at {
                assert(r[i] == sorted[i]);
            } else if i < at {
                assert(r[i] == sorted[i] && r[j] == sorted[j - 1]);
            } else if i == at {
                assert(r[j] == sorted[j - 1]);
                if j - 1 > at {
                    crate::order::lemma_lex_transitive(
                        crate::order::utf16_units(last.key),
                        crate::order::utf16_units(sorted[at].key),
                        crate::order::utf16_units(sorted[j - 1].key),
                    );
                }
            } else {
                assert(r[i] == sorted[i - 1] && r[j] == sorted[j - 1]);
            }
        }
    }
}

} // verus!
