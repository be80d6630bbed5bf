//! What the schema of a flow keeps of the generated one.

use vstd::prelude::*;
use vstd::string::*;

use crate::ir::canonical_laws;
use crate::ir::schema_gen;
use crate::json::{JsonV, Members};
use crate::keyed;

verus! {

/// A list of type names loses the name of null and keeps all others.
pub proof fn law_null_is_the_only_name_lost(items: Seq<JsonV>, v: JsonV)
    ensures
        schema_gen::without_null_names(items).contains(v) <==> items.contains(v) && v
            != JsonV::Text("null"@),
        schema_gen::without_null_names(items).len() <= items.len(),
    decreases items.len(),
{
    if items.len() > 0 {
        let front = items.drop_last();
        let last = items.last();
        law_null_is_the_only_name_lost(front, v);
        let before = schema_gen::without_null_names(front);
        let all = schema_gen::without_null_names(items);
        if all.contains(v) {
            let k = choose|k: int| 0 <= k < all.len() && all[k] == v;
            if k < before.len() {
                assert(before[k] == v);
                assert(before.contains(v));
                let i = choose|i: int| 0 <= i < front.len() && front[i] == v;
                assert(items[i] == v);
            } else {
                assert(items[items.len() - 1] == v);
            }
        }
        if items.contains(v) && v != JsonV::Text("null"@) {
            let i = choose|i: int| 0 <= i < items.len() && items[i] == v;
            if i < front.len() {
                assert(front[i] == v);
                assert(before.contains(v));
                let k = choose|k: int| 0 <= k < before.len() && before[k] == v;
                assert(all[k] == v);
            } else {
                assert(all[all.len() - 1] == v);
            }
        }
    }
}

/// A list without the name of null stays as it is.
proof fn lemma_names_stay(items: Seq<JsonV>)
    requires
        forall|i: int| 0 <= i < items.len() ==> #[trigger] items[i] != JsonV::Text("null"@),
    ensures
        schema_gen::without_null_names(items) == items,
    decreases items.len(),
{
    if items.len() > 0 {
        assert forall|i: int| 0 <= i < items.drop_last().len() implies #[trigger] items.drop_last()[i]
            != JsonV::Text("null"@) by {
            assert(items[i] != JsonV::Text("null"@));
        }
        lemma_names_stay(items.drop_last());
        assert(items[items.len() - 1] != JsonV::Text("null"@));
        assert(items.drop_last().push(items.last()) =~= items);
    } else {
        assert(items =~= Seq::empty());
    }
}

/// Setting a member to what it is changes nothing.
proof fn lemma_set_again(m: Members, key: Seq<char>, value: JsonV)
    requires
        m.sorted(),
        m.get(key) == Some(value),
    ensures
        m.with(key, value) == m,
{
    keyed::lemma_with_sorted(m, key, value);
    assert forall|k: Seq<char>| #[trigger] m.with(key, value).get(k) == m.get(k) by {
        keyed::law_set_and_get(m, key, value, k);
    }
    keyed::lemma_same_entries(m.with(key, value), m);
}

/// Whether no type in a schema, at any depth, is a list that holds null or has one item, and no
/// choice has two branches with one of them null.
pub open spec fn without_nulls(v: JsonV) -> bool
    decreases v,
{
    match v {
        JsonV::Object(m) => {
            &&& match m.get("type"@) {
                Some(JsonV::Array(types)) => types.len() != 1 && forall|i: int|
                    0 <= i < types.len() ==> #[trigger] types[i] != JsonV::Text("null"@),
                _ => true,
            }
            &&& match m.get("anyOf"@) {
                Some(JsonV::Array(branches)) => !(branches.len() == 2 && (is_null(branches[0])
                    || is_null(branches[1]))),
                _ => true,
            }
            &&& entries_without_nulls(m.entries)
        },
        JsonV::Array(items) => items_without_nulls(items),
        _ => true,
    }
}

/// Whether a schema is that of null: its type is null, and it has no other member.
pub open spec fn is_null(v: JsonV) -> bool {
    v is Object && v->Object_0.entries.len() == 1 && v->Object_0.get("type"@) == Some(
        JsonV::Text("null"@),
    )
}

/// Whether all items are without nulls.
pub open spec fn items_without_nulls(items: Seq<JsonV>) -> bool
    decreases items,
{
    forall|i: int| 0 <= i < items.len() ==> without_nulls(#[trigger] items[i])
}

/// Whether all members are without nulls.
pub open spec fn entries_without_nulls(entries: Seq<(Seq<char>, JsonV)>) -> bool
    decreases entries,
{
    forall|i: int| 0 <= i < entries.len() ==> without_nulls((#[trigger] entries[i]).1)
}

/// A schema without nulls is left as it is.
pub proof fn law_schemas_without_nulls_stay(v: JsonV)
    requires
        canonical_laws::normal(v),
        without_nulls(v),
    ensures
        schema_gen::stripped(v) == v,
    decreases v,
{
    match v {
        JsonV::Object(m) => {
            lemma_entries_stay(m.entries);
            let same = Members { entries: schema_gen::stripped_entries(m.entries) };
            assert(same == m);
            if let Some(JsonV::Array(types)) = m.get("type"@) {
                lemma_names_stay(types);
                lemma_set_again(m, "type"@, JsonV::Array(types));
            }
        },
        JsonV::Array(items) => {
            lemma_items_stay(items);
        },
        _ => {},
    }
}

proof fn lemma_items_stay(items: Seq<JsonV>)
    requires
        canonical_laws::normal_items(items),
        items_without_nulls(items),
    ensures
        schema_gen::stripped_items(items) == items,
    decreases items,
{
    if items.len() > 0 {
        let front = items.drop_last();
        assert forall|i: int| 0 <= i < front.len() implies canonical_laws::normal(
            #[trigger] front[i],
        ) && without_nulls(front[i]) by {
            assert(canonical_laws::normal(items[i]) && without_nulls(items[i]));
        }
        lemma_items_stay(front);
        assert(canonical_laws::normal(items[items.len() - 1]) && without_nulls(
            items[items.len() - 1],
        ));
        law_schemas_without_nulls_stay(items.last());
        assert(front.push(items.last()) =~= items);
    } else {
        assert(items =~= Seq::empty());
    }
}

proof fn lemma_entries_stay(entries: Seq<(Seq<char>, JsonV)>)
    requires
        canonical_laws::normal_entries(entries),
        entries_without_nulls(entries),
    ensures
        schema_gen::stripped_entries(entries) == entries,
    decreases entries,
{
    if entries.len() > 0 {
        let front = entries.drop_last();
        assert forall|i: int| 0 <= i < front.len() implies canonical_laws::normal(
            (#[trigger] front[i]).1,
        ) && without_nulls(front[i].1) by {
            assert(canonical_laws::normal(entries[i].1) && without_nulls(entries[i].1));
        }
        lemma_entries_stay(front);
        assert(canonical_laws::normal(entries[entries.len() - 1].1) && without_nulls(
            entries[entries.len() - 1].1,
        ));
        law_schemas_without_nulls_stay(entries.last().1);
        assert(front.push(entries.last()) =~= entries);
    } else {
        assert(entries =~= Seq::empty());
    }
}

/// A choice between null and another schema is that other schema: the members of the branch
/// that is not null, over the members beside the choice. Any other choice stays.
pub proof fn law_optional_schemas_collapse(m: Members, key: Seq<char>)
    requires
        m.sorted(),
    ensures
        match m.get("anyOf"@) {
            Some(JsonV::Array(branches)) => if branches.len() == 2 && is_null(branches[0])
                && !is_null(branches[1]) && branches[1] is Object
                && branches[1]->Object_0.sorted() && key != "anyOf"@ {
                schema_gen::any_of_collapsed(m).get(key) == (if branches[1]->Object_0.has(key) {
                    branches[1]->Object_0.get(key)
                } else {
                    m.get(key)
                })
            } else if branches.len() == 2 && !is_null(branches[0]) && is_null(branches[1])
                && branches[0] is Object && branches[0]->Object_0.sorted() && key != "anyOf"@ {
                schema_gen::any_of_collapsed(m).get(key) == (if branches[0]->Object_0.has(key) {
                    branches[0]->Object_0.get(key)
                } else {
                    m.get(key)
                })
            } else if !(branches.len() == 2 && (is_null(branches[0]) || is_null(branches[1]))) {
                schema_gen::any_of_collapsed(m) == m
            } else {
                true
            },
            _ => schema_gen::any_of_collapsed(m) == m,
        },
{
    if let Some(JsonV::Array(branches)) = m.get("anyOf"@) {
        if branches.len() == 2 && key != "anyOf"@ {
            if is_null(branches[0]) && !is_null(branches[1]) && branches[1] is Object
                && branches[1]->Object_0.sorted() {
                schema_gen::law_siblings_survive(m, branches, branches[1]->Object_0, key);
            }
            if !is_null(branches[0]) && is_null(branches[1]) && branches[0] is Object
                && branches[0]->Object_0.sorted() {
                schema_gen::law_siblings_survive(m, branches, branches[0]->Object_0, key);
            }
        }
    }
}

/// A type that is a list loses null; with one name left it is that name.
pub proof fn law_optional_types_lose_null(types: Seq<JsonV>, name: Seq<char>)
    requires
        name != "null"@,
    ensures
        schema_gen::type_left(
            JsonV::Array(seq![JsonV::Text(name), JsonV::Text("null"@)]),
        ) == JsonV::Text(name),
        schema_gen::type_left(
            JsonV::Array(seq![JsonV::Text("null"@), JsonV::Text(name)]),
        ) == JsonV::Text(name),
        types.len() != 1 && (forall|i: int|
            0 <= i < types.len() ==> #[trigger] types[i] != JsonV::Text("null"@))
            ==> schema_gen::type_left(JsonV::Array(types)) == JsonV::Array(types),
{
    let a = seq![JsonV::Text(name), JsonV::Text("null"@)];
    let b = seq![JsonV::Text("null"@), JsonV::Text(name)];
    let one = seq![JsonV::Text(name)];
    reveal_with_fuel(schema_gen::without_null_names, 3);
    reveal_with_fuel(schema_gen::type_left, 2);
    assert(a.drop_last() =~= one);
    assert(one.drop_last() =~= Seq::empty());
    assert(b.drop_last() =~= seq![JsonV::Text("null"@)]);
    assert(seq![JsonV::Text("null"@)].drop_last() =~= Seq::<JsonV>::empty());
    assert(schema_gen::without_null_names(a) =~= one);
    assert(schema_gen::without_null_names(b) =~= one);
    assert(schema_gen::type_left(JsonV::Text(name)) == JsonV::Text(name));
    if types.len() != 1 && forall|i: int|
        0 <= i < types.len() ==> #[trigger] types[i] != JsonV::Text("null"@) {
        lemma_names_stay(types);
    }
}

/// The schema of a flow has its own id and title, and otherwise the members of the stripped one.
pub proof fn law_flow_schemas_are_named(generated: JsonV, root: Members, key: Seq<char>)
    requires
        schema_gen::stripped(generated) == JsonV::Object(root),
        root.sorted(),
    ensures
        ({
            let r = schema_gen::flow_schema(generated);
            &&& r.member("$id"@) == Some(JsonV::Text("urn:pointlock:schema:ir:v0.1:flow-ir"@))
            &&& r.member("title"@) == Some(JsonV::Text("FlowIR"@))
            &&& key != "$id"@ && key != "title"@ ==> r.member(key) == root.get(key)
        }),
{
    broadcast use keyed::lemma_get_after_with, keyed::lemma_sorted_after_with;

    reveal_strlit("$id");
    reveal_strlit("title");
    assert("$id"@.len() != "title"@.len());
}

} // verus!
