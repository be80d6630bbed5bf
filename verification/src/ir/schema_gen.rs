//! Post-processing of the generated FlowIR JSON Schema.
//!
//! Absence is expressed by omission and `null` is forbidden everywhere, so the
//! `null` branch that a generator adds for optional members is taken out:
//! `"type": [T, "null"]` becomes `"type": T`, and
//! `"anyOf": [S, {"type": "null"}]` becomes `S`, innermost schemas first. Then
//! the root gets its `$id` and its title.

use vstd::prelude::*;
use vstd::string::*;

use crate::json;
use crate::json::{Json, JsonMap, JsonV, Members};
use crate::keyed;

verus! {

/// The `$id` of the FlowIR schema.
pub const FLOW_IR_SCHEMA_ID: &'static str = "urn:pointlock:schema:ir:v0.1:flow-ir";

/// Whether `v` is the text `"null"`.
pub open spec fn is_null_name(v: JsonV) -> bool {
    v == JsonV::Text("null"@)
}

/// `items` without the text `"null"`.
pub open spec fn without_null_names(items: Seq<JsonV>) -> Seq<JsonV>
    decreases items.len(),
{
    if items.len() == 0 {
        Seq::empty()
    } else if is_null_name(items.last()) {
        without_null_names(items.drop_last())
    } else {
        without_null_names(items.drop_last()).push(items.last())
    }
}

/// A `type` without `"null"` in its list; a list with one name left becomes
/// that name.
pub open spec fn type_left(v: JsonV) -> JsonV
    decreases v,
    via type_left_terminates
{
    match v {
        JsonV::Array(types) => {
            let left = without_null_names(types);
            if left.len() == 1 {
                type_left(left[0])
            } else {
                JsonV::Array(left)
            }
        },
        _ => v,
    }
}

#[via_fn]
proof fn type_left_terminates(v: JsonV) {
    if let JsonV::Array(types) = v {
        let left = without_null_names(types);
        if left.len() == 1 {
            let at = lemma_name_left(types, 0);
            assert(decreases_to!(v => v->Array_0));
            assert(decreases_to!(types => types[at]));
        }
    }
}

/// What is left of a list was in it.
proof fn lemma_name_left(items: Seq<JsonV>, i: int) -> (at: int)
    requires
        0 <= i < without_null_names(items).len(),
    ensures
        0 <= at < items.len(),
        items[at] == without_null_names(items)[i],
        !is_null_name(items[at]),
    decreases items.len(),
{
    let rest = without_null_names(items.drop_last());
    if i < rest.len() {
        lemma_name_left(items.drop_last(), i)
    } else {
        items.len() - 1
    }
}

/// Members whose `type`, where it is a list, does not hold `"null"`.
pub open spec fn type_stripped(m: Members) -> Members {
    match m.get("type"@) {
        Some(JsonV::Array(types)) => m.with("type"@, type_left(JsonV::Array(types))),
        _ => m,
    }
}

/// Whether `v` is the schema of `null` alone.
pub open spec fn is_null_schema(v: JsonV) -> bool {
    match v {
        JsonV::Object(m) => m.entries.len() == 1 && m.get("type"@) == Some(JsonV::Text("null"@)),
        _ => false,
    }
}

/// Whether `anyOf` has two branches, one of which is the schema of `null`.
pub open spec fn is_nullable(branches: Seq<JsonV>) -> bool {
    branches.len() == 2 && (is_null_schema(branches[0]) || is_null_schema(branches[1]))
}

/// The branch other than `null`; anything goes where both are `null`.
pub open spec fn other_branch(branches: Seq<JsonV>) -> JsonV {
    if !is_null_schema(branches[0]) {
        branches[0]
    } else if !is_null_schema(branches[1]) {
        branches[1]
    } else {
        JsonV::Bool(true)
    }
}

/// `m` with all of `entries` set, in order.
pub open spec fn merged(m: Members, entries: Seq<(Seq<char>, JsonV)>) -> Members
    decreases entries.len(),
{
    if entries.len() == 0 {
        m
    } else {
        merged(m, entries.drop_last()).with(entries.last().0, entries.last().1)
    }
}

/// Members whose nullable `anyOf` is replaced by the members of its other
/// branch, which stand over members of the same name.
pub open spec fn any_of_collapsed(m: Members) -> Members {
    match m.get("anyOf"@) {
        Some(JsonV::Array(branches)) => if is_nullable(branches) {
            match other_branch(branches) {
                JsonV::Object(inner) => merged(m.without("anyOf"@), inner.entries),
                _ => m.without("anyOf"@),
            }
        } else {
            m
        },
        _ => m,
    }
}

/// A schema without the `null` branches of optional members, at every depth.
pub open spec fn stripped(v: JsonV) -> JsonV
    decreases v,
{
    match v {
        JsonV::Object(m) => JsonV::Object(
            any_of_collapsed(type_stripped(Members { entries: stripped_entries(m.entries) })),
        ),
        JsonV::Array(items) => JsonV::Array(stripped_items(items)),
        _ => v,
    }
}

/// The items, each stripped.
pub open spec fn stripped_items(items: Seq<JsonV>) -> Seq<JsonV>
    decreases items,
{
    if items.len() == 0 {
        Seq::empty()
    } else {
        stripped_items(items.drop_last()).push(stripped(items.last()))
    }
}

/// The members, each stripped.
pub open spec fn stripped_entries(entries: Seq<(Seq<char>, JsonV)>) -> Seq<(Seq<char>, JsonV)>
    decreases entries,
{
    if entries.len() == 0 {
        Seq::empty()
    } else {
        stripped_entries(entries.drop_last()).push((entries.last().0, stripped(entries.last().1)))
    }
}

/// Whether `v` is no list, or a list of other than one item that does not hold
/// `"null"`.
pub open spec fn is_plain_type(v: JsonV) -> bool {
    match v {
        JsonV::Array(types) => types.len() != 1 && forall|i: int|
            0 <= i < types.len() ==> !is_null_name(#[trigger] types[i]),
        _ => true,
    }
}

/// Whether `v` is no list, or a list of branches that is not nullable.
pub open spec fn is_plain_choice(v: JsonV) -> bool {
    match v {
        JsonV::Array(branches) => !is_nullable(branches),
        _ => true,
    }
}

/// Whether no `type` list in `v`, at any depth, holds `"null"`, and no `anyOf`
/// has two branches with one of them the schema of `null`.
pub open spec fn is_null_free(v: JsonV) -> bool
    decreases v,
{
    match v {
        JsonV::Object(m) => {
            &&& m.has("type"@) ==> is_plain_type(m.get("type"@)->0)
            &&& m.has("anyOf"@) ==> is_plain_choice(m.get("anyOf"@)->0)
            &&& members_null_free(m.entries)
        },
        JsonV::Array(items) => items_null_free(items),
        _ => true,
    }
}

/// Whether each item is free of `null`.
pub open spec fn items_null_free(items: Seq<JsonV>) -> bool
    decreases items,
{
    forall|i: int| 0 <= i < items.len() ==> is_null_free(#[trigger] items[i])
}

/// Whether each member is free of `null`.
pub open spec fn members_null_free(entries: Seq<(Seq<char>, JsonV)>) -> bool
    decreases entries,
{
    forall|i: int| 0 <= i < entries.len() ==> is_null_free((#[trigger] entries[i]).1)
}

/// What is left of a `type` is plain, and as free of `null` as it was.
proof fn lemma_type_left(v: JsonV)
    requires
        is_null_free(v),
    ensures
        is_plain_type(type_left(v)),
        is_null_free(type_left(v)),
    decreases v,
{
    if let JsonV::Array(types) = v {
        let left = without_null_names(types);
        assert forall|i: int| 0 <= i < left.len() implies !is_null_name(#[trigger] left[i])
            && is_null_free(left[i]) by {
            let at = lemma_name_left(types, i);
            assert(is_null_free(types[at]));
        }
        if left.len() == 1 {
            let at = lemma_name_left(types, 0);
            assert(decreases_to!(v => v->Array_0));
            assert(decreases_to!(types => types[at]));
            lemma_type_left(left[0]);
        }
    }
}

proof fn lemma_set_null_free(m: Members, key: Seq<char>, value: JsonV)
    requires
        members_null_free(m.entries),
        is_null_free(value),
    ensures
        members_null_free(m.with(key, value).entries),
{
    keyed::lemma_slot(m, key, 0);
    let at = m.slot(key);
    let n = m.with(key, value);
    assert forall|i: int| 0 <= i < n.entries.len() implies is_null_free(
        (#[trigger] n.entries[i]).1,
    ) by {
        if m.has(key) {
            assert(i != at ==> n.entries[i] == m.entries[i]);
        } else {
            assert(i < at ==> n.entries[i] == m.entries[i]);
            assert(i > at ==> n.entries[i] == m.entries[i - 1]);
        }
    }
}

/// What a map holds after all of some entries were set: what it held, or one of
/// them.
proof fn lemma_merged(m: Members, entries: Seq<(Seq<char>, JsonV)>, key: Seq<char>)
    requires
        m.sorted(),
        members_null_free(m.entries),
        members_null_free(entries),
    ensures
        merged(m, entries).sorted(),
        members_null_free(merged(m, entries).entries),
        merged(m, entries).get(key) == m.get(key) || exists|i: int|
            0 <= i < entries.len() && (#[trigger] entries[i]).0 == key && merged(m, entries).get(key)
                == Some(entries[i].1),
    decreases entries.len(),
{
    if entries.len() > 0 {
        let front = entries.drop_last();
        let (k, v) = entries.last();
        assert forall|i: int| 0 <= i < front.len() implies is_null_free(
            (#[trigger] front[i]).1,
        ) by {
            assert(front[i] == entries[i]);
        }
        assert(is_null_free(entries[entries.len() - 1].1));
        lemma_merged(m, front, key);
        lemma_set_null_free(merged(m, front), k, v);
        keyed::lemma_with_sorted(merged(m, front), k, v);
        keyed::law_set_and_get(merged(m, front), k, v, key);
        if k == key {
            assert(entries[entries.len() - 1].0 == key);
        } else if merged(m, front).get(key) != m.get(key) {
            let i = choose|i: int|
                0 <= i < front.len() && (#[trigger] front[i]).0 == key && merged(m, front).get(key)
                    == Some(front[i].1);
            assert(entries[i] == front[i]);
        }
    }
}

proof fn lemma_found_null_free(m: Members, key: Seq<char>)
    requires
        members_null_free(m.entries),
        m.has(key),
    ensures
        is_null_free(m.get(key)->0),
{
    keyed::lemma_slot(m, key, 0);
    assert(is_null_free(m.entries[m.slot(key)].1));
}

/// The member that stands over a map is plain where it was plain in the map and
/// in what was set.
proof fn lemma_merged_plain(m: Members, inner: Members, key: Seq<char>)
    requires
        m.sorted(),
        inner.sorted(),
        members_null_free(m.entries),
        members_null_free(inner.entries),
    ensures
        merged(m, inner.entries).has(key) ==> merged(m, inner.entries).get(key) == m.get(key)
            || inner.has(key) && merged(m, inner.entries).get(key) == inner.get(key),
{
    lemma_merged(m, inner.entries, key);
    if merged(m, inner.entries).get(key) != m.get(key) {
        let i = choose|i: int|
            0 <= i < inner.entries.len() && (#[trigger] inner.entries[i]).0 == key && merged(
                m,
                inner.entries,
            ).get(key) == Some(inner.entries[i].1);
        keyed::lemma_get_at(inner, i);
    }
}

proof fn lemma_type_stripped(m: Members)
    requires
        m.sorted(),
        members_null_free(m.entries),
    ensures
        type_stripped(m).sorted(),
        members_null_free(type_stripped(m).entries),
        type_stripped(m).has("type"@) ==> is_plain_type(type_stripped(m).get("type"@)->0),
{
    if let Some(JsonV::Array(types)) = m.get("type"@) {
        let v = JsonV::Array(types);
        lemma_found_null_free(m, "type"@);
        lemma_type_left(v);
        lemma_set_null_free(m, "type"@, type_left(v));
        keyed::lemma_with_sorted(m, "type"@, type_left(v));
        keyed::law_set_and_get(m, "type"@, type_left(v), "type"@);
    }
}

/// Collapsing a nullable `anyOf` leaves nothing to collapse, where the branches
/// themselves are free of `null`.
proof fn lemma_any_of_collapsed(m: Members)
    requires
        m.sorted(),
        members_null_free(m.entries),
        m.has("type"@) ==> is_plain_type(m.get("type"@)->0),
        m.get("anyOf"@) matches Some(JsonV::Array(branches)) ==> (is_nullable(branches) ==> (
        other_branch(branches) matches JsonV::Object(inner) ==> inner.sorted())),
    ensures
        any_of_collapsed(m).sorted(),
        is_null_free(JsonV::Object(any_of_collapsed(m))),
{
    reveal_strlit("type");
    reveal_strlit("anyOf");
    assert("type"@.len() == 4);
    assert("anyOf"@.len() == 5);
    assert("type"@ != "anyOf"@);
    if let Some(JsonV::Array(branches)) = m.get("anyOf"@) {
        if is_nullable(branches) {
            let base = m.without("anyOf"@);
            keyed::law_removed(m, "anyOf"@, "type"@);
            lemma_found_null_free(m, "anyOf"@);
            assert(is_null_free(branches[0]));
            assert(is_null_free(branches[1]));
            keyed::lemma_slot(m, "anyOf"@, 0);
            let at = m.slot("anyOf"@);
            assert forall|i: int| 0 <= i < base.entries.len() implies is_null_free(
                (#[trigger] base.entries[i]).1,
            ) by {
                assert(base.entries[i] == m.entries[if i < at {
                    i
                } else {
                    i + 1
                }]);
            }
            if let JsonV::Object(inner) = other_branch(branches) {
                assert(is_null_free(JsonV::Object(inner)));
                lemma_merged(base, inner.entries, "type"@);
                lemma_merged_plain(base, inner, "type"@);
                lemma_merged_plain(base, inner, "anyOf"@);
            }
        }
    }
}

/// Takes `"null"` out of a `type` list; a list with one name left becomes
/// that name.
fn plain_type(types: &Vec<Json>) -> (r: Json)
    ensures
        r@ == type_left(JsonV::Array(json::json_views(types@))),
    decreases JsonV::Array(json::json_views(types@)),
{
    let mut left: Vec<Json> = Vec::new();
    let ghost views = json::json_views(types@);
    let mut i: usize = 0;
    assert(json::json_views(left@) =~= without_null_names(views.take(0)));
    while i < types.len()
        invariant
            views == json::json_views(types@),
            i <= types@.len(),
            json::json_views(left@) == without_null_names(views.take(i as int)),
        decreases types@.len() - i,
    {
        let ghost before = left@;
        assert(views.take(i + 1).drop_last() =~= views.take(i as int));
        assert(views.take(i + 1).last() == types@[i as int]@);
        if !types[i].is_text("null") {
            left.push(types[i].clone());
            assert(json::json_views(left@) =~= json::json_views(before).push(types@[i as int]@));
        }
        i = i + 1;
    }
    assert(views.take(i as int) =~= views);
    if left.len() != 1 {
        return Json::array(left);
    }
    assert(json::json_views(left@)[0] == left@[0]@);
    match &left[0] {
        Json::Array(inner) => {
            proof {
                crate::json::lemma_array_view(*inner);
                let at = lemma_name_left(views, 0);
                assert(decreases_to!(JsonV::Array(views) => JsonV::Array(views)->Array_0));
                assert(decreases_to!(views => views[at]));
            }
            plain_type(inner)
        },
        other => {
            assert(type_left(other@) == other@);
            other.clone()
        },
    }
}

/// Takes `"null"` out of a `type` list.
fn strip_null_from_type(obj: JsonMap) -> (r: JsonMap)
    ensures
        r@ == type_stripped(obj@),
{
    let replaced = match obj.get("type") {
        Some(Json::Array(types)) => {
            proof {
                crate::json::lemma_array_view(*types);
            }
            Some(plain_type(types))
        },
        _ => None,
    };
    match replaced {
        Some(value) => obj.with("type", value),
        None => obj,
    }
}

/// Whether `v` is the schema of `null` alone.
fn null_schema(v: &Json) -> (r: bool)
    ensures
        r == is_null_schema(v@),
{
    match v {
        Json::Object(o) => o.len() == 1 && match o.get("type") {
            Some(t) => t.is_text("null"),
            None => false,
        },
        _ => false,
    }
}

/// Replaces a nullable `anyOf` by the members of its other branch.
fn collapse_nullable_any_of(obj: JsonMap) -> (r: JsonMap)
    requires
        members_null_free(obj@.entries),
        obj@.has("type"@) ==> is_plain_type(obj@.get("type"@)->0),
    ensures
        r@ == any_of_collapsed(obj@),
        is_null_free(JsonV::Object(r@)),
{
    obj.in_order();
    let ghost whole = obj@;
    let other = match obj.get("anyOf") {
        Some(Json::Array(branches)) => {
            proof {
                crate::json::lemma_array_view(*branches);
            }
            if branches.len() != 2 {
                None
            } else {
                let first = null_schema(&branches[0]);
                let second = null_schema(&branches[1]);
                if !first && !second {
                    None
                } else if !first {
                    Some(branches[0].clone())
                } else if !second {
                    Some(branches[1].clone())
                } else {
                    Some(Json::Bool(true))
                }
            }
        },
        _ => None,
    };
    match other {
        Some(branch) => {
            let rest = obj.without("anyOf");
            match branch {
                Json::Object(inner) => {
                    inner.in_order();
                    proof {
                        lemma_any_of_collapsed(whole);
                    }
                    merge(rest, &inner)
                },
                _ => {
                    proof {
                        lemma_any_of_collapsed(whole);
                    }
                    rest
                },
            }
        },
        None => {
            proof {
                lemma_any_of_collapsed(whole);
            }
            obj
        },
    }
}

/// Sets all members of `inner`.
fn merge(obj: JsonMap, inner: &JsonMap) -> (r: JsonMap)
    ensures
        r@ == merged(obj@, inner@.entries),
{
    let ghost entries = inner@.entries;
    let ghost start = obj@;
    let mut out = obj;
    let mut i: usize = 0;
    while i < inner.len()
        invariant
            entries == inner@.entries,
            i <= entries.len(),
            out@ == merged(start, entries.take(i as int)),
        decreases entries.len() - i,
    {
        assert(entries.take(i + 1).drop_last() =~= entries.take(i as int));
        out = out.with(inner.key_at(i), inner.value_at(i).clone());
        i = i + 1;
    }
    assert(entries.take(i as int) =~= entries);
    out
}

/// Takes the `null` branches of optional members out of a schema, at every
/// depth: none is left.
pub fn strip_option_null(value: &Json) -> (r: Json)
    ensures
        r@ == stripped(value@),
        is_null_free(r@),
    decreases value@,
{
    match value {
        Json::Object(obj) => {
            let members = strip_members(obj);
            members.in_order();
            proof {
                lemma_type_stripped(members@);
            }
            collapse_nullable_any_of(strip_null_from_type(members)).object()
        },
        Json::Array(items) => {
            proof {
                crate::json::lemma_array_view(*items);
            }
            strip_items(items)
        },
        _ => value.clone(),
    }
}

fn strip_items(items: &Vec<Json>) -> (r: Json)
    ensures
        r@ == JsonV::Array(stripped_items(json::json_views(items@))),
        is_null_free(r@),
    decreases json::json_views(items@),
{
    let ghost views = json::json_views(items@);
    let mut out: Vec<Json> = Vec::new();
    let mut i: usize = 0;
    assert(json::json_views(out@) =~= stripped_items(views.take(0)));
    while i < items.len()
        invariant
            views == json::json_views(items@),
            i <= items@.len(),
            json::json_views(out@) == stripped_items(views.take(i as int)),
            items_null_free(json::json_views(out@)),
        decreases items@.len() - i,
    {
        let ghost before = out@;
        assert(views.take(i + 1).drop_last() =~= views.take(i as int));
        assert(views.take(i + 1).last() == items@[i as int]@);
        assert(decreases_to!(views => views[i as int]));
        let item = strip_option_null(&items[i]);
        let ghost view = item@;
        out.push(item);
        assert(json::json_views(out@) =~= json::json_views(before).push(view));
        i = i + 1;
    }
    assert(views.take(i as int) =~= views);
    Json::array(out)
}

fn strip_members(m: &JsonMap) -> (r: JsonMap)
    ensures
        r@.entries == stripped_entries(m@.entries),
        members_null_free(r@.entries),
    decreases m@.entries,
{
    m.in_order();
    let ghost entries = m@.entries;
    let mut out = JsonMap::new();
    let mut i: usize = 0;
    assert(entries.take(0) =~= Seq::empty());
    while i < m.len()
        invariant
            entries == m@.entries,
            m@.sorted(),
            i <= entries.len(),
            out@.entries.len() == i,
            forall|j: int| 0 <= j < i ==> (#[trigger] out@.entries[j]).0 == entries[j].0,
            out@.entries == stripped_entries(entries.take(i as int)),
            members_null_free(out@.entries),
        decreases entries.len() - i,
    {
        let ghost before = out@;
        let ghost key = entries[i as int].0;
        assert(entries.take(i + 1).drop_last() =~= entries.take(i as int));
        assert(entries.take(i + 1).last() == entries[i as int]);
        assert(decreases_to!(entries => entries[i as int]));
        assert(decreases_to!(entries[i as int] => entries[i as int].1));
        let item = strip_option_null(m.value_at(i));
        let ghost view = item@;
        proof {
            assert forall|j: int| 0 <= j < before.entries.len() implies crate::order::text_less(
                (#[trigger] before.entries[j]).0,
                key,
            ) by {
                assert(before.entries[j].0 == entries[j].0);
            }
            keyed::lemma_slot(before, key, before.entries.len() as int);
            assert(before.with(key, view).entries =~= before.entries.push((key, view)));
        }
        out = out.with(m.key_at(i), item);
        i = i + 1;
    }
    assert(entries.take(i as int) =~= entries);
    out
}

/// The FlowIR schema from what the generator gave: the `null` branches are
/// taken out, and an object gets its `$id` and its title.
pub open spec fn flow_schema(generated: JsonV) -> JsonV {
    match stripped(generated) {
        JsonV::Object(root) => root.with("$id"@, JsonV::Text(FLOW_IR_SCHEMA_ID@)).with(
            "title"@,
            JsonV::Text("FlowIR"@),
        ).object(),
        other => other,
    }
}

proof fn lemma_named_null_free(root: Members)
    requires
        root.sorted(),
        is_null_free(JsonV::Object(root)),
    ensures
        is_null_free(
            JsonV::Object(
                root.with("$id"@, JsonV::Text(FLOW_IR_SCHEMA_ID@)).with(
                    "title"@,
                    JsonV::Text("FlowIR"@),
                ),
            ),
        ),
{
    let id = JsonV::Text(FLOW_IR_SCHEMA_ID@);
    let title = JsonV::Text("FlowIR"@);
    let named = root.with("$id"@, id);
    reveal_strlit("$id");
    reveal_strlit("title");
    reveal_strlit("type");
    reveal_strlit("anyOf");
    assert("$id"@.len() == 3);
    assert("type"@.len() == 4);
    assert("title"@[0] == 't');
    assert("anyOf"@[0] == 'a');
    assert("title"@.len() == 5);
    lemma_set_null_free(root, "$id"@, id);
    keyed::lemma_with_sorted(root, "$id"@, id);
    keyed::law_set_and_get(root, "$id"@, id, "type"@);
    keyed::law_set_and_get(root, "$id"@, id, "anyOf"@);
    lemma_set_null_free(named, "title"@, title);
    keyed::law_set_and_get(named, "title"@, title, "type"@);
    keyed::law_set_and_get(named, "title"@, title, "anyOf"@);
}

/// Makes the FlowIR schema from what the generator gave.
pub fn flow_ir_schema(generated: &Json) -> (r: Json)
    ensures
        r@ == flow_schema(generated@),
        is_null_free(r@),
{
    match strip_option_null(generated) {
        Json::Object(root) => {
            root.in_order();
            proof {
                lemma_named_null_free(root@);
            }
            root.with("$id", Json::text(FLOW_IR_SCHEMA_ID)).with(
                "title",
                Json::text("FlowIR"),
            ).object()
        },
        other => other,
    }
}

proof fn lemma_merged_get(m: Members, entries: Seq<(Seq<char>, JsonV)>, key: Seq<char>)
    requires
        m.sorted(),
    ensures
        merged(m, entries).sorted(),
        (forall|i: int| 0 <= i < entries.len() ==> (#[trigger] entries[i]).0 != key) ==> merged(
            m,
            entries,
        ).get(key) == m.get(key),
        (exists|i: int| 0 <= i < entries.len() && (#[trigger] entries[i]).0 == key) ==> exists|i: int|
            0 <= i < entries.len() && (#[trigger] entries[i]).0 == key && merged(m, entries).get(key)
                == Some(entries[i].1),
    decreases entries.len(),
{
    if entries.len() > 0 {
        let front = entries.drop_last();
        let (k, v) = entries.last();
        lemma_merged_get(m, front, key);
        keyed::lemma_with_sorted(merged(m, front), k, v);
        keyed::law_set_and_get(merged(m, front), k, v, key);
        assert(forall|i: int| 0 <= i < front.len() ==> front[i] == #[trigger] entries[i]);
        if k == key {
            assert(entries[entries.len() - 1].0 == key);
        } else if exists|i: int| 0 <= i < front.len() && (#[trigger] front[i]).0 == key {
            let i = choose|i: int|
                0 <= i < front.len() && (#[trigger] front[i]).0 == key && merged(m, front).get(key)
                    == Some(front[i].1);
            assert(entries[i] == front[i]);
        }
    }
}

/// Where a nullable `anyOf` collapses, its siblings survive unless the branch
/// that is kept has a member of the same name.
pub proof fn law_siblings_survive(m: Members, branches: Seq<JsonV>, inner: Members, key: Seq<char>)
    requires
        m.sorted(),
        inner.sorted(),
        m.get("anyOf"@) == Some(JsonV::Array(branches)),
        is_nullable(branches),
        other_branch(branches) == JsonV::Object(inner),
        key != "anyOf"@,
    ensures
        any_of_collapsed(m).get(key) == (if inner.has(key) {
            inner.get(key)
        } else {
            m.get(key)
        }),
{
    keyed::law_removed(m, "anyOf"@, key);
    lemma_merged_get(m.without("anyOf"@), inner.entries, key);
    if inner.has(key) {
        keyed::lemma_slot(inner, key, 0);
        assert(inner.entries[inner.slot(key)].0 == key);
        let i = choose|i: int|
            0 <= i < inner.entries.len() && (#[trigger] inner.entries[i]).0 == key && any_of_collapsed(
                m,
            ).get(key) == Some(inner.entries[i].1);
        keyed::lemma_get_at(inner, i);
    } else {
        assert forall|i: int| 0 <= i < inner.entries.len() implies (
        #[trigger] inner.entries[i]).0 != key by {
            if inner.entries[i].0 == key {
                keyed::lemma_get_at(inner, i);
            }
        }
    }
}

} // verus!
