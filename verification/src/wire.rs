//! The JSON form of values on the wire.

use vstd::prelude::*;

use crate::ir::primitives::{
    ActionName, AssertId, FeatureId, FlowId, Identifier, IrVersion, JsonPointer, JsonSchemaDocument,
    OnMissingInput, OnTimeout, Protection, ProviderName, RefPath, StepId,
};
use crate::json;
use crate::json::{Json, JsonMap, JsonNumber, JsonV, Members};
use crate::keyed;
use crate::keyed::{Keyed, TextMap};
use crate::order;

verus! {

/// A value with a JSON form.
pub trait Wire: Sized {
    /// The JSON form.
    spec fn wire_json(&self) -> JsonV;

    /// The JSON form.
    fn to_json(&self) -> (r: Json)
        ensures
            r@ == self.wire_json(),
    ;
}

/// The JSON form of an optional value; absence is expressed by omission.
pub open spec fn wire_some<T: Wire>(value: Option<T>) -> Option<JsonV> {
    match value {
        Some(v) => Some(v.wire_json()),
        None => None,
    }
}

/// The JSON form of an optional value.
pub fn some_json<T: Wire>(value: &Option<T>) -> (r: Option<Json>)
    ensures
        json::opt_json(r) == wire_some(*value),
{
    match value {
        Some(v) => Some(v.to_json()),
        None => None,
    }
}

/// The JSON form of an optional value that is written as `null` when absent.
pub open spec fn wire_or_null<T: Wire>(value: Option<T>) -> JsonV {
    match value {
        Some(v) => v.wire_json(),
        None => JsonV::Null,
    }
}

/// The JSON form of an optional value that is written as `null` when absent.
pub fn or_null_json<T: Wire>(value: &Option<T>) -> (r: Json)
    ensures
        r@ == wire_or_null(*value),
{
    match value {
        Some(v) => v.to_json(),
        None => Json::Null,
    }
}

/// The JSON form of a list that is left out when empty.
pub open spec fn wire_nonempty<T: Wire>(values: Seq<T>) -> Option<JsonV> {
    if values.len() == 0 {
        None
    } else {
        Some(JsonV::Array(wire_items(values)))
    }
}

/// The JSON form of a list that is left out when empty.
pub fn nonempty_json<T: Wire>(values: &Vec<T>) -> (r: Option<Json>)
    ensures
        json::opt_json(r) == wire_nonempty(values@),
{
    if values.len() == 0 {
        None
    } else {
        Some(values.to_json())
    }
}

/// The JSON form of a map that is left out when empty.
pub open spec fn wire_nonempty_map<V: Wire>(map: Keyed<V>) -> Option<JsonV> {
    if map.entries.len() == 0 {
        None
    } else {
        Some(wire_members(map.entries).object())
    }
}

/// The JSON form of a map that is left out when empty.
pub fn nonempty_map_json<V: Wire>(map: &TextMap<V>) -> (r: Option<Json>)
    ensures
        json::opt_json(r) == wire_nonempty_map(map@),
{
    if map.len() == 0 {
        None
    } else {
        Some(map.to_json())
    }
}

/// The JSON form of a flag that is left out when unset.
pub open spec fn wire_if_true(flag: bool) -> Option<JsonV> {
    if flag {
        Some(JsonV::Bool(true))
    } else {
        None
    }
}

/// The JSON form of a flag that is left out when unset.
pub fn if_true_json(flag: bool) -> (r: Option<Json>)
    ensures
        json::opt_json(r) == wire_if_true(flag),
{
    if flag {
        Some(Json::Bool(true))
    } else {
        None
    }
}

/// A value that can be copied without changing its JSON form.
pub trait Duplicate: Wire {
    /// A copy with the same JSON form.
    fn duplicate(&self) -> (r: Self)
        ensures
            r.wire_json() == self.wire_json(),
    ;
}

/// A copy of an optional value with the same JSON form.
pub fn duplicate_some<T: Duplicate>(value: &Option<T>) -> (r: Option<T>)
    ensures
        wire_some(r) == wire_some(*value),
        wire_or_null(r) == wire_or_null(*value),
{
    match value {
        Some(v) => Some(v.duplicate()),
        None => None,
    }
}

impl<T: Duplicate> Duplicate for Vec<T> {
    fn duplicate(&self) -> (r: Self)
        ensures
            wire_items(r@) == wire_items(self@),
            r@.len() == self@.len(),
    {
        let mut out: Vec<T> = Vec::new();
        let mut i: usize = 0;
        while i < self.len()
            invariant
                i <= self@.len(),
                out@.len() == i,
                forall|j: int|
                    0 <= j < i ==> (#[trigger] out@[j]).wire_json() == self@[j].wire_json(),
            decreases self@.len() - i,
        {
            out.push(self[i].duplicate());
            i = i + 1;
        }
        assert(wire_items(out@) =~= wire_items(self@));
        out
    }
}

impl<T: Wire> Wire for Box<T> {
    open spec fn wire_json(&self) -> JsonV {
        (**self).wire_json()
    }

    fn to_json(&self) -> (r: Json) {
        (**self).to_json()
    }
}

impl<T: Duplicate> Duplicate for Box<T> {
    fn duplicate(&self) -> (r: Self) {
        Box::new((**self).duplicate())
    }
}

/// The JSON forms of a list of values.
pub open spec fn wire_items<T: Wire>(values: Seq<T>) -> Seq<JsonV> {
    values.map_values(|v: T| v.wire_json())
}

impl<T: Wire> Wire for Vec<T> {
    open spec fn wire_json(&self) -> JsonV {
        JsonV::Array(wire_items(self@))
    }

    fn to_json(&self) -> (r: Json) {
        let mut out: Vec<Json> = Vec::new();
        let mut i: usize = 0;
        while i < self.len()
            invariant
                i <= self@.len(),
                out@.len() == i,
                forall|j: int| 0 <= j < i ==> #[trigger] out@[j]@ == self@[j].wire_json(),
            decreases self@.len() - i,
        {
            out.push(self[i].to_json());
            i = i + 1;
        }
        assert(json::json_views(out@) =~= wire_items(self@));
        Json::array(out)
    }
}

/// The JSON members of a map's entries.
pub open spec fn wire_members<V: Wire>(entries: Seq<(Seq<char>, V)>) -> Members
    decreases entries.len(),
{
    if entries.len() == 0 {
        Members::none()
    } else {
        wire_members(entries.drop_last()).with(entries.last().0, entries.last().1.wire_json())
    }
}

impl<V: Wire> Wire for TextMap<V> {
    open spec fn wire_json(&self) -> JsonV {
        wire_members(self@.entries).object()
    }

    fn to_json(&self) -> (r: Json) {
        let ghost entries = self@.entries;
        let mut out = JsonMap::new();
        let mut i: usize = 0;
        while i < self.len()
            invariant
                i <= entries.len(),
                entries == self@.entries,
                out@ == wire_members(entries.take(i as int)),
            decreases entries.len() - i,
        {
            out = out.with(self.key_at(i), self.value_at(i).to_json());
            assert(entries.take(i + 1).drop_last() =~= entries.take(i as int));
            i = i + 1;
        }
        assert(entries.take(i as int) =~= entries);
        assert(self.wire_json() == wire_members(entries).object());
        out.object()
    }
}

/// The JSON members of an ascending list are its entries, each with its JSON
/// form.
pub proof fn lemma_wire_members<V: Wire>(m: Keyed<V>)
    requires
        m.sorted(),
    ensures
        wire_members(m.entries) == keyed::mapped(m, |v: V| v.wire_json()),
    decreases m.entries.len(),
{
    let f = |v: V| v.wire_json();
    if m.entries.len() == 0 {
        assert(wire_members(m.entries).entries =~= keyed::mapped(m, f).entries);
    } else {
        let rest = Keyed { entries: m.entries.drop_last() };
        assert(rest.sorted()) by {
            assert forall|i: int, j: int| 0 <= i < j < rest.entries.len() implies order::text_less(
                (#[trigger] rest.entries[i]).0,
                (#[trigger] rest.entries[j]).0,
            ) by {
                assert(rest.entries[i] == m.entries[i] && rest.entries[j] == m.entries[j]);
            }
        }
        lemma_wire_members(rest);
        let image = keyed::mapped(rest, f);
        let key = m.entries.last().0;
        assert forall|i: int| 0 <= i < image.entries.len() implies order::text_less(
            (#[trigger] image.entries[i]).0,
            key,
        ) by {
            assert(image.entries[i].0 == m.entries[i].0);
        }
        keyed::lemma_slot(image, key, image.entries.len() as int);
        assert(wire_members(m.entries).entries =~= keyed::mapped(m, f).entries);
    }
}

/// Copying the values of a map keeps the JSON members.
proof fn lemma_members_same<V: Wire>(a: Seq<(Seq<char>, V)>, b: Seq<(Seq<char>, V)>)
    requires
        a.len() == b.len(),
        forall|i: int|
            0 <= i < a.len() ==> (#[trigger] a[i]).0 == b[i].0 && a[i].1.wire_json()
                == b[i].1.wire_json(),
    ensures
        wire_members(a) == wire_members(b),
    decreases a.len(),
{
    if a.len() > 0 {
        lemma_members_same(a.drop_last(), b.drop_last());
        assert(a[a.len() - 1].0 == b[a.len() - 1].0);
    }
}

impl<V: Duplicate> Duplicate for TextMap<V> {
    fn duplicate(&self) -> (r: Self)
        ensures
            r@.entries.len() == self@.entries.len(),
            wire_members(r@.entries) == wire_members(self@.entries),
    {
        self.in_order();
        let ghost m = self@;
        let mut r: TextMap<V> = TextMap::new();
        let mut i: usize = 0;
        while i < self.len()
            invariant
                m == self@,
                m.sorted(),
                i <= m.entries.len(),
                r@.entries.len() == i,
                forall|j: int|
                    0 <= j < i ==> (#[trigger] r@.entries[j]).0 == m.entries[j].0
                        && r@.entries[j].1.wire_json() == m.entries[j].1.wire_json(),
            decreases m.entries.len() - i,
        {
            let ghost before = r@;
            let ghost key = m.entries[i as int].0;
            let copy = self.value_at(i).duplicate();
            let ghost value = copy;
            proof {
                assert forall|j: int| 0 <= j < before.entries.len() implies order::text_less(
                    (#[trigger] before.entries[j]).0,
                    key,
                ) by {
                    assert(before.entries[j].0 == m.entries[j].0);
                }
                keyed::lemma_slot(before, key, before.entries.len() as int);
                assert(before.with(key, value).entries =~= before.entries.push((key, value)));
            }
            r.insert(self.key_at(i), copy);
            i = i + 1;
        }
        proof {
            lemma_members_same(r@.entries, m.entries);
        }
        assert(self.wire_json() == wire_members(m.entries).object());
        assert(r.wire_json() == wire_members(r@.entries).object());
        r
    }
}

impl Wire for String {
    open spec fn wire_json(&self) -> JsonV {
        JsonV::Text(self@)
    }

    fn to_json(&self) -> (r: Json) {
        Json::text(self.as_str())
    }
}

impl Wire for bool {
    open spec fn wire_json(&self) -> JsonV {
        JsonV::Bool(*self)
    }

    fn to_json(&self) -> (r: Json) {
        Json::Bool(*self)
    }
}

impl Wire for u64 {
    open spec fn wire_json(&self) -> JsonV {
        json::uint(*self)
    }

    fn to_json(&self) -> (r: Json) {
        Json::uint(*self)
    }
}

impl Wire for u32 {
    open spec fn wire_json(&self) -> JsonV {
        json::uint(*self as u64)
    }

    fn to_json(&self) -> (r: Json) {
        Json::uint(*self as u64)
    }
}

impl Wire for Json {
    open spec fn wire_json(&self) -> JsonV {
        self@
    }

    fn to_json(&self) -> (r: Json) {
        self.clone()
    }
}

impl Wire for JsonNumber {
    open spec fn wire_json(&self) -> JsonV {
        JsonV::Number(self@)
    }

    fn to_json(&self) -> (r: Json) {
        Json::Number(self.clone())
    }
}

impl Wire for JsonSchemaDocument {
    open spec fn wire_json(&self) -> JsonV {
        self@
    }

    fn to_json(&self) -> (r: Json) {
        self.as_value().clone()
    }
}

impl Wire for IrVersion {
    open spec fn wire_json(&self) -> JsonV {
        json::uint(IrVersion::VALUE)
    }

    fn to_json(&self) -> (r: Json) {
        Json::uint(IrVersion::VALUE)
    }
}

impl Wire for crate::ir::primitives::Hash {
    open spec fn wire_json(&self) -> JsonV {
        JsonV::Text(self@)
    }

    fn to_json(&self) -> (r: Json) {
        Json::text(self.as_str())
    }
}

impl Wire for FlowId {
    open spec fn wire_json(&self) -> JsonV {
        JsonV::Text(self@)
    }

    fn to_json(&self) -> (r: Json) {
        Json::text(self.as_str())
    }
}

impl Wire for StepId {
    open spec fn wire_json(&self) -> JsonV {
        JsonV::Text(self@)
    }

    fn to_json(&self) -> (r: Json) {
        Json::text(self.as_str())
    }
}

impl Wire for Identifier {
    open spec fn wire_json(&self) -> JsonV {
        JsonV::Text(self@)
    }

    fn to_json(&self) -> (r: Json) {
        Json::text(self.as_str())
    }
}

impl Wire for FeatureId {
    open spec fn wire_json(&self) -> JsonV {
        JsonV::Text(self@)
    }

    fn to_json(&self) -> (r: Json) {
        Json::text(self.as_str())
    }
}

impl Wire for ActionName {
    open spec fn wire_json(&self) -> JsonV {
        JsonV::Text(self@)
    }

    fn to_json(&self) -> (r: Json) {
        Json::text(self.as_str())
    }
}

impl Wire for AssertId {
    open spec fn wire_json(&self) -> JsonV {
        JsonV::Text(self@)
    }

    fn to_json(&self) -> (r: Json) {
        Json::text(self.as_str())
    }
}

impl Wire for RefPath {
    open spec fn wire_json(&self) -> JsonV {
        JsonV::Text(self@)
    }

    fn to_json(&self) -> (r: Json) {
        Json::text(self.as_str())
    }
}

impl Wire for JsonPointer {
    open spec fn wire_json(&self) -> JsonV {
        JsonV::Text(self@)
    }

    fn to_json(&self) -> (r: Json) {
        Json::text(self.as_str())
    }
}

impl Wire for OnMissingInput {
    open spec fn wire_json(&self) -> JsonV {
        JsonV::Text("unknown"@)
    }

    fn to_json(&self) -> (r: Json) {
        Json::text(self.wire_name())
    }
}

impl Wire for OnTimeout {
    open spec fn wire_json(&self) -> JsonV {
        JsonV::Text("unknown"@)
    }

    fn to_json(&self) -> (r: Json) {
        Json::text(self.wire_name())
    }
}

impl Wire for Protection {
    open spec fn wire_json(&self) -> JsonV {
        JsonV::Text("standard"@)
    }

    fn to_json(&self) -> (r: Json) {
        Json::text(self.wire_name())
    }
}

impl Wire for ProviderName {
    open spec fn wire_json(&self) -> JsonV {
        JsonV::Text("devicerail"@)
    }

    fn to_json(&self) -> (r: Json) {
        Json::text(self.wire_name())
    }
}

impl Duplicate for String {
    fn duplicate(&self) -> (r: Self) {
        self.clone()
    }
}

impl Duplicate for bool {
    fn duplicate(&self) -> (r: Self) {
        *self
    }
}

impl Duplicate for u64 {
    fn duplicate(&self) -> (r: Self) {
        *self
    }
}

impl Duplicate for u32 {
    fn duplicate(&self) -> (r: Self) {
        *self
    }
}

impl Duplicate for Json {
    fn duplicate(&self) -> (r: Self) {
        self.clone()
    }
}

impl Duplicate for JsonNumber {
    fn duplicate(&self) -> (r: Self) {
        self.clone()
    }
}

impl Duplicate for JsonSchemaDocument {
    fn duplicate(&self) -> (r: Self) {
        self.clone()
    }
}

impl Duplicate for IrVersion {
    fn duplicate(&self) -> (r: Self) {
        *self
    }
}

impl Duplicate for crate::ir::primitives::Hash {
    fn duplicate(&self) -> (r: Self) {
        self.clone()
    }
}

impl Duplicate for FlowId {
    fn duplicate(&self) -> (r: Self) {
        self.clone()
    }
}

impl Duplicate for StepId {
    fn duplicate(&self) -> (r: Self) {
        self.clone()
    }
}

impl Duplicate for Identifier {
    fn duplicate(&self) -> (r: Self) {
        self.clone()
    }
}

impl Duplicate for FeatureId {
    fn duplicate(&self) -> (r: Self) {
        self.clone()
    }
}

impl Duplicate for ActionName {
    fn duplicate(&self) -> (r: Self) {
        self.clone()
    }
}

impl Duplicate for AssertId {
    fn duplicate(&self) -> (r: Self) {
        self.clone()
    }
}

impl Duplicate for RefPath {
    fn duplicate(&self) -> (r: Self) {
        self.clone()
    }
}

impl Duplicate for JsonPointer {
    fn duplicate(&self) -> (r: Self) {
        self.clone()
    }
}

impl Duplicate for OnMissingInput {
    fn duplicate(&self) -> (r: Self) {
        *self
    }
}

impl Duplicate for OnTimeout {
    fn duplicate(&self) -> (r: Self) {
        *self
    }
}

impl Duplicate for Protection {
    fn duplicate(&self) -> (r: Self) {
        *self
    }
}

impl Duplicate for ProviderName {
    fn duplicate(&self) -> (r: Self) {
        *self
    }
}

} // verus!
