//! Values that their JSON forms tell apart.

use vstd::prelude::*;

use crate::ir::flow::FeatureSet;
use crate::ir::primitives::{
    ActionName, AssertId, FeatureId, FlowId, Identifier, IrVersion, JsonPointer, JsonSchemaDocument,
    OnMissingInput, OnTimeout, Protection, ProviderName, RefPath, StepId,
};
use crate::json;
use crate::json::{Json, JsonNumber, JsonV};
use crate::keyed;
use crate::keyed::{Keyed, TextMap};
use crate::sets::{Ordinal, OrdinalSet, TextSet};
use crate::wire;
use crate::wire::Wire;

verus! {

/// A value whose JSON form holds all of it.
pub trait Told: Wire {
    /// Whether the keys of every map in the value ascend, as they do in every
    /// map that was built.
    spec fn ordered(&self) -> bool;

    /// Whether two values say the same.
    spec fn same(&self, other: &Self) -> bool;

    /// Values with one JSON form say the same.
    proof fn told(a: &Self, b: &Self)
        requires
            a.ordered(),
            b.ordered(),
            a.wire_json() == b.wire_json(),
        ensures
            a.same(b),
    ;
}

/// Whether the maps of an optional value are in order.
pub open spec fn some_in_order<T: Told>(value: Option<T>) -> bool {
    value matches Some(v) ==> v.ordered()
}

/// Whether the maps of all values are in order.
pub open spec fn all_in_order<T: Told>(values: Seq<T>) -> bool {
    forall|i: int| 0 <= i < values.len() ==> (#[trigger] values[i]).ordered()
}

/// Whether two optional values say the same.
pub open spec fn same_some<T: Told>(a: Option<T>, b: Option<T>) -> bool {
    match (a, b) {
        (Some(x), Some(y)) => x.same(&y),
        (None, None) => true,
        _ => false,
    }
}

/// Whether two lists say the same, item by item.
pub open spec fn same_list<T: Told>(a: Seq<T>, b: Seq<T>) -> bool {
    &&& a.len() == b.len()
    &&& forall|i: int| 0 <= i < a.len() ==> (#[trigger] a[i]).same(&b[i])
}

/// Whether two maps have the same keys, with values that say the same.
pub open spec fn same_map<V: Told>(a: Keyed<V>, b: Keyed<V>) -> bool {
    &&& a.entries.len() == b.entries.len()
    &&& forall|i: int|
        0 <= i < a.entries.len() ==> (#[trigger] a.entries[i]).0 == b.entries[i].0
            && a.entries[i].1.same(&b.entries[i].1)
}

/// Whether a map and the maps in its values are in order.
pub open spec fn map_in_order<V: Told>(m: Keyed<V>) -> bool {
    &&& m.sorted()
    &&& forall|i: int| 0 <= i < m.entries.len() ==> (#[trigger] m.entries[i]).1.ordered()
}

/// An optional value is told by whether it is there and by its form.
pub proof fn law_optional_values_are_told<T: Told>(a: Option<T>, b: Option<T>)
    requires
        some_in_order(a),
        some_in_order(b),
        wire::wire_some(a) == wire::wire_some(b),
    ensures
        same_some(a, b),
        a is Some <==> wire::wire_some(a) is Some,
{
    if let (Some(x), Some(y)) = (a, b) {
        T::told(&x, &y);
    }
}

/// A value that is `null` where it is missing, and never `null` otherwise, is
/// told by its form.
pub proof fn law_nullable_values_are_told<T: Told>(a: Option<T>, b: Option<T>)
    requires
        some_in_order(a),
        some_in_order(b),
        wire::wire_or_null(a) == wire::wire_or_null(b),
        a matches Some(v) ==> v.wire_json() != JsonV::Null,
        b matches Some(v) ==> v.wire_json() != JsonV::Null,
    ensures
        same_some(a, b),
{
    if let (Some(x), Some(y)) = (a, b) {
        T::told(&x, &y);
    }
}

/// Lists are told by the forms of their items, in order.
pub proof fn law_lists_are_told<T: Told>(a: Seq<T>, b: Seq<T>)
    requires
        all_in_order(a),
        all_in_order(b),
        wire::wire_items(a) == wire::wire_items(b),
    ensures
        same_list(a, b),
{
    let x = wire::wire_items(a);
    let y = wire::wire_items(b);
    assert(x.len() == a.len() && y.len() == b.len());
    assert forall|i: int| 0 <= i < a.len() implies (#[trigger] a[i]).same(&b[i]) by {
        assert(x[i] == a[i].wire_json());
        assert(y[i] == b[i].wire_json());
        assert(b[i].ordered());
        T::told(&a[i], &b[i]);
    }
}

/// Lists that are left out when empty are told by their forms.
pub proof fn law_omitted_lists_are_told<T: Told>(a: Seq<T>, b: Seq<T>)
    requires
        all_in_order(a),
        all_in_order(b),
        wire::wire_nonempty(a) == wire::wire_nonempty(b),
    ensures
        same_list(a, b),
        wire::wire_nonempty(a) is None <==> a.len() == 0,
{
    if a.len() > 0 && b.len() > 0 {
        law_lists_are_told(a, b);
    }
}

/// Maps are told by their keys and the forms of their values.
pub proof fn law_maps_are_told<V: Told>(a: Keyed<V>, b: Keyed<V>)
    requires
        map_in_order(a),
        map_in_order(b),
        wire::wire_members(a.entries) == wire::wire_members(b.entries),
    ensures
        same_map(a, b),
{
    let f = |v: V| v.wire_json();
    wire::lemma_wire_members(a);
    wire::lemma_wire_members(b);
    let x = keyed::mapped(a, f).entries;
    let y = keyed::mapped(b, f).entries;
    assert(x == y);
    assert(x.len() == a.entries.len() && y.len() == b.entries.len());
    assert forall|i: int| 0 <= i < a.entries.len() implies (#[trigger] a.entries[i]).0
        == b.entries[i].0 && a.entries[i].1.same(&b.entries[i].1) by {
        assert(x[i] == (a.entries[i].0, a.entries[i].1.wire_json()));
        assert(y[i] == (b.entries[i].0, b.entries[i].1.wire_json()));
        assert(b.entries[i].1.ordered());
        V::told(&a.entries[i].1, &b.entries[i].1);
    }
}

/// Maps that are left out when empty are told by their forms.
pub proof fn law_omitted_maps_are_told<V: Told>(a: Keyed<V>, b: Keyed<V>)
    requires
        map_in_order(a),
        map_in_order(b),
        wire::wire_nonempty_map(a) == wire::wire_nonempty_map(b),
    ensures
        same_map(a, b),
{
    if a.entries.len() > 0 && b.entries.len() > 0 {
        law_maps_are_told(a, b);
    }
}

/// Plain values are written as they are.
pub proof fn law_plain_values_are_written_as_they_are(
    text: String,
    flag: bool,
    number: u64,
    short: u32,
    decimal: JsonNumber,
    value: Json,
)
    ensures
        text.wire_json() == JsonV::Text(text@),
        flag.wire_json() == JsonV::Bool(flag),
        number.wire_json() == JsonV::Number(json::NumberV::Unsigned(number)),
        short.wire_json() == JsonV::Number(json::NumberV::Unsigned(short as u64)),
        decimal.wire_json() == JsonV::Number(decimal@),
        value.wire_json() == value@,
{
}

impl Told for String {
    open spec fn ordered(&self) -> bool {
        true
    }

    open spec fn same(&self, other: &Self) -> bool {
        self@ == other@
    }

    proof fn told(a: &Self, b: &Self) {
    }
}

impl Told for Json {
    open spec fn ordered(&self) -> bool {
        true
    }

    open spec fn same(&self, other: &Self) -> bool {
        self@ == other@
    }

    proof fn told(a: &Self, b: &Self) {
    }
}

impl Told for JsonNumber {
    open spec fn ordered(&self) -> bool {
        true
    }

    open spec fn same(&self, other: &Self) -> bool {
        self@ == other@
    }

    proof fn told(a: &Self, b: &Self) {
    }
}

impl Told for JsonSchemaDocument {
    open spec fn ordered(&self) -> bool {
        true
    }

    open spec fn same(&self, other: &Self) -> bool {
        self@ == other@
    }

    proof fn told(a: &Self, b: &Self) {
    }
}

impl Told for crate::ir::primitives::Hash {
    open spec fn ordered(&self) -> bool {
        true
    }

    open spec fn same(&self, other: &Self) -> bool {
        self@ == other@
    }

    proof fn told(a: &Self, b: &Self) {
    }
}

impl Told for FlowId {
    open spec fn ordered(&self) -> bool {
        true
    }

    open spec fn same(&self, other: &Self) -> bool {
        self@ == other@
    }

    proof fn told(a: &Self, b: &Self) {
    }
}

impl Told for StepId {
    open spec fn ordered(&self) -> bool {
        true
    }

    open spec fn same(&self, other: &Self) -> bool {
        self@ == other@
    }

    proof fn told(a: &Self, b: &Self) {
    }
}

impl Told for Identifier {
    open spec fn ordered(&self) -> bool {
        true
    }

    open spec fn same(&self, other: &Self) -> bool {
        self@ == other@
    }

    proof fn told(a: &Self, b: &Self) {
    }
}

impl Told for FeatureId {
    open spec fn ordered(&self) -> bool {
        true
    }

    open spec fn same(&self, other: &Self) -> bool {
        self@ == other@
    }

    proof fn told(a: &Self, b: &Self) {
    }
}

impl Told for ActionName {
    open spec fn ordered(&self) -> bool {
        true
    }

    open spec fn same(&self, other: &Self) -> bool {
        self@ == other@
    }

    proof fn told(a: &Self, b: &Self) {
    }
}

impl Told for AssertId {
    open spec fn ordered(&self) -> bool {
        true
    }

    open spec fn same(&self, other: &Self) -> bool {
        self@ == other@
    }

    proof fn told(a: &Self, b: &Self) {
    }
}

impl Told for RefPath {
    open spec fn ordered(&self) -> bool {
        true
    }

    open spec fn same(&self, other: &Self) -> bool {
        self@ == other@
    }

    proof fn told(a: &Self, b: &Self) {
    }
}

impl Told for JsonPointer {
    open spec fn ordered(&self) -> bool {
        true
    }

    open spec fn same(&self, other: &Self) -> bool {
        self@ == other@
    }

    proof fn told(a: &Self, b: &Self) {
    }
}

impl Told for bool {
    open spec fn ordered(&self) -> bool {
        true
    }

    open spec fn same(&self, other: &Self) -> bool {
        *self == *other
    }

    proof fn told(a: &Self, b: &Self) {
    }
}

impl Told for u64 {
    open spec fn ordered(&self) -> bool {
        true
    }

    open spec fn same(&self, other: &Self) -> bool {
        *self == *other
    }

    proof fn told(a: &Self, b: &Self) {
    }
}

impl Told for u32 {
    open spec fn ordered(&self) -> bool {
        true
    }

    open spec fn same(&self, other: &Self) -> bool {
        *self == *other
    }

    proof fn told(a: &Self, b: &Self) {
    }
}

impl Told for IrVersion {
    open spec fn ordered(&self) -> bool {
        true
    }

    open spec fn same(&self, other: &Self) -> bool {
        *self == *other
    }

    proof fn told(a: &Self, b: &Self) {
    }
}

impl Told for OnMissingInput {
    open spec fn ordered(&self) -> bool {
        true
    }

    open spec fn same(&self, other: &Self) -> bool {
        *self == *other
    }

    proof fn told(a: &Self, b: &Self) {
    }
}

impl Told for OnTimeout {
    open spec fn ordered(&self) -> bool {
        true
    }

    open spec fn same(&self, other: &Self) -> bool {
        *self == *other
    }

    proof fn told(a: &Self, b: &Self) {
    }
}

impl Told for Protection {
    open spec fn ordered(&self) -> bool {
        true
    }

    open spec fn same(&self, other: &Self) -> bool {
        *self == *other
    }

    proof fn told(a: &Self, b: &Self) {
    }
}

impl Told for ProviderName {
    open spec fn ordered(&self) -> bool {
        true
    }

    open spec fn same(&self, other: &Self) -> bool {
        *self == *other
    }

    proof fn told(a: &Self, b: &Self) {
    }
}

impl<T: Told> Told for Box<T> {
    open spec fn ordered(&self) -> bool {
        (**self).ordered()
    }

    open spec fn same(&self, other: &Self) -> bool {
        (**self).same(&**other)
    }

    proof fn told(a: &Self, b: &Self) {
        T::told(&**a, &**b);
    }
}

impl<T: Told> Told for Vec<T> {
    open spec fn ordered(&self) -> bool {
        all_in_order(self@)
    }

    open spec fn same(&self, other: &Self) -> bool {
        same_list(self@, other@)
    }

    proof fn told(a: &Self, b: &Self) {
        law_lists_are_told(a@, b@);
    }
}

impl<T: Ordinal + Told> Told for OrdinalSet<T> {
    open spec fn ordered(&self) -> bool {
        all_in_order(self@)
    }

    open spec fn same(&self, other: &Self) -> bool {
        same_list(self@, other@)
    }

    proof fn told(a: &Self, b: &Self) {
        law_lists_are_told(a@, b@);
    }
}

impl<V: Told> Told for TextMap<V> {
    open spec fn ordered(&self) -> bool {
        map_in_order(self@)
    }

    open spec fn same(&self, other: &Self) -> bool {
        same_map(self@, other@)
    }

    proof fn told(a: &Self, b: &Self) {
        law_maps_are_told(a@, b@);
    }
}

proof fn lemma_text_arrays(a: Seq<Seq<char>>, b: Seq<Seq<char>>)
    requires
        json::text_array(a) == json::text_array(b),
    ensures
        a == b,
{
    let x = a.map_values(|s: Seq<char>| JsonV::Text(s));
    let y = b.map_values(|s: Seq<char>| JsonV::Text(s));
    assert(x == y);
    assert(x.len() == a.len() && y.len() == b.len());
    assert forall|i: int| 0 <= i < a.len() implies a[i] == b[i] by {
        assert(x[i] == JsonV::Text(a[i]));
        assert(y[i] == JsonV::Text(b[i]));
    }
    assert(a =~= b);
}

impl Told for TextSet {
    open spec fn ordered(&self) -> bool {
        true
    }

    open spec fn same(&self, other: &Self) -> bool {
        self@ == other@
    }

    proof fn told(a: &Self, b: &Self) {
        lemma_text_arrays(a@, b@);
    }
}

impl Told for FeatureSet {
    open spec fn ordered(&self) -> bool {
        true
    }

    open spec fn same(&self, other: &Self) -> bool {
        self@ == other@
    }

    proof fn told(a: &Self, b: &Self) {
        lemma_text_arrays(a@, b@);
    }
}

/// What is absent is left out or written as null, and what is there is written by its own form:
/// an optional value, an empty list, an empty map, a flag that is not set.
pub proof fn law_absent_values_are_left_out<T: Wire>(
    value: Option<T>,
    values: Seq<T>,
    map: Keyed<T>,
    flag: bool,
    i: int,
)
    ensures
        value matches Some(v) ==> wire::wire_some(value) == Some(v.wire_json())
            && wire::wire_or_null(value) == v.wire_json(),
        value is None ==> wire::wire_some(value) is None && wire::wire_or_null(value) is Null,
        wire::wire_nonempty(values) is None <==> values.len() == 0,
        values.len() > 0 ==> wire::wire_nonempty(values) == Some(
            JsonV::Array(wire::wire_items(values)),
        ),
        wire::wire_items(values).len() == values.len(),
        0 <= i < values.len() ==> wire::wire_items(values)[i] == values[i].wire_json(),
        wire::wire_nonempty_map(map) is None <==> map.entries.len() == 0,
        map.entries.len() > 0 ==> wire::wire_nonempty_map(map) == Some(
            JsonV::Object(wire::wire_members(map.entries)),
        ),
        wire::wire_if_true(flag) == (if flag {
            Some(JsonV::Bool(true))
        } else {
            None
        }),
{
}

/// A map is written with one member for each of its entries, the value under its key.
pub proof fn law_maps_are_written_by_key<V: Wire>(map: Keyed<V>, key: Seq<char>)
    requires
        map.sorted(),
    ensures
        wire::wire_members(map.entries).get(key) == (match map.get(key) {
            Some(v) => Some(v.wire_json()),
            None => None,
        }),
{
    let form = |v: V| v.wire_json();
    wire::lemma_wire_members(map);
    if map.entries.len() > 0 {
        keyed::lemma_mapped(map, form, key, map.entries[0].1);
    } else {
        assert(!map.has(key));
    }
}

} // verus!
