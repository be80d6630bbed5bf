//! Maps keyed by text, with entries in ascending key order and each key at
//! most once: the model that contracts speak of, its laws, and the executable
//! type for values of any kind.

use vstd::prelude::*;
use vstd::string::*;

use crate::order;
use crate::order::text_before;
use crate::text::same_text;

verus! {

/// A map from text, as contracts see it: entries in ascending key order.
pub struct Keyed<V> {
    /// The keys with their values.
    pub entries: Seq<(Seq<char>, V)>,
}

impl<V> Keyed<V> {
    /// No entries.
    pub open spec fn none() -> Keyed<V> {
        Keyed { entries: Seq::empty() }
    }

    /// Whether the keys ascend strictly.
    pub open spec fn sorted(self) -> bool {
        forall|i: int, j: int|
            0 <= i < j < self.entries.len() ==> order::text_less(
                (#[trigger] self.entries[i]).0,
                (#[trigger] self.entries[j]).0,
            )
    }

    /// The first position at or after `from` whose key is not before `key`.
    pub open spec fn slot_from(self, key: Seq<char>, from: int) -> int
        decreases self.entries.len() - from,
    {
        if from < 0 || from >= self.entries.len() {
            self.entries.len() as int
        } else if order::text_less(self.entries[from].0, key) {
            self.slot_from(key, from + 1)
        } else {
            from
        }
    }

    /// The position where `key` stands or would stand.
    pub open spec fn slot(self, key: Seq<char>) -> int {
        self.slot_from(key, 0)
    }

    /// Whether there is an entry with this key.
    pub open spec fn has(self, key: Seq<char>) -> bool {
        self.slot(key) < self.entries.len() && self.entries[self.slot(key)].0 == key
    }

    /// The value under this key.
    pub open spec fn get(self, key: Seq<char>) -> Option<V> {
        if self.has(key) {
            Some(self.entries[self.slot(key)].1)
        } else {
            None
        }
    }

    /// These entries with `key` set to `value`.
    pub open spec fn with(self, key: Seq<char>, value: V) -> Keyed<V> {
        if self.has(key) {
            Keyed { entries: self.entries.update(self.slot(key), (key, value)) }
        } else {
            Keyed { entries: self.entries.insert(self.slot(key), (key, value)) }
        }
    }

    /// These entries, with `key` set where there is a value.
    pub open spec fn with_some(self, key: Seq<char>, value: Option<V>) -> Keyed<V> {
        match value {
            Some(v) => self.with(key, v),
            None => self,
        }
    }

    /// These entries without the one under `key`.
    pub open spec fn without(self, key: Seq<char>) -> Keyed<V> {
        if self.has(key) {
            Keyed { entries: self.entries.remove(self.slot(key)) }
        } else {
            self
        }
    }
}

/// The slot of a key separates the smaller keys from the rest.
pub proof fn lemma_slot<V>(m: Keyed<V>, key: Seq<char>, from: int)
    requires
        0 <= from <= m.entries.len(),
        forall|i: int| 0 <= i < from ==> order::text_less((#[trigger] m.entries[i]).0, key),
    ensures
        from <= m.slot_from(key, from) <= m.entries.len(),
        m.slot_from(key, from) == m.slot(key),
        forall|i: int| 0 <= i < m.slot(key) ==> order::text_less((#[trigger] m.entries[i]).0, key),
        m.slot(key) < m.entries.len() ==> !order::text_less(m.entries[m.slot(key)].0, key),
    decreases m.entries.len() - from,
{
    lemma_slot_shift(m, key, from);
    if from < m.entries.len() && order::text_less(m.entries[from].0, key) {
        lemma_slot(m, key, from + 1);
    }
}

proof fn lemma_slot_shift<V>(m: Keyed<V>, key: Seq<char>, from: int)
    requires
        0 <= from <= m.entries.len(),
        forall|i: int| 0 <= i < from ==> order::text_less((#[trigger] m.entries[i]).0, key),
    ensures
        m.slot_from(key, from) == m.slot(key),
    decreases from,
{
    if from > 0 {
        lemma_slot_shift(m, key, from - 1);
        assert(order::text_less(m.entries[from - 1].0, key));
    }
}

/// Setting an entry keeps the keys ascending.
pub proof fn lemma_with_sorted<V>(m: Keyed<V>, key: Seq<char>, value: V)
    requires
        m.sorted(),
    ensures
        m.with(key, value).sorted(),
{
    lemma_slot(m, key, 0);
    let at = m.slot(key);
    let n = m.with(key, value);
    if m.has(key) {
        assert forall|i: int, j: int| 0 <= i < j < n.entries.len() implies order::text_less(
            (#[trigger] n.entries[i]).0,
            (#[trigger] n.entries[j]).0,
        ) by {
            assert(n.entries[i].0 == m.entries[i].0);
            assert(n.entries[j].0 == m.entries[j].0);
        }
    } else {
        if at < m.entries.len() {
            order::lemma_text_total(m.entries[at].0, key);
        }
        assert forall|i: int, j: int| 0 <= i < j < n.entries.len() implies order::text_less(
            (#[trigger] n.entries[i]).0,
            (#[trigger] n.entries[j]).0,
        ) by {
            if j < at {
            } else if j == at {
                assert(n.entries[i] == m.entries[i]);
            } else if i == at {
                assert(n.entries[j] == m.entries[j - 1]);
                if j - 1 > at {
                    order::lemma_lex_transitive(
                        order::code_points(key),
                        order::code_points(m.entries[at].0),
                        order::code_points(m.entries[j - 1].0),
                    );
                }
            } else if i < at {
                assert(n.entries[i] == m.entries[i]);
                assert(n.entries[j] == m.entries[j - 1]);
            } else {
                assert(n.entries[i] == m.entries[i - 1]);
                assert(n.entries[j] == m.entries[j - 1]);
            }
        }
    }
}

/// A sorted map gives back under a key what was last set there, and
/// setting one key leaves every other key as it was.
pub proof fn law_set_and_get<V>(m: Keyed<V>, key: Seq<char>, value: V, other: Seq<char>)
    requires
        m.sorted(),
    ensures
        m.with(key, value).get(key) == Some(value),
        other != key ==> m.with(key, value).get(other) == m.get(other),
{
    let n = m.with(key, value);
    lemma_with_sorted(m, key, value);
    lemma_slot(m, key, 0);
    let at = m.slot(key);
    assert(n.entries[at] == (key, value));
    lemma_get_at(n, at);
    if other != key {
        if m.has(other) {
            lemma_slot(m, other, 0);
            let o = m.slot(other);
            let o2 = if m.has(key) || o < at {
                o
            } else {
                o + 1
            };
            assert(n.entries[o2] == m.entries[o]);
            lemma_get_at(n, o2);
        } else if n.has(other) {
            lemma_slot(n, other, 0);
            let o = n.slot(other);
            let o2 = if m.has(key) || o < at {
                o
            } else {
                o - 1
            };
            assert(o != at);
            assert(m.entries[o2] == n.entries[o]);
            lemma_get_at(m, o2);
        }
    }
}

/// Removing one key leaves every other key as it was.
pub proof fn law_removed<V>(m: Keyed<V>, key: Seq<char>, other: Seq<char>)
    requires
        m.sorted(),
    ensures
        m.without(key).sorted(),
        m.without(key).get(key) is None,
        other != key ==> m.without(key).get(other) == m.get(other),
{
    let n = m.without(key);
    lemma_slot(m, key, 0);
    let at = m.slot(key);
    lemma_without_sorted(m, key);
    if m.has(key) {
        if n.has(key) {
            lemma_slot(n, key, 0);
            let o = n.slot(key);
            let o2 = if o < at {
                o
            } else {
                o + 1
            };
            assert(m.entries[o2] == n.entries[o]);
            order::lemma_lex_irreflexive(order::code_points(key));
            assert(false);
        }
        if other != key {
            if m.has(other) {
                lemma_slot(m, other, 0);
                let o = m.slot(other);
                let o2 = if o < at {
                    o
                } else {
                    o - 1
                };
                assert(n.entries[o2] == m.entries[o]);
                lemma_get_at(n, o2);
            } else if n.has(other) {
                lemma_slot(n, other, 0);
                let o = n.slot(other);
                let o2 = if o < at {
                    o
                } else {
                    o + 1
                };
                assert(m.entries[o2] == n.entries[o]);
                lemma_get_at(m, o2);
            }
        }
    }
}

/// Removing an entry keeps the keys ascending.
pub proof fn lemma_without_sorted<V>(m: Keyed<V>, key: Seq<char>)
    requires
        m.sorted(),
    ensures
        m.without(key).sorted(),
{
    lemma_slot(m, key, 0);
    let n = m.without(key);
    if m.has(key) {
        let at = m.slot(key);
        assert forall|i: int, j: int| 0 <= i < j < n.entries.len() implies order::text_less(
            (#[trigger] n.entries[i]).0,
            (#[trigger] n.entries[j]).0,
        ) by {
            let i2 = if i < at {
                i
            } else {
                i + 1
            };
            let j2 = if j < at {
                j
            } else {
                j + 1
            };
            assert(n.entries[i] == m.entries[i2]);
            assert(n.entries[j] == m.entries[j2]);
        }
    }
}

/// The entry at a position is the one found under its key.
pub proof fn lemma_get_at<V>(m: Keyed<V>, at: int)
    requires
        m.sorted(),
        0 <= at < m.entries.len(),
    ensures
        m.has(m.entries[at].0),
        m.slot(m.entries[at].0) == at,
        m.get(m.entries[at].0) == Some(m.entries[at].1),
{
    let key = m.entries[at].0;
    lemma_slot(m, key, 0);
    order::lemma_lex_irreflexive(order::code_points(key));
    let s = m.slot(key);
    if s < at {
        assert(order::text_less(m.entries[s].0, m.entries[at].0));
    }
    if s > at {
        assert(order::text_less(m.entries[at].0, key));
    }
}

/// Two sorted maps that give the same values are the same.
pub proof fn lemma_same_entries<V>(a: Keyed<V>, b: Keyed<V>)
    requires
        a.sorted(),
        b.sorted(),
        forall|k: Seq<char>| #[trigger] a.get(k) == b.get(k),
    ensures
        a == b,
{
    assert forall|i: int|
        0 <= i <= a.entries.len() && i <= b.entries.len() implies #[trigger] a.entries.take(i)
        == b.entries.take(i) by {
        lemma_same_prefix(a, b, i);
    }
    lemma_not_longer(a, b);
    assert forall|k: Seq<char>| #[trigger] b.get(k) == a.get(k) by {
        assert(a.get(k) == b.get(k));
    }
    assert forall|i: int|
        0 <= i <= b.entries.len() && i <= a.entries.len() implies #[trigger] b.entries.take(i)
        == a.entries.take(i) by {
        assert(a.entries.take(i) == b.entries.take(i));
    }
    lemma_not_longer(b, a);
    let n = a.entries.len() as int;
    assert(a.entries.take(n) == b.entries.take(n));
    assert(a.entries.take(n) =~= a.entries);
    assert(b.entries.take(n) =~= b.entries);
}

proof fn lemma_not_longer<V>(a: Keyed<V>, b: Keyed<V>)
    requires
        a.sorted(),
        b.sorted(),
        forall|k: Seq<char>| #[trigger] a.get(k) == b.get(k),
        forall|i: int|
            0 <= i <= a.entries.len() && i <= b.entries.len() ==> #[trigger] a.entries.take(i)
                == b.entries.take(i),
    ensures
        b.entries.len() <= a.entries.len(),
{
    if a.entries.len() < b.entries.len() {
        let n = a.entries.len() as int;
        let k = b.entries[n].0;
        lemma_get_at(b, n);
        assert(a.get(k) == b.get(k));
        lemma_slot(a, k, 0);
        let at = a.slot(k);
        assert(a.entries.take(n) == b.entries.take(n));
        assert(a.entries.take(n)[at] == b.entries.take(n)[at]);
        assert(order::text_less(b.entries[at].0, b.entries[n].0));
        order::lemma_lex_irreflexive(order::code_points(k));
    }
}

proof fn lemma_same_prefix<V>(a: Keyed<V>, b: Keyed<V>, i: int)
    requires
        a.sorted(),
        b.sorted(),
        forall|k: Seq<char>| #[trigger] a.get(k) == b.get(k),
        0 <= i <= a.entries.len(),
        i <= b.entries.len(),
    ensures
        a.entries.take(i) == b.entries.take(i),
    decreases i,
{
    if i > 0 {
        lemma_same_prefix(a, b, i - 1);
        let ka = a.entries[i - 1].0;
        let kb = b.entries[i - 1].0;
        lemma_get_at(a, i - 1);
        lemma_get_at(b, i - 1);
        assert(a.get(ka) == b.get(ka));
        assert(a.get(kb) == b.get(kb));
        lemma_slot(b, ka, 0);
        lemma_slot(a, kb, 0);
        let pb = b.slot(ka);
        let pa = a.slot(kb);
        order::lemma_lex_irreflexive(order::code_points(ka));
        order::lemma_lex_irreflexive(order::code_points(kb));
        if pb < i - 1 {
            assert(a.entries.take(i - 1)[pb] == b.entries.take(i - 1)[pb]);
            assert(order::text_less(a.entries[pb].0, a.entries[i - 1].0));
        }
        if pa < i - 1 {
            assert(a.entries.take(i - 1)[pa] == b.entries.take(i - 1)[pa]);
            assert(order::text_less(b.entries[pa].0, b.entries[i - 1].0));
        }
        if pb > i - 1 && pa > i - 1 {
            assert(order::text_less(b.entries[i - 1].0, b.entries[pb].0));
            assert(order::text_less(a.entries[i - 1].0, a.entries[pa].0));
            order::lemma_lex_transitive(order::code_points(ka), order::code_points(kb), order::code_points(ka));
        }
        assert(ka == kb);
        assert(a.entries[i - 1] == b.entries[i - 1]);
        assert(a.entries.take(i) =~= a.entries.take(i - 1).push(a.entries[i - 1]));
        assert(b.entries.take(i) =~= b.entries.take(i - 1).push(b.entries[i - 1]));
    }
}

/// The order in which different keys are set does not matter.
pub proof fn law_order_of_setting<V>(m: Keyed<V>, k1: Seq<char>, v1: V, k2: Seq<char>, v2: V)
    requires
        m.sorted(),
        k1 != k2,
    ensures
        m.with(k1, v1).with(k2, v2) == m.with(k2, v2).with(k1, v1),
{
    let a = m.with(k1, v1).with(k2, v2);
    let b = m.with(k2, v2).with(k1, v1);
    lemma_with_sorted(m, k1, v1);
    lemma_with_sorted(m, k2, v2);
    lemma_with_sorted(m.with(k1, v1), k2, v2);
    lemma_with_sorted(m.with(k2, v2), k1, v1);
    assert forall|k: Seq<char>| #[trigger] a.get(k) == b.get(k) by {
        law_set_and_get(m, k1, v1, k);
        law_set_and_get(m, k2, v2, k);
        law_set_and_get(m.with(k1, v1), k2, v2, k);
        law_set_and_get(m.with(k2, v2), k1, v1, k);
        law_set_and_get(m, k1, v1, k1);
        law_set_and_get(m, k2, v2, k2);
    }
    lemma_same_entries(a, b);
}

/// The map with `f` applied to every value.
pub open spec fn mapped<V, W>(m: Keyed<V>, f: spec_fn(V) -> W) -> Keyed<W> {
    Keyed { entries: m.entries.map_values(|e: (Seq<char>, V)| (e.0, f(e.1))) }
}

proof fn lemma_mapped_slot<V, W>(m: Keyed<V>, f: spec_fn(V) -> W, key: Seq<char>, from: int)
    requires
        0 <= from <= m.entries.len(),
    ensures
        mapped(m, f).slot_from(key, from) == m.slot_from(key, from),
        from <= m.slot_from(key, from) <= m.entries.len(),
    decreases m.entries.len() - from,
{
    if from < m.entries.len() {
        assert(mapped(m, f).entries[from].0 == m.entries[from].0);
        lemma_mapped_slot(m, f, key, from + 1);
    }
}

/// Applying a function to the values goes along with setting and reading.
pub proof fn lemma_mapped<V, W>(m: Keyed<V>, f: spec_fn(V) -> W, key: Seq<char>, value: V)
    ensures
        mapped(m.with(key, value), f) == mapped(m, f).with(key, f(value)),
        mapped(m, f).has(key) == m.has(key),
        m.has(key) ==> mapped(m, f).get(key) == Some(f(m.get(key)->0)),
        !m.has(key) ==> mapped(m, f).get(key) is None,
        m.sorted() == mapped(m, f).sorted(),
{
    lemma_mapped_slot(m, f, key, 0);
    let n = mapped(m, f);
    if m.slot(key) < m.entries.len() {
        assert(n.entries[m.slot(key)].0 == m.entries[m.slot(key)].0);
    }
    assert(mapped(m.with(key, value), f).entries =~= n.with(key, f(value)).entries);
    if m.sorted() {
        assert forall|i: int, j: int| 0 <= i < j < n.entries.len() implies order::text_less(
            (#[trigger] n.entries[i]).0,
            (#[trigger] n.entries[j]).0,
        ) by {
            assert(n.entries[i].0 == m.entries[i].0 && n.entries[j].0 == m.entries[j].0);
        }
    }
    if n.sorted() {
        assert forall|i: int, j: int| 0 <= i < j < m.entries.len() implies order::text_less(
            (#[trigger] m.entries[i]).0,
            (#[trigger] m.entries[j]).0,
        ) by {
            assert(n.entries[i].0 == m.entries[i].0 && n.entries[j].0 == m.entries[j].0);
        }
    }
}

/// A number that tells keys apart: keys with different numbers differ.
pub open spec fn key_code(key: Seq<char>) -> int {
    if key.len() == 0 {
        0
    } else {
        key.len() * 1000000000 + (key[0] as int) * 1000000 + (key[key.len() as int * 3 / 4] as int) * 1000
            + (key.last() as int)
    }
}

/// What a map holds after one entry was set.
pub broadcast proof fn lemma_get_after_with<V>(m: Keyed<V>, key: Seq<char>, value: V, other: Seq<char>)
    requires
        m.sorted(),
    ensures
        #[trigger] m.with(key, value).get(other) == (if other == key {
            Some(value)
        } else {
            m.get(other)
        }),
{
    law_set_and_get(m, key, value, other);
}

/// What a map holds after one entry may have been set.
pub broadcast proof fn lemma_get_after_with_some<V>(
    m: Keyed<V>,
    key: Seq<char>,
    value: Option<V>,
    other: Seq<char>,
)
    requires
        m.sorted(),
    ensures
        #[trigger] m.with_some(key, value).get(other) == (if other == key && value is Some {
            value
        } else {
            m.get(other)
        }),
{
    if value is Some {
        law_set_and_get(m, key, value->0, other);
    }
}

/// Setting an entry keeps the keys ascending.
pub broadcast proof fn lemma_sorted_after_with<V>(m: Keyed<V>, key: Seq<char>, value: V)
    requires
        m.sorted(),
    ensures
        #[trigger] m.with(key, value).sorted(),
{
    lemma_with_sorted(m, key, value);
}

/// Setting an entry where there is a value keeps the keys ascending.
pub broadcast proof fn lemma_sorted_after_with_some<V>(m: Keyed<V>, key: Seq<char>, value: Option<V>)
    requires
        m.sorted(),
    ensures
        #[trigger] m.with_some(key, value).sorted(),
{
    if value is Some {
        lemma_with_sorted(m, key, value->0);
    }
}

/// A map from text.
#[derive(Debug, PartialEq, Eq)]
pub struct TextMap<V> {
    entries: Vec<(String, V)>,
}

impl<V> TextMap<V> {
    /// The map, as contracts see it.
    pub closed spec fn view(&self) -> Keyed<V> {
        Keyed { entries: self.entries@.map_values(|e: (String, V)| (e.0@, e.1)) }
    }

    #[verifier::type_invariant]
    spec fn ascending(self) -> bool {
        self.view().sorted()
    }

    /// An empty map.
    pub fn new() -> (r: Self)
        ensures
            r@ == Keyed::<V>::none(),
    {
        let r = TextMap { entries: Vec::new() };
        assert(r@.entries =~= Keyed::<V>::none().entries);
        r
    }

    /// The keys ascend.
    pub fn in_order(&self)
        ensures
            self@.sorted(),
    {
        proof {
            use_type_invariant(self);
        }
    }

    /// The number of entries.
    pub fn len(&self) -> (n: usize)
        ensures
            n == self@.entries.len(),
    {
        self.entries.len()
    }

    /// The key at position `i`.
    pub fn key_at(&self, i: usize) -> (r: &str)
        requires
            i < self@.entries.len(),
        ensures
            r@ == self@.entries[i as int].0,
    {
        self.entries[i].0.as_str()
    }

    /// The value at position `i`.
    pub fn value_at(&self, i: usize) -> (r: &V)
        requires
            i < self@.entries.len(),
        ensures
            *r == self@.entries[i as int].1,
    {
        &self.entries[i].1
    }

    /// The position where `key` stands or would stand.
    fn slot(&self, key: &str) -> (r: usize)
        ensures
            r == self@.slot(key@),
            0 <= r <= self@.entries.len(),
    {
        let mut i: usize = 0;
        while i < self.entries.len() && text_before(self.entries[i].0.as_str(), key)
            invariant
                i <= self.entries@.len(),
                self@.entries.len() == self.entries@.len(),
                self@.slot(key@) == self@.slot_from(key@, i as int),
            decreases self.entries@.len() - i,
        {
            assert(self@.entries[i as int].0 == self.entries@[i as int].0@);
            i = i + 1;
        }
        proof {
            if i < self.entries@.len() {
                assert(self@.entries[i as int].0 == self.entries@[i as int].0@);
            }
        }
        i
    }

    /// The value under `key`.
    pub fn get(&self, key: &str) -> (r: Option<&V>)
        ensures
            r is Some <==> self@.get(key@) is Some,
            r matches Some(v) ==> Some(*v) == self@.get(key@),
    {
        let at = self.slot(key);
        if at < self.entries.len() && same_text(self.entries[at].0.as_str(), key) {
            Some(&self.entries[at].1)
        } else {
            None
        }
    }

    /// This map with `key` set to `value`.
    pub fn with(self, key: &str, value: V) -> (r: Self)
        ensures
            r@ == self@.with(key@, value),
    {
        proof {
            use_type_invariant(&self);
            lemma_with_sorted(self@, key@, value);
        }
        let ghost before = self@;
        let at = self.slot(key);
        let present = at < self.entries.len() && same_text(self.entries[at].0.as_str(), key);
        let mut entries = self.entries;
        if present {
            entries.set(at, (key.to_owned(), value));
        } else {
            entries.insert(at, (key.to_owned(), value));
        }
        assert(TextMap { entries }@.entries =~= before.with(key@, value).entries);
        TextMap { entries }
    }

    /// Sets `key` to `value`.
    pub fn insert(&mut self, key: &str, value: V)
        ensures
            final(self)@ == old(self)@.with(key@, value),
    {
        let mut taken = TextMap::new();
        std::mem::swap(&mut taken, self);
        *self = taken.with(key, value);
    }
}

} // verus!
