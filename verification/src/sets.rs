//! Sets that keep their members in one fixed order, so that the same members
//! always give the same list.

use vstd::prelude::*;

use crate::json::{Json, JsonV};
use crate::keyed::{Keyed, TextMap};
use crate::wire::Wire;

verus! {

/// A type whose values are ordered by a number of their own.
pub trait Ordinal: Sized + Copy {
    /// The value's number.
    spec fn place(self) -> nat;

    /// The value's number.
    fn ordinal(self) -> (r: u32)
        ensures
            r == self.place(),
    ;

    /// Values with the same number are the same.
    proof fn place_decides(a: Self, b: Self)
        requires
            a.place() == b.place(),
        ensures
            a == b,
    ;
}

/// Whether the numbers of the values ascend strictly.
pub open spec fn ascending<T: Ordinal>(items: Seq<T>) -> bool {
    forall|i: int, j: int|
        0 <= i < j < items.len() ==> (#[trigger] items[i]).place() < (#[trigger] items[j]).place()
}

/// A set of values in ascending order of their numbers.
#[derive(Debug, PartialEq, Eq)]
pub struct OrdinalSet<T: Ordinal> {
    items: Vec<T>,
}

impl<T: Ordinal> OrdinalSet<T> {
    /// The members, in order.
    pub closed spec fn view(&self) -> Seq<T> {
        self.items@
    }

    #[verifier::type_invariant]
    spec fn in_order(self) -> bool {
        ascending(self.items@)
    }

    /// The empty set.
    pub fn new() -> (r: Self)
        ensures
            r@ == Seq::<T>::empty(),
    {
        OrdinalSet { items: Vec::new() }
    }

    /// The members, in order.
    pub fn members(&self) -> (r: &Vec<T>)
        ensures
            r@ == self@,
            ascending(r@),
    {
        proof {
            use_type_invariant(self);
        }
        &self.items
    }

    /// Whether `item` is a member.
    pub fn contains(&self, item: T) -> (r: bool)
        ensures
            r == self@.contains(item),
    {
        let mut i: usize = 0;
        while i < self.items.len()
            invariant
                i <= self.items@.len(),
                forall|j: int| 0 <= j < i ==> self.items@[j] != item,
            decreases self.items@.len() - i,
        {
            if self.items[i].ordinal() == item.ordinal() {
                proof {
                    T::place_decides(self.items@[i as int], item);
                }
                return true;
            }
            i = i + 1;
        }
        false
    }

    /// This set and `item`.
    pub fn with(self, item: T) -> (r: Self)
        ensures
            ascending(r@),
            forall|x: T| #[trigger] r@.contains(x) <==> self@.contains(x) || x == item,
    {
        proof {
            use_type_invariant(&self);
        }
        let ghost before = self.items@;
        let mut items = self.items;
        let mut at: usize = 0;
        while at < items.len() && items[at].ordinal() < item.ordinal()
            invariant
                items@ == before,
                at <= items@.len(),
                forall|j: int| 0 <= j < at ==> (#[trigger] items@[j]).place() < item.place(),
            decreases items@.len() - at,
        {
            at = at + 1;
        }
        if at < items.len() && items[at].ordinal() == item.ordinal() {
            proof {
                T::place_decides(items@[at as int], item);
            }
            return OrdinalSet { items };
        }
        items.insert(at, item);
        proof {
            let after = items@;
            assert forall|i: int, j: int| 0 <= i < j < after.len() implies (#[trigger] after[i]).place()
                < (#[trigger] after[j]).place() by {
                if j > at {
                    assert(after[j] == before[j - 1]);
                    if at < before.len() {
                        assert(item.place() < before[at as int].place());
                    }
                }
                if i > at {
                    assert(after[i] == before[i - 1]);
                }
            }
            assert forall|x: T| #[trigger] after.contains(x) <==> before.contains(x) || x == item by {
                if before.contains(x) {
                    let k = choose|k: int| 0 <= k < before.len() && before[k] == x;
                    if k < at {
                        assert(after[k] == x);
                    } else {
                        assert(after[k + 1] == x);
                    }
                }
                if x == item {
                    assert(after[at as int] == x);
                }
                if after.contains(x) {
                    let k = choose|k: int| 0 <= k < after.len() && after[k] == x;
                    if k < at {
                        assert(before[k] == x);
                    } else if k > at {
                        assert(before[k - 1] == x);
                    }
                }
            }
        }
        OrdinalSet { items }
    }
}

impl<T: Ordinal> Clone for OrdinalSet<T> {
    fn clone(&self) -> (r: Self)
        ensures
            r@ == self@,
    {
        proof {
            use_type_invariant(self);
        }
        let mut items: Vec<T> = Vec::new();
        let mut i: usize = 0;
        while i < self.items.len()
            invariant
                i <= self.items@.len(),
                items@ == self.items@.take(i as int),
            decreases self.items@.len() - i,
        {
            items.push(self.items[i]);
            assert(self.items@.take(i + 1) =~= self.items@.take(i as int).push(self.items@[i as int]));
            i = i + 1;
        }
        assert(self.items@.take(i as int) =~= self.items@);
        OrdinalSet { items }
    }
}

impl<T: Ordinal + Wire> Wire for OrdinalSet<T> {
    open spec fn wire_json(&self) -> JsonV {
        JsonV::Array(crate::wire::wire_items(self@))
    }

    fn to_json(&self) -> (r: Json) {
        self.items.to_json()
    }
}

/// Two ascending lists with the same members are the same list.
pub proof fn law_members_decide_the_list<T: Ordinal>(a: Seq<T>, b: Seq<T>)
    requires
        ascending(a),
        ascending(b),
        forall|x: T| a.contains(x) <==> b.contains(x),
    ensures
        a == b,
    decreases a.len(),
{
    if a.len() == 0 {
        if b.len() > 0 {
            assert(b.contains(b[0]));
        }
        assert(a =~= b);
    } else {
        assert(a.contains(a.last()));
        let k = choose|k: int| 0 <= k < b.len() && b[k] == a.last();
        assert(b.contains(b.last()));
        let m = choose|m: int| 0 <= m < a.len() && a[m] == b.last();
        assert(k == b.len() - 1 && m == a.len() - 1) by {
            if k < b.len() - 1 {
                assert(b[k].place() < b.last().place());
            }
            if m < a.len() - 1 {
                assert(a[m].place() < a.last().place());
            }
        }
        let c = a.drop_last();
        let d = b.drop_last();
        assert forall|x: T| c.contains(x) <==> d.contains(x) by {
            if c.contains(x) {
                let i = choose|i: int| 0 <= i < c.len() && c[i] == x;
                assert(a[i] == x && a.contains(x));
                assert(a[i].place() < a.last().place());
                let j = choose|j: int| 0 <= j < b.len() && b[j] == x;
                assert(d[j] == x);
            }
            if d.contains(x) {
                let i = choose|i: int| 0 <= i < d.len() && d[i] == x;
                assert(b[i] == x && b.contains(x));
                assert(b[i].place() < b.last().place());
                let j = choose|j: int| 0 <= j < a.len() && a[j] == x;
                assert(c[j] == x);
            }
        }
        law_members_decide_the_list(c, d);
        assert(a =~= c.push(a.last()));
        assert(b =~= d.push(b.last()));
    }
}

/// The keys of a map, in ascending order.
pub open spec fn keys_of(m: Keyed<()>) -> Seq<Seq<char>> {
    m.entries.map_values(|e: (Seq<char>, ())| e.0)
}

/// A set of texts in ascending order.
#[derive(Debug, PartialEq, Eq)]
pub struct TextSet {
    map: TextMap<()>,
}

impl TextSet {
    /// The set, as a map with empty values.
    pub closed spec fn as_map(&self) -> Keyed<()> {
        self.map@
    }

    /// The members, in ascending order.
    pub open spec fn view(&self) -> Seq<Seq<char>> {
        keys_of(self.as_map())
    }

    /// The empty set.
    pub fn new() -> (r: Self)
        ensures
            r@ == Seq::<Seq<char>>::empty(),
            r.as_map() == Keyed::<()>::none(),
    {
        let r = TextSet { map: TextMap::new() };
        assert(r@ =~= Seq::<Seq<char>>::empty());
        r
    }

    /// The set of the given texts.
    pub fn of(items: &Vec<String>) -> (r: Self)
        ensures
            r.as_map() == set_of(crate::text::texts(items@)),
    {
        let mut r = TextSet::new();
        let mut i: usize = 0;
        let ghost all = crate::text::texts(items@);
        assert(all.take(0) =~= Seq::<Seq<char>>::empty());
        while i < items.len()
            invariant
                i <= items@.len(),
                all == crate::text::texts(items@),
                r.as_map() == set_of(all.take(i as int)),
            decreases items@.len() - i,
        {
            r.insert(items[i].as_str());
            assert(all.take(i + 1).drop_last() =~= all.take(i as int));
            i = i + 1;
        }
        assert(all.take(i as int) =~= all);
        r
    }

    /// Adds a member.
    pub fn insert(&mut self, item: &str)
        ensures
            final(self).as_map() == old(self).as_map().with(item@, ()),
    {
        self.map.insert(item, ());
    }

    /// Whether `item` is a member.
    pub fn contains(&self, item: &str) -> (r: bool)
        ensures
            r == self.as_map().has(item@),
    {
        self.map.get(item).is_some()
    }

    /// The number of members.
    pub fn len(&self) -> (n: usize)
        ensures
            n == self@.len(),
    {
        self.map.len()
    }

    /// The member at position `i`.
    pub fn at(&self, i: usize) -> (r: &str)
        requires
            i < self@.len(),
        ensures
            r@ == self@[i as int],
    {
        self.map.key_at(i)
    }

    /// The members ascend.
    pub fn in_order(&self)
        ensures
            self.as_map().sorted(),
    {
        self.map.in_order();
    }

    /// The members, in ascending order.
    pub fn to_list(&self) -> (r: Vec<String>)
        ensures
            crate::text::texts(r@) == self@,
    {
        let mut out: Vec<String> = Vec::new();
        let mut i: usize = 0;
        while i < self.len()
            invariant
                i <= self@.len(),
                out@.len() == i,
                forall|j: int| 0 <= j < i ==> #[trigger] out@[j]@ == self@[j],
            decreases self@.len() - i,
        {
            out.push(self.at(i).to_owned());
            i = i + 1;
        }
        assert(crate::text::texts(out@) =~= self@);
        out
    }
}

/// The set of the given texts.
pub open spec fn set_of(items: Seq<Seq<char>>) -> Keyed<()>
    decreases items.len(),
{
    if items.len() == 0 {
        Keyed::none()
    } else {
        set_of(items.drop_last()).with(items.last(), ())
    }
}

/// A set of given texts is in order and holds exactly these texts.
pub proof fn law_set_holds_its_items(items: Seq<Seq<char>>, item: Seq<char>)
    ensures
        set_of(items).sorted(),
        set_of(items).has(item) == items.contains(item),
        set_of(items).get(item) is Some == items.contains(item),
    decreases items.len(),
{
    if items.len() > 0 {
        let before = items.drop_last();
        law_set_holds_its_items(before, item);
        crate::keyed::lemma_with_sorted(set_of(before), items.last(), ());
        crate::keyed::law_set_and_get(set_of(before), items.last(), (), item);
        if before.contains(item) {
            let i = choose|i: int| 0 <= i < before.len() && before[i] == item;
            assert(items[i] == item);
        }
        if items.contains(item) && item != items.last() {
            let i = choose|i: int| 0 <= i < items.len() && items[i] == item;
            assert(before[i] == item);
        }
        if item == items.last() {
            assert(items[items.len() - 1] == item);
        }
    }
}

/// The given texts but for those in a set, in order.
pub open spec fn not_in(items: Seq<Seq<char>>, taken: Keyed<()>) -> Seq<Seq<char>>
    decreases items.len(),
{
    if items.len() == 0 {
        Seq::empty()
    } else if taken.has(items.last()) {
        not_in(items.drop_last(), taken)
    } else {
        not_in(items.drop_last(), taken).push(items.last())
    }
}

/// The given texts but for those in a set, in order.
pub fn left_over(items: &Vec<String>, taken: &TextSet) -> (r: Vec<String>)
    ensures
        crate::text::texts(r@) == not_in(crate::text::texts(items@), taken.as_map()),
{
    let ghost all = crate::text::texts(items@);
    let mut out: Vec<String> = Vec::new();
    let mut i: usize = 0;
    assert(all.take(0) =~= Seq::<Seq<char>>::empty());
    assert(crate::text::texts(out@) =~= Seq::<Seq<char>>::empty());
    while i < items.len()
        invariant
            i <= items@.len(),
            all == crate::text::texts(items@),
            crate::text::texts(out@) == not_in(all.take(i as int), taken.as_map()),
        decreases items@.len() - i,
    {
        assert(all.take(i + 1).drop_last() =~= all.take(i as int));
        let ghost before = out@;
        if !taken.contains(items[i].as_str()) {
            let copy = items[i].clone();
            let ghost added = copy@;
            out.push(copy);
            assert(crate::text::texts(out@) =~= crate::text::texts(before).push(added));
        }
        i = i + 1;
    }
    assert(all.take(i as int) =~= all);
    out
}

/// A text is left over exactly if it was given and is not in the set.
pub proof fn law_left_over_texts(items: Seq<Seq<char>>, taken: Keyed<()>, item: Seq<char>)
    ensures
        not_in(items, taken).contains(item) == (items.contains(item) && !taken.has(item)),
    decreases items.len(),
{
    if items.len() > 0 {
        let before = items.drop_last();
        law_left_over_texts(before, taken, item);
        if before.contains(item) {
            let i = choose|i: int| 0 <= i < before.len() && before[i] == item;
            assert(items[i] == item);
        }
        if items.contains(item) && item != items.last() {
            let i = choose|i: int| 0 <= i < items.len() && items[i] == item;
            assert(before[i] == item);
        }
        assert(items[items.len() - 1] == items.last());
        let kept = not_in(before, taken);
        if !taken.has(items.last()) {
            let n = kept.push(items.last());
            assert(n[n.len() - 1] == items.last());
            if kept.contains(item) {
                let i = choose|i: int| 0 <= i < kept.len() && kept[i] == item;
                assert(n[i] == item);
            }
            if n.contains(item) && item != items.last() {
                let i = choose|i: int| 0 <= i < n.len() && n[i] == item;
                assert(kept[i] == item);
            }
        }
    }
}

impl Clone for TextSet {
    fn clone(&self) -> (r: Self)
        ensures
            r.as_map() == self.as_map(),
            r@ == self@,
    {
        self.map.in_order();
        let ghost m = self.map@;
        let mut r = TextSet::new();
        let mut i: usize = 0;
        while i < self.map.len()
            invariant
                m == self.map@,
                m.sorted(),
                i <= m.entries.len(),
                r.as_map().entries == m.entries.take(i as int),
            decreases m.entries.len() - i,
        {
            let ghost before = r.as_map();
            let ghost key = m.entries[i as int].0;
            proof {
                assert forall|j: int| 0 <= j < before.entries.len() implies crate::order::text_less(
                    (#[trigger] before.entries[j]).0,
                    key,
                ) by {
                    assert(before.entries[j] == m.entries[j]);
                }
                crate::keyed::lemma_slot(before, key, before.entries.len() as int);
                assert(before.with(key, ()).entries =~= before.entries.push((key, ())));
                assert(m.entries[i as int].1 == ());
                assert(m.entries[i as int] == (key, ()));
            }
            r.insert(self.map.key_at(i));
            assert(r.as_map().entries =~= m.entries.take(i + 1));
            i = i + 1;
        }
        assert(m.entries.take(i as int) =~= m.entries);
        r
    }
}

impl Wire for TextSet {
    open spec fn wire_json(&self) -> JsonV {
        crate::json::text_array(self@)
    }

    fn to_json(&self) -> (r: Json) {
        let r = Json::texts(&self.to_list());
        assert(self.wire_json() == crate::json::text_array(self@));
        r
    }
}

} // verus!
