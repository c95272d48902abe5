//! A map with text keys, kept and walked in the order of the keys.
use vstd::prelude::*;

use crate::text::chars_of;

verus! {

/// Whether `a` stands before `b` in the order of texts: at the first position where they
/// differ `a` has the smaller character, or `a` ends there.
pub open spec fn text_before(a: Seq<char>, b: Seq<char>) -> bool
    decreases a.len(),
{
    if b.len() == 0 {
        false
    } else if a.len() == 0 {
        true
    } else if a[0] == b[0] {
        text_before(a.skip(1), b.skip(1))
    } else {
        a[0] < b[0]
    }
}

/// No text stands before itself, and of two different texts exactly one stands before the other.
pub proof fn text_order_is_total(a: Seq<char>, b: Seq<char>)
    ensures
        text_before(a, b) ==> a != b && !text_before(b, a),
        a == b || text_before(a, b) || text_before(b, a),
    decreases a.len(),
{
    if a.len() > 0 && b.len() > 0 && a[0] == b[0] {
        text_order_is_total(a.skip(1), b.skip(1));
        assert(a =~= seq![a[0]] + a.skip(1));
        assert(b =~= seq![b[0]] + b.skip(1));
    } else if a.len() == 0 && b.len() == 0 {
        assert(a =~= b);
    }
}

/// A text that stands before one that stands before a third stands before the third.
pub proof fn text_order_is_transitive(a: Seq<char>, b: Seq<char>, c: Seq<char>)
    requires
        text_before(a, b),
        text_before(b, c),
    ensures
        text_before(a, c),
    decreases a.len(),
{
    if a.len() > 0 && a[0] == b[0] && b[0] == c[0] {
        text_order_is_transitive(a.skip(1), b.skip(1), c.skip(1));
    }
}

/// Where one text stands against another.
enum Side {
    Before,
    Same,
    After,
}

fn side(a: &str, b: &str) -> (side: Side)
    ensures
        side is Before <==> text_before(a@, b@),
        side is Same <==> a@ == b@,
        side is After <==> text_before(b@, a@),
{
    let x = chars_of(a);
    let y = chars_of(b);
    let mut k: usize = 0;
    proof {
        text_order_is_total(a@, b@);
        assert(a@.skip(0) =~= a@);
        assert(b@.skip(0) =~= b@);
    }
    while k < x.len() && k < y.len() && x[k] == y[k]
        invariant
            x@ == a@,
            y@ == b@,
            k <= x@.len(),
            k <= y@.len(),
            a@.take(k as int) =~= b@.take(k as int),
            text_before(a@, b@) == text_before(a@.skip(k as int), b@.skip(k as int)),
            text_before(b@, a@) == text_before(b@.skip(k as int), a@.skip(k as int)),
        decreases x@.len() - k,
    {
        assert(a@.skip(k as int).skip(1) =~= a@.skip(k + 1));
        assert(b@.skip(k as int).skip(1) =~= b@.skip(k + 1));
        assert(a@.take(k + 1) =~= a@.take(k as int).push(a@[k as int]));
        assert(b@.take(k + 1) =~= b@.take(k as int).push(b@[k as int]));
        k += 1;
    }
    if k == x.len() {
        if k == y.len() {
            assert(a@.take(k as int) =~= a@);
            assert(b@.take(k as int) =~= b@);
            Side::Same
        } else {
            Side::Before
        }
    } else if k == y.len() {
        Side::After
    } else if x[k] < y[k] {
        Side::Before
    } else {
        Side::After
    }
}

/// Whether the keys of a listing ascend strictly, so that none occurs twice.
pub open spec fn ascending<V>(listing: Seq<(Seq<char>, V)>) -> bool {
    forall|i: int, j: int|
        0 <= i < j < listing.len() ==> text_before(#[trigger] listing[i].0, #[trigger] listing[j].0)
}

/// The map that a listing of entries stands for.
pub open spec fn as_map<V>(listing: Seq<(Seq<char>, V)>) -> Map<Seq<char>, V>
    decreases listing.len(),
{
    if listing.len() == 0 {
        Map::empty()
    } else {
        as_map(listing.drop_last()).insert(listing.last().0, listing.last().1)
    }
}

/// The map of an ascending listing has the listing's keys and no others, each with the value
/// that stands beside it, and as many keys as the listing has entries.
pub proof fn map_holds_listing<V>(listing: Seq<(Seq<char>, V)>)
    requires
        ascending(listing),
    ensures
        forall|i: int|
            0 <= i < listing.len() ==> {
                &&& as_map(listing).contains_key(#[trigger] listing[i].0)
                &&& as_map(listing)[listing[i].0] == listing[i].1
            },
        forall|k: Seq<char>| #[trigger]
            as_map(listing).contains_key(k) ==> exists|i: int|
                0 <= i < listing.len() && #[trigger] listing[i].0 == k,
        as_map(listing).dom().finite(),
        as_map(listing).len() == listing.len(),
    decreases listing.len(),
{
    if listing.len() > 0 {
        let front = listing.drop_last();
        let last = listing.last();
        assert(ascending(front)) by {
            assert forall|i: int, j: int| 0 <= i < j < front.len() implies text_before(
                #[trigger] front[i].0,
                #[trigger] front[j].0,
            ) by {
                assert(front[i] == listing[i] && front[j] == listing[j]);
            }
        }
        map_holds_listing(front);
        assert forall|i: int| 0 <= i < front.len() implies #[trigger] listing[i].0 != last.0 by {
            assert(text_before(listing[i].0, listing[listing.len() - 1].0));
            text_order_is_total(listing[i].0, last.0);
        }
        assert forall|i: int| 0 <= i < listing.len() implies {
            &&& as_map(listing).contains_key(#[trigger] listing[i].0)
            &&& as_map(listing)[listing[i].0] == listing[i].1
        } by {
            if i < front.len() {
                assert(front[i] == listing[i]);
            }
        }
        assert forall|k: Seq<char>| #[trigger] as_map(listing).contains_key(k) implies exists|
            i: int,
        |
            0 <= i < listing.len() && #[trigger] listing[i].0 == k by {
            if as_map(front).contains_key(k) {
                let i = choose|i: int| 0 <= i < front.len() && #[trigger] front[i].0 == k;
                assert(listing[i].0 == k);
            } else {
                assert(listing[listing.len() - 1].0 == k);
            }
        }
        assert(!as_map(front).contains_key(last.0)) by {
            if as_map(front).contains_key(last.0) {
                let i = choose|i: int| 0 <= i < front.len() && #[trigger] front[i].0 == last.0;
                assert(listing[i] == front[i]);
            }
        }
    }
}

/// A listing in which `key` stands at position `at` with `value`, in place of the entry there
/// or, where `over` is false, before it.
spec fn put<V>(
    listing: Seq<(Seq<char>, V)>,
    at: int,
    over: bool,
    key: Seq<char>,
    value: V,
) -> Seq<(Seq<char>, V)> {
    if over {
        listing.update(at, (key, value))
    } else {
        listing.insert(at, (key, value))
    }
}

proof fn put_in_listing<V>(
    was: Seq<(Seq<char>, V)>,
    at: int,
    over: bool,
    key: Seq<char>,
    value: V,
)
    requires
        ascending(was),
        0 <= at <= was.len(),
        over ==> at < was.len() && was[at].0 == key,
        forall|i: int| 0 <= i < at ==> text_before(#[trigger] was[i].0, key),
        !over ==> forall|i: int| at <= i < was.len() ==> text_before(key, #[trigger] was[i].0),
    ensures
        ascending(put(was, at, over, key, value)),
        as_map(put(was, at, over, key, value)) == as_map(was).insert(key, value),
        as_map(was).contains_key(key) == over,
        over ==> as_map(was)[key] == was[at].1,
{
    let now = put(was, at, over, key, value);
    let shift = |i: int| if !over && i > at { i - 1 } else { i };
    assert(forall|i: int| 0 <= i < now.len() && i != at ==> #[trigger] now[i] == was[shift(i)]);
    assert(now[at] == (key, value));
    assert(ascending(now)) by {
        assert forall|i: int, j: int| 0 <= i < j < now.len() implies text_before(
            #[trigger] now[i].0,
            #[trigger] now[j].0,
        ) by {
            if i != at {
                assert(now[i] == was[shift(i)]);
            }
            if j != at {
                assert(now[j] == was[shift(j)]);
            }
        }
    }
    map_holds_listing(was);
    map_holds_listing(now);
    if !over && as_map(was).contains_key(key) {
        let i = choose|i: int| 0 <= i < was.len() && #[trigger] was[i].0 == key;
        text_order_is_total(key, key);
    }
    let target = as_map(was).insert(key, value);
    assert forall|k: Seq<char>| #[trigger] as_map(now).contains_key(k) implies target.contains_key(k)
        && target[k] == as_map(now)[k] by {
        let i = choose|i: int| 0 <= i < now.len() && #[trigger] now[i].0 == k;
        if i != at {
            assert(now[i] == was[shift(i)]);
            if i < at {
                assert(text_before(now[i].0, now[at].0));
            } else {
                assert(text_before(now[at].0, now[i].0));
            }
            text_order_is_total(k, key);
            text_order_is_total(key, k);
        }
    }
    assert forall|k: Seq<char>| #[trigger] target.contains_key(k) implies as_map(now).contains_key(
        k,
    ) by {
        if k == key {
            assert(now[at].0 == k);
        } else {
            let i = choose|i: int| 0 <= i < was.len() && #[trigger] was[i].0 == k;
            let j = if !over && i >= at { i + 1 } else { i };
            assert(now[j] == was[shift(j)]);
            assert(now[j].0 == k);
        }
    }
    assert(as_map(now) =~= target);
}

/// A map from texts to values that lists its entries in the order of their keys.
#[derive(Debug, PartialEq)]
pub struct StrMap<V> {
    entries: Vec<(String, V)>,
}

impl<V> StrMap<V> {
    /// The entries in the order of their keys.
    pub closed spec fn listing(&self) -> Seq<(Seq<char>, V)> {
        self.entries@.map_values(|e: (String, V)| (e.0@, e.1))
    }

    /// The keys ascend strictly.
    #[verifier::type_invariant]
    pub open spec fn wf(self) -> bool {
        ascending(self.listing())
    }
}

impl<V> View for StrMap<V> {
    type V = Map<Seq<char>, V>;

    open spec fn view(&self) -> Map<Seq<char>, V> {
        as_map(self.listing())
    }
}

impl<V: Clone> Clone for StrMap<V> {
    /// The same keys, each with a clone of its value.
    fn clone(&self) -> (copy: Self)
        ensures
            copy.listing().len() == self.listing().len(),
            forall|i: int|
                0 <= i < self.listing().len() ==> {
                    &&& (#[trigger] copy.listing()[i]).0 == self.listing()[i].0
                    &&& cloned(self.listing()[i].1, copy.listing()[i].1)
                },
            copy.wf(),
    {
        let mut entries: Vec<(String, V)> = Vec::new();
        let mut k: usize = 0;
        while k < self.entries.len()
            invariant
                k <= self.entries@.len(),
                entries@.len() == k,
                forall|i: int|
                    0 <= i < k ==> {
                        &&& (#[trigger] entries@[i]).0@ == self.entries@[i].0@
                        &&& cloned(self.entries@[i].1, entries@[i].1)
                    },
            decreases self.entries@.len() - k,
        {
            entries.push((self.entries[k].0.clone(), self.entries[k].1.clone()));
            k += 1;
        }
        proof {
            use_type_invariant(self);
            let now = entries@.map_values(|e: (String, V)| (e.0@, e.1));
            assert forall|i: int, j: int| 0 <= i < j < now.len() implies text_before(
                #[trigger] now[i].0,
                #[trigger] now[j].0,
            ) by {
                assert(self.listing()[i].0 == now[i].0 && self.listing()[j].0 == now[j].0);
            }
        }
        StrMap { entries }
    }
}

impl<V> StrMap<V> {
    /// The empty map.
    pub fn new() -> (map: Self)
        ensures
            map@ == Map::<Seq<char>, V>::empty(),
            map.listing().len() == 0,
            map.wf(),
    {
        StrMap { entries: Vec::new() }
    }

    /// The number of entries.
    pub fn len(&self) -> (n: usize)
        ensures
            n == self@.len(),
            n == self.listing().len(),
            self.wf(),
    {
        proof {
            use_type_invariant(self);
            map_holds_listing(self.listing());
        }
        self.entries.len()
    }

    /// Whether there is no entry.
    pub fn is_empty(&self) -> (empty: bool)
        ensures
            empty == (self@ == Map::<Seq<char>, V>::empty()),
            empty == (self.listing().len() == 0),
            self.wf(),
    {
        proof {
            use_type_invariant(self);
            map_holds_listing(self.listing());
        }
        self.entries.len() == 0
    }

    /// The position of `key` in the listing, or, where it does not occur, the position at which
    /// it would stand.
    fn find(&self, key: &str) -> (place: (usize, bool))
        ensures
            place.0 <= self.listing().len(),
            place.1 ==> place.0 < self.listing().len() && self.listing()[place.0 as int].0 == key@,
            forall|i: int|
                0 <= i < place.0 ==> text_before(#[trigger] self.listing()[i].0, key@),
            !place.1 ==> forall|i: int|
                place.0 <= i < self.listing().len() ==> text_before(
                    key@,
                    #[trigger] self.listing()[i].0,
                ),
    {
        proof {
            use_type_invariant(self);
        }
        let mut low: usize = 0;
        let mut high: usize = self.entries.len();
        let ghost all = self.listing();
        while low < high
            invariant
                all == self.listing(),
                ascending(all),
                low <= high <= self.entries@.len(),
                forall|i: int| 0 <= i < low ==> text_before(#[trigger] all[i].0, key@),
                forall|i: int| high <= i < all.len() ==> text_before(key@, #[trigger] all[i].0),
            decreases high - low,
        {
            let mid: usize = low + (high - low) / 2;
            assert(all[mid as int].0 == self.entries@[mid as int].0@);
            match side(self.entries[mid].0.as_str(), key) {
                Side::Same => {
                    return (mid, true);
                },
                Side::Before => {
                    assert forall|i: int| 0 <= i < mid + 1 implies text_before(
                        #[trigger] all[i].0,
                        key@,
                    ) by {
                        if i < mid {
                            text_order_is_transitive(all[i].0, all[mid as int].0, key@);
                        }
                    }
                    low = mid + 1;
                },
                Side::After => {
                    assert forall|i: int| mid <= i < all.len() implies text_before(
                        key@,
                        #[trigger] all[i].0,
                    ) by {
                        if i > mid {
                            text_order_is_transitive(key@, all[mid as int].0, all[i].0);
                        }
                    }
                    high = mid;
                },
            }
        }
        (low, false)
    }

    /// The value of `key`, if it has one.
    pub fn get(&self, key: &str) -> (value: Option<&V>)
        ensures
            value is Some <==> self@.contains_key(key@),
            value matches Some(v) ==> *v == self@[key@],
    {
        let (at, found) = self.find(key);
        proof {
            use_type_invariant(self);
            map_holds_listing(self.listing());
        }
        if found {
            assert(self.listing()[at as int].1 == self.entries@[at as int].1);
            Some(&self.entries[at].1)
        } else {
            proof {
                if self@.contains_key(key@) {
                    let i = choose|i: int|
                        0 <= i < self.listing().len() && #[trigger] self.listing()[i].0 == key@;
                    text_order_is_total(key@, key@);
                }
            }
            None
        }
    }

    /// The entry at position `at` of the listing.
    pub fn entry(&self, at: usize) -> (entry: (&String, &V))
        requires
            at < self.listing().len(),
        ensures
            entry.0@ == self.listing()[at as int].0,
            *entry.1 == self.listing()[at as int].1,
            self@.contains_key(entry.0@),
            self@[entry.0@] == *entry.1,
    {
        proof {
            use_type_invariant(self);
            map_holds_listing(self.listing());
        }
        (&self.entries[at].0, &self.entries[at].1)
    }

    /// Gives `key` the value `value`; what it had before is returned.
    pub fn insert(&mut self, key: String, value: V) -> (before: Option<V>)
        ensures
            final(self)@ == old(self)@.insert(key@, value),
            final(self)@.contains_key(key@) && final(self)@[key@] == value,
            forall|k: Seq<char>|
                k != key@ ==> {
                    &&& #[trigger] final(self)@.contains_key(k) == old(self)@.contains_key(k)
                    &&& old(self)@.contains_key(k) ==> final(self)@[k] == old(self)@[k]
                },
            final(self).wf(),
            before is Some <==> old(self)@.contains_key(key@),
            before matches Some(v) ==> v == old(self)@[key@],
    {
        let (at, found) = self.find(key.as_str());
        let ghost was = self.listing();
        proof {
            use_type_invariant(&*self);
            map_holds_listing(was);
        }
        let ghost name = key@;
        let mut entries: Vec<(String, V)> = Vec::new();
        std::mem::swap(&mut entries, &mut self.entries);
        let before = if found {
            let (_, v) = entries.remove(at);
            Some(v)
        } else {
            None
        };
        entries.insert(at, (key, value));
        let ghost now = entries@.map_values(|e: (String, V)| (e.0@, e.1));
        proof {
            put_in_listing(was, at as int, found, name, value);
            assert(now =~= put(was, at as int, found, name, value));
        }
        self.entries = entries;
        before
    }
}

} // verus!
