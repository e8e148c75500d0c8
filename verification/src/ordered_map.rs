//! A map that keeps its entries in key order.
//!
//! [`OrderedMap`] holds its entries in a vector, sorted by key and without
//! repetition, so that walking it visits the keys in ascending order. What it
//! stands for is a mathematical map from what its keys stand for to what its
//! values stand for.
use vstd::prelude::*;

verus! {

/// A value that can be duplicated without changing what it stands for.
pub trait Replica: View + Sized {
    /// A second value that stands for the same thing.
    fn replica(&self) -> (r: Self)
        ensures
            r@ == self@,
    ;
}

/// How one key stands to another in key order.
#[derive(Clone, Copy, Debug, PartialEq, Eq)]
pub enum KeyOrder {
    Before,
    Same,
    After,
}

/// A key: something with a strict total order on what it stands for.
pub trait MapKey: Replica {
    /// What a lookup is made with, for instance `str` where the keys are
    /// `String`s.
    type Query: ?Sized + View<V = Self::V>;

    /// Whether `a` comes before `b`.
    spec fn before(a: Self::V, b: Self::V) -> bool;

    /// `before` is irreflexive, transitive and total.
    proof fn order_is_strict(a: Self::V, b: Self::V, c: Self::V)
        ensures
            !Self::before(a, a),
            Self::before(a, b) && Self::before(b, c) ==> Self::before(a, c),
            Self::before(a, b) || a == b || Self::before(b, a),
    ;

    /// The key as a lookup for itself.
    fn as_query(&self) -> (q: &Self::Query)
        ensures
            q@ == self@,
    ;

    /// Where the key stands with respect to `q`.
    fn compare(&self, q: &Self::Query) -> (r: KeyOrder)
        ensures
            match r {
                KeyOrder::Before => Self::before(self@, q@),
                KeyOrder::Same => self@ == q@,
                KeyOrder::After => Self::before(q@, self@),
            },
    ;
}

/// Entries in strictly ascending key order.
spec fn ascending<K: MapKey, V: View>(s: Seq<(K, V)>) -> bool {
    forall|i: int, j: int|
        #![trigger s[i], s[j]]
        0 <= i < j < s.len() ==> K::before(s[i].0@, s[j].0@)
}

/// Position `i` of `s` holds the key `k`.
spec fn holds_at<K: MapKey, V: View>(s: Seq<(K, V)>, k: K::V, i: int) -> bool {
    0 <= i < s.len() && s[i].0@ == k
}

/// What the entries stand for.
spec fn as_map<K: MapKey, V: View>(s: Seq<(K, V)>) -> Map<K::V, V::V> {
    Map::new(
        |k: K::V| exists|i: int| holds_at(s, k, i),
        |k: K::V| s[choose|i: int| holds_at(s, k, i)].1@,
    )
}

proof fn lemma_entry<K: MapKey, V: View>(s: Seq<(K, V)>, i: int)
    requires
        ascending(s),
        0 <= i < s.len(),
    ensures
        as_map(s).contains_key(s[i].0@),
        as_map(s)[s[i].0@] == s[i].1@,
{
    let k = s[i].0@;
    assert(holds_at(s, k, i));
    let j = choose|j: int| holds_at(s, k, j);
    assert(holds_at(s, k, j));
    K::order_is_strict(k, k, k);
    if i < j {
        assert(K::before(s[i].0@, s[j].0@));
    } else if j < i {
        assert(K::before(s[j].0@, s[i].0@));
    }
}

/// A map of entries is settled by what it has at each of them.
proof fn lemma_map_is<K: MapKey, V: View>(s: Seq<(K, V)>, m: Map<K::V, V::V>)
    requires
        ascending(s),
        forall|i: int|
            0 <= i < s.len() ==> m.contains_key(#[trigger] s[i].0@) && m[s[i].0@] == s[i].1@,
        forall|k: K::V| #[trigger]
            m.contains_key(k) ==> exists|i: int| holds_at(s, k, i),
    ensures
        as_map(s) == m,
{
    assert forall|k: K::V| #[trigger] as_map(s).contains_key(k) implies m.contains_key(k) && m[k]
        == as_map(s)[k] by {
        let i = choose|i: int| holds_at(s, k, i);
        assert(holds_at(s, k, i));
        lemma_entry(s, i);
        assert(m.contains_key(s[i].0@));
    }
    assert(as_map(s) =~= m);
}

proof fn lemma_insert<K: MapKey, V: View>(s: Seq<(K, V)>, p: int, e: (K, V))
    requires
        ascending(s),
        0 <= p <= s.len(),
        forall|j: int| 0 <= j < p ==> K::before(#[trigger] s[j].0@, e.0@),
        forall|j: int| p <= j < s.len() ==> K::before(e.0@, #[trigger] s[j].0@),
    ensures
        ascending(s.insert(p, e)),
        as_map(s.insert(p, e)) == as_map(s).insert(e.0@, e.1@),
        !as_map(s).contains_key(e.0@),
{
    let t = s.insert(p, e);
    assert forall|i: int, j: int| #![trigger t[i], t[j]] 0 <= i < j < t.len() implies K::before(
        t[i].0@,
        t[j].0@,
    ) by {
        let i0 = if i < p { i } else { i - 1 };
        let j0 = if j < p { j } else { j - 1 };
        if i != p {
            assert(t[i] == s[i0]);
        }
        if j != p {
            assert(t[j] == s[j0]);
        }
    }
    assert(!as_map(s).contains_key(e.0@)) by {
        if as_map(s).contains_key(e.0@) {
            let i = choose|i: int| holds_at(s, e.0@, i);
            assert(holds_at(s, e.0@, i));
            assert(s[i].0@ == e.0@);
            K::order_is_strict(e.0@, e.0@, e.0@);
        }
    }
    let m = as_map(s).insert(e.0@, e.1@);
    assert forall|i: int| 0 <= i < t.len() implies m.contains_key(#[trigger] t[i].0@) && m[t[i].0@]
        == t[i].1@ by {
        if i != p {
            let i0 = if i < p { i } else { i - 1 };
            assert(t[i] == s[i0]);
            lemma_entry(s, i0);
        }
    }
    assert forall|k: K::V| #[trigger] m.contains_key(k) implies exists|i: int| holds_at(t, k, i) by {
        if k == e.0@ {
            assert(holds_at(t, k, p));
        } else {
            let i = choose|i: int| holds_at(s, k, i);
            assert(as_map(s).contains_key(k));
            assert(holds_at(s, k, i));
            let i1 = if i < p { i } else { i + 1 };
            assert(t[i1] == s[i]);
            assert(holds_at(t, k, i1));
        }
    }
    lemma_map_is(t, m);
}

proof fn lemma_remove<K: MapKey, V: View>(s: Seq<(K, V)>, p: int)
    requires
        ascending(s),
        0 <= p < s.len(),
    ensures
        ascending(s.remove(p)),
        as_map(s.remove(p)) == as_map(s).remove(s[p].0@),
{
    let t = s.remove(p);
    let k0 = s[p].0@;
    assert forall|i: int, j: int| #![trigger t[i], t[j]] 0 <= i < j < t.len() implies K::before(
        t[i].0@,
        t[j].0@,
    ) by {
        let i0 = if i < p { i } else { i + 1 };
        let j0 = if j < p { j } else { j + 1 };
        assert(t[i] == s[i0] && t[j] == s[j0]);
    }
    let m = as_map(s).remove(k0);
    K::order_is_strict(k0, k0, k0);
    assert forall|i: int| 0 <= i < t.len() implies m.contains_key(#[trigger] t[i].0@) && m[t[i].0@]
        == t[i].1@ by {
        let i0 = if i < p { i } else { i + 1 };
        assert(t[i] == s[i0]);
        lemma_entry(s, i0);
        if i0 < p {
            assert(K::before(s[i0].0@, s[p].0@));
        } else {
            assert(K::before(s[p].0@, s[i0].0@));
        }
    }
    assert forall|k: K::V| #[trigger] m.contains_key(k) implies exists|i: int| holds_at(t, k, i) by {
        assert(as_map(s).contains_key(k));
        let i = choose|i: int| holds_at(s, k, i);
        assert(holds_at(s, k, i));
        let i1 = if i < p { i } else { i - 1 };
        assert(t[i1] == s[i]);
        assert(holds_at(t, k, i1));
    }
    lemma_map_is(t, m);
}

/// A map from `K` to `V` whose entries are kept in key order.
#[derive(Debug, PartialEq, Eq)]
pub struct OrderedMap<K: MapKey, V: View> {
    entries: Vec<(K, V)>,
}

impl<K: MapKey, V: View> View for OrderedMap<K, V> {
    type V = Map<K::V, V::V>;

    closed spec fn view(&self) -> Map<K::V, V::V> {
        as_map(self.entries@)
    }
}

impl<K: MapKey, V: View> OrderedMap<K, V> {
    #[verifier::type_invariant]
    spec fn keys_ascend(self) -> bool {
        ascending(self.entries@)
    }

    /// The keys in the order in which the map is walked.
    pub closed spec fn keys(self) -> Seq<K::V> {
        Seq::new(self.entries@.len(), |i: int| self.entries@[i].0@)
    }

    /// The walk visits every key once, in ascending order.
    pub open spec fn keys_in_order(self) -> bool {
        &&& self.keys().no_duplicates()
        &&& self.keys().to_set() == self@.dom()
        &&& self@.dom().finite()
        &&& forall|i: int, j: int|
            #![trigger self.keys()[i], self.keys()[j]]
            0 <= i < j < self.keys().len() ==> K::before(self.keys()[i], self.keys()[j])
    }

    /// A map without entries.
    pub fn new() -> (r: Self)
        ensures
            r@ == Map::<K::V, V::V>::empty(),
    {
        let r = OrderedMap { entries: Vec::new() };
        proof {
            lemma_map_is(r.entries@, Map::<K::V, V::V>::empty());
        }
        r
    }

    /// How many keys the map has.
    pub fn len(&self) -> (r: usize)
        ensures
            r == self@.dom().len(),
            r == self.keys().len(),
            self.keys_in_order(),
    {
        proof {
            use_type_invariant(self);
            self.lemma_keys();
        }
        self.entries.len()
    }

    /// Whether the map has no keys.
    pub fn is_empty(&self) -> (r: bool)
        ensures
            r == (self@ == Map::<K::V, V::V>::empty()),
    {
        proof {
            use_type_invariant(self);
            if self.entries@.len() == 0 {
                lemma_map_is(self.entries@, Map::<K::V, V::V>::empty());
            } else {
                lemma_entry(self.entries@, 0);
            }
        }
        self.entries.len() == 0
    }

    proof fn lemma_keys(&self)
        requires
            self.keys_ascend(),
        ensures
            self.keys_in_order(),
            self@.dom().len() == self.keys().len(),
    {
        let ks = self.keys();
        let s = self.entries@;
        assert forall|i: int, j: int| 0 <= i < ks.len() && 0 <= j < ks.len() && i != j implies ks[i]
            != ks[j] by {
            K::order_is_strict(ks[i], ks[i], ks[i]);
            if i < j {
                assert(K::before(s[i].0@, s[j].0@));
            } else {
                assert(K::before(s[j].0@, s[i].0@));
            }
        }
        assert forall|k: K::V| ks.to_set().contains(k) == self@.dom().contains(k) by {
            if ks.to_set().contains(k) {
                let i = choose|i: int| 0 <= i < ks.len() && ks[i] == k;
                lemma_entry(s, i);
            }
            if self@.dom().contains(k) {
                let i = choose|i: int| holds_at(s, k, i);
                assert(holds_at(s, k, i));
                assert(ks[i] == k);
            }
        }
        assert(ks.to_set() =~= self@.dom());
        ks.unique_seq_to_set();
        vstd::seq_lib::seq_to_set_is_finite(ks);
    }

    /// The first position whose key does not come before `q`, and whether its
    /// key is `q`.
    fn find(&self, q: &K::Query) -> (r: (usize, bool))
        ensures
            r.0 <= self.entries@.len(),
            forall|j: int| 0 <= j < r.0 ==> K::before(#[trigger] self.entries@[j].0@, q@),
            r.1 ==> r.0 < self.entries@.len() && self.entries@[r.0 as int].0@ == q@,
            !r.1 ==> forall|j: int|
                r.0 <= j < self.entries@.len() ==> K::before(q@, #[trigger] self.entries@[j].0@),
            r.1 == self@.contains_key(q@),
    {
        proof {
            use_type_invariant(self);
        }
        let mut i: usize = 0;
        while i < self.entries.len()
            invariant
                i <= self.entries@.len(),
                ascending(self.entries@),
                forall|j: int| 0 <= j < i ==> K::before(#[trigger] self.entries@[j].0@, q@),
            decreases self.entries@.len() - i,
        {
            match self.entries[i].0.compare(q) {
                KeyOrder::Before => {
                    i = i + 1;
                },
                KeyOrder::Same => {
                    proof {
                        lemma_entry(self.entries@, i as int);
                    }
                    return (i, true);
                },
                KeyOrder::After => {
                    assert forall|j: int| i <= j < self.entries@.len() implies K::before(
                        q@,
                        #[trigger] self.entries@[j].0@,
                    ) by {
                        K::order_is_strict(
                            q@,
                            self.entries@[i as int].0@,
                            self.entries@[j].0@,
                        );
                        if i < j {
                            assert(K::before(
                                self.entries@[i as int].0@,
                                self.entries@[j].0@,
                            ));
                        }
                    }
                    proof {
                        self.lemma_absent(q@, i as int);
                    }
                    return (i, false);
                },
            }
        }
        proof {
            self.lemma_absent(q@, i as int);
        }
        (i, false)
    }

    proof fn lemma_absent(&self, k: K::V, p: int)
        requires
            forall|j: int| 0 <= j < p ==> K::before(#[trigger] self.entries@[j].0@, k),
            forall|j: int|
                p <= j < self.entries@.len() ==> K::before(k, #[trigger] self.entries@[j].0@),
        ensures
            !self@.contains_key(k),
    {
        if self@.contains_key(k) {
            let i = choose|i: int| holds_at(self.entries@, k, i);
            assert(holds_at(self.entries@, k, i));
            assert(self.entries@[i].0@ == k);
            K::order_is_strict(k, k, k);
        }
    }

    /// The value at `q`, if there is one.
    pub fn get(&self, q: &K::Query) -> (r: Option<&V>)
        ensures
            match r {
                Some(v) => self@.contains_key(q@) && v@ == self@[q@],
                None => !self@.contains_key(q@),
            },
    {
        proof {
            use_type_invariant(self);
        }
        let (i, found) = self.find(q);
        if found {
            proof {
                lemma_entry(self.entries@, i as int);
            }
            Some(&self.entries[i].1)
        } else {
            None
        }
    }

    /// Whether `q` is one of the keys.
    pub fn contains_key(&self, q: &K::Query) -> (r: bool)
        ensures
            r == self@.contains_key(q@),
    {
        self.find(q).1
    }

    /// Puts `value` at `key`, in place of what was there.
    pub fn insert(&mut self, key: K, value: V)
        ensures
            final(self)@ == old(self)@.insert(key@, value@),
    {
        proof {
            use_type_invariant(&*self);
        }
        let (i, found) = self.find(key.as_query());
        let mut entries: Vec<(K, V)> = Vec::new();
        std::mem::swap(&mut entries, &mut self.entries);
        let ghost before = entries@;
        if found {
            let _ = entries.remove(i);
            proof {
                lemma_remove(before, i as int);
                let t = before.remove(i as int);
                assert forall|j: int| 0 <= j < i implies K::before(#[trigger] t[j].0@, key@) by {
                    assert(t[j] == before[j]);
                    assert(K::before(before[j].0@, before[i as int].0@));
                }
                assert forall|j: int| i <= j < t.len() implies K::before(
                    key@,
                    #[trigger] t[j].0@,
                ) by {
                    assert(t[j] == before[j + 1]);
                    assert(K::before(before[i as int].0@, before[j + 1].0@));
                }
            }
        }
        let ghost between = entries@;
        entries.insert(i, (key, value));
        proof {
            lemma_insert(between, i as int, (key, value));
            assert(as_map(before).remove(key@).insert(key@, value@) =~= as_map(before).insert(
                key@,
                value@,
            ));
        }
        self.entries = entries;
    }

    /// Takes `q` out of the map, and hands back what was there.
    pub fn remove(&mut self, q: &K::Query) -> (r: Option<V>)
        ensures
            final(self)@ == old(self)@.remove(q@),
            match r {
                Some(v) => old(self)@.contains_key(q@) && v@ == old(self)@[q@],
                None => !old(self)@.contains_key(q@),
            },
    {
        proof {
            use_type_invariant(&*self);
        }
        let (i, found) = self.find(q);
        if found {
            let mut entries: Vec<(K, V)> = Vec::new();
            std::mem::swap(&mut entries, &mut self.entries);
            proof {
                lemma_entry(entries@, i as int);
                lemma_remove(entries@, i as int);
            }
            let (_, value) = entries.remove(i);
            self.entries = entries;
            Some(value)
        } else {
            assert(self@.remove(q@) =~= self@);
            None
        }
    }

    /// Takes every key out of the map.
    pub fn clear(&mut self)
        ensures
            final(self)@ == Map::<K::V, V::V>::empty(),
    {
        *self = OrderedMap::new();
    }

    /// The `i`-th entry in key order.
    pub fn entry_at(&self, i: usize) -> (r: (&K, &V))
        requires
            i < self.keys().len(),
        ensures
            r.0@ == self.keys()[i as int],
            self@.contains_key(r.0@),
            r.1@ == self@[r.0@],
    {
        proof {
            use_type_invariant(self);
            lemma_entry(self.entries@, i as int);
        }
        let e = &self.entries[i];
        (&e.0, &e.1)
    }
}

impl<K: MapKey, V: Replica> Replica for OrderedMap<K, V> {
    fn replica(&self) -> (r: Self) {
        proof {
            use_type_invariant(self);
        }
        let mut entries: Vec<(K, V)> = Vec::new();
        let mut i: usize = 0;
        while i < self.entries.len()
            invariant
                i <= self.entries@.len(),
                entries@.len() == i,
                forall|j: int|
                    0 <= j < i ==> (#[trigger] entries@[j]).0@ == self.entries@[j].0@
                        && entries@[j].1@ == self.entries@[j].1@,
            decreases self.entries@.len() - i,
        {
            let e = &self.entries[i];
            entries.push((e.0.replica(), e.1.replica()));
            i = i + 1;
        }
        proof {
            let s = self.entries@;
            let t = entries@;
            assert forall|i: int, j: int|
                #![trigger t[i], t[j]]
                0 <= i < j < t.len() implies K::before(t[i].0@, t[j].0@) by {
                assert(K::before(s[i].0@, s[j].0@));
            }
            assert forall|i: int| 0 <= i < t.len() implies as_map(s).contains_key(
                #[trigger] t[i].0@,
            ) && as_map(s)[t[i].0@] == t[i].1@ by {
                lemma_entry(s, i);
            }
            assert forall|k: K::V| #[trigger] as_map(s).contains_key(k) implies exists|i: int|
                holds_at(t, k, i) by {
                let i = choose|i: int| holds_at(s, k, i);
                assert(holds_at(s, k, i));
                assert(holds_at(t, k, i));
            }
            lemma_map_is(t, as_map(s));
        }
        OrderedMap { entries }
    }
}

impl<K: MapKey, V: Replica> Clone for OrderedMap<K, V> {
    fn clone(&self) -> (r: Self)
        ensures
            r@ == self@,
    {
        self.replica()
    }
}

impl<K: MapKey, V: View> Default for OrderedMap<K, V> {
    fn default() -> (r: Self)
        ensures
            r@ == Map::<K::V, V::V>::empty(),
    {
        OrderedMap::new()
    }
}

/// The part of `m` whose values have at least one key.
pub open spec fn without_empty<A, B, C>(m: Map<A, Map<B, C>>) -> Map<A, Map<B, C>> {
    Map::new(|k: A| m.contains_key(k) && m[k] != Map::<B, C>::empty(), |k: A| m[k])
}

impl<K: MapKey, J: MapKey, V: View> OrderedMap<K, OrderedMap<J, V>> {
    /// Takes out every key whose value has no keys itself.
    pub fn drop_empty(&mut self)
        ensures
            final(self)@ == without_empty(old(self)@),
    {
        proof {
            use_type_invariant(&*self);
        }
        let mut entries: Vec<(K, OrderedMap<J, V>)> = Vec::new();
        std::mem::swap(&mut entries, &mut self.entries);
        let ghost all = as_map(entries@);
        let mut i: usize = 0;
        while i < entries.len()
            invariant
                i <= entries@.len(),
                ascending(entries@),
                forall|j: int|
                    0 <= j < i ==> #[trigger] entries@[j].1@ != Map::<J::V, V::V>::empty(),
                forall|k: K::V| #[trigger]
                    as_map(entries@).contains_key(k) ==> all.contains_key(k)
                        && as_map(entries@)[k] == all[k],
                forall|k: K::V| #[trigger]
                    all.contains_key(k) && all[k] != Map::<J::V, V::V>::empty() ==> as_map(
                        entries@,
                    ).contains_key(k),
            decreases entries@.len() - i,
        {
            if entries[i].1.is_empty() {
                proof {
                    lemma_entry(entries@, i as int);
                    lemma_remove(entries@, i as int);
                }
                let ghost s = entries@;
                let _ = entries.remove(i);
                assert forall|j: int| 0 <= j < i implies #[trigger] entries@[j].1@ != Map::<
                    J::V,
                    V::V,
                >::empty() by {
                    assert(entries@[j] == s[j]);
                }
            } else {
                i = i + 1;
            }
        }
        proof {
            let m = as_map(entries@);
            assert forall|k: K::V| #[trigger] m.contains_key(k) implies m[k] != Map::<
                J::V,
                V::V,
            >::empty() by {
                let i = choose|i: int| holds_at(entries@, k, i);
                assert(holds_at(entries@, k, i));
                lemma_entry(entries@, i);
            }
            assert(m =~= without_empty(all));
        }
        self.entries = entries;
    }
}

/// Taking out what is empty keeps every key that has something, with what it has, and no
/// other key.
pub proof fn law_without_empty<A, B, C>(m: Map<A, Map<B, C>>, k: A, b: B)
    ensures
        m.contains_key(k) && m[k].contains_key(b) ==> without_empty(m).contains_key(k),
        without_empty(m).contains_key(k) ==> m.contains_key(k) && without_empty(m)[k] == m[k],
        without_empty(m).contains_key(k) ==> exists|j: B| #[trigger] m[k].contains_key(j),
{
    if without_empty(m).contains_key(k) && forall|j: B| !(#[trigger] m[k].contains_key(j)) {
        assert(m[k] =~= Map::<B, C>::empty());
    }
}

/// A walk in order visits every key of the map and nothing else, each key once, and each
/// before those that are greater.
pub proof fn law_walk_in_order<K: MapKey, V: View>(map: OrderedMap<K, V>, i: int, j: int, k: K::V)
    requires
        map.keys_in_order(),
    ensures
        0 <= i < j < map.keys().len() ==> K::before(map.keys()[i], map.keys()[j]),
        0 <= i < j < map.keys().len() ==> map.keys()[i] != map.keys()[j],
        0 <= i < map.keys().len() ==> map@.contains_key(map.keys()[i]),
        map@.contains_key(k) ==> exists|n: int|
            0 <= n < map.keys().len() && #[trigger] map.keys()[n] == k,
{
    if 0 <= i < map.keys().len() {
        assert(map.keys().to_set().contains(map.keys()[i]));
    }
    if map@.contains_key(k) {
        assert(map.keys().to_set().contains(k));
    }
}

} // verus!
