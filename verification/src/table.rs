//! A finite map kept as a list of entries.
use vstd::prelude::*;
use vstd::set_lib::lemma_len_subset;

use crate::order::{ascending, insert_ascending, listing_is, listing_of, lists, strict};

verus! {

/// A type whose values can be told apart and put in order.
pub trait Key: Copy {
    /// Whether a key comes before another.
    spec fn before(self, other: Self) -> bool;

    /// Any two keys are in one order.
    proof fn keys_are_ordered(a: Self, b: Self, c: Self)
        ensures
            !a.before(a),
            a.before(b) && b.before(c) ==> a.before(c),
            a == b || a.before(b) || b.before(a),
    ;

    /// Whether two keys are the same.
    fn same(&self, other: &Self) -> (r: bool)
        ensures
            r == (*self == *other),
    ;

    /// Whether a key comes before another.
    fn comes_before(&self, other: &Self) -> (r: bool)
        ensures
            r == self.before(*other),
    ;
}

/// The order of keys.
pub open spec fn key_order<K: Key>() -> spec_fn(K, K) -> bool {
    |a: K, b: K| a.before(b)
}

/// The order of keys is an order.
pub proof fn key_order_is_strict<K: Key>()
    ensures
        strict(key_order::<K>()),
{
    let before = key_order::<K>();
    assert forall|a: K| !#[trigger] before(a, a) by {
        K::keys_are_ordered(a, a, a);
    }
    assert forall|a: K, b: K, c: K| #[trigger] before(a, b) && #[trigger] before(b, c) implies before(
        a,
        c,
    ) by {
        K::keys_are_ordered(a, b, c);
    }
    assert forall|a: K, b: K| a == b || #[trigger] before(a, b) || before(b, a) by {
        K::keys_are_ordered(a, b, a);
    }
}

/// The keys of a map in ascending order.
pub open spec fn keys_of<K: Key, V>(m: Map<K, V>) -> Seq<K> {
    listing_of(key_order::<K>(), m.dom())
}

/// A finite map. The first entry with a key holds the value of that key.
pub struct Table<K: Key, V: Copy> {
    entries: Vec<(K, V)>,
}

impl<K: Key, V: Copy> View for Table<K, V> {
    type V = Map<K, V>;

    closed spec fn view(&self) -> Map<K, V> {
        contents(self.entries@)
    }
}

/// Whether the first entry with the key `k` stands at the position `i`.
spec fn first_at<K, V>(entries: Seq<(K, V)>, k: K, i: int) -> bool {
    &&& 0 <= i < entries.len()
    &&& entries[i].0 == k
    &&& forall|j: int| 0 <= j < i ==> (#[trigger] entries[j]).0 != k
}

/// The map that a list of entries stands for.
spec fn contents<K, V>(entries: Seq<(K, V)>) -> Map<K, V> {
    Map::new(
        |k: K| exists|i: int| first_at(entries, k, i),
        |k: K| entries[choose|i: int| first_at(entries, k, i)].1,
    )
}

/// The first entry with a key holds the value of that key.
proof fn first_holds_value<K, V>(entries: Seq<(K, V)>, k: K, i: int)
    requires
        first_at(entries, k, i),
    ensures
        contents(entries).contains_key(k),
        contents(entries)[k] == entries[i].1,
{
    let p = choose|p: int| first_at(entries, k, p);
    assert(first_at(entries, k, p));
    assert(p == i) by {
        if p < i {
            assert(entries[p].0 != k);
        } else if i < p {
            assert(entries[i].0 != k);
        }
    }
}

/// A new entry at the end counts unless its key is already there.
proof fn contents_push<K, V>(entries: Seq<(K, V)>, k: K, v: V)
    ensures
        contents(entries.push((k, v))) == (if contents(entries).contains_key(k) {
            contents(entries)
        } else {
            contents(entries).insert(k, v)
        }),
{
    let after = entries.push((k, v));
    let n = entries.len() as int;
    assert forall|x: K, i: int| i < n implies #[trigger] first_at(after, x, i) == first_at(entries, x, i) by {
        assert forall|j: int| 0 <= j < n implies after[j] == entries[j] by {}
        if first_at(after, x, i) {
            assert forall|j: int| 0 <= j < i implies (#[trigger] entries[j]).0 != x by {
                assert(after[j].0 != x);
            }
        }
        if first_at(entries, x, i) {
            assert forall|j: int| 0 <= j < i implies (#[trigger] after[j]).0 != x by {
                assert(entries[j].0 != x);
            }
        }
    }
    assert forall|x: K| #[trigger] contents(entries).contains_key(x) implies contents(after).contains_key(x)
        && contents(after)[x] == contents(entries)[x] by {
        let p = choose|p: int| first_at(entries, x, p);
        assert(first_at(entries, x, p));
        assert(first_at(after, x, p));
        first_holds_value(entries, x, p);
        first_holds_value(after, x, p);
    }
    assert forall|x: K| #[trigger] contents(after).contains_key(x) && !contents(entries).contains_key(x) implies x == k
        && contents(after)[x] == v by {
        let p = choose|p: int| first_at(after, x, p);
        assert(first_at(after, x, p));
        if p < n {
            assert(first_at(entries, x, p));
        }
        first_holds_value(after, x, p);
    }
    if !contents(entries).contains_key(k) {
        assert forall|j: int| 0 <= j < n implies (#[trigger] after[j]).0 != k by {
            if entries[j].0 == k {
                some_entry_is_first(entries, k, j);
            }
        }
        assert(first_at(after, k, n));
        first_holds_value(after, k, n);
        assert(contents(after) =~= contents(entries).insert(k, v));
    } else {
        assert(contents(after) =~= contents(entries));
    }
}

/// Where some entry has a key, some entry is the first with that key.
proof fn some_entry_is_first<K, V>(entries: Seq<(K, V)>, k: K, i: int)
    requires
        0 <= i < entries.len(),
        entries[i].0 == k,
    ensures
        exists|p: int| first_at(entries, k, p),
    decreases i,
{
    if !first_at(entries, k, i) {
        let j = choose|j: int| 0 <= j < i && (#[trigger] entries[j]).0 == k;
        some_entry_is_first(entries, k, j);
    }
}

/// Putting a new value into the first entry with a key.
proof fn contents_update<K, V>(entries: Seq<(K, V)>, k: K, v: V, i: int)
    requires
        first_at(entries, k, i),
    ensures
        contents(entries.update(i, (k, v))) == contents(entries).insert(k, v),
{
    let after = entries.update(i, (k, v));
    assert forall|x: K, p: int| #[trigger] first_at(after, x, p) == first_at(entries, x, p) by {
        if first_at(after, x, p) {
            assert forall|j: int| 0 <= j < p implies (#[trigger] entries[j]).0 != x by {
                assert(after[j].0 != x);
            }
        }
        if first_at(entries, x, p) {
            assert forall|j: int| 0 <= j < p implies (#[trigger] after[j]).0 != x by {
                assert(entries[j].0 != x);
            }
        }
    }
    assert(first_at(after, k, i));
    first_holds_value(after, k, i);
    assert forall|x: K| #[trigger] contents(entries).contains_key(x) implies contents(after).contains_key(x) && (x != k
        ==> contents(after)[x] == contents(entries)[x]) by {
        let p = choose|p: int| first_at(entries, x, p);
        assert(first_at(entries, x, p));
        assert(first_at(after, x, p));
        first_holds_value(entries, x, p);
        first_holds_value(after, x, p);
    }
    assert forall|x: K| #[trigger] contents(after).contains_key(x) implies contents(entries).contains_key(x) by {
        let p = choose|p: int| first_at(after, x, p);
        assert(first_at(after, x, p));
        assert(first_at(entries, x, p));
    }
    assert(contents(after) =~= contents(entries).insert(k, v));
}

impl<K: Key, V: Copy> Table<K, V> {
    /// The empty table.
    pub fn new() -> (r: Table<K, V>)
        ensures
            r@ == Map::<K, V>::empty(),
    {
        let r = Table { entries: Vec::new() };
        assert(contents(r.entries@) =~= Map::<K, V>::empty());
        r
    }

    /// The position of the first entry with the key `k`, or the number of
    /// entries where there is none.
    fn find(&self, k: K) -> (i: usize)
        ensures
            i <= self.entries@.len(),
            i < self.entries@.len() ==> first_at(self.entries@, k, i as int),
            i == self.entries@.len() ==> !self@.contains_key(k),
    {
        let mut i: usize = 0;
        while i < self.entries.len()
            invariant
                i <= self.entries@.len(),
                forall|j: int| 0 <= j < i ==> (#[trigger] self.entries@[j]).0 != k,
            decreases self.entries@.len() - i,
        {
            if self.entries[i].0.same(&k) {
                return i;
            }
            i = i + 1;
        }
        i
    }

    /// The value at the key `k`, if there is one.
    pub fn get(&self, k: K) -> (r: Option<V>)
        ensures
            r == (if self@.contains_key(k) {
                Some(self@[k])
            } else {
                None
            }),
    {
        let i: usize = self.find(k);
        if i < self.entries.len() {
            proof {
                first_holds_value(self.entries@, k, i as int);
            }
            Some(self.entries[i].1)
        } else {
            None
        }
    }

    /// Whether there is a value at the key `k`.
    pub fn has(&self, k: K) -> (r: bool)
        ensures
            r == self@.contains_key(k),
    {
        self.get(k).is_some()
    }

    /// Puts `v` at the key `k`, in place of what was there.
    pub fn set(&mut self, k: K, v: V)
        ensures
            final(self)@ == old(self)@.insert(k, v),
    {
        let i: usize = self.find(k);
        if i < self.entries.len() {
            proof {
                contents_update(self.entries@, k, v, i as int);
            }
            self.entries.set(i, (k, v));
        } else {
            proof {
                contents_push(self.entries@, k, v);
            }
            self.entries.push((k, v));
        }
    }

    /// Takes away the value at the key `k`, if there is one.
    pub fn remove(&mut self, k: K)
        ensures
            final(self)@ == old(self)@.remove(k),
    {
        let mut kept: Vec<(K, V)> = Vec::new();
        let mut i: usize = 0;
        assert(contents(kept@) =~= Map::<K, V>::empty());
        assert(contents(self.entries@.subrange(0, 0)) =~= Map::<K, V>::empty());
        while i < self.entries.len()
            invariant
                i <= self.entries@.len(),
                contents(kept@) == contents(self.entries@.subrange(0, i as int)).remove(k),
            decreases self.entries@.len() - i,
        {
            let entry: (K, V) = self.entries[i];
            proof {
                let seen = self.entries@.subrange(0, i as int);
                assert(self.entries@.subrange(0, i + 1) =~= seen.push(entry));
                contents_push(seen, entry.0, entry.1);
                contents_push(kept@, entry.0, entry.1);
            }
            if !entry.0.same(&k) {
                kept.push(entry);
            }
            i = i + 1;
            assert(contents(kept@) =~= contents(self.entries@.subrange(0, i as int)).remove(k));
        }
        assert(self.entries@.subrange(0, i as int) =~= self.entries@);
        self.entries = kept;
    }

    /// The keys in ascending order.
    pub fn keys(&self) -> (keys: Vec<K>)
        ensures
            keys@ == keys_of(self@),
            lists(key_order::<K>(), self@.dom(), keys@),
    {
        let ghost order = key_order::<K>();
        proof {
            key_order_is_strict::<K>();
        }
        let mut keys: Vec<K> = Vec::new();
        let mut i: usize = 0;
        while i < self.entries.len()
            invariant
                i <= self.entries@.len(),
                order == key_order::<K>(),
                strict(order),
                ascending(order, keys@),
                forall|k: K| #[trigger]
                    keys@.contains(k) <==> exists|j: int|
                        0 <= j < i && (#[trigger] self.entries@[j]).0 == k,
            decreases self.entries@.len() - i,
        {
            let k: K = self.entries[i].0;
            let ghost earlier = keys@;
            let mut p: usize = 0;
            while p < keys.len() && keys[p].comes_before(&k)
                invariant
                    p <= keys@.len(),
                    order == key_order::<K>(),
                    forall|j: int| 0 <= j < p ==> order(#[trigger] keys@[j], k),
                decreases keys@.len() - p,
            {
                p = p + 1;
            }
            if p == keys.len() || !keys[p].same(&k) {
                proof {
                    assert forall|j: int| p <= j < keys@.len() implies order(
                        k,
                        #[trigger] keys@[j],
                    ) by {
                        assert(!order(keys@[p as int], k));
                        assert(order(k, keys@[p as int]));
                        if j > p {
                            assert(order(keys@[p as int], keys@[j]));
                        }
                    }
                    insert_ascending(order, keys@, p as int, k);
                }
                keys.insert(p, k);
            } else {
                assert(earlier[p as int] == k);
            }
            assert forall|x: K| #[trigger] keys@.contains(x) <==> exists|j: int|
                0 <= j < i + 1 && (#[trigger] self.entries@[j]).0 == x by {
                assert(keys@.contains(x) <==> x == k || earlier.contains(x));
                if earlier.contains(x) {
                    let j = choose|j: int| 0 <= j < i && (#[trigger] self.entries@[j]).0 == x;
                    assert(self.entries@[j].0 == x);
                }
                assert(self.entries@[i as int].0 == k);
            }
            i = i + 1;
        }
        proof {
            assert forall|k: K| #[trigger] keys@.contains(k) <==> self@.dom().contains(k) by {
                if keys@.contains(k) {
                    let j = choose|j: int|
                        0 <= j < self.entries@.len() && (#[trigger] self.entries@[j]).0 == k;
                    some_entry_is_first(self.entries@, k, j);
                }
                if self@.dom().contains(k) {
                    let j = choose|j: int| first_at(self.entries@, k, j);
                    assert(first_at(self.entries@, k, j));
                    assert(self.entries@[j].0 == k);
                }
            }
            listing_is(order, self@.dom(), keys@);
        }
        keys
    }

    /// A table has no more keys than a list can have entries.
    pub proof fn is_bounded(&self)
        ensures
            self@.dom().finite(),
            self@.dom().len() <= usize::MAX,
    {
        let keys = self.entries@.map_values(|e: (K, V)| e.0);
        assert forall|k: K| #[trigger] self@.dom().contains(k) implies keys.to_set().contains(k) by {
            let i = choose|i: int| first_at(self.entries@, k, i);
            assert(first_at(self.entries@, k, i));
            assert(keys[i] == k);
        }
        keys.lemma_cardinality_of_set();
        lemma_len_subset(self@.dom(), keys.to_set());
        assert(self.entries@.len() == self.entries.len());
    }
}

} // verus!
