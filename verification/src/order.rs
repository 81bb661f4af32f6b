//! Listing the members of a finite set in ascending order.
use vstd::prelude::*;

verus! {

/// Whether a relation puts any two things in one order.
pub open spec fn strict<K>(before: spec_fn(K, K) -> bool) -> bool {
    &&& forall|a: K| !#[trigger] before(a, a)
    &&& forall|a: K, b: K, c: K| #[trigger]
        before(a, b) && #[trigger] before(b, c) ==> before(a, c)
    &&& forall|a: K, b: K| a == b || #[trigger] before(a, b) || before(b, a)
}

/// Whether a list is ascending.
pub open spec fn ascending<K>(before: spec_fn(K, K) -> bool, list: Seq<K>) -> bool {
    forall|i: int, j: int|
        0 <= i < j < list.len() ==> #[trigger] before(list[i], list[j])
}

/// Whether a list holds exactly the members of a set, in ascending order.
pub open spec fn lists<K>(before: spec_fn(K, K) -> bool, members: Set<K>, list: Seq<K>) -> bool {
    &&& ascending(before, list)
    &&& forall|k: K| #[trigger] list.contains(k) <==> members.contains(k)
}

/// The members of a set in ascending order.
pub open spec fn listing_of<K>(before: spec_fn(K, K) -> bool, members: Set<K>) -> Seq<K> {
    choose|list: Seq<K>| lists(before, members, list)
}

/// Ascending lists with the same members are the same list.
proof fn same_members_same_list<K>(before: spec_fn(K, K) -> bool, a: Seq<K>, b: Seq<K>)
    requires
        strict(before),
        ascending(before, a),
        ascending(before, b),
        forall|k: K| #[trigger] a.contains(k) <==> b.contains(k),
    ensures
        a == b,
    decreases a.len() + b.len(),
{
    if a.len() == 0 {
        if b.len() > 0 {
            assert(b.contains(b[0]));
            assert(a.contains(b[0]));
        }
        assert(a =~= b);
    } else {
        assert(a.contains(a.last()));
        assert(b.contains(a.last()));
        assert(b.len() > 0);
        assert(b.contains(b.last()));
        assert(a.contains(b.last()));
        let i = choose|i: int| 0 <= i < b.len() && b[i] == a.last();
        let j = choose|j: int| 0 <= j < a.len() && a[j] == b.last();
        assert(a.last() == b.last()) by {
            if i < b.len() - 1 {
                assert(before(b[i], b[b.len() - 1]));
                if j < a.len() - 1 {
                    assert(before(a[j], a[a.len() - 1]));
                }
            }
        }
        let a0 = a.drop_last();
        let b0 = b.drop_last();
        assert forall|k: K| #[trigger] a0.contains(k) <==> b0.contains(k) by {
            if a0.contains(k) {
                let p = choose|p: int| 0 <= p < a0.len() && a0[p] == k;
                assert(a[p] == k);
                assert(a.contains(k));
                assert(b.contains(k));
                let q = choose|q: int| 0 <= q < b.len() && b[q] == k;
                assert(before(a[p], a[a.len() - 1]));
                assert(q < b.len() - 1);
                assert(b0[q] == k);
            }
            if b0.contains(k) {
                let p = choose|p: int| 0 <= p < b0.len() && b0[p] == k;
                assert(b[p] == k);
                assert(b.contains(k));
                assert(a.contains(k));
                let q = choose|q: int| 0 <= q < a.len() && a[q] == k;
                assert(before(b[p], b[b.len() - 1]));
                assert(q < a.len() - 1);
                assert(a0[q] == k);
            }
        }
        assert forall|x: int, y: int| 0 <= x < y < a0.len() implies #[trigger] before(
            a0[x],
            a0[y],
        ) by {
            assert(before(a[x], a[y]));
        }
        assert forall|x: int, y: int| 0 <= x < y < b0.len() implies #[trigger] before(
            b0[x],
            b0[y],
        ) by {
            assert(before(b[x], b[y]));
        }
        same_members_same_list(before, a0, b0);
        assert(a =~= a0.push(a.last()));
        assert(b =~= b0.push(b.last()));
    }
}

/// There is only one ascending list of the members of a set.
pub proof fn listing_is<K>(before: spec_fn(K, K) -> bool, members: Set<K>, list: Seq<K>)
    requires
        strict(before),
        lists(before, members, list),
    ensures
        listing_of(before, members) == list,
        lists(before, members, listing_of(before, members)),
{
    let other = listing_of(before, members);
    assert(lists(before, members, other));
    assert forall|k: K| #[trigger] list.contains(k) <==> other.contains(k) by {}
    same_members_same_list(before, list, other);
}

/// Putting something in its place into an ascending list.
pub proof fn insert_ascending<K>(before: spec_fn(K, K) -> bool, list: Seq<K>, p: int, k: K)
    requires
        strict(before),
        ascending(before, list),
        0 <= p <= list.len(),
        forall|j: int| 0 <= j < p ==> before(#[trigger] list[j], k),
        forall|j: int| p <= j < list.len() ==> before(k, #[trigger] list[j]),
    ensures
        ascending(before, list.insert(p, k)),
        forall|x: K| #[trigger] list.insert(p, k).contains(x) <==> x == k || list.contains(x),
{
    let longer = list.insert(p, k);
    assert forall|x: K| #[trigger] longer.contains(x) <==> x == k || list.contains(x) by {
        if longer.contains(x) {
            let i = choose|i: int| 0 <= i < longer.len() && longer[i] == x;
            if i < p {
                assert(list[i] == x);
            } else if i > p {
                assert(list[i - 1] == x);
            }
        }
        if x == k {
            assert(longer[p] == k);
        } else if list.contains(x) {
            let i = choose|i: int| 0 <= i < list.len() && list[i] == x;
            if i < p {
                assert(longer[i] == x);
            } else {
                assert(longer[i + 1] == x);
            }
        }
    }
    assert forall|i: int, j: int| 0 <= i < j < longer.len() implies #[trigger] before(
        longer[i],
        longer[j],
    ) by {
        if j < p {
            assert(before(list[i], list[j]));
        } else if j == p {
            assert(before(list[i], k));
        } else if i < p {
            assert(before(list[i], list[j - 1]));
        } else if i == p {
            assert(before(k, list[j - 1]));
        } else {
            assert(before(list[i - 1], list[j - 1]));
        }
    }
}

/// The place of something in an ascending list that does not hold it.
proof fn insertion_point<K>(before: spec_fn(K, K) -> bool, list: Seq<K>, k: K) -> (p: int)
    requires
        strict(before),
        ascending(before, list),
        !list.contains(k),
    ensures
        0 <= p <= list.len(),
        forall|j: int| 0 <= j < p ==> before(#[trigger] list[j], k),
        forall|j: int| p <= j < list.len() ==> before(k, #[trigger] list[j]),
    decreases list.len(),
{
    if list.len() == 0 {
        0
    } else {
        let rest = list.drop_last();
        let last = list.last();
        assert(list.contains(last));
        if before(last, k) {
            assert forall|j: int| 0 <= j < list.len() implies before(#[trigger] list[j], k) by {
                if j < list.len() - 1 {
                    assert(before(list[j], list[list.len() - 1]));
                }
            }
            list.len() as int
        } else {
            assert(before(k, last));
            assert forall|i: int, j: int| 0 <= i < j < rest.len() implies #[trigger] before(
                rest[i],
                rest[j],
            ) by {
                assert(before(list[i], list[j]));
            }
            assert(!rest.contains(k)) by {
                if rest.contains(k) {
                    let j = choose|j: int| 0 <= j < rest.len() && rest[j] == k;
                    assert(list[j] == k);
                }
            }
            let p = insertion_point(before, rest, k);
            assert forall|j: int| 0 <= j < p implies before(#[trigger] list[j], k) by {
                assert(before(rest[j], k));
            }
            assert forall|j: int| p <= j < list.len() implies before(k, #[trigger] list[j]) by {
                if j < rest.len() {
                    assert(before(k, rest[j]));
                }
            }
            p
        }
    }
}

/// The members of a finite set can be listed in ascending order.
proof fn some_listing<K>(before: spec_fn(K, K) -> bool, members: Set<K>) -> (list: Seq<K>)
    requires
        strict(before),
        members.finite(),
    ensures
        lists(before, members, list),
    decreases members.len(),
{
    if members.len() == 0 {
        assert(members =~= Set::empty());
        Seq::empty()
    } else {
        let a = members.choose();
        let rest = some_listing(before, members.remove(a));
        assert(!rest.contains(a));
        let p = insertion_point(before, rest, a);
        insert_ascending(before, rest, p, a);
        rest.insert(p, a)
    }
}

/// The listing of a finite set lists its members.
pub proof fn listing_lists<K>(before: spec_fn(K, K) -> bool, members: Set<K>)
    requires
        strict(before),
        members.finite(),
    ensures
        lists(before, members, listing_of(before, members)),
{
    let list = some_listing(before, members);
    listing_is(before, members, list);
}

} // verus!
