use vstd::prelude::*;

verus! {

/// Whether a key has to stand strictly before another: the greater first
/// when `descending`, the smaller first otherwise.
pub open spec fn key_before(descending: bool, a: u64, b: u64) -> bool {
    if descending {
        a > b
    } else {
        a < b
    }
}

/// Where a new key goes into positions that are already in order: behind
/// every position whose key does not have to stand after it.
pub open spec fn insertion_point(keys: Seq<u64>, order: Seq<int>, key: u64, descending: bool) -> int
    decreases order.len(),
{
    if order.len() == 0 {
        0
    } else if key_before(descending, key, keys[order.last()]) {
        insertion_point(keys, order.drop_last(), key, descending)
    } else {
        order.len() as int
    }
}

/// The positions of the first `n` keys, arranged by key; positions of equal
/// keys keep their order.
pub open spec fn order_of_first(keys: Seq<u64>, n: nat, descending: bool) -> Seq<int>
    decreases n,
{
    if n == 0 {
        Seq::empty()
    } else {
        let rest = order_of_first(keys, (n - 1) as nat, descending);
        rest.insert(insertion_point(keys, rest, keys[n - 1], descending), n - 1)
    }
}

/// The positions of all keys, arranged by key; positions of equal keys keep
/// their order.
pub open spec fn stable_order(keys: Seq<u64>, descending: bool) -> Seq<int> {
    order_of_first(keys, keys.len(), descending)
}

/// Position `a` stands before position `b`: by its key, or between equal
/// keys by coming first.
pub open spec fn stands_before(keys: Seq<u64>, descending: bool, a: int, b: int) -> bool {
    key_before(descending, keys[a], keys[b]) || (keys[a] == keys[b] && a < b)
}

/// `order` arranges the positions below `n` so that each stands before all
/// that follow it.
pub open spec fn arranges(keys: Seq<u64>, n: nat, descending: bool, order: Seq<int>) -> bool {
    &&& order.len() == n
    &&& forall|i: int| 0 <= i < order.len() ==> 0 <= #[trigger] order[i] < n
    &&& forall|i: int, j: int|
        0 <= i < j < order.len() ==> stands_before(keys, descending, order[i], order[j])
}

/// Whether every value occurs at most once.
pub open spec fn distinct(order: Seq<int>) -> bool {
    forall|i: int, j: int| 0 <= i < j < order.len() ==> order[i] != order[j]
}

/// Whether the position `k` occurs.
pub open spec fn occurs(order: Seq<int>, k: int) -> bool {
    exists|i: int| 0 <= i < order.len() && #[trigger] order[i] == k
}

/// Whether every position below `n` occurs.
pub open spec fn covers(order: Seq<int>, n: nat) -> bool {
    forall|k: int| 0 <= k < n ==> #[trigger] occurs(order, k)
}

/// The items at the given positions.
pub open spec fn arrange<T>(items: Seq<T>, order: Seq<int>) -> Seq<T> {
    Seq::new(order.len(), |i: int| items[order[i]])
}

/// The positions held in a vector.
pub open spec fn positions(order: Seq<usize>) -> Seq<int> {
    Seq::new(order.len(), |i: int| order[i] as int)
}

proof fn lemma_insertion_point(keys: Seq<u64>, order: Seq<int>, key: u64, descending: bool)
    ensures
        0 <= insertion_point(keys, order, key, descending) <= order.len(),
        forall|i: int|
            insertion_point(keys, order, key, descending) <= i < order.len() ==> key_before(
                descending,
                key,
                keys[#[trigger] order[i]],
            ),
        insertion_point(keys, order, key, descending) > 0 ==> !key_before(
            descending,
            key,
            keys[order[insertion_point(keys, order, key, descending) - 1]],
        ),
    decreases order.len(),
{
    if order.len() > 0 && key_before(descending, key, keys[order.last()]) {
        let shorter = order.drop_last();
        lemma_insertion_point(keys, shorter, key, descending);
        let p = insertion_point(keys, shorter, key, descending);
        assert forall|i: int| p <= i < order.len() implies key_before(
            descending,
            key,
            keys[#[trigger] order[i]],
        ) by {
            if i < shorter.len() {
                assert(shorter[i] == order[i]);
            }
        }
        if p > 0 {
            assert(shorter[p - 1] == order[p - 1]);
        }
    }
}

/// The arrangement by key is what its name says: it holds each of the first
/// `n` positions, each stands before all that follow it, and none occurs
/// twice.
pub proof fn lemma_order_of_first(keys: Seq<u64>, n: nat, descending: bool)
    requires
        n <= keys.len(),
    ensures
        arranges(keys, n, descending, order_of_first(keys, n, descending)),
        distinct(order_of_first(keys, n, descending)),
        covers(order_of_first(keys, n, descending), n),
    decreases n,
{
    if n > 0 {
        let rest = order_of_first(keys, (n - 1) as nat, descending);
        lemma_order_of_first(keys, (n - 1) as nat, descending);
        let key = keys[n - 1];
        let p = insertion_point(keys, rest, key, descending);
        lemma_insertion_point(keys, rest, key, descending);
        let order = rest.insert(p, n - 1);
        assert(order == order_of_first(keys, n, descending));
        assert forall|i: int| 0 <= i < order.len() implies 0 <= #[trigger] order[i] < n by {
            if i < p {
                assert(order[i] == rest[i]);
            } else if i > p {
                assert(order[i] == rest[i - 1]);
            }
        }
        assert forall|i: int| 0 <= i < p implies !key_before(
            descending,
            key,
            keys[#[trigger] rest[i]],
        ) by {
            if i < p - 1 {
                assert(stands_before(keys, descending, rest[i], rest[p - 1]));
            }
        }
        assert forall|i: int, j: int| 0 <= i < j < order.len() implies stands_before(
            keys,
            descending,
            order[i],
            order[j],
        ) by {
            if j < p {
                assert(order[i] == rest[i] && order[j] == rest[j]);
            } else if j == p {
                assert(order[i] == rest[i]);
                assert(0 <= rest[i] < n - 1);
            } else if i == p {
                assert(order[j] == rest[j - 1]);
            } else if i < p {
                assert(order[i] == rest[i] && order[j] == rest[j - 1]);
            } else {
                assert(order[i] == rest[i - 1] && order[j] == rest[j - 1]);
            }
        }
        assert forall|i: int, j: int| 0 <= i < j < order.len() implies order[i] != order[j] by {
            assert(stands_before(keys, descending, order[i], order[j]));
        }
        assert forall|k: int| 0 <= k < n implies #[trigger] occurs(order, k) by {
            if k == n - 1 {
                assert(order[p] == k);
            } else {
                assert(occurs(rest, k));
                let i = choose|i: int| 0 <= i < rest.len() && #[trigger] rest[i] == k;
                if i < p {
                    assert(order[i] == k);
                } else {
                    assert(order[i + 1] == k);
                }
            }
        }
    }
}

/// Arranging all keys gives every position exactly once, in an order in which
/// each stands before all that follow it.
pub proof fn lemma_stable_order(keys: Seq<u64>, descending: bool)
    ensures
        arranges(keys, keys.len(), descending, stable_order(keys, descending)),
        distinct(stable_order(keys, descending)),
        covers(stable_order(keys, descending), keys.len()),
{
    lemma_order_of_first(keys, keys.len(), descending);
}

proof fn lemma_arrangements_agree(
    keys: Seq<u64>,
    n: nat,
    descending: bool,
    a: Seq<int>,
    b: Seq<int>,
    upto: int,
)
    requires
        n <= keys.len(),
        arranges(keys, n, descending, a),
        covers(a, n),
        arranges(keys, n, descending, b),
        covers(b, n),
        0 <= upto <= n,
    ensures
        forall|i: int| 0 <= i < upto ==> a[i] == b[i],
    decreases upto,
{
    if upto > 0 {
        lemma_arrangements_agree(keys, n, descending, a, b, upto - 1);
        let i = upto - 1;
        if a[i] != b[i] {
            assert(0 <= a[i] < n);
            assert(0 <= b[i] < n);
            assert(occurs(b, a[i]));
            let j = choose|j: int| 0 <= j < b.len() && #[trigger] b[j] == a[i];
            if j < i {
                assert(stands_before(keys, descending, a[j], a[i]));
            } else {
                assert(stands_before(keys, descending, b[i], b[j]));
            }
            assert(occurs(a, b[i]));
            let k = choose|k: int| 0 <= k < a.len() && #[trigger] a[k] == b[i];
            if k < i {
                assert(stands_before(keys, descending, b[k], b[i]));
            } else {
                assert(stands_before(keys, descending, a[i], a[k]));
            }
        }
    }
}

/// There is one way only to arrange the positions: whatever holds each of
/// the first `n` positions in an order in which each stands before all that
/// follow it is the arrangement by key.
pub proof fn lemma_arrangement_unique(keys: Seq<u64>, n: nat, descending: bool, order: Seq<int>)
    requires
        n <= keys.len(),
        arranges(keys, n, descending, order),
        covers(order, n),
    ensures
        order == order_of_first(keys, n, descending),
{
    let sorted = order_of_first(keys, n, descending);
    lemma_order_of_first(keys, n, descending);
    lemma_arrangements_agree(keys, n, descending, order, sorted, n as int);
    assert(order =~= sorted);
}

/// Keys that already stand in order are left where they are.
pub proof fn lemma_order_of_arranged(keys: Seq<u64>, n: nat, descending: bool)
    requires
        n <= keys.len(),
        forall|i: int, j: int| 0 <= i < j < n ==> !key_before(descending, keys[j], keys[i]),
    ensures
        order_of_first(keys, n, descending) == Seq::new(n, |i: int| i),
    decreases n,
{
    if n > 0 {
        lemma_order_of_arranged(keys, (n - 1) as nat, descending);
        let rest = order_of_first(keys, (n - 1) as nat, descending);
        if n > 1 {
            assert(rest.last() == n - 2);
        }
        assert(insertion_point(keys, rest, keys[n - 1], descending) == rest.len());
        assert(rest.insert(rest.len() as int, n - 1) =~= Seq::new(n, |i: int| i));
    }
}

/// Whether the key at position `a` of `keys` has to stand before the one at
/// position `b`.
fn before(keys: &Vec<u64>, descending: bool, a: usize, b: usize) -> (yes: bool)
    requires
        a < keys@.len(),
        b < keys@.len(),
    ensures
        yes == key_before(descending, keys@[a as int], keys@[b as int]),
{
    if descending {
        keys[a] > keys[b]
    } else {
        keys[a] < keys[b]
    }
}

/// Arranges the positions of `keys` by key, ascending or descending, without
/// changing the order of positions whose keys are equal.
pub fn sort_positions(keys: &Vec<u64>, descending: bool) -> (order: Vec<usize>)
    ensures
        positions(order@) == stable_order(keys@, descending),
{
    let mut order: Vec<usize> = Vec::new();
    let mut n: usize = 0;
    assert(positions(order@) =~= order_of_first(keys@, 0, descending));
    while n < keys.len()
        invariant
            n <= keys@.len(),
            positions(order@) == order_of_first(keys@, n as nat, descending),
        decreases keys@.len() - n,
    {
        let ghost rest = positions(order@);
        proof {
            lemma_order_of_first(keys@, n as nat, descending);
        }
        let mut p: usize = order.len();
        assert(rest.take(p as int) =~= rest);
        while p > 0 && before(keys, descending, n, order[p - 1])
            invariant
                n < keys@.len(),
                p <= order@.len(),
                rest == positions(order@),
                arranges(keys@, n as nat, descending, rest),
                insertion_point(keys@, rest, keys@[n as int], descending) == insertion_point(
                    keys@,
                    rest.take(p as int),
                    keys@[n as int],
                    descending,
                ),
            decreases p,
        {
            proof {
                let head = rest.take(p as int);
                assert(head.last() == rest[p - 1]);
                assert(head.drop_last() =~= rest.take(p - 1));
            }
            p -= 1;
        }
        proof {
            let head = rest.take(p as int);
            if p > 0 {
                assert(head.last() == rest[p - 1]);
            }
            assert(insertion_point(keys@, head, keys@[n as int], descending) == p);
        }
        order.insert(p, n);
        proof {
            assert(positions(order@) =~= rest.insert(p as int, n as int));
        }
        n += 1;
    }
    order
}

} // verus!
