//! Lists of numbers in ascending order, each number once.
use vstd::prelude::*;

verus! {

/// Whether the numbers ascend, so that none occurs twice.
pub open spec fn ascending(list: Seq<u64>) -> bool {
    forall|i: int, j: int| 0 <= i < j < list.len() ==> #[trigger] list[i] < #[trigger] list[j]
}

/// Whether the list holds the numbers of the set, in ascending order.
pub open spec fn lists(list: Seq<u64>, ids: Set<u64>) -> bool {
    ascending(list) && forall|id: u64| #[trigger] list.contains(id) <==> ids.contains(id)
}

/// The numbers of the set in ascending order.
pub open spec fn listing(ids: Set<u64>) -> Seq<u64> {
    choose|list: Seq<u64>| lists(list, ids)
}

/// There is only one such list.
pub proof fn listing_is_unique(a: Seq<u64>, b: Seq<u64>)
    requires
        ascending(a),
        ascending(b),
        forall|id: u64| #[trigger] a.contains(id) <==> b.contains(id),
    ensures
        a == b,
    decreases a.len(),
{
    if a.len() == 0 {
        if b.len() > 0 {
            assert(b.contains(b[0]));
            assert(a.contains(b[0]));
        }
        assert(a =~= b);
    } else {
        assert(a.contains(a[a.len() - 1]));
        assert(b.len() > 0) by {
            assert(b.contains(a[a.len() - 1]));
        }
        let x = a.last();
        let y = b.last();
        assert(b.contains(x));
        assert(b.contains(b[b.len() - 1]));
        assert(a.contains(y));
        let i = choose|i: int| 0 <= i < b.len() && b[i] == x;
        let j = choose|j: int| 0 <= j < a.len() && a[j] == y;
        assert(x == y) by {
            if i < b.len() - 1 {
                assert(b[i] < b[b.len() - 1]);
            }
            if j < a.len() - 1 {
                assert(a[j] < a[a.len() - 1]);
            }
        }
        let p = a.drop_last();
        let q = b.drop_last();
        assert forall|id: u64| #[trigger] p.contains(id) <==> q.contains(id) by {
            if p.contains(id) {
                let k = choose|k: int| 0 <= k < p.len() && p[k] == id;
                assert(a[k] < a[a.len() - 1]);
                assert(a.contains(id));
                let l = choose|l: int| 0 <= l < b.len() && b[l] == id;
                assert(q[l] == id);
            }
            if q.contains(id) {
                let k = choose|k: int| 0 <= k < q.len() && q[k] == id;
                assert(b[k] < b[b.len() - 1]);
                assert(b.contains(id));
                assert(a.contains(id));
                let l = choose|l: int| 0 <= l < a.len() && a[l] == id;
                assert(p[l] == id);
            }
        }
        listing_is_unique(p, q);
        assert(a =~= p.push(x));
        assert(b =~= q.push(y));
    }
}

/// A list of the numbers of a set is the list of them.
pub proof fn lists_the_listing(list: Seq<u64>, ids: Set<u64>)
    requires
        lists(list, ids),
    ensures
        listing(ids) == list,
{
    listing_is_unique(list, listing(ids));
}

/// There is a list of the numbers of a set that are below a bound.
proof fn can_be_listed(ids: Set<u64>, bound: int) -> (list: Seq<u64>)
    requires
        0 <= bound <= u64::MAX + 1,
        forall|id: u64| #[trigger] ids.contains(id) ==> id < bound,
    ensures
        lists(list, ids),
    decreases bound,
{
    if bound == 0 {
        seq![]
    } else {
        let last = (bound - 1) as u64;
        let rest = ids.remove(last);
        let list = can_be_listed(rest, bound - 1);
        if ids.contains(last) {
            let all = list.push(last);
            assert forall|i: int, j: int| 0 <= i < j < all.len() implies #[trigger] all[i]
                < #[trigger] all[j] by {
                assert(list.contains(list[i]));
                assert(rest.contains(list[i]));
            }
            assert forall|id: u64| #[trigger] all.contains(id) <==> ids.contains(id) by {
                if ids.contains(id) {
                    if id == last {
                        assert(all[all.len() - 1] == id);
                    } else {
                        assert(rest.contains(id));
                        assert(list.contains(id));
                        let k = choose|k: int| 0 <= k < list.len() && list[k] == id;
                        assert(all[k] == id);
                    }
                }
                if all.contains(id) {
                    let k = choose|k: int| 0 <= k < all.len() && all[k] == id;
                    if k < list.len() {
                        assert(list.contains(id));
                        assert(rest.contains(id));
                    }
                }
            }
            all
        } else {
            assert(rest =~= ids);
            list
        }
    }
}

/// Every set of numbers has its list.
pub proof fn every_set_is_listed(ids: Set<u64>)
    ensures
        lists(listing(ids), ids),
{
    let list = can_be_listed(ids, u64::MAX + 1);
    assert(lists(list, ids));
}

/// Adds a number to an ascending list, unless it is there.
pub fn insert_id(list: &mut Vec<u64>, id: u64)
    requires
        ascending(old(list)@),
    ensures
        ascending(final(list)@),
        forall|other: u64| #[trigger]
            final(list)@.contains(other) <==> old(list)@.contains(other) || other == id,
{
    let ghost before = list@;
    let mut at: usize = list.len();
    while at > 0 && list[at - 1] >= id
        invariant
            at <= list.len(),
            list@ == before,
            forall|j: int| at <= j < before.len() ==> #[trigger] before[j] >= id,
        decreases at,
    {
        at = at - 1;
    }
    if at < list.len() && list[at] == id {
        assert(before.contains(before[at as int]));
        return;
    }
    list.insert(at, id);
    proof {
        let after = list@;
        assert(after == before.insert(at as int, id));
        assert forall|i: int, j: int| 0 <= i < j < after.len() implies #[trigger] after[i]
            < #[trigger] after[j] by {
            if i < at && j == at {
                assert(before[at - 1] < id);
                if i < at - 1 {
                    assert(before[i] < before[at - 1]);
                }
            } else if i == at {
                assert(before[j - 1] >= id);
                if at < j - 1 {
                    assert(before[at as int] < before[j - 1]);
                }
                assert(before[at as int] >= id);
            } else if i < at && j > at {
                assert(before[i] < before[j - 1]);
            } else if i > at {
                assert(before[i - 1] < before[j - 1]);
            }
        }
        assert forall|other: u64| #[trigger] after.contains(other) <==> before.contains(other)
            || other == id by {
            if after.contains(other) {
                let k = choose|k: int| 0 <= k < after.len() && after[k] == other;
                if k < at {
                    assert(before[k] == other);
                } else if k > at {
                    assert(before[k - 1] == other);
                }
            }
            if before.contains(other) {
                let k = choose|k: int| 0 <= k < before.len() && before[k] == other;
                if k < at {
                    assert(after[k] == other);
                } else {
                    assert(after[k + 1] == other);
                }
            }
            if other == id {
                assert(after[at as int] == id);
            }
        }
    }
}

/// Whether the number is in the list.
pub fn contains_id(list: &Vec<u64>, id: u64) -> (res: bool)
    ensures
        res == list@.contains(id),
{
    let mut i: usize = 0;
    while i < list.len()
        invariant
            i <= list.len(),
            forall|j: int| 0 <= j < i ==> list@[j] != id,
        decreases list.len() - i,
    {
        if list[i] == id {
            return true;
        }
        i = i + 1;
    }
    false
}

/// The numbers of a list in ascending order, each once.
pub fn sort_ids(all: &Vec<u64>) -> (res: Vec<u64>)
    ensures
        lists(res@, all@.to_set()),
        res@ == listing(all@.to_set()),
{
    let mut out: Vec<u64> = Vec::new();
    let mut i: usize = 0;
    while i < all.len()
        invariant
            i <= all.len(),
            ascending(out@),
            forall|id: u64| #[trigger] out@.contains(id) <==> all@.take(i as int).contains(id),
        decreases all.len() - i,
    {
        let ghost before = all@.take(i as int);
        insert_id(&mut out, all[i]);
        proof {
            let after = all@.take(i + 1);
            assert(after =~= before.push(all@[i as int]));
            assert forall|id: u64| #[trigger] after.contains(id) <==> before.contains(id) || id
                == all@[i as int] by {
                if before.contains(id) {
                    let k = choose|k: int| 0 <= k < before.len() && before[k] == id;
                    assert(after[k] == id);
                }
                if id == all@[i as int] {
                    assert(after[i as int] == id);
                }
                if after.contains(id) {
                    let k = choose|k: int| 0 <= k < after.len() && after[k] == id;
                    if k < i {
                        assert(before[k] == id);
                    }
                }
            }
        }
        i = i + 1;
    }
    assert(all@.take(i as int) =~= all@);
    proof {
        lists_the_listing(out@, all@.to_set());
    }
    out
}

} // verus!
