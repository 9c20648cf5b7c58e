//! A stable sort, specified over the views of the sorted values.
use vstd::prelude::*;

verus! {

/// A type whose values are sorted by a relation over their views.
pub trait Ranked: DeepView + Sized {
    /// Whether the first value may stand before the second.
    spec fn precedes(a: Self::V, b: Self::V) -> bool;

    /// Whether this value may stand before the other.
    fn may_precede(&self, other: &Self) -> (res: bool)
        ensures
            res == Self::precedes(self.deep_view(), other.deep_view()),
    ;
}

/// The sequence with a value added behind everything that may stand before it.
pub open spec fn inserted<T: Ranked>(s: Seq<T::V>, x: T::V) -> Seq<T::V>
    decreases s.len(),
{
    if s.len() == 0 || T::precedes(s.last(), x) {
        s.push(x)
    } else {
        inserted::<T>(s.drop_last(), x).push(s.last())
    }
}

/// The values in sorted order; those that the relation does not tell apart stay in the order in
/// which they came.
pub open spec fn arranged<T: Ranked>(s: Seq<T::V>) -> Seq<T::V>
    decreases s.len(),
{
    if s.len() == 0 {
        s
    } else {
        inserted::<T>(arranged::<T>(s.drop_last()), s.last())
    }
}

/// Whether every value may stand before all that follow it.
pub open spec fn ordered<T: Ranked>(s: Seq<T::V>) -> bool {
    forall|i: int, j: int| 0 <= i < j < s.len() ==> T::precedes(#[trigger] s[i], #[trigger] s[j])
}

/// Whether the relation is total and transitive.
pub open spec fn ranks<T: Ranked>() -> bool {
    &&& forall|a: T::V, b: T::V| #[trigger] T::precedes(a, b) || T::precedes(b, a)
    &&& forall|a: T::V, b: T::V, c: T::V|
        #![trigger T::precedes(a, b), T::precedes(b, c)]
        T::precedes(a, b) && T::precedes(b, c) ==> T::precedes(a, c)
}

/// Insertion finds one place: everything behind it may not stand before the value.
proof fn inserted_at<T: Ranked>(s: Seq<T::V>, x: T::V, at: int)
    requires
        0 <= at <= s.len(),
        at == 0 || T::precedes(s[at - 1], x),
        forall|j: int| at <= j < s.len() ==> !T::precedes(#[trigger] s[j], x),
    ensures
        inserted::<T>(s, x) == s.insert(at, x),
    decreases s.len(),
{
    if at == s.len() {
        assert(s.insert(at, x) =~= s.push(x));
    } else {
        inserted_at::<T>(s.drop_last(), x, at);
        assert(s.insert(at, x) =~= s.drop_last().insert(at, x).push(s.last()));
    }
}

/// Insertion adds one value and keeps the others.
pub proof fn inserted_keeps<T: Ranked>(s: Seq<T::V>, x: T::V)
    ensures
        inserted::<T>(s, x).to_multiset() == s.to_multiset().insert(x),
    decreases s.len(),
{
    broadcast use vstd::seq_lib::group_to_multiset_ensures;

    if s.len() == 0 || T::precedes(s.last(), x) {
    } else {
        inserted_keeps::<T>(s.drop_last(), x);
        assert(s =~= s.drop_last().push(s.last()));
        assert(inserted::<T>(s, x).to_multiset() =~= s.to_multiset().insert(x));
    }
}

/// Insertion into an ordered sequence leaves it ordered.
pub proof fn inserted_is_ordered<T: Ranked>(s: Seq<T::V>, x: T::V)
    requires
        ranks::<T>(),
        ordered::<T>(s),
    ensures
        ordered::<T>(inserted::<T>(s, x)),
        inserted::<T>(s, x).len() == s.len() + 1,
        forall|y: T::V|
            (forall|i: int| 0 <= i < s.len() ==> T::precedes(#[trigger] s[i], y)) && T::precedes(x, y)
                ==> (forall|i: int|
                0 <= i < inserted::<T>(s, x).len() ==> #[trigger] T::precedes(
                    inserted::<T>(s, x)[i],
                    y,
                )),
    decreases s.len(),
{
    if s.len() == 0 || T::precedes(s.last(), x) {
        assert forall|i: int, j: int| 0 <= i < j < s.push(x).len() implies T::precedes(
            #[trigger] s.push(x)[i],
            #[trigger] s.push(x)[j],
        ) by {
            if j == s.len() && i < s.len() - 1 {
                assert(T::precedes(s[i], s[s.len() - 1]));
            }
        }
    } else {
        let front = s.drop_last();
        let last = s.last();
        assert(ordered::<T>(front)) by {
            assert forall|i: int, j: int| 0 <= i < j < front.len() implies T::precedes(
                #[trigger] front[i],
                #[trigger] front[j],
            ) by {
                assert(T::precedes(s[i], s[j]));
            }
        }
        inserted_is_ordered::<T>(front, x);
        let inner = inserted::<T>(front, x);
        assert(T::precedes(x, last));
        assert forall|i: int| 0 <= i < front.len() implies T::precedes(#[trigger] front[i], last) by {
            assert(T::precedes(s[i], s[s.len() - 1]));
        }
        assert forall|i: int, j: int| 0 <= i < j < inner.push(last).len() implies T::precedes(
            #[trigger] inner.push(last)[i],
            #[trigger] inner.push(last)[j],
        ) by {
            if j == inner.len() {
                assert(T::precedes(inner[i], last));
            }
        }
    }
}

/// Sorting keeps every value, as often as it occurs, and puts the values in order.
pub proof fn arranged_is_sorted<T: Ranked>(s: Seq<T::V>)
    requires
        ranks::<T>(),
    ensures
        arranged::<T>(s).to_multiset() == s.to_multiset(),
        ordered::<T>(arranged::<T>(s)),
    decreases s.len(),
{
    broadcast use vstd::seq_lib::group_to_multiset_ensures;

    if s.len() > 0 {
        arranged_is_sorted::<T>(s.drop_last());
        inserted_keeps::<T>(arranged::<T>(s.drop_last()), s.last());
        inserted_is_ordered::<T>(arranged::<T>(s.drop_last()), s.last());
        assert(s =~= s.drop_last().push(s.last()));
    }
}

/// What is in order already is left as it is.
pub proof fn arranged_keeps_order<T: Ranked>(s: Seq<T::V>)
    requires
        ordered::<T>(s),
    ensures
        arranged::<T>(s) == s,
    decreases s.len(),
{
    if s.len() > 0 {
        let front = s.drop_last();
        assert(ordered::<T>(front)) by {
            assert forall|i: int, j: int| 0 <= i < j < front.len() implies T::precedes(
                #[trigger] front[i],
                #[trigger] front[j],
            ) by {
                assert(T::precedes(s[i], s[j]));
            }
        }
        arranged_keeps_order::<T>(front);
        if front.len() > 0 {
            assert(T::precedes(s[s.len() - 2], s[s.len() - 1]));
        }
        assert(front.push(s.last()) =~= s);
    }
}

/// Adds a value behind everything that may stand before it.
fn insert_ranked<T: Ranked>(items: &mut Vec<T>, item: T)
    ensures
        final(items).deep_view() == inserted::<T>(old(items).deep_view(), item.deep_view()),
{
    let ghost before = items.deep_view();
    let mut at: usize = items.len();
    while at > 0 && !items[at - 1].may_precede(&item)
        invariant
            at <= items.len(),
            before == items.deep_view(),
            forall|j: int|
                at <= j < before.len() ==> !T::precedes(#[trigger] before[j], item.deep_view()),
        decreases at,
    {
        at = at - 1;
    }
    proof {
        inserted_at::<T>(before, item.deep_view(), at as int);
    }
    let ghost added = item.deep_view();
    items.insert(at, item);
    assert(items.deep_view() =~= before.insert(at as int, added));
}

/// Sorts the values; those that the relation does not tell apart stay in the order in which they
/// came.
pub fn sort<T: Ranked>(items: &mut Vec<T>)
    ensures
        final(items).deep_view() == arranged::<T>(old(items).deep_view()),
{
    let ghost all = items.deep_view();
    let mut sorted: Vec<T> = Vec::new();
    let ghost mut done: int = 0;
    assert(all.skip(0) =~= all);
    assert(all.take(0) =~= Seq::empty());
    assert(sorted.deep_view() =~= arranged::<T>(all.take(0)));
    while items.len() > 0
        invariant
            0 <= done <= all.len(),
            items.deep_view() == all.skip(done),
            sorted.deep_view() == arranged::<T>(all.take(done)),
        decreases items.len(),
    {
        let ghost rest = items.deep_view();
        let item = items.remove(0);
        assert(items.deep_view() =~= rest.skip(1));
        assert(item.deep_view() == rest[0]);
        insert_ranked(&mut sorted, item);
        proof {
            done = done + 1;
            assert(all.skip(done) =~= rest.skip(1));
            assert(all.take(done).drop_last() =~= all.take(done - 1));
        }
    }
    assert(all.take(done) =~= all);
    std::mem::swap(items, &mut sorted);
}

} // verus!
