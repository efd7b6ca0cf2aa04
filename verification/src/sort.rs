//! Sorting a list of primitives into paint order.

use vstd::prelude::*;
use vstd::seq_lib::{to_multiset_contains, to_multiset_insert, to_multiset_len, to_multiset_remove};
use crate::primitive::{keys, DrawKey, Keyed};

verus! {

/// Whether a primitive with key `a` may stand before one with key `b` in
/// a sorted list: by draw order, and by tile where the draw orders agree.
pub open spec fn in_order(a: DrawKey, b: DrawKey) -> bool {
    a.order < b.order || (a.order == b.order && a.tile <= b.tile)
}

/// Whether a lane is sorted.
pub open spec fn sorted(lane: Seq<DrawKey>) -> bool {
    forall|i: int, j: int| 0 <= i <= j < lane.len() ==> in_order(#[trigger] lane[i], #[trigger] lane[j])
}

/// Whether the first `n` primitives of a list are sorted.
spec fn sorted_up_to<T: Keyed>(list: Seq<T>, n: int) -> bool {
    forall|i: int, j: int| 0 <= i <= j < n ==> in_order(#[trigger] list[i].key(), #[trigger] list[j].key())
}

/// In a sorted lane the draw orders never fall.
pub proof fn lemma_sorted_ascends(lane: Seq<DrawKey>)
    requires
        sorted(lane),
    ensures
        crate::merge::ascending(lane),
{
}

fn stands_before<T: Keyed>(a: &T, b: &T) -> (r: bool)
    ensures
        r == in_order(a.key(), b.key()),
{
    let first = a.order();
    let second = b.order();
    first < second || (first == second && a.tile_id() <= b.tile_id())
}

/// Sorts the list by draw order, and by tile where draw orders agree.
///
/// The list keeps its primitives: the result is a rearrangement of what
/// was there. A list that is sorted already is only read.
pub fn sort<T: Keyed>(list: &mut Vec<T>)
    ensures
        sorted(keys(final(list)@)),
        final(list)@.to_multiset() == old(list)@.to_multiset(),
{
    if list.len() < 2 {
        return ;
    }
    let mut i: usize = 1;
    while i < list.len()
        invariant
            1 <= i <= list@.len(),
            sorted_up_to(list@, i as int),
            list@.to_multiset() == old(list)@.to_multiset(),
        decreases list@.len() - i,
    {
        let mut j: usize = i;
        while j > 0 && !stands_before(&list[j - 1], &list[i])
            invariant
                j <= i < list@.len(),
                forall|m: int| j <= m < i ==> !in_order(#[trigger] list@[m].key(), list@[i as int].key()),
            decreases j,
        {
            j -= 1;
        }
        if j < i {
            let ghost before = list@;
            let moved = list.remove(i);
            list.insert(j, moved);
            assert forall|a: int, b: int| 0 <= a <= b < i + 1 implies in_order(
                #[trigger] list@[a].key(),
                #[trigger] list@[b].key(),
            ) by {
                let from_a = if a < j {
                    a
                } else if a == j {
                    i as int
                } else {
                    a - 1
                };
                let from_b = if b < j {
                    b
                } else if b == j {
                    i as int
                } else {
                    b - 1
                };
                assert(list@[a] == before[from_a]);
                assert(list@[b] == before[from_b]);
                if a < j && b == j {
                    assert(in_order(before[a].key(), before[j - 1].key()));
                }
            }
            assert(list@.to_multiset() == before.to_multiset()) by {
                to_multiset_remove(before, i as int);
                to_multiset_insert(before.remove(i as int), j as int, moved);
                to_multiset_contains(before, moved);
                assert(before[i as int] == moved);
                assert(before.to_multiset().remove(moved).insert(moved) =~= before.to_multiset());
            }
        }
        i += 1;
    }
    assert(sorted(keys(list@))) by {
        assert forall|a: int, b: int| 0 <= a <= b < keys(list@).len() implies in_order(
            #[trigger] keys(list@)[a],
            #[trigger] keys(list@)[b],
        ) by {
            assert(in_order(list@[a].key(), list@[b].key()));
        }
    }
}

/// Whatever stands in a rearranged list stood somewhere in the list
/// before: the lemma hands back a place where it stood.
pub proof fn lemma_rearranged_from<A>(before: Seq<A>, after: Seq<A>, i: int) -> (from: int)
    requires
        after.to_multiset() == before.to_multiset(),
        0 <= i < after.len(),
    ensures
        0 <= from < before.len(),
        before[from] == after[i],
{
    to_multiset_contains(after, after[i]);
    to_multiset_contains(before, after[i]);
    assert(after.contains(after[i]));
    choose|from: int| 0 <= from < before.len() && before[from] == after[i]
}

/// A rearranged list is as long as the list before.
pub proof fn lemma_rearranged_len<A>(before: Seq<A>, after: Seq<A>)
    requires
        after.to_multiset() == before.to_multiset(),
    ensures
        after.len() == before.len(),
{
    to_multiset_len(before);
    to_multiset_len(after);
}

/// Rearranging a list in which nothing stands twice cannot make anything
/// stand twice.
pub proof fn lemma_rearranged_distinct<A>(before: Seq<A>, after: Seq<A>)
    requires
        after.to_multiset() == before.to_multiset(),
        before.no_duplicates(),
    ensures
        after.no_duplicates(),
{
    before.lemma_multiset_has_no_duplicates();
    after.lemma_multiset_has_no_duplicates_conv();
}

/// Rearranging a list rearranges its keys.
pub proof fn lemma_rearranged_keys<T: Keyed>(before: Seq<T>, after: Seq<T>)
    requires
        after.to_multiset() == before.to_multiset(),
    ensures
        keys(after).to_multiset() == keys(before).to_multiset(),
    decreases after.len(),
{
    lemma_rearranged_len(before, after);
    if after.len() == 0 {
        assert(keys(after) =~= keys(before));
    } else {
        let last = after.len() - 1;
        let from = lemma_rearranged_from(before, after, last);
        let moved = after[last];
        to_multiset_remove(after, last);
        to_multiset_remove(before, from);
        lemma_rearranged_keys(before.remove(from), after.remove(last));
        assert(keys(after.remove(last)) =~= keys(after).remove(last));
        assert(keys(before.remove(from)) =~= keys(before).remove(from));
        to_multiset_remove(keys(after), last);
        to_multiset_remove(keys(before), from);
        to_multiset_contains(keys(after), moved.key());
        to_multiset_contains(keys(before), moved.key());
        assert(keys(after)[last] == moved.key());
        assert(keys(before)[from] == moved.key());
        assert(keys(after).to_multiset() =~= keys(after).to_multiset().remove(moved.key()).insert(
            moved.key(),
        ));
        assert(keys(before).to_multiset() =~= keys(before).to_multiset().remove(moved.key()).insert(
            moved.key(),
        ));
    }
}

/// Whether no two primitives of a list have the same draw order.
pub open spec fn orders_differ<T: Keyed>(list: Seq<T>) -> bool {
    forall|i: int, j: int|
        0 <= i < list.len() && 0 <= j < list.len() && i != j ==> (#[trigger] list[i]).key().order != (
        #[trigger] list[j]).key().order
}

/// Rearranging a list in which all draw orders differ leaves them
/// different.
pub proof fn lemma_rearranged_orders_differ<T: Keyed>(before: Seq<T>, after: Seq<T>)
    requires
        after.to_multiset() == before.to_multiset(),
        orders_differ(before),
    ensures
        orders_differ(after),
{
    assert(before.no_duplicates());
    lemma_rearranged_distinct(before, after);
    assert forall|i: int, j: int| 0 <= i < after.len() && 0 <= j < after.len() && i != j implies (
    #[trigger] after[i]).key().order != (#[trigger] after[j]).key().order by {
        let from_i = lemma_rearranged_from(before, after, i);
        let from_j = lemma_rearranged_from(before, after, j);
        assert(before[from_i] != before[from_j]);
    }
}

/// A list in which all draw orders differ can be sorted in one way only:
/// two sorted rearrangements of it are the same list.
pub proof fn lemma_sorted_is_unique<T: Keyed>(a: Seq<T>, b: Seq<T>)
    requires
        a.to_multiset() == b.to_multiset(),
        sorted(keys(a)),
        sorted(keys(b)),
        orders_differ(a),
    ensures
        a == b,
    decreases a.len(),
{
    lemma_rearranged_len(a, b);
    if a.len() == 0 {
        assert(a =~= b);
    } else {
        let n = a.len() - 1;
        lemma_rearranged_orders_differ(a, b);
        let p = lemma_rearranged_from(a, b, n);
        let q = lemma_rearranged_from(b, a, n);
        assert(in_order(keys(a)[p], keys(a)[n]));
        assert(in_order(keys(b)[q], keys(b)[n]));
        assert(a[p].key().order == a[n].key().order);
        assert(p == n);
        to_multiset_remove(a, n);
        to_multiset_remove(b, n);
        assert(a.remove(n) =~= a.drop_last());
        assert(b.remove(n) =~= b.drop_last());
        assert(sorted(keys(a.drop_last()))) by {
            assert forall|i: int, j: int| 0 <= i <= j < keys(a.drop_last()).len() implies in_order(
                #[trigger] keys(a.drop_last())[i],
                #[trigger] keys(a.drop_last())[j],
            ) by {
                assert(in_order(keys(a)[i], keys(a)[j]));
            }
        }
        assert(sorted(keys(b.drop_last()))) by {
            assert forall|i: int, j: int| 0 <= i <= j < keys(b.drop_last()).len() implies in_order(
                #[trigger] keys(b.drop_last())[i],
                #[trigger] keys(b.drop_last())[j],
            ) by {
                assert(in_order(keys(b)[i], keys(b)[j]));
            }
        }
        assert(orders_differ(a.drop_last())) by {
            assert forall|i: int, j: int|
                0 <= i < a.drop_last().len() && 0 <= j < a.drop_last().len() && i != j implies (
            #[trigger] a.drop_last()[i]).key().order != (#[trigger] a.drop_last()[j]).key().order by {
                assert(a[i].key().order != a[j].key().order);
            }
        }
        lemma_sorted_is_unique(a.drop_last(), b.drop_last());
        assert(a =~= a.drop_last().push(a[n]));
        assert(b =~= b.drop_last().push(b[n]));
    }
}

} // verus!
