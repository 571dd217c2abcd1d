//! Shuffles of a list, and what they leave unchanged.
use vstd::prelude::*;
use vstd::seq_lib::lemma_multiset_commutative;
use vstd::set_lib::{lemma_int_range, lemma_subset_equality, set_int_range};

verus! {

/// `order` names each of the first `n` positions once.
pub open spec fn is_shuffle_of(order: Seq<usize>, n: nat) -> bool {
    &&& order.len() == n
    &&& forall|i: int| 0 <= i < order.len() ==> #[trigger] order[i] < n
    &&& forall|i: int, j: int| 0 <= i < j < order.len() ==> order[i] != order[j]
}

/// The items of a list, in a given order.
pub open spec fn shuffled<T>(items: Seq<T>, order: Seq<usize>) -> Seq<T> {
    Seq::new(order.len(), |i: int| items[order[i] as int])
}

/// Lists put one behind the other.
pub open spec fn joined<T>(lists: Seq<Seq<T>>) -> Seq<T>
    decreases lists.len(),
{
    if lists.len() == 0 {
        Seq::empty()
    } else {
        joined(lists.drop_last()) + lists.last()
    }
}

/// Tells whether `order` names each of the first `n` positions once.
pub fn is_shuffle(order: &Vec<usize>, n: usize) -> (r: bool)
    ensures
        r == is_shuffle_of(order@, n as nat),
{
    if order.len() != n {
        return false;
    }
    let mut i: usize = 0;
    while i < order.len()
        invariant
            order@.len() == n,
            i <= order@.len(),
            forall|k: int| 0 <= k < i ==> #[trigger] order@[k] < n,
            forall|k: int, l: int| 0 <= k < l < i ==> order@[k] != order@[l],
        decreases order@.len() - i,
    {
        if order[i] >= n {
            assert(!(order@[i as int] < n));
            return false;
        }
        let mut j: usize = 0;
        while j < i
            invariant
                order@.len() == n,
                j <= i < order@.len(),
                forall|k: int| 0 <= k < j ==> order@[k] != order@[i as int],
            decreases i - j,
        {
            if order[j] == order[i] {
                assert(order@[j as int] == order@[i as int]);
                return false;
            }
            j += 1;
        }
        i += 1;
    }
    true
}

/// Every position is named by a shuffle.
proof fn lemma_shuffle_names_all(order: Seq<usize>, n: nat, position: int)
    requires
        is_shuffle_of(order, n),
        0 <= position < n,
    ensures
        exists|i: int| 0 <= i < order.len() && #[trigger] order[i] == position,
{
    let named = order.map_values(|p: usize| p as int);
    assert(named.no_duplicates());
    named.unique_seq_to_set();
    lemma_int_range(0, n as int);
    assert forall|p: int| named.to_set().contains(p) implies set_int_range(0, n as int).contains(
        p,
    ) by {
        let i = choose|i: int| 0 <= i < named.len() && named[i] == p;
        assert(order[i] < n);
    }
    lemma_subset_equality(named.to_set(), set_int_range(0, n as int));
    assert(named.to_set().contains(position));
    let i = choose|i: int| 0 <= i < named.len() && named[i] == position;
    assert(order[i] == position);
}

/// A list put in between others adds its items to theirs.
proof fn lemma_joined_insert<T>(lists: Seq<Seq<T>>, p: int, list: Seq<T>)
    requires
        0 <= p <= lists.len(),
    ensures
        joined(lists.insert(p, list)).to_multiset() =~= joined(lists).to_multiset().add(
            list.to_multiset(),
        ),
    decreases lists.len(),
{
    let more = lists.insert(p, list);
    if p == lists.len() {
        assert(more.drop_last() =~= lists);
        lemma_multiset_commutative(joined(lists), list);
    } else {
        assert(more.drop_last() =~= lists.drop_last().insert(p, list));
        lemma_joined_insert(lists.drop_last(), p, list);
        lemma_multiset_commutative(joined(more.drop_last()), more.last());
        lemma_multiset_commutative(joined(lists.drop_last()), lists.last());
    }
}

/// Lists that are shuffled and then put one behind the other hold the items that they hold in
/// their first order.
pub proof fn lemma_shuffle_keeps_items<T>(lists: Seq<Seq<T>>, order: Seq<usize>)
    requires
        is_shuffle_of(order, lists.len()),
    ensures
        joined(shuffled(lists, order)).to_multiset() == joined(lists).to_multiset(),
    decreases lists.len(),
{
    if lists.len() == 0 {
        assert(shuffled(lists, order) =~= lists);
    } else {
        let n = (lists.len() - 1) as nat;
        lemma_shuffle_names_all(order, lists.len(), n as int);
        let p = choose|i: int| 0 <= i < order.len() && #[trigger] order[i] == n;
        let rest = order.remove(p);
        assert(is_shuffle_of(rest, n)) by {
            assert forall|i: int| 0 <= i < rest.len() implies #[trigger] rest[i] < n by {
                let l = if i < p { i } else { i + 1 };
                assert(order[l] < lists.len());
                if l < p {
                    assert(order[l] != order[p]);
                } else {
                    assert(order[p] != order[l]);
                }
            }
            assert forall|i: int, j: int| 0 <= i < j < rest.len() implies rest[i] != rest[j] by {
                let li = if i < p { i } else { i + 1 };
                let lj = if j < p { j } else { j + 1 };
                assert(order[li] != order[lj]);
            }
        }
        lemma_shuffle_keeps_items(lists.drop_last(), rest);
        assert(shuffled(lists, order) =~= shuffled(lists.drop_last(), rest).insert(
            p,
            lists.last(),
        ));
        lemma_joined_insert(shuffled(lists.drop_last(), rest), p, lists.last());
        lemma_multiset_commutative(joined(lists.drop_last()), lists.last());
    }
}

/// A shuffle has as many entries as there are places, and every place is named by exactly one.
pub proof fn law_shuffle_names_each_place_once(order: Seq<usize>, n: nat, place: int)
    requires
        0 <= place < n,
    ensures
        is_shuffle_of(order, n) ==> order.len() == n && exists|i: int|
            0 <= i < order.len() && #[trigger] order[i] == place,
        is_shuffle_of(order, n) ==> forall|i: int, j: int|
            0 <= i < order.len() && 0 <= j < order.len() && #[trigger] order[i]
                == #[trigger] order[j] ==> i == j,
        order.len() == n && (forall|i: int| 0 <= i < n ==> #[trigger] order[i] < n) && (
        forall|i: int, j: int|
            0 <= i < n && 0 <= j < n && i != j ==> #[trigger] order[i] != #[trigger] order[j])
            ==> is_shuffle_of(order, n),
{
    if is_shuffle_of(order, n) {
        lemma_shuffle_names_all(order, n, place);
        assert forall|i: int, j: int|
            0 <= i < order.len() && 0 <= j < order.len() && #[trigger] order[i]
                == #[trigger] order[j] implies i == j by {
            if i < j {
                assert(order[i] != order[j]);
            } else if j < i {
                assert(order[j] != order[i]);
            }
        }
    }
}

/// Each place of a shuffled list has the item that the order names for it, and lists are joined by
/// putting each behind those before it.
pub proof fn law_items_stand_where_the_order_puts_them<T>(
    items: Seq<T>,
    order: Seq<usize>,
    i: int,
    lists: Seq<Seq<T>>,
    list: Seq<T>,
)
    requires
        0 <= i < order.len(),
    ensures
        shuffled(items, order).len() == order.len(),
        shuffled(items, order)[i] == items[order[i] as int],
        joined(Seq::<Seq<T>>::empty()).len() == 0,
        joined(lists.push(list)) == joined(lists) + list,
{
    assert(lists.push(list).drop_last() =~= lists);
}

} // verus!
