//! Order statistics of small integer series.

use vstd::prelude::*;
use vstd::seq_lib::group_to_multiset_ensures;

verus! {

/// An ordered series with one more value in its place, after the values equal to it.
pub open spec fn placed(ordered: Seq<i64>, value: i64) -> Seq<i64>
    decreases ordered.len(),
{
    if ordered.len() == 0 || ordered.last() <= value {
        ordered.push(value)
    } else {
        placed(ordered.drop_last(), value).push(ordered.last())
    }
}

/// The values of a series in ascending order.
pub open spec fn sorted(values: Seq<i64>) -> Seq<i64>
    decreases values.len(),
{
    if values.len() == 0 {
        Seq::empty()
    } else {
        placed(sorted(values.drop_last()), values.last())
    }
}

/// Whether a series never falls.
pub open spec fn ascending(values: Seq<i64>) -> bool {
    forall|i: int, j: int| 0 <= i <= j < values.len() ==> values[i] <= values[j]
}

proof fn lemma_placed(ordered: Seq<i64>, value: i64)
    requires
        ascending(ordered),
    ensures
        ascending(placed(ordered, value)),
        placed(ordered, value).len() == ordered.len() + 1,
        placed(ordered, value).to_multiset() == ordered.to_multiset().insert(value),
        placed(ordered, value).last() == if ordered.len() == 0 || ordered.last() <= value {
            value
        } else {
            ordered.last()
        },
    decreases ordered.len(),
{
    broadcast use group_to_multiset_ensures;

    if ordered.len() == 0 || ordered.last() <= value {
        let all = ordered.push(value);
        assert forall|i: int, j: int| 0 <= i <= j < all.len() implies all[i] <= all[j] by {
            if j == all.len() - 1 && i < j {
                assert(ordered[i] <= ordered[ordered.len() - 1]);
            }
        }
    } else {
        let shorter = ordered.drop_last();
        lemma_placed(shorter, value);
        let inner = placed(shorter, value);
        let all = inner.push(ordered.last());
        assert(ordered =~= shorter.push(ordered.last()));
        assert(inner.last() <= ordered.last());
        assert forall|i: int, j: int| 0 <= i <= j < all.len() implies all[i] <= all[j] by {
            if j == all.len() - 1 && i < j {
                assert(inner[i] <= inner[inner.len() - 1]);
            }
        }
        assert(all.to_multiset() =~= ordered.to_multiset().insert(value));
    }
}

/// Sorting orders the values and neither drops nor adds any.
pub proof fn sorted_orders_the_same_values(values: Seq<i64>)
    ensures
        ascending(sorted(values)),
        sorted(values).len() == values.len(),
        sorted(values).to_multiset() == values.to_multiset(),
    decreases values.len(),
{
    broadcast use group_to_multiset_ensures;

    if values.len() > 0 {
        sorted_orders_the_same_values(values.drop_last());
        lemma_placed(sorted(values.drop_last()), values.last());
        assert(values =~= values.drop_last().push(values.last()));
    } else {
        assert(values =~= Seq::<i64>::empty());
    }
}

/// Every value of a series lies between the first and the last of its sorted form.
pub proof fn sorted_ends_bound_the_values(values: Seq<i64>, index: int)
    requires
        0 <= index < values.len(),
    ensures
        sorted(values)[0] <= values[index] <= sorted(values).last(),
{
    broadcast use group_to_multiset_ensures;

    sorted_orders_the_same_values(values);
    let all = sorted(values);
    assert(values.contains(values[index]));
    assert(values.to_multiset().count(values[index]) > 0);
    assert(all.contains(values[index]));
    let place = choose|place: int| 0 <= place < all.len() && all[place] == values[index];
    assert(all[0] <= all[place] && all[place] <= all[all.len() - 1]);
}

proof fn lemma_placed_is_insert(ordered: Seq<i64>, value: i64, place: int)
    requires
        0 <= place <= ordered.len(),
        place == 0 || ordered[place - 1] <= value,
        forall|k: int| place <= k < ordered.len() ==> ordered[k] > value,
    ensures
        placed(ordered, value) == ordered.insert(place, value),
    decreases ordered.len() - place,
{
    if place == ordered.len() {
        assert(ordered.insert(place, value) =~= ordered.push(value));
    } else {
        let shorter = ordered.drop_last();
        lemma_placed_is_insert(shorter, value, place);
        assert(ordered.insert(place, value) =~= shorter.insert(place, value).push(ordered.last()));
    }
}

/// Sorts a series.
pub fn sort_values(values: &Vec<i64>) -> (ordered: Vec<i64>)
    ensures
        ordered@ == sorted(values@),
{
    let mut ordered: Vec<i64> = Vec::new();
    let mut i: usize = 0;
    assert(values@.take(0) =~= Seq::<i64>::empty());
    while i < values.len()
        invariant
            i <= values.len(),
            ordered@ == sorted(values@.take(i as int)),
            ordered.len() == i,
        decreases values.len() - i,
    {
        let value: i64 = values[i];
        let mut place: usize = ordered.len();
        while place > 0 && ordered[place - 1] > value
            invariant
                place <= ordered.len(),
                forall|k: int| place <= k < ordered@.len() ==> ordered@[k] > value,
            decreases place,
        {
            place = place - 1;
        }
        proof {
            lemma_placed_is_insert(ordered@, value, place as int);
            let longer = values@.take(i + 1);
            assert(longer.drop_last() =~= values@.take(i as int));
            assert(longer.last() == value);
        }
        ordered.insert(place, value);
        i = i + 1;
    }
    assert(values@.take(values.len() as int) =~= values@);
    ordered
}

} // verus!
