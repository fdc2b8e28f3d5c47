//! Selection of entries from a record's lists.

use vstd::prelude::*;

verus! {

/// The entries that a condition keeps, in order.
pub open spec fn kept<T>(entries: Seq<T>, keep: spec_fn(T) -> bool) -> Seq<T>
    decreases entries.len(),
{
    if entries.len() == 0 {
        Seq::empty()
    } else {
        let before = kept(entries.drop_last(), keep);
        if keep(entries.last()) {
            before.push(entries.last())
        } else {
            before
        }
    }
}

/// The entry with the largest key, and of several the last.
pub open spec fn latest<T>(entries: Seq<T>, key: spec_fn(T) -> u64) -> Option<T>
    decreases entries.len(),
{
    if entries.len() == 0 {
        None
    } else {
        match latest(entries.drop_last(), key) {
            Some(best) => if key(entries.last()) >= key(best) {
                Some(entries.last())
            } else {
                Some(best)
            },
            None => Some(entries.last()),
        }
    }
}

/// One more entry is kept or not.
pub(crate) proof fn lemma_kept_step<T>(entries: Seq<T>, keep: spec_fn(T) -> bool, index: int)
    requires
        0 <= index < entries.len(),
    ensures
        kept(entries.take(index + 1), keep) == if keep(entries[index]) {
            kept(entries.take(index), keep).push(entries[index])
        } else {
            kept(entries.take(index), keep)
        },
{
    let longer = entries.take(index + 1);
    assert(longer.drop_last() =~= entries.take(index));
    assert(longer.last() == entries[index]);
}

/// No entry is kept of none, and all of them are looked at.
pub(crate) proof fn lemma_kept_ends<T>(entries: Seq<T>, keep: spec_fn(T) -> bool)
    ensures
        kept(entries.take(0), keep) == Seq::<T>::empty(),
        entries.take(entries.len() as int) == entries,
{
    assert(entries.take(entries.len() as int) =~= entries);
}

/// Every kept entry satisfies the condition and is one of the entries; there are no more of them
/// than entries.
pub proof fn kept_entries_satisfy<T>(entries: Seq<T>, keep: spec_fn(T) -> bool)
    ensures
        kept(entries, keep).len() <= entries.len(),
        forall|i: int|
            0 <= i < kept(entries, keep).len() ==> keep(#[trigger] kept(entries, keep)[i])
                && entries.contains(kept(entries, keep)[i]),
    decreases entries.len(),
{
    if entries.len() > 0 {
        kept_entries_satisfy(entries.drop_last(), keep);
        let before = kept(entries.drop_last(), keep);
        assert forall|i: int| 0 <= i < kept(entries, keep).len() implies keep(
            #[trigger] kept(entries, keep)[i],
        ) && entries.contains(kept(entries, keep)[i]) by {
            if i < before.len() {
                assert(entries.drop_last().contains(before[i]));
                let j = choose|j: int|
                    0 <= j < entries.drop_last().len() && entries.drop_last()[j] == before[i];
                assert(entries[j] == before[i]);
            } else {
                assert(entries[entries.len() - 1] == entries.last());
            }
        }
    }
}

/// Every entry that satisfies the condition is kept.
pub proof fn satisfying_entries_are_kept<T>(entries: Seq<T>, keep: spec_fn(T) -> bool, index: int)
    requires
        0 <= index < entries.len(),
        keep(entries[index]),
    ensures
        kept(entries, keep).contains(entries[index]),
    decreases entries.len(),
{
    let before = kept(entries.drop_last(), keep);
    if index == entries.len() - 1 {
        let all = kept(entries, keep);
        assert(all[all.len() - 1] == entries.last());
    } else {
        satisfying_entries_are_kept(entries.drop_last(), keep, index);
        let j = choose|j: int| 0 <= j < before.len() && before[j] == entries[index];
        assert(kept(entries, keep)[j] == entries[index]);
    }
}

/// One more entry is the latest or not.
pub(crate) proof fn lemma_latest_step<T>(entries: Seq<T>, key: spec_fn(T) -> u64, index: int)
    requires
        0 <= index < entries.len(),
    ensures
        latest(entries.take(index + 1), key) == match latest(entries.take(index), key) {
            Some(best) => if key(entries[index]) >= key(best) {
                Some(entries[index])
            } else {
                Some(best)
            },
            None => Some(entries[index]),
        },
{
    let longer = entries.take(index + 1);
    assert(longer.drop_last() =~= entries.take(index));
    assert(longer.last() == entries[index]);
}

/// The latest entry is one of the entries, and none has a larger key.
pub proof fn latest_is_largest<T>(entries: Seq<T>, key: spec_fn(T) -> u64)
    ensures
        entries.len() == 0 <==> latest(entries, key) is None,
        latest(entries, key) matches Some(best) ==> entries.contains(best) && forall|i: int|
            0 <= i < entries.len() ==> key(#[trigger] entries[i]) <= key(best),
    decreases entries.len(),
{
    if entries.len() > 0 {
        latest_is_largest(entries.drop_last(), key);
        assert(entries[entries.len() - 1] == entries.last());
        assert forall|i: int| 0 <= i < entries.len() - 1 implies entries[i]
            == #[trigger] entries.drop_last()[i] by {}
        match latest(entries.drop_last(), key) {
            Some(best) => {
                let j = choose|j: int|
                    0 <= j < entries.drop_last().len() && entries.drop_last()[j] == best;
                assert(entries[j] == best);
                assert forall|i: int| 0 <= i < entries.len() implies key(#[trigger] entries[i])
                    <= key(latest(entries, key)->0) by {
                    if i < entries.len() - 1 {
                        assert(key(entries.drop_last()[i]) <= key(best));
                    }
                }
            },
            None => {},
        }
    }
}

/// What the first place of a list that yields anything yields.
pub open spec fn first_some<T>(check: spec_fn(int) -> Option<T>, count: nat) -> Option<T>
    decreases count,
{
    if count == 0 {
        None
    } else {
        match first_some(check, (count - 1) as nat) {
            Some(found) => Some(found),
            None => check(count - 1),
        }
    }
}

/// What was found first stays found however many places follow.
pub(crate) proof fn lemma_first_some_stays<T>(
    check: spec_fn(int) -> Option<T>,
    count: nat,
    total: nat,
)
    requires
        count <= total,
        first_some(check, count) is Some,
    ensures
        first_some(check, total) == first_some(check, count),
    decreases total - count,
{
    if count < total {
        lemma_first_some_stays(check, count + 1, total);
    }
}

} // verus!
