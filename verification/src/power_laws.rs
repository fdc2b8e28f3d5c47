//! When external power counts as connected, told by the files that were read.

use vstd::prelude::*;
use crate::external_power::{
    mains, mains_list, online_is_read, pass_came, power_came, power_of, supplies_are_read,
    supply_is_read, supply_kind, with_supply, ExternalPower, MainsSupply, SupplyReading,
};
use crate::machine::{Calls, MachineCall};
use crate::platform::{ListedEntry, PlatformError};

verus! {

/// Whether a call read a whole kind, or a state that a supply of the pass has.
pub open spec fn fits_pass(call: MachineCall, pass: Seq<(Seq<char>, bool)>) -> bool {
    call matches MachineCall::Read { answer: Ok(text), .. } && {
        ||| text@ == "Battery\n"@
        ||| text@ == "Mains\n"@
        ||| text@ == "1\n"@ && exists|k: int| 0 <= k < pass.len() && (#[trigger] pass[k]).1
        ||| text@ == "0\n"@ && exists|k: int| 0 <= k < pass.len() && !(#[trigger] pass[k]).1
    }
}

/// What a supply that could be read was read by.
proof fn lemma_supply(
    before: Calls,
    after: Calls,
    entries: Seq<ListedEntry>,
    index: int,
    told: Option<bool>,
)
    requires
        supply_is_read(before, after, entries, index, Some(told)),
    ensures
        entries[index].is_direct_child && entries[index].name is Some,
        forall|j: int| 0 <= j < index ==> (#[trigger] entries[j]).path@ != entries[index].path@,
        forall|i: int| 0 <= i < before.len() ==> #[trigger] after[i] == before[i],
        told is None ==> after.len() == before.len() + 1
            && (after[before.len() as int] matches MachineCall::Read { answer: Ok(text), .. }
            && text@ == "Battery\n"@),
        told matches Some(online) ==> {
            &&& after.len() == before.len() + 2
            &&& after[before.len() as int] matches MachineCall::Read { answer: Ok(text), .. }
                && text@ == "Mains\n"@
            &&& after[before.len() as int + 1] matches MachineCall::Read { answer: Ok(text), .. }
                && text@ == if online {
                "1\n"@
            } else {
                "0\n"@
            }
        },
{
    let path = entries[index].path@;
    let (read, kind) = choose|read: Calls, kind: Result<String, PlatformError>|
        #[trigger] crate::platform::reading_came(
            before,
            read,
            crate::platform::child_path(path, "type"@),
            kind,
        ) && match kind {
            Err(_) => false,
            Ok(contents) => match supply_kind(contents@) {
                SupplyReading::Battery => after == read && told is None,
                SupplyReading::Unusable => false,
                SupplyReading::Mains => online_is_read(read, after, path, Some(told)),
            },
        };
    if told is Some {
        assert(after[before.len() as int] == read[before.len() as int]);
    }
}

proof fn lemma_supplies(
    before: Calls,
    after: Calls,
    entries: Seq<ListedEntry>,
    count: nat,
    pass: Seq<(Seq<char>, bool)>,
)
    requires
        supplies_are_read(before, after, entries, count, Some(pass)),
        count <= entries.len(),
    ensures
        after.len() >= before.len(),
        forall|i: int| 0 <= i < before.len() ==> #[trigger] after[i] == before[i],
        forall|i: int| before.len() <= i < after.len() ==> fits_pass(#[trigger] after[i], pass),
        forall|k: int|
            0 <= k < pass.len() ==> exists|j: int|
                0 <= j < count && (#[trigger] entries[j]).path@ == (#[trigger] pass[k]).0,
        forall|k: int, l: int|
            0 <= k < l < pass.len() ==> (#[trigger] pass[k]).0 != (#[trigger] pass[l]).0,
        forall|i: int| 0 <= i < count ==> (#[trigger] entries[i]).is_direct_child,
    decreases count,
{
    if count > 0 {
        let (between, fewer, told) = choose|
            between: Calls,
            supplies: Seq<(Seq<char>, bool)>,
            told: Option<Option<bool>>,
        |
            {
                &&& supplies_are_read(
                    before,
                    between,
                    entries,
                    (count - 1) as nat,
                    Some(supplies),
                )
                &&& #[trigger] supply_is_read(between, after, entries, count - 1, told)
                &&& Some(pass) == #[trigger] with_supply(supplies, entries[count - 1], told)
            };
        lemma_supplies(before, between, entries, (count - 1) as nat, fewer);
        lemma_supply(between, after, entries, count - 1, told->0);
        assert forall|i: int| 0 <= i < before.len() implies #[trigger] after[i] == before[i] by {
            assert(after[i] == between[i]);
        }
        assert forall|i: int| before.len() <= i < after.len() implies fits_pass(
            #[trigger] after[i],
            pass,
        ) by {
            if i < between.len() {
                assert(after[i] == between[i]);
                assert(fits_pass(between[i], fewer));
                if exists|k: int| 0 <= k < fewer.len() && (#[trigger] fewer[k]).1 {
                    let k = choose|k: int| 0 <= k < fewer.len() && (#[trigger] fewer[k]).1;
                    assert(pass[k] == fewer[k]);
                }
                if exists|k: int| 0 <= k < fewer.len() && !(#[trigger] fewer[k]).1 {
                    let k = choose|k: int| 0 <= k < fewer.len() && !(#[trigger] fewer[k]).1;
                    assert(pass[k] == fewer[k]);
                }
            } else if i == between.len() + 1 {
                assert(pass[pass.len() - 1].1 == told->0->0);
            }
        }
        assert forall|k: int| 0 <= k < pass.len() implies exists|j: int|
            0 <= j < count && (#[trigger] entries[j]).path@ == (#[trigger] pass[k]).0 by {
            if k < fewer.len() {
                assert(pass[k] == fewer[k]);
                let j = choose|j: int|
                    0 <= j < count - 1 && (#[trigger] entries[j]).path@ == fewer[k].0;
                assert(entries[j].path@ == pass[k].0);
            } else {
                assert(entries[count - 1].path@ == pass[k].0);
            }
        }
        assert forall|k: int, l: int| 0 <= k < l < pass.len() implies (#[trigger] pass[k]).0 != (
        #[trigger] pass[l]).0 by {
            assert(pass[k] == fewer[k]);
            if l < fewer.len() {
                assert(pass[l] == fewer[l]);
            } else {
                let j = choose|j: int|
                    0 <= j < count - 1 && (#[trigger] entries[j]).path@ == fewer[k].0;
                assert(entries[j].path@ != entries[count - 1].path@);
            }
        }
    }
}

/// Supplies under different paths are told apart: each keeps its own state, and there are no others.
pub proof fn supplies_keep_their_states(supplies: Seq<MainsSupply>)
    requires
        forall|i: int, j: int|
            0 <= i < j < supplies.len() ==> (#[trigger] supplies[i]).path@ != (
            #[trigger] supplies[j]).path@,
    ensures
        forall|i: int|
            0 <= i < supplies.len() ==> mains(supplies).contains_key(
                (#[trigger] supplies[i]).path@,
            ) && mains(supplies)[supplies[i].path@] == supplies[i].online,
        forall|path: Seq<char>| #[trigger]
            mains(supplies).contains_key(path) ==> exists|i: int|
                0 <= i < supplies.len() && (#[trigger] supplies[i]).path@ == path,
    decreases supplies.len(),
{
    if supplies.len() > 0 {
        let fewer = supplies.drop_last();
        let n = supplies.len() - 1;
        supplies_keep_their_states(fewer);
        assert forall|i: int| 0 <= i < supplies.len() implies mains(supplies).contains_key(
            (#[trigger] supplies[i]).path@,
        ) && mains(supplies)[supplies[i].path@] == supplies[i].online by {
            if i < n {
                assert(fewer[i] == supplies[i]);
                assert(supplies[i].path@ != supplies[n].path@);
            }
        }
        assert forall|path: Seq<char>| #[trigger]
            mains(supplies).contains_key(path) implies exists|i: int|
            0 <= i < supplies.len() && (#[trigger] supplies[i]).path@ == path by {
            if path == supplies[n].path@ {
                assert(supplies[n].path@ == path);
            } else {
                assert(mains(fewer).contains_key(path));
                let i = choose|i: int| 0 <= i < fewer.len() && (#[trigger] fewer[i]).path@ == path;
                assert(supplies[i].path@ == path);
            }
        }
    }
}

/// A pass over the supplies that comes to an end.
proof fn lemma_pass(before: Calls, after: Calls, root: Seq<char>, supplies: Vec<MainsSupply>)
    requires
        pass_came(before, after, root, Some(supplies)),
    ensures
        after.len() > before.len(),
        supplies@.len() > 0,
        forall|i: int| 0 <= i < before.len() ==> #[trigger] after[i] == before[i],
        after[before.len() as int] matches MachineCall::List { root: listed, answer: Ok(_) }
            && listed == root,
        forall|i: int|
            before.len() < i < after.len() ==> fits_pass(
                #[trigger] after[i],
                mains_list(supplies@),
            ),
        forall|i: int, j: int|
            0 <= i < j < supplies@.len() ==> (#[trigger] supplies@[i]).path@ != (
            #[trigger] supplies@[j]).path@,
{
    let pass = mains_list(supplies@);
    let (listed, listing) = choose|listed: Calls, listing: Result<Vec<ListedEntry>, PlatformError>|
        #[trigger] crate::platform::listing_came(before, listed, root, listing) && match listing {
            Err(_) => false,
            Ok(entries) => supplies@.len() > 0 && supplies_are_read(
                listed,
                after,
                entries@,
                entries@.len(),
                Some(pass),
            ),
        };
    lemma_supplies(listed, after, listing->Ok_0@, listing->Ok_0@.len(), pass);
    assert forall|i: int| 0 <= i < before.len() implies #[trigger] after[i] == before[i] by {
        assert(after[i] == listed[i]);
    }
    assert(after[before.len() as int] == listed[before.len() as int]);
    assert forall|i: int, j: int| 0 <= i < j < supplies@.len() implies (
    #[trigger] supplies@[i]).path@ != (#[trigger] supplies@[j]).path@ by {
        assert(pass[i].0 == supplies@[i].path@ && pass[j].0 == supplies@[j].path@);
    }
}

/// Power counts as connected only where, after the supplies were listed, every file that was read told of
/// a battery, a mains supply or one that is online; and as disconnected only where none told of one that
/// is online. Two passes over the same supplies are made, and each of them meets a mains supply.
pub proof fn connected_power_is_read_twice(
    before: Calls,
    after: Calls,
    root: Seq<char>,
    power: ExternalPower,
)
    requires
        power_came(before, after, root, power),
        !(power is Unknown),
    ensures
        after.len() >= before.len() + 2,
        after[before.len() as int] matches MachineCall::List { root: listed, answer: Ok(_) }
            && listed == root,
        forall|i: int|
            before.len() <= i < after.len() ==> {
                let call = #[trigger] after[i];
                ||| call matches MachineCall::List { root: listed, answer: Ok(_) } && listed == root
                ||| call matches MachineCall::Read { answer: Ok(text), .. } && (text@
                    == "Battery\n"@ || text@ == "Mains\n"@ || text@ == if power is Connected {
                    "1\n"@
                } else {
                    "0\n"@
                })
            },
{
    let (between, first) = choose|between: Calls, first: Option<Vec<MainsSupply>>|
        #[trigger] pass_came(before, between, root, first) && first is Some
            && crate::external_power::second_pass_came(between, after, root, first, power);
    let second = choose|second: Option<Vec<MainsSupply>>|
        #[trigger] pass_came(between, after, root, second) && power == power_of(
            crate::external_power::pass_of(first),
            crate::external_power::pass_of(second),
        );
    let (one, two) = (first->0, second->0);
    lemma_pass(before, between, root, one);
    lemma_pass(between, after, root, two);
    supplies_keep_their_states(one@);
    supplies_keep_their_states(two@);
    assert forall|k: int| 0 <= k < one@.len() implies (#[trigger] one@[k]).online == (
    power is Connected) by {
        assert(mains(one@).contains_key(one@[k].path@));
        assert(mains(one@)[one@[k].path@] == one@[k].online);
        if power is Disconnected && one@[k].online {
            assert(mains(one@)[one@[k].path@]);
        }
    }
    assert(mains(one@) == mains(two@));
    assert forall|k: int| 0 <= k < two@.len() implies (#[trigger] two@[k]).online == (
    power is Connected) by {
        assert(mains(one@).contains_key(two@[k].path@));
        assert(mains(two@)[two@[k].path@] == two@[k].online);
    }
    assert forall|i: int| before.len() <= i < after.len() implies {
        let call = #[trigger] after[i];
        ||| call matches MachineCall::List { root: listed, answer: Ok(_) } && listed == root
        ||| call matches MachineCall::Read { answer: Ok(text), .. } && (text@ == "Battery\n"@
            || text@ == "Mains\n"@ || text@ == if power is Connected {
            "1\n"@
        } else {
            "0\n"@
        })
    } by {
        if i < between.len() {
            assert(after[i] == between[i]);
            if i > before.len() {
                assert(fits_pass(between[i], mains_list(one@)));
            }
        } else if i > between.len() {
            assert(fits_pass(after[i], mains_list(two@)));
        }
    }
    assert(after[before.len() as int] == between[before.len() as int]);
}

/// Power is connected exactly where two passes saw the same supplies in the same states and all of them
/// online; disconnected exactly where they did and none was; and unknown otherwise.
pub proof fn power_is_what_all_supplies_tell(first: Seq<MainsSupply>, second: Seq<MainsSupply>)
    requires
        first.len() > 0,
        forall|i: int, j: int|
            0 <= i < j < first.len() ==> (#[trigger] first[i]).path@ != (
            #[trigger] first[j]).path@,
        second == first,
    ensures
        power_of(Some(mains(first)), Some(mains(second))) is Connected <==> forall|i: int|
            0 <= i < first.len() ==> (#[trigger] first[i]).online,
        power_of(Some(mains(first)), Some(mains(second))) is Disconnected <==> forall|i: int|
            0 <= i < first.len() ==> !(#[trigger] first[i]).online,
        power_of(None, Some(mains(second))) is Unknown,
        power_of(Some(mains(first)), None) is Unknown,
{
    supplies_keep_their_states(first);
    let seen = mains(first);
    assert(seen.contains_key(first[0].path@) && seen[first[0].path@] == first[0].online);
    if forall|i: int| 0 <= i < first.len() ==> (#[trigger] first[i]).online {
        assert forall|path: Seq<char>| #[trigger] seen.contains_key(path) implies seen[path] by {
            let i = choose|i: int| 0 <= i < first.len() && (#[trigger] first[i]).path@ == path;
            assert(seen[first[i].path@] == first[i].online);
        }
    }
    if forall|i: int| 0 <= i < first.len() ==> !(#[trigger] first[i]).online {
        assert forall|path: Seq<char>| #[trigger] seen.contains_key(path) implies !seen[path] by {
            let i = choose|i: int| 0 <= i < first.len() && (#[trigger] first[i]).path@ == path;
            assert(seen[first[i].path@] == first[i].online);
        }
    }
    if power_of(Some(seen), Some(mains(second))) is Connected {
        assert forall|i: int| 0 <= i < first.len() implies (#[trigger] first[i]).online by {
            assert(seen.contains_key(first[i].path@));
        }
    }
    if power_of(Some(seen), Some(mains(second))) is Disconnected {
        assert forall|i: int| 0 <= i < first.len() implies !(#[trigger] first[i]).online by {
            assert(seen.contains_key(first[i].path@));
        }
    }
}

} // verus!
