//! Conservative observation of external power.

use vstd::prelude::*;
use vstd::string::*;
use crate::platform::{
    child_path, join_path, listing_came, reading_came, FileAccess, ListedEntry, PlatformError,
};
use crate::text::same_text;
use crate::machine::Calls;

verus! {

broadcast use vstd::string::group_string_axioms;

/// What is known of external power.
#[derive(Debug, Clone, Copy, PartialEq, Eq, Structural)]
pub enum ExternalPower {
    Connected,
    Disconnected,
    Unknown,
}

/// What a power supply's files tell of it.
#[derive(Debug, Clone, Copy, PartialEq, Eq, Structural)]
pub enum SupplyReading {
    Battery,
    Mains,
    Unusable,
}

/// One mains supply and whether it is online.
#[derive(Debug)]
pub struct MainsSupply {
    pub path: String,
    pub online: bool,
}

/// What the contents of a supply's `type` file tell.
pub open spec fn supply_kind(contents: Seq<char>) -> SupplyReading {
    if contents == "Battery\n"@ {
        SupplyReading::Battery
    } else if contents == "Mains\n"@ {
        SupplyReading::Mains
    } else {
        SupplyReading::Unusable
    }
}

/// What the contents of a supply's `online` file tell.
pub open spec fn online_state(contents: Seq<char>) -> Option<bool> {
    if contents == "1\n"@ {
        Some(true)
    } else if contents == "0\n"@ {
        Some(false)
    } else {
        None
    }
}

/// Reads the contents of a supply's `type` file.
pub fn read_supply_kind(contents: &str) -> (kind: SupplyReading)
    ensures
        kind == supply_kind(contents@),
{
    if same_text(contents, "Battery\n") {
        SupplyReading::Battery
    } else if same_text(contents, "Mains\n") {
        SupplyReading::Mains
    } else {
        SupplyReading::Unusable
    }
}

/// Reads the contents of a supply's `online` file.
pub fn read_online_state(contents: &str) -> (state: Option<bool>)
    ensures
        state == online_state(contents@),
{
    if same_text(contents, "1\n") {
        Some(true)
    } else if same_text(contents, "0\n") {
        Some(false)
    } else {
        None
    }
}

/// The mains supplies of one pass, by path.
pub open spec fn mains(supplies: Seq<MainsSupply>) -> Map<Seq<char>, bool>
    decreases supplies.len(),
{
    if supplies.len() == 0 {
        Map::empty()
    } else {
        mains(supplies.drop_last()).insert(supplies.last().path@, supplies.last().online)
    }
}

/// Whether no path occurs twice.
pub open spec fn paths_are_distinct(supplies: Seq<MainsSupply>) -> bool {
    forall|i: int, j: int|
        0 <= i < j < supplies.len() ==> (#[trigger] supplies[i]).path@ != (
        #[trigger] supplies[j]).path@
}

/// What two passes over the mains supplies tell.
pub open spec fn power_of(
    first: Option<Map<Seq<char>, bool>>,
    second: Option<Map<Seq<char>, bool>>,
) -> ExternalPower {
    match (first, second) {
        (Some(seen), Some(again)) => if seen != again {
            ExternalPower::Unknown
        } else if forall|path: Seq<char>| #[trigger] seen.contains_key(path) ==> seen[path] {
            ExternalPower::Connected
        } else if forall|path: Seq<char>| #[trigger] seen.contains_key(path) ==> !seen[path] {
            ExternalPower::Disconnected
        } else {
            ExternalPower::Unknown
        },
        _ => ExternalPower::Unknown,
    }
}

proof fn lemma_mains_entries(supplies: Seq<MainsSupply>)
    requires
        paths_are_distinct(supplies),
    ensures
        forall|i: int|
            0 <= i < supplies.len() ==> mains(supplies).contains_key(
                (#[trigger] supplies[i]).path@,
            ) && mains(supplies)[supplies[i].path@] == supplies[i].online,
        forall|path: Seq<char>| #[trigger]
            mains(supplies).contains_key(path) ==> exists|i: int|
                0 <= i < supplies.len() && (#[trigger] supplies[i]).path@ == path,
    decreases supplies.len(),
{
    if supplies.len() > 0 {
        let shorter = supplies.drop_last();
        lemma_mains_entries(shorter);
        let last = supplies.len() - 1;
        assert forall|i: int| 0 <= i < supplies.len() implies mains(supplies).contains_key(
            (#[trigger] supplies[i]).path@,
        ) && mains(supplies)[supplies[i].path@] == supplies[i].online by {
            if i < last {
                assert(shorter[i] == supplies[i]);
                assert(supplies[i].path@ != supplies[last].path@);
            }
        }
        assert forall|path: Seq<char>| #[trigger] mains(supplies).contains_key(path) implies exists|
            i: int,
        | 0 <= i < supplies.len() && (#[trigger] supplies[i]).path@ == path by {
            if path == supplies[last].path@ {
                assert(supplies[last].path@ == path);
            } else {
                assert(mains(shorter).contains_key(path));
                let i = choose|i: int|
                    0 <= i < shorter.len() && (#[trigger] shorter[i]).path@ == path;
                assert(supplies[i].path@ == path);
            }
        }
    }
}

/// Whether a pass holds a supply with the same state.
spec fn holds(supplies: Seq<MainsSupply>, wanted: MainsSupply) -> bool {
    exists|j: int|
        0 <= j < supplies.len() && (#[trigger] supplies[j]).path@ == wanted.path@
            && supplies[j].online == wanted.online
}

/// Whether every supply of one pass is in another with the same state.
spec fn is_within(left: Seq<MainsSupply>, right: Seq<MainsSupply>) -> bool {
    forall|i: int| 0 <= i < left.len() ==> holds(right, #[trigger] left[i])
}

fn holds_supply(supplies: &Vec<MainsSupply>, wanted: &MainsSupply) -> (yes: bool)
    ensures
        yes == holds(supplies@, *wanted),
{
    let mut i: usize = 0;
    while i < supplies.len()
        invariant
            i <= supplies.len(),
            forall|j: int|
                0 <= j < i ==> !((#[trigger] supplies@[j]).path@ == wanted.path@
                    && supplies@[j].online == wanted.online),
        decreases supplies.len() - i,
    {
        if same_text(supplies[i].path.as_str(), wanted.path.as_str()) && supplies[i].online
            == wanted.online {
            return true;
        }
        i = i + 1;
    }
    false
}

fn lies_within(left: &Vec<MainsSupply>, right: &Vec<MainsSupply>) -> (yes: bool)
    ensures
        yes == is_within(left@, right@),
{
    let mut i: usize = 0;
    while i < left.len()
        invariant
            i <= left.len(),
            forall|k: int| 0 <= k < i ==> holds(right@, #[trigger] left@[k]),
        decreases left.len() - i,
    {
        if !holds_supply(right, &left[i]) {
            return false;
        }
        i = i + 1;
    }
    true
}

proof fn lemma_same_mains(left: Seq<MainsSupply>, right: Seq<MainsSupply>)
    requires
        paths_are_distinct(left),
        paths_are_distinct(right),
    ensures
        (is_within(left, right) && is_within(right, left)) <==> mains(left) == mains(right),
{
    lemma_mains_entries(left);
    lemma_mains_entries(right);
    if is_within(left, right) && is_within(right, left) {
        assert forall|path: Seq<char>| mains(left).contains_key(path) implies mains(
            right,
        ).contains_key(path) && mains(right)[path] == mains(left)[path] by {
            let i = choose|i: int| 0 <= i < left.len() && (#[trigger] left[i]).path@ == path;
            assert(holds(right, left[i]));
            let j = choose|j: int|
                0 <= j < right.len() && (#[trigger] right[j]).path@ == left[i].path@
                    && right[j].online == left[i].online;
            assert(mains(right)[right[j].path@] == right[j].online);
        }
        assert forall|path: Seq<char>| mains(right).contains_key(path) implies mains(
            left,
        ).contains_key(path) by {
            let i = choose|i: int| 0 <= i < right.len() && (#[trigger] right[i]).path@ == path;
            assert(holds(left, right[i]));
            let j = choose|j: int|
                0 <= j < left.len() && (#[trigger] left[j]).path@ == right[i].path@
                    && left[j].online == right[i].online;
            assert(mains(left).contains_key(left[j].path@));
        }
        assert(mains(left) =~= mains(right));
    }
    if mains(left) == mains(right) {
        assert forall|i: int| 0 <= i < left.len() implies holds(right, #[trigger] left[i]) by {
            assert(mains(right).contains_key(left[i].path@));
            let j = choose|j: int|
                0 <= j < right.len() && (#[trigger] right[j]).path@ == left[i].path@;
            assert(mains(right)[right[j].path@] == right[j].online);
        }
        assert forall|i: int| 0 <= i < right.len() implies holds(left, #[trigger] right[i]) by {
            assert(mains(left).contains_key(right[i].path@));
            let j = choose|j: int|
                0 <= j < left.len() && (#[trigger] left[j]).path@ == right[i].path@;
            assert(mains(left)[left[j].path@] == left[j].online);
        }
    }
}

fn every_supply_is(supplies: &Vec<MainsSupply>, online: bool) -> (yes: bool)
    ensures
        yes == forall|i: int|
            0 <= i < supplies@.len() ==> (#[trigger] supplies@[i]).online == online,
{
    let mut i: usize = 0;
    while i < supplies.len()
        invariant
            i <= supplies.len(),
            forall|k: int| 0 <= k < i ==> (#[trigger] supplies@[k]).online == online,
        decreases supplies.len() - i,
    {
        if supplies[i].online != online {
            return false;
        }
        i = i + 1;
    }
    true
}

/// The contents of one pass, where there is any.
pub open spec fn pass_of(supplies: Option<Vec<MainsSupply>>) -> Option<Map<Seq<char>, bool>> {
    match supplies {
        Some(supplies) => Some(mains(supplies@)),
        None => None,
    }
}

/// Whether a pass lists no path twice.
pub open spec fn pass_is_distinct(supplies: Option<Vec<MainsSupply>>) -> bool {
    supplies matches Some(supplies) ==> paths_are_distinct(supplies@)
}

/// Judges two passes over the mains supplies: only two identical passes are trusted, and only where
/// all supplies agree.
pub fn judge_passes(first: &Option<Vec<MainsSupply>>, second: &Option<Vec<MainsSupply>>) -> (power:
    ExternalPower)
    requires
        pass_is_distinct(*first),
        pass_is_distinct(*second),
    ensures
        power == power_of(pass_of(*first), pass_of(*second)),
{
    let (seen, again) = match (first, second) {
        (Some(seen), Some(again)) => (seen, again),
        _ => {
            return ExternalPower::Unknown;
        },
    };
    proof {
        lemma_same_mains(seen@, again@);
        lemma_mains_entries(seen@);
    }
    if !lies_within(seen, again) || !lies_within(again, seen) {
        return ExternalPower::Unknown;
    }
    let ghost map = mains(seen@);
    let connected = every_supply_is(seen, true);
    let disconnected = every_supply_is(seen, false);
    proof {
        if !connected {
            let i = choose|i: int| 0 <= i < seen@.len() && !(#[trigger] seen@[i]).online;
            assert(map.contains_key(seen@[i].path@) && !map[seen@[i].path@]);
        }
        if !disconnected {
            let i = choose|i: int| 0 <= i < seen@.len() && (#[trigger] seen@[i]).online;
            assert(map.contains_key(seen@[i].path@) && map[seen@[i].path@]);
        }
        if connected {
            assert forall|path: Seq<char>| #[trigger] map.contains_key(path) implies map[path] by {
                let i = choose|i: int| 0 <= i < seen@.len() && (#[trigger] seen@[i]).path@ == path;
                assert(map[seen@[i].path@] == seen@[i].online);
            }
        }
        if disconnected {
            assert forall|path: Seq<char>| #[trigger] map.contains_key(path) implies !map[path] by {
                let i = choose|i: int| 0 <= i < seen@.len() && (#[trigger] seen@[i]).path@ == path;
                assert(map[seen@[i].path@] == seen@[i].online);
            }
        }
    }
    if connected {
        ExternalPower::Connected
    } else if disconnected {
        ExternalPower::Disconnected
    } else {
        ExternalPower::Unknown
    }
}

fn path_is_listed(entries: &Vec<ListedEntry>, count: usize, path: &str) -> (yes: bool)
    requires
        count <= entries@.len(),
    ensures
        yes == exists|j: int| 0 <= j < count && (#[trigger] entries@[j]).path@ == path@,
{
    let mut i: usize = 0;
    while i < count
        invariant
            i <= count <= entries@.len(),
            forall|j: int| 0 <= j < i ==> (#[trigger] entries@[j]).path@ != path@,
        decreases count - i,
    {
        if same_text(entries[i].path.as_str(), path) {
            return true;
        }
        i = i + 1;
    }
    false
}

/// Whether an entry of the listed directory is unambiguous.
pub open spec fn entry_is_unambiguous(entries: Seq<ListedEntry>, index: int) -> bool {
    let entry = entries[index];
    &&& entry.is_direct_child
    &&& entry.name is Some
    &&& forall|j: int| 0 <= j < index ==> (#[trigger] entries[j]).path@ != entry.path@
}

/// What one supply tells, where it tells anything trustworthy: a battery is left out, and mains are
/// online or not.
pub open spec fn supply_is_read(
    before: Calls,
    after: Calls,
    entries: Seq<ListedEntry>,
    index: int,
    told: Option<Option<bool>>,
) -> bool {
    let path = entries[index].path@;
    if !entry_is_unambiguous(entries, index) {
        after == before && told is None
    } else {
        exists|read: Calls, kind: Result<String, PlatformError>|
            #[trigger] reading_came(before, read, child_path(path, "type"@), kind) && match kind {
                Err(_) => after == read && told is None,
                Ok(contents) => match supply_kind(contents@) {
                    SupplyReading::Battery => after == read && told == Some(None::<bool>),
                    SupplyReading::Unusable => after == read && told is None,
                    SupplyReading::Mains => online_is_read(read, after, path, told),
                },
            }
    }
}

/// Whether a mains supply is online, where it tells.
pub open spec fn online_is_read(
    before: Calls,
    after: Calls,
    path: Seq<char>,
    told: Option<Option<bool>>,
) -> bool {
    exists|online: Result<String, PlatformError>|
        #[trigger] reading_came(before, after, child_path(path, "online"@), online) && told
            == match online {
            Err(_) => None,
            Ok(contents) => match online_state(contents@) {
                Some(state) => Some(Some(state)),
                None => None,
            },
        }
}

/// The mains supplies after one more entry.
pub open spec fn with_supply(
    supplies: Seq<(Seq<char>, bool)>,
    entry: ListedEntry,
    told: Option<Option<bool>>,
) -> Option<Seq<(Seq<char>, bool)>> {
    match told {
        None => None,
        Some(None) => Some(supplies),
        Some(Some(online)) => Some(supplies.push((entry.path@, online))),
    }
}

/// Whether the first entries were read in order, up to the first that tells nothing trustworthy.
pub open spec fn supplies_are_read(
    before: Calls,
    after: Calls,
    entries: Seq<ListedEntry>,
    count: nat,
    pass: Option<Seq<(Seq<char>, bool)>>,
) -> bool
    decreases count,
{
    if count == 0 {
        after == before && pass == Some(Seq::<(Seq<char>, bool)>::empty())
    } else {
        ||| pass is None && supplies_are_read(before, after, entries, (count - 1) as nat, None)
        ||| exists|between: Calls, supplies: Seq<(Seq<char>, bool)>, told: Option<Option<bool>>|
            {
                &&& supplies_are_read(
                    before,
                    between,
                    entries,
                    (count - 1) as nat,
                    Some(supplies),
                )
                &&& #[trigger] supply_is_read(between, after, entries, count - 1, told)
                &&& pass == #[trigger] with_supply(supplies, entries[count - 1], told)
            }
    }
}

/// The contents of a list of mains supplies.
pub open spec fn mains_list(supplies: Seq<MainsSupply>) -> Seq<(Seq<char>, bool)> {
    supplies.map_values(|supply: MainsSupply| (supply.path@, supply.online))
}

/// Whether a pass is what came back: the supplies of the listed directory, where every entry tells
/// something trustworthy and any of them is on the mains.
pub open spec fn pass_came(
    before: Calls,
    after: Calls,
    root: Seq<char>,
    pass: Option<Vec<MainsSupply>>,
) -> bool {
    exists|listed: Calls, listing: Result<Vec<ListedEntry>, PlatformError>|
        #[trigger] listing_came(before, listed, root, listing) && match listing {
            Err(_) => after == listed && pass is None,
            Ok(entries) => match pass {
                Some(supplies) => supplies@.len() > 0 && supplies_are_read(
                    listed,
                    after,
                    entries@,
                    entries@.len(),
                    Some(mains_list(supplies@)),
                ),
                None => supplies_are_read(listed, after, entries@, entries@.len(), None)
                    || supplies_are_read(
                    listed,
                    after,
                    entries@,
                    entries@.len(),
                    Some(Seq::empty()),
                ),
            },
        }
}

/// Whether the supplies were gone through once, and a second time after that where the first pass
/// told anything trustworthy, and a state of the power is what both passes say.
pub open spec fn power_came(
    before: Calls,
    after: Calls,
    root: Seq<char>,
    power: ExternalPower,
) -> bool {
    exists|between: Calls, first: Option<Vec<MainsSupply>>|
        #[trigger] pass_came(before, between, root, first) && if first is None {
            after == between && power == ExternalPower::Unknown
        } else {
            second_pass_came(between, after, root, first, power)
        }
}

/// The part of that on the second pass.
pub open spec fn second_pass_came(
    before: Calls,
    after: Calls,
    root: Seq<char>,
    first: Option<Vec<MainsSupply>>,
    power: ExternalPower,
) -> bool {
    exists|second: Option<Vec<MainsSupply>>|
        #[trigger] pass_came(before, after, root, second) && power == power_of(
            pass_of(first),
            pass_of(second),
        )
}

/// An entry that tells nothing trustworthy settles the pass however many follow.
proof fn lemma_pass_is_settled(
    before: Calls,
    after: Calls,
    entries: Seq<ListedEntry>,
    count: nat,
    total: nat,
)
    requires
        count <= total,
        supplies_are_read(before, after, entries, count, None),
    ensures
        supplies_are_read(before, after, entries, total, None),
    decreases total - count,
{
    if count < total {
        lemma_pass_is_settled(before, after, entries, count + 1, total);
    }
}

/// Reads one supply, where it tells anything trustworthy.
fn read_supply<F>(files: &mut F, entries: &Vec<ListedEntry>, index: usize) -> (told: Option<
    Option<bool>,
>) where F: FileAccess + ?Sized
    requires
        index < entries@.len(),
    ensures
        supply_is_read(
            old(files).history(),
            final(files).history(),
            entries@,
            index as int,
            told,
        ),
        told is Some ==> entry_is_unambiguous(entries@, index as int),
{
    let entry = &entries[index];
    if !entry.is_direct_child || entry.name.is_none() || path_is_listed(
        entries,
        index,
        entry.path.as_str(),
    ) {
        return None;
    }
    let kind_path = join_path(entry.path.as_str(), "type");
    let ghost asked = files.history();
    let kind = files.read(kind_path.as_str());
    assert(reading_came(asked, files.history(), kind_path@, kind));
    match kind {
        Err(_) => None,
        Ok(contents) => match read_supply_kind(contents.as_str()) {
            SupplyReading::Battery => Some(None),
            SupplyReading::Unusable => None,
            SupplyReading::Mains => {
                let online_path = join_path(entry.path.as_str(), "online");
                let ghost asked = files.history();
                let online = files.read(online_path.as_str());
                assert(reading_came(asked, files.history(), online_path@, online));
                match online {
                    Err(_) => None,
                    Ok(contents) => match read_online_state(contents.as_str()) {
                        Some(state) => Some(Some(state)),
                        None => None,
                    },
                }
            },
        },
    }
}

/// Lists the mains supplies once, or nothing where any entry is ambiguous or unreadable.
fn observe_mains<F>(files: &mut F, power_supply_root: &str) -> (supplies: Option<
    Vec<MainsSupply>,
>) where F: FileAccess + ?Sized
    ensures
        pass_is_distinct(supplies),
        pass_came(
            old(files).history(),
            final(files).history(),
            power_supply_root@,
            supplies,
        ),
{
    let ghost asked = files.history();
    let listing = files.list(power_supply_root);
    assert(listing_came(asked, files.history(), power_supply_root@, listing));
    let ghost listed = files.history();
    let entries = match listing {
        Ok(entries) => entries,
        Err(_) => {
            return None;
        },
    };
    let mut supplies: Vec<MainsSupply> = Vec::new();
    let mut i: usize = 0;
    assert(mains_list(supplies@) =~= Seq::empty());
    while i < entries.len()
        invariant
            i <= entries.len(),
            listing_came(old(files).history(), listed, power_supply_root@, Ok(entries)),
            supplies_are_read(
                listed,
                files.history(),
                entries@,
                i as nat,
                Some(mains_list(supplies@)),
            ),
            paths_are_distinct(supplies@),
            forall|k: int|
                0 <= k < supplies@.len() ==> exists|j: int|
                    0 <= j < i && (#[trigger] entries@[j]).path@ == (#[trigger] supplies@[k]).path@,
        decreases entries.len() - i,
    {
        let ghost before = supplies@;
        let told = read_supply(files, &entries, i);
        assert(supplies_are_read(
            listed,
            files.history(),
            entries@,
            (i + 1) as nat,
            with_supply(mains_list(before), entries@[i as int], told),
        ));
        match told {
            None => {
                proof {
                    lemma_pass_is_settled(
                        listed,
                        files.history(),
                        entries@,
                        (i + 1) as nat,
                        entries@.len(),
                    );
                }
                return None;
            },
            Some(None) => {},
            Some(Some(online)) => {
                supplies.push(MainsSupply { path: entries[i].path.clone(), online });
                proof {
                    assert(mains_list(supplies@) =~= mains_list(before).push(
                        (entries@[i as int].path@, online),
                    ));
                    assert forall|k: int| 0 <= k < supplies@.len() implies exists|j: int|
                        0 <= j < i + 1 && (#[trigger] entries@[j]).path@ == (
                        #[trigger] supplies@[k]).path@ by {
                        if k == before.len() {
                            assert(entries@[i as int].path@ == supplies@[k].path@);
                        } else {
                            assert(supplies@[k] == before[k]);
                        }
                    }
                }
            },
        }
        i = i + 1;
    }
    if supplies.len() > 0 {
        Some(supplies)
    } else {
        assert(mains_list(supplies@) =~= Seq::empty());
        None
    }
}

/// Observes one conservative external-power snapshot.
///
/// Only two identical passes over one or more unambiguous `Mains` supplies are trusted. Any
/// missing, changing, conflicting, malformed, or unreadable observation is `Unknown`.
pub fn observe_external_power<F>(files: &mut F, power_supply_root: &str) -> (power:
    ExternalPower) where F: FileAccess + ?Sized
    ensures
        power_came(old(files).history(), final(files).history(), power_supply_root@, power),
{
    let first = observe_mains(files, power_supply_root);
    if first.is_none() {
        return ExternalPower::Unknown;
    }
    let second = observe_mains(files, power_supply_root);
    judge_passes(&first, &second)
}

} // verus!
