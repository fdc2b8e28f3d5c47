//! What a device was found by, told by the questions that were asked and their answers.

use vstd::prelude::*;
use crate::acer_hwmon::{
    abi_is_judged, abi_is_judged_before, binding_is_made, bindings_are_made, candidate_error,
    candidate_is_judged, candidates_are_judged, channel_is_judged, channels_are_judged,
    device_is_bound, device_is_judged, discovery_is_made, endpoints_are_bound, entries_at,
    entries_error, entry_error, fan_is_judged, first_bindings_are_accepted, names_error, only_found,
    permissions_are_judged, search_is_made, DeviceModel, DiscoveryErrorModel, FanEndpointsModel,
    FoundDevice,
};
use crate::machine::{Calls, MachineCall};
use crate::platform::{child_path, FileIdentity, FilePermissions, ListedEntry, PlatformError};
use crate::select::kept;
use crate::text::{decimal_text, is_digit};

verus! {

/// A child's path is its directory's and its name, with one slash between them.
pub proof fn children_lie_behind_a_slash(root: Seq<char>, child: Seq<char>)
    ensures
        root.len() > 0 && root.last() == '/' ==> child_path(root, child) == root + child,
        root.len() == 0 || root.last() != '/' ==> child_path(root, child) == root + seq!['/']
            + child,
{
    reveal_strlit("/");
    assert("/"@ =~= seq!['/']);
    if root.len() > 0 {
        assert(root.skip(root.len() - 1) =~= seq![root.last()]);
        assert(root.skip(root.len() - 1)[0] == root.last());
        assert("/"@[0] == '/');
    }
}

proof fn lemma_channel_names()
    ensures
        "pwm"@ + decimal_text(1) == "pwm1"@,
        "pwm"@ + decimal_text(1) + "_enable"@ == "pwm1_enable"@,
        "fan"@ + decimal_text(1) + "_input"@ == "fan1_input"@,
        "pwm"@ + decimal_text(2) == "pwm2"@,
        "pwm"@ + decimal_text(2) + "_enable"@ == "pwm2_enable"@,
        "fan"@ + decimal_text(2) + "_input"@ == "fan2_input"@,
{
    reveal_strlit("pwm");
    reveal_strlit("fan");
    reveal_strlit("_enable");
    reveal_strlit("_input");
    reveal_strlit("pwm1");
    reveal_strlit("pwm1_enable");
    reveal_strlit("fan1_input");
    reveal_strlit("pwm2");
    reveal_strlit("pwm2_enable");
    reveal_strlit("fan2_input");
    assert(decimal_text(1) =~= seq!['1']);
    assert(decimal_text(2) =~= seq!['2']);
    assert("pwm"@ + decimal_text(1) =~= "pwm1"@);
    assert("pwm"@ + decimal_text(1) + "_enable"@ =~= "pwm1_enable"@);
    assert("fan"@ + decimal_text(1) + "_input"@ =~= "fan1_input"@);
    assert("pwm"@ + decimal_text(2) =~= "pwm2"@);
    assert("pwm"@ + decimal_text(2) + "_enable"@ =~= "pwm2_enable"@);
    assert("fan"@ + decimal_text(2) + "_input"@ =~= "fan2_input"@);
}

/// The CPU fan of a bound device is the first channel of its directory and the GPU fan the second: duty,
/// mode and tachometer have the channel's own names, and each is bound to an identity.
pub proof fn bound_fans_are_the_two_channels(device: DeviceModel)
    ensures
        device_is_bound(device) <==> {
            &&& device.cpu.pwm == child_path(device.root, "pwm1"@)
            &&& device.cpu.enable == child_path(device.root, "pwm1_enable"@)
            &&& device.cpu.tachometer == child_path(device.root, "fan1_input"@)
            &&& device.gpu.pwm == child_path(device.root, "pwm2"@)
            &&& device.gpu.enable == child_path(device.root, "pwm2_enable"@)
            &&& device.gpu.tachometer == child_path(device.root, "fan2_input"@)
            &&& device.cpu.pwm_identity is Some && device.gpu.pwm_identity is Some
            &&& device.cpu.enable_identity is Some && device.gpu.enable_identity is Some
            &&& device.cpu.tachometer_identity is Some && device.gpu.tachometer_identity is Some
        },
{
    lemma_channel_names();
}

/// A directory is a candidate exactly where it lies directly in the listed one and is named `hwmon` and a
/// number.
pub proof fn candidates_are_numbered(entry: ListedEntry)
    ensures
        candidate_error(entry) is None <==> {
            &&& entry.is_direct_child
            &&& entry.name matches Some(name)
            &&& name@.len() >= 6
            &&& name@[0] == 'h' && name@[1] == 'w' && name@[2] == 'm' && name@[3] == 'o' && name@[4]
                == 'n'
            &&& forall|i: int| 5 <= i < name@.len() ==> is_digit(#[trigger] name@[i])
        },
{
    reveal_strlit("hwmon");
    if entry.name is Some {
        let name = entry.name->0@;
        if name.len() >= 6 {
            assert(name.take(5) =~= "hwmon"@ <==> (name[0] == 'h' && name[1] == 'w' && name[2] == 'm'
                && name[3] == 'o' && name[4] == 'n')) by {
                let begin = name.take(5);
                let word = "hwmon"@;
                assert(begin[0] == name[0] && begin[1] == name[1] && begin[2] == name[2] && begin[3]
                    == name[3] && begin[4] == name[4]);
                assert(word[0] == 'h' && word[1] == 'w' && word[2] == 'm' && word[3] == 'o'
                    && word[4] == 'n');
            }
            let rest = name.skip(5);
            assert forall|i: int| 5 <= i < name.len() implies rest[i - 5] == #[trigger] name[i] by {}
            if crate::text::all_digits(rest) {
                assert forall|i: int| 5 <= i < name.len() implies is_digit(#[trigger] name[i]) by {
                    assert(is_digit(rest[i - 5]));
                }
            }
            if forall|i: int| 5 <= i < name.len() ==> is_digit(#[trigger] name[i]) {
                assert forall|i: int| 0 <= i < rest.len() implies is_digit(#[trigger] rest[i]) by {
                    assert(rest[i] == name[i + 5]);
                }
            }
        }
    }
}

proof fn lemma_no_entry_error(entries: Seq<ListedEntry>)
    ensures
        entries_error(entries) is None <==> forall|i: int|
            0 <= i < entries.len() ==> entry_error(#[trigger] entries[i]) is None,
    decreases entries.len(),
{
    if entries.len() > 0 {
        let fewer = entries.drop_last();
        lemma_no_entry_error(fewer);
        let n = entries.len() - 1;
        if entries_error(entries) is None {
            assert forall|i: int| 0 <= i < entries.len() implies entry_error(
                #[trigger] entries[i],
            ) is None by {
                if i < n {
                    assert(fewer[i] == entries[i]);
                }
            }
        }
        if forall|i: int| 0 <= i < entries.len() ==> entry_error(#[trigger] entries[i]) is None {
            assert forall|i: int| 0 <= i < fewer.len() implies entry_error(
                #[trigger] fewer[i],
            ) is None by {
                assert(fewer[i] == entries[i]);
            }
            assert(entry_error(entries[n]) is None);
        }
    }
}

proof fn lemma_none_kept(entries: Seq<ListedEntry>, path: Seq<char>)
    ensures
        kept(entries, entries_at(path)).len() == 0 <==> forall|i: int|
            0 <= i < entries.len() ==> (#[trigger] entries[i]).path@ != path,
{
    crate::select::kept_entries_satisfy(entries, entries_at(path));
    let all = kept(entries, entries_at(path));
    if all.len() > 0 {
        assert(entries_at(path)(all[0]) && entries.contains(all[0]));
        let i = choose|i: int| 0 <= i < entries.len() && entries[i] == all[0];
        assert(entries[i].path@ == path);
    }
    if exists|i: int| 0 <= i < entries.len() && (#[trigger] entries[i]).path@ == path {
        let i = choose|i: int| 0 <= i < entries.len() && (#[trigger] entries[i]).path@ == path;
        crate::select::satisfying_entries_are_kept(entries, entries_at(path), i);
    }
}

/// Whether a path is that of one entry and of no other.
pub open spec fn stands_only_at(entries: Seq<ListedEntry>, path: Seq<char>, place: int) -> bool {
    &&& 0 <= place < entries.len()
    &&& entries[place].path@ == path
    &&& forall|i: int|
        0 <= i < entries.len() && i != place ==> (#[trigger] entries[i]).path@ != path
}

/// Whether a path is that of exactly one entry.
pub open spec fn stands_once(entries: Seq<ListedEntry>, path: Seq<char>) -> bool {
    exists|place: int| stands_only_at(entries, path, place)
}

proof fn lemma_kept_once(entries: Seq<ListedEntry>, path: Seq<char>)
    ensures
        kept(entries, entries_at(path)).len() == 1 <==> stands_once(entries, path),
    decreases entries.len(),
{
    if entries.len() > 0 {
        let fewer = entries.drop_last();
        let n = entries.len() - 1;
        lemma_kept_once(fewer, path);
        lemma_none_kept(fewer, path);
        let before = kept(fewer, entries_at(path)).len();
        assert(kept(entries, entries_at(path)).len() == if entries[n].path@ == path {
            before + 1
        } else {
            before
        });
        if entries[n].path@ == path {
            if before == 0 {
                assert(stands_only_at(entries, path, n)) by {
                    assert forall|i: int| 0 <= i < entries.len() && i != n implies (
                    #[trigger] entries[i]).path@ != path by {
                        assert(fewer[i].path@ != path);
                    }
                }
            } else {
                assert(!stands_once(entries, path)) by {
                    let j = choose|j: int|
                        0 <= j < fewer.len() && (#[trigger] fewer[j]).path@ == path;
                    assert(entries[j].path@ == path && entries[n].path@ == path);
                }
            }
        } else {
            if stands_once(fewer, path) {
                let k = choose|k: int| stands_only_at(fewer, path, k);
                assert(stands_only_at(entries, path, k)) by {
                    assert(entries[k] == fewer[k]);
                    assert forall|i: int| 0 <= i < entries.len() && i != k implies (
                    #[trigger] entries[i]).path@ != path by {
                        if i < n {
                            assert(fewer[i].path@ != path);
                        }
                    }
                }
            }
            if stands_once(entries, path) {
                let k = choose|k: int| stands_only_at(entries, path, k);
                assert(stands_only_at(fewer, path, k)) by {
                    assert(entries[k] == fewer[k]);
                    assert forall|i: int| 0 <= i < fewer.len() && i != k implies (
                    #[trigger] fewer[i]).path@ != path by {
                        assert(entries[i].path@ != path);
                    }
                }
            }
        }
    }
}

/// A device's directory has the expected names exactly where every entry lies directly in it under a
/// readable name, no name starts like a duty, mode or speed but the six of the two fans, and each of the
/// six and the device's own name stand in it once.
pub proof fn directories_hold_two_fans_and_no_more(root: Seq<char>, entries: Seq<ListedEntry>)
    ensures
        names_error(root, entries) is None <==> {
            &&& forall|i: int|
                0 <= i < entries.len() ==> {
                    let entry = #[trigger] entries[i];
                    &&& entry.is_direct_child
                    &&& entry.name matches Some(name)
                    &&& crate::text::begins_with(name@, "pwm"@) || crate::text::begins_with(
                        name@,
                        "fan"@,
                    ) ==> name@ == "pwm1"@ || name@ == "pwm1_enable"@ || name@ == "fan1_input"@
                        || name@ == "pwm2"@ || name@ == "pwm2_enable"@ || name@ == "fan2_input"@
                }
            &&& stands_once(entries, child_path(root, "name"@))
            &&& stands_once(entries, child_path(root, "pwm1"@))
            &&& stands_once(entries, child_path(root, "pwm1_enable"@))
            &&& stands_once(entries, child_path(root, "fan1_input"@))
            &&& stands_once(entries, child_path(root, "pwm2"@))
            &&& stands_once(entries, child_path(root, "pwm2_enable"@))
            &&& stands_once(entries, child_path(root, "fan2_input"@))
        },
{
    lemma_no_entry_error(entries);
    lemma_kept_once(entries, child_path(root, "name"@));
    lemma_kept_once(entries, child_path(root, "pwm1"@));
    lemma_kept_once(entries, child_path(root, "pwm1_enable"@));
    lemma_kept_once(entries, child_path(root, "fan1_input"@));
    lemma_kept_once(entries, child_path(root, "pwm2"@));
    lemma_kept_once(entries, child_path(root, "pwm2_enable"@));
    lemma_kept_once(entries, child_path(root, "fan2_input"@));
    let names = crate::compatibility::two_fan_endpoints();
    assert forall|name: Seq<char>| #[trigger] names.contains(name) <==> name == "pwm1"@ || name
        == "pwm1_enable"@ || name == "fan1_input"@ || name == "pwm2"@ || name == "pwm2_enable"@
        || name == "fan2_input"@ by {
        assert(names[0] == "pwm1"@ && names[1] == "pwm1_enable"@ && names[2] == "fan1_input"@);
        assert(names[3] == "pwm2"@ && names[4] == "pwm2_enable"@ && names[5] == "fan2_input"@);
    }
}

/// One device is found exactly where a search found one, and that one; none and several are told apart.
pub proof fn one_device_is_found(found: Seq<FoundDevice>)
    ensures
        only_found(found) is Ok <==> found.len() == 1,
        only_found(found) matches Ok(device) ==> device == found[0],
        only_found(found) matches Err(error) ==> (error is NoDevice <==> found.len() == 0) && (
        error matches DiscoveryErrorModel::AmbiguousDevices { count } ==> count == found.len()),
{
}

/// Whether a call asked for a file's permissions and got the expected ones.
pub open spec fn is_permitted(
    call: MachineCall,
    path: Seq<char>,
    expected: FilePermissions,
) -> bool {
    call matches MachineCall::Permissions { path: asked, answer: Ok(actual) } && asked == path
        && actual == expected
}

/// Whether six calls found the duties and modes of both fans to be writable and their speeds not.
pub open spec fn are_permitted(calls: Calls, from: int, root: Seq<char>) -> bool {
    &&& is_permitted(calls[from], child_path(root, "pwm1"@), FilePermissions::ReadWrite)
    &&& is_permitted(calls[from + 1], child_path(root, "pwm1_enable"@), FilePermissions::ReadWrite)
    &&& is_permitted(calls[from + 2], child_path(root, "fan1_input"@), FilePermissions::ReadOnly)
    &&& is_permitted(calls[from + 3], child_path(root, "pwm2"@), FilePermissions::ReadWrite)
    &&& is_permitted(calls[from + 4], child_path(root, "pwm2_enable"@), FilePermissions::ReadWrite)
    &&& is_permitted(calls[from + 5], child_path(root, "fan2_input"@), FilePermissions::ReadOnly)
}

/// Whether calls go on from others.
pub open spec fn goes_on(before: Calls, after: Calls, count: int) -> bool {
    &&& after.len() == before.len() + count
    &&& forall|i: int| 0 <= i < before.len() ==> #[trigger] after[i] == before[i]
}

proof fn lemma_channel_permitted(before: Calls, after: Calls, root: Seq<char>, channel: nat)
    requires
        channel_is_judged(before, after, root, channel, None),
    ensures
        goes_on(before, after, 3),
        ({
            let n = before.len() as int;
            &&& is_permitted(
                after[n],
                child_path(root, "pwm"@ + decimal_text(channel)),
                FilePermissions::ReadWrite,
            )
            &&& is_permitted(
                after[n + 1],
                child_path(root, "pwm"@ + decimal_text(channel) + "_enable"@),
                FilePermissions::ReadWrite,
            )
            &&& is_permitted(
                after[n + 2],
                child_path(root, "fan"@ + decimal_text(channel) + "_input"@),
                FilePermissions::ReadOnly,
            )
        }),
{
    let pwm = child_path(root, "pwm"@ + decimal_text(channel));
    let enable = child_path(root, "pwm"@ + decimal_text(channel) + "_enable"@);
    let first = choose|between: Calls|
        #[trigger] permissions_are_judged(before, between, pwm, FilePermissions::ReadWrite, None)
            && crate::acer_hwmon::channel_is_judged_further(between, after, root, channel, None);
    let second = choose|between: Calls|
        #[trigger] permissions_are_judged(first, between, enable, FilePermissions::ReadWrite, None)
            && permissions_are_judged(
            between,
            after,
            child_path(root, "fan"@ + decimal_text(channel) + "_input"@),
            FilePermissions::ReadOnly,
            None,
        );
    let n = before.len() as int;
    assert(first.len() == n + 1 && second.len() == n + 2 && after.len() == n + 3);
    assert(after[n] == second[n] && second[n] == first[n]);
    assert(after[n + 1] == second[n + 1]);
    assert forall|i: int| 0 <= i < n implies #[trigger] after[i] == before[i] by {
        assert(after[i] == second[i] && second[i] == first[i] && first[i] == before[i]);
    }
}

proof fn lemma_channels_permitted(before: Calls, after: Calls, root: Seq<char>)
    requires
        channels_are_judged(before, after, root, None),
    ensures
        goes_on(before, after, 6),
        are_permitted(after, before.len() as int, root),
{
    lemma_channel_names();
    let between = choose|between: Calls|
        #[trigger] channel_is_judged(before, between, root, 1, None) && channel_is_judged(
            between,
            after,
            root,
            2,
            None,
        );
    lemma_channel_permitted(before, between, root, 1);
    lemma_channel_permitted(between, after, root, 2);
    let n = before.len() as int;
    assert(after[n] == between[n] && after[n + 1] == between[n + 1] && after[n + 2] == between[n
        + 2]);
    assert forall|i: int| 0 <= i < n implies #[trigger] after[i] == before[i] by {
        assert(after[i] == between[i]);
    }
}

/// Whether fifteen calls checked a device's directory: its names, the permissions of both fans' files,
/// its own name and the permission of that, and the fans' files again.
pub open spec fn is_checked(calls: Calls, from: int, root: Seq<char>, identity: FileIdentity) -> bool {
    &&& calls[from] matches MachineCall::ListBound { root: listed, identity: bound, answer: Ok(entries) }
        && listed == root && bound == identity && names_error(root, entries@) is None
    &&& are_permitted(calls, from + 1, root)
    &&& calls[from + 7] matches MachineCall::ReadBound {
        root: read,
        identity: bound,
        child,
        answer: Ok(name),
    } && read == root && bound == identity && child == "name"@ && name@ == "acer\n"@
    &&& is_permitted(calls[from + 8], child_path(root, "name"@), FilePermissions::ReadOnly)
    &&& are_permitted(calls, from + 9, root)
}

/// A directory that is accepted was checked in fifteen calls and no others.
pub proof fn accepted_directories_were_checked(
    before: Calls,
    after: Calls,
    root: Seq<char>,
    identity: FileIdentity,
)
    requires
        abi_is_judged(before, after, root, identity, None),
    ensures
        goes_on(before, after, 15),
        is_checked(after, before.len() as int, root, identity),
{
    let (listed, listing) = choose|listed: Calls, listing: Result<Vec<ListedEntry>, PlatformError>|
        #[trigger] crate::platform::bound_listing_came(before, listed, root, identity, listing)
            && match listing {
            Err(e) => false,
            Ok(entries) => names_error(root, entries@) is None
                && crate::acer_hwmon::listed_abi_is_judged(listed, after, root, identity, None),
        };
    let permitted = choose|between: Calls|
        #[trigger] channels_are_judged(listed, between, root, None)
            && crate::acer_hwmon::name_is_judged(between, after, root, identity, None);
    lemma_channels_permitted(listed, permitted, root);
    let (read, name) = choose|read: Calls, name: Result<String, PlatformError>|
        #[trigger] crate::platform::contents_came(permitted, read, root, identity, "name"@, name)
            && match name {
            Err(e) => false,
            Ok(text) => text@ == "acer\n"@ && crate::acer_hwmon::named_abi_is_judged(
                read,
                after,
                root,
                None,
            ),
        };
    let named = choose|between: Calls|
        #[trigger] permissions_are_judged(
            read,
            between,
            child_path(root, "name"@),
            FilePermissions::ReadOnly,
            None,
        ) && channels_are_judged(between, after, root, None);
    lemma_channels_permitted(named, after, root);
    let n = before.len() as int;
    assert(listed.len() == n + 1 && permitted.len() == n + 7 && read.len() == n + 8 && named.len()
        == n + 9);
    assert forall|i: int| 0 <= i < n + 9 implies #[trigger] after[i] == named[i] by {}
    assert forall|i: int| 0 <= i < n + 8 implies #[trigger] after[i] == read[i] by {
        assert(after[i] == named[i] && named[i] == read[i]);
    }
    assert forall|i: int| 0 <= i < n + 7 implies #[trigger] after[i] == permitted[i] by {
        assert(after[i] == read[i] && read[i] == permitted[i]);
    }
    assert forall|i: int| 0 <= i < n + 1 implies #[trigger] after[i] == listed[i] by {
        assert(after[i] == permitted[i] && permitted[i] == listed[i]);
    }
    assert forall|i: int| 0 <= i < n implies #[trigger] after[i] == before[i] by {
        assert(after[i] == listed[i] && listed[i] == before[i]);
    }
    assert(after[n] == listed[n]);
    assert(after[n + 7] == read[n + 7]);
    assert(after[n + 8] == named[n + 8]);
}

/// Whether a call asked for the identity of a path and got one.
pub open spec fn is_identified(
    call: MachineCall,
    path: Seq<char>,
    identity: Option<FileIdentity>,
) -> bool {
    call matches MachineCall::Identity { path: asked, answer: Ok(actual) } && asked == path
        && Some(actual) == identity
}

/// Whether six calls asked for the identities of both fans' files and got those that they are bound to.
pub open spec fn are_identified(
    calls: Calls,
    from: int,
    cpu: FanEndpointsModel,
    gpu: FanEndpointsModel,
) -> bool {
    &&& is_identified(calls[from], cpu.pwm, cpu.pwm_identity)
    &&& is_identified(calls[from + 1], cpu.enable, cpu.enable_identity)
    &&& is_identified(calls[from + 2], cpu.tachometer, cpu.tachometer_identity)
    &&& is_identified(calls[from + 3], gpu.pwm, gpu.pwm_identity)
    &&& is_identified(calls[from + 4], gpu.enable, gpu.enable_identity)
    &&& is_identified(calls[from + 5], gpu.tachometer, gpu.tachometer_identity)
}

proof fn lemma_bound(
    before: Calls,
    after: Calls,
    root: Seq<char>,
    channel: nat,
    fan: FanEndpointsModel,
)
    requires
        binding_is_made(before, after, root, channel, Ok(fan)),
    ensures
        goes_on(before, after, 3),
        endpoints_are_bound(fan, root, channel),
        is_identified(after[before.len() as int], fan.pwm, fan.pwm_identity),
        is_identified(after[before.len() as int + 1], fan.enable, fan.enable_identity),
        is_identified(after[before.len() as int + 2], fan.tachometer, fan.tachometer_identity),
{
}

proof fn lemma_bound_twice(
    before: Calls,
    after: Calls,
    root: Seq<char>,
    cpu: FanEndpointsModel,
    gpu: FanEndpointsModel,
)
    requires
        bindings_are_made(before, after, root, Ok((cpu, gpu))),
    ensures
        goes_on(before, after, 12),
        are_identified(after, before.len() as int, cpu, gpu),
        are_identified(after, before.len() as int + 6, cpu, gpu),
        endpoints_are_bound(cpu, root, 1),
        endpoints_are_bound(gpu, root, 2),
{
    let bindings = Ok::<(FanEndpointsModel, FanEndpointsModel), DiscoveryErrorModel>((cpu, gpu));
    let (first, cpu1) = choose|between: Calls, cpu: FanEndpointsModel|
        #[trigger] binding_is_made(before, between, root, 1, Ok(cpu))
            && crate::acer_hwmon::gpu_binding_is_made(between, after, root, cpu, bindings);
    let (second, gpu1) = choose|between: Calls, gpu: FanEndpointsModel|
        #[trigger] binding_is_made(first, between, root, 2, Ok(gpu))
            && crate::acer_hwmon::cpu_binding_is_remade(between, after, root, cpu1, gpu, bindings);
    let (third, cpu2) = choose|between: Calls, again: FanEndpointsModel|
        #[trigger] binding_is_made(second, between, root, 1, Ok(again)) && again == cpu1
            && crate::acer_hwmon::gpu_binding_is_remade(between, after, root, cpu1, gpu1, bindings);
    let gpu2 = choose|again: FanEndpointsModel|
        #[trigger] binding_is_made(third, after, root, 2, Ok(again)) && again == gpu1 && bindings
            == Ok::<(FanEndpointsModel, FanEndpointsModel), DiscoveryErrorModel>((cpu1, gpu1));
    lemma_bound(before, first, root, 1, cpu1);
    lemma_bound(first, second, root, 2, gpu1);
    lemma_bound(second, third, root, 1, cpu2);
    lemma_bound(third, after, root, 2, gpu2);
    let n = before.len() as int;
    assert forall|i: int| 0 <= i < n + 9 implies #[trigger] after[i] == third[i] by {}
    assert forall|i: int| 0 <= i < n + 6 implies #[trigger] after[i] == second[i] by {
        assert(after[i] == third[i] && third[i] == second[i]);
    }
    assert forall|i: int| 0 <= i < n + 3 implies #[trigger] after[i] == first[i] by {
        assert(after[i] == second[i] && second[i] == first[i]);
    }
    assert forall|i: int| 0 <= i < n implies #[trigger] after[i] == before[i] by {
        assert(after[i] == first[i] && first[i] == before[i]);
    }
}

proof fn lemma_check_stays(
    earlier: Calls,
    later: Calls,
    from: int,
    root: Seq<char>,
    identity: FileIdentity,
)
    requires
        is_checked(earlier, from, root, identity),
        0 <= from,
        from + 15 <= earlier.len() <= later.len(),
        forall|i: int| 0 <= i < earlier.len() ==> #[trigger] later[i] == earlier[i],
    ensures
        is_checked(later, from, root, identity),
{
    assert(later[from] == earlier[from]);
    assert(are_permitted(later, from + 1, root)) by {
        assert(later[from + 1] == earlier[from + 1]);
        assert(later[from + 1 + 1] == earlier[from + 1 + 1]);
        assert(later[from + 1 + 2] == earlier[from + 1 + 2]);
        assert(later[from + 1 + 3] == earlier[from + 1 + 3]);
        assert(later[from + 1 + 4] == earlier[from + 1 + 4]);
        assert(later[from + 1 + 5] == earlier[from + 1 + 5]);
    }
    assert(later[from + 7] == earlier[from + 7]);
    assert(later[from + 8] == earlier[from + 8]);
    assert(are_permitted(later, from + 9, root)) by {
        assert(later[from + 9] == earlier[from + 9]);
        assert(later[from + 9 + 1] == earlier[from + 9 + 1]);
        assert(later[from + 9 + 2] == earlier[from + 9 + 2]);
        assert(later[from + 9 + 3] == earlier[from + 9 + 3]);
        assert(later[from + 9 + 4] == earlier[from + 9 + 4]);
        assert(later[from + 9 + 5] == earlier[from + 9 + 5]);
    }
}

proof fn lemma_rediscovered(
    before: Calls,
    after: Calls,
    hwmon_root: Seq<char>,
    found: FoundDevice,
    device: DeviceModel,
)
    requires
        crate::acer_hwmon::rediscovery_is_made(before, after, hwmon_root, found, Ok(device)),
    ensures
        ({
            let n = after.len() as int;
            &&& n >= before.len() + 27
            &&& device.hwmon_root == hwmon_root
            &&& device.root == found.0 && device.backing_identity == found.1
            &&& device_is_bound(device)
            &&& is_checked(after, n - 27, device.root, device.backing_identity)
            &&& are_identified(after, n - 12, device.cpu, device.gpu)
            &&& are_identified(after, n - 6, device.cpu, device.gpu)
        }),
{
    let outcome = Ok::<DeviceModel, DiscoveryErrorModel>(device);
    let (again, search) = choose|
        again: Calls,
        search: Result<Seq<FoundDevice>, DiscoveryErrorModel>,
    |
        #[trigger] search_is_made(before, again, hwmon_root, search) && match search {
            Err(error) => false,
            Ok(twice) => only_found(twice) == Ok::<FoundDevice, DiscoveryErrorModel>(found)
                && crate::acer_hwmon::found_device_is_bound(
                again,
                after,
                hwmon_root,
                found,
                outcome,
            ),
        };
    lemma_search_goes_on(before, again, hwmon_root, search);
    let rechecked = choose|between: Calls|
        #[trigger] abi_is_judged(again, between, found.0, found.1, None) && device.hwmon_root
            == hwmon_root && device.root == found.0 && device.backing_identity == found.1
            && bindings_are_made(between, after, found.0, Ok((device.cpu, device.gpu)));
    accepted_directories_were_checked(again, rechecked, found.0, found.1);
    lemma_bound_twice(rechecked, after, found.0, device.cpu, device.gpu);
    let m = again.len() as int;
    lemma_check_stays(rechecked, after, m, device.root, device.backing_identity);
    assert(after.len() - 27 == m);
}

/// A device that is discovered lies under the searched directory, and at the end was checked whole and
/// had the identities of all six files asked for twice, with the same answers; these are what it is
/// bound to.
pub proof fn discovered_devices_were_checked_and_bound_twice(
    before: Calls,
    after: Calls,
    hwmon_root: Seq<char>,
    device: DeviceModel,
)
    requires
        discovery_is_made(before, after, hwmon_root, Ok(device)),
    ensures
        ({
            let n = after.len() as int;
            &&& n >= before.len() + 27
            &&& device.hwmon_root == hwmon_root
            &&& device_is_bound(device)
            &&& is_checked(after, n - 27, device.root, device.backing_identity)
            &&& are_identified(after, n - 12, device.cpu, device.gpu)
            &&& are_identified(after, n - 6, device.cpu, device.gpu)
        }),
{
    let outcome = Ok::<DeviceModel, DiscoveryErrorModel>(device);
    let (searched, search) = choose|
        searched: Calls,
        search: Result<Seq<FoundDevice>, DiscoveryErrorModel>,
    |
        #[trigger] search_is_made(before, searched, hwmon_root, search) && match search {
            Err(error) => false,
            Ok(found) => match only_found(found) {
                Err(error) => false,
                Ok(device) => crate::acer_hwmon::found_device_is_discovered(
                    searched,
                    after,
                    hwmon_root,
                    device,
                    outcome,
                ),
            },
        };
    lemma_search_goes_on(before, searched, hwmon_root, search);
    let found = only_found(search->Ok_0)->Ok_0;
    let checked = choose|between: Calls|
        #[trigger] abi_is_judged(searched, between, found.0, found.1, None)
            && crate::acer_hwmon::rediscovery_is_made(between, after, hwmon_root, found, outcome);
    accepted_directories_were_checked(searched, checked, found.0, found.1);
    lemma_rediscovered(checked, after, hwmon_root, found, device);
}

/// A candidate counts as the device exactly where its name file says so. It was then asked for its
/// identity, read under it, and its name found read-only.
pub proof fn found_candidates_are_named_acer(
    before: Calls,
    after: Calls,
    entry: ListedEntry,
    outcome: Result<Option<FileIdentity>, DiscoveryErrorModel>,
)
    requires
        candidate_is_judged(before, after, entry, outcome),
        outcome is Ok,
    ensures
        ({
            let n = before.len() as int;
            &&& candidate_error(entry) is None
            &&& after.len() > n + 1
            &&& forall|i: int| 0 <= i < n ==> #[trigger] after[i] == before[i]
            &&& after[n] matches MachineCall::Identity { path, answer: Ok(identity) } && {
                &&& path == entry.path@
                &&& after[n + 1] matches MachineCall::ReadBound {
                    root,
                    identity: bound,
                    child,
                    answer: Ok(name),
                }
                &&& root == entry.path@ && bound == identity && child == "name"@
                &&& name@ == "acer\n"@ <==> outcome->Ok_0 is Some
                &&& outcome->Ok_0 matches Some(found) ==> found == identity && after.len() == n + 3
                    && is_permitted(
                    after[n + 2],
                    child_path(entry.path@, "name"@),
                    FilePermissions::ReadOnly,
                )
            }
        }),
{
    let (known, answer) = choose|known: Calls, answer: Result<FileIdentity, PlatformError>|
        #[trigger] crate::platform::identity_came(before, known, entry.path@, answer)
            && match answer {
            Err(e) => false,
            Ok(identity) => crate::acer_hwmon::candidate_name_is_judged(
                known,
                after,
                entry.path@,
                identity,
                outcome,
            ),
        };
    let identity = answer->Ok_0;
    let name_path = child_path(entry.path@, "name"@);
    let (read, name) = choose|read: Calls, name: Result<String, PlatformError>|
        #[trigger] crate::platform::contents_came(
            known,
            read,
            entry.path@,
            identity,
            "name"@,
            name,
        ) && match name {
            Err(e) => false,
            Ok(text) => if text@ != "acer\n"@ {
                after == read && outcome == Ok::<Option<FileIdentity>, DiscoveryErrorModel>(None)
            } else {
                outcome matches Ok(found) && found == Some(identity) && permissions_are_judged(
                    read,
                    after,
                    name_path,
                    FilePermissions::ReadOnly,
                    None,
                )
            },
        };
    let n = before.len() as int;
    assert(known.len() == n + 1 && read.len() == n + 2);
    assert(after[n] == known[n]) by {
        assert(read[n] == known[n]);
    }
    assert(after[n + 1] == read[n + 1]);
    assert forall|i: int| 0 <= i < n implies #[trigger] after[i] == before[i] by {
        assert(after[i] == read[i] && read[i] == known[i] && known[i] == before[i]);
    }
}

proof fn lemma_candidates_go_on(
    before: Calls,
    after: Calls,
    entries: Seq<ListedEntry>,
    count: nat,
    found: Seq<FoundDevice>,
)
    requires
        candidates_are_judged(before, after, entries, count, Ok(found)),
        count <= entries.len(),
    ensures
        after.len() >= before.len(),
        forall|i: int| 0 <= i < before.len() ==> #[trigger] after[i] == before[i],
        found.len() <= count,
        forall|i: int| 0 <= i < count ==> candidate_error(#[trigger] entries[i]) is None,
    decreases count,
{
    if count > 0 {
        let search = Ok::<Seq<FoundDevice>, DiscoveryErrorModel>(found);
        let (between, fewer, outcome) = choose|
            between: Calls,
            fewer: Seq<FoundDevice>,
            outcome: Result<Option<FileIdentity>, DiscoveryErrorModel>,
        |
            {
                &&& candidates_are_judged(
                    before,
                    between,
                    entries,
                    (count - 1) as nat,
                    Ok(fewer),
                )
                &&& #[trigger] candidate_is_judged(between, after, entries[count - 1], outcome)
                &&& search == #[trigger] crate::acer_hwmon::with_candidate(
                    fewer,
                    entries[count - 1],
                    outcome,
                )
            };
        lemma_candidates_go_on(before, between, entries, (count - 1) as nat, fewer);
        found_candidates_are_named_acer(between, after, entries[count - 1], outcome);
        assert forall|i: int| 0 <= i < before.len() implies #[trigger] after[i] == before[i] by {
            assert(after[i] == between[i]);
        }
    }
}

proof fn lemma_search_goes_on(
    before: Calls,
    after: Calls,
    root: Seq<char>,
    search: Result<Seq<FoundDevice>, DiscoveryErrorModel>,
)
    requires
        search_is_made(before, after, root, search),
        search is Ok,
    ensures
        after.len() > before.len(),
{
    let (listed, listing) = choose|listed: Calls, listing: Result<Vec<ListedEntry>, PlatformError>|
        #[trigger] crate::platform::listing_came(before, listed, root, listing) && match listing {
            Err(e) => false,
            Ok(entries) => candidates_are_judged(
                listed,
                after,
                entries@,
                entries@.len(),
                search,
            ),
        };
    lemma_candidates_go_on(listed, after, listing->Ok_0@, listing->Ok_0@.len(), search->Ok_0);
}

/// A search that comes to an end listed the directory first and met only candidates there.
pub proof fn searches_meet_candidates_only(
    before: Calls,
    after: Calls,
    root: Seq<char>,
    found: Seq<FoundDevice>,
)
    requires
        search_is_made(before, after, root, Ok(found)),
    ensures
        after.len() > before.len(),
        after[before.len() as int] matches MachineCall::List { root: listed, answer: Ok(entries) }
            && {
            &&& listed == root
            &&& found.len() <= entries@.len()
            &&& forall|i: int|
                0 <= i < entries@.len() ==> candidate_error(#[trigger] entries@[i]) is None
        },
{
    let search = Ok::<Seq<FoundDevice>, DiscoveryErrorModel>(found);
    let (listed, listing) = choose|listed: Calls, listing: Result<Vec<ListedEntry>, PlatformError>|
        #[trigger] crate::platform::listing_came(before, listed, root, listing) && match listing {
            Err(e) => false,
            Ok(entries) => candidates_are_judged(
                listed,
                after,
                entries@,
                entries@.len(),
                search,
            ),
        };
    lemma_candidates_go_on(listed, after, listing->Ok_0@, listing->Ok_0@.len(), found);
    assert(after[before.len() as int] == listed[before.len() as int]);
}

/// Whether a call asked for the identity of a path by a deadline and got the bound one.
pub open spec fn is_kept(
    call: MachineCall,
    path: Seq<char>,
    identity: Option<FileIdentity>,
    deadline: u128,
) -> bool {
    call matches MachineCall::IdentityBefore { path: asked, deadline: by, answer: Ok(actual) }
        && asked == path && by == deadline && Some(actual) == identity
}

proof fn lemma_fan_kept(before: Calls, after: Calls, fan: FanEndpointsModel, deadline: u128)
    requires
        fan_is_judged(before, after, fan, deadline, Ok(true)),
    ensures
        goes_on(before, after, 3),
        is_kept(after[before.len() as int], fan.pwm, fan.pwm_identity, deadline),
        is_kept(after[before.len() as int + 1], fan.enable, fan.enable_identity, deadline),
        is_kept(after[before.len() as int + 2], fan.tachometer, fan.tachometer_identity, deadline),
{
    let yes = Ok::<bool, DiscoveryErrorModel>(true);
    let first = choose|between: Calls|
        #[trigger] crate::acer_hwmon::identity_is_judged(
            before,
            between,
            fan.pwm,
            fan.pwm_identity,
            deadline,
            yes,
        ) && crate::acer_hwmon::fan_is_judged_further(between, after, fan, deadline, yes);
    let second = choose|between: Calls|
        #[trigger] crate::acer_hwmon::identity_is_judged(
            first,
            between,
            fan.enable,
            fan.enable_identity,
            deadline,
            yes,
        ) && crate::acer_hwmon::identity_is_judged(
            between,
            after,
            fan.tachometer,
            fan.tachometer_identity,
            deadline,
            yes,
        );
    let n = before.len() as int;
    assert(first.len() == n + 1 && second.len() == n + 2 && after.len() == n + 3);
    assert(after[n] == second[n] && second[n] == first[n]);
    assert(after[n + 1] == second[n + 1]);
    assert forall|i: int| 0 <= i < n implies #[trigger] after[i] == before[i] by {
        assert(after[i] == second[i] && second[i] == first[i] && first[i] == before[i]);
    }
}

/// A device is found unchanged only where, last of all and by the deadline, each of its six files was
/// found under the identity that it is bound to.
pub proof fn unchanged_devices_keep_every_identity(
    before: Calls,
    after: Calls,
    device: DeviceModel,
    deadline: u128,
)
    requires
        device_is_judged(before, after, device, deadline, Ok(true)),
    ensures
        ({
            let n = after.len() as int;
            &&& n >= 6
            &&& is_kept(after[n - 6], device.cpu.pwm, device.cpu.pwm_identity, deadline)
            &&& is_kept(after[n - 5], device.cpu.enable, device.cpu.enable_identity, deadline)
            &&& is_kept(
                after[n - 4],
                device.cpu.tachometer,
                device.cpu.tachometer_identity,
                deadline,
            )
            &&& is_kept(after[n - 3], device.gpu.pwm, device.gpu.pwm_identity, deadline)
            &&& is_kept(after[n - 2], device.gpu.enable, device.gpu.enable_identity, deadline)
            &&& is_kept(
                after[n - 1],
                device.gpu.tachometer,
                device.gpu.tachometer_identity,
                deadline,
            )
        }),
{
    let yes = Ok::<bool, DiscoveryErrorModel>(true);
    let (searched, search) = choose|
        searched: Calls,
        search: Result<Seq<FoundDevice>, DiscoveryErrorModel>,
    |
        #[trigger] crate::acer_hwmon::search_is_made_before(
            before,
            searched,
            device.hwmon_root,
            deadline,
            search,
        ) && match search {
            Err(error) => false,
            Ok(found) => found.len() == 1 && found[0] == (device.root, device.backing_identity)
                && crate::acer_hwmon::found_device_is_judged(
                searched,
                after,
                device,
                deadline,
                yes,
            ),
        };
    let checked = choose|between: Calls|
        #[trigger] abi_is_judged_before(searched, between, device, deadline, None)
            && crate::acer_hwmon::endpoints_are_judged(between, after, device, deadline, yes);
    let half = choose|between: Calls|
        #[trigger] fan_is_judged(checked, between, device.cpu, deadline, yes) && fan_is_judged(
            between,
            after,
            device.gpu,
            deadline,
            yes,
        );
    lemma_fan_kept(checked, half, device.cpu, deadline);
    lemma_fan_kept(half, after, device.gpu, deadline);
    let n = after.len() as int;
    assert(after[n - 6] == half[n - 6] && after[n - 5] == half[n - 5] && after[n - 4] == half[n
        - 4]);
}

/// Whether a call asked for the permissions of a bound child by a deadline and got the expected ones.
pub open spec fn is_still_permitted(
    call: MachineCall,
    device: DeviceModel,
    child: Seq<char>,
    child_identity: Option<FileIdentity>,
    expected: FilePermissions,
    deadline: u128,
) -> bool {
    call matches MachineCall::PermissionsBoundBefore {
        root,
        identity,
        child: asked,
        child_identity: bound,
        deadline: by,
        answer: Ok(actual),
    } && root == device.root && identity == device.backing_identity && asked == child && Some(bound)
        == child_identity && by == deadline && actual == expected
}

proof fn lemma_bindings_permitted(
    before: Calls,
    after: Calls,
    device: DeviceModel,
    count: nat,
    deadline: u128,
)
    requires
        first_bindings_are_accepted(before, after, device, count, deadline),
        device_is_bound(device),
        count <= 6,
    ensures
        goes_on(before, after, count as int),
        forall|k: int|
            0 <= k < count ==> is_still_permitted(
                #[trigger] after[before.len() + k],
                device,
                crate::acer_hwmon::binding_at(device, k).0,
                Some(crate::acer_hwmon::binding_at(device, k).1),
                crate::acer_hwmon::permissions_at(k),
                deadline,
            ),
    decreases count,
{
    if count > 0 {
        let between = choose|between: Calls|
            {
                &&& first_bindings_are_accepted(
                    before,
                    between,
                    device,
                    (count - 1) as nat,
                    deadline,
                )
                &&& #[trigger] crate::acer_hwmon::binding_is_judged_before(
                    between,
                    after,
                    device,
                    count - 1,
                    deadline,
                    None,
                )
            };
        lemma_bindings_permitted(before, between, device, (count - 1) as nat, deadline);
        let n = before.len() as int;
        assert forall|k: int| 0 <= k < count implies is_still_permitted(
            #[trigger] after[before.len() + k],
            device,
            crate::acer_hwmon::binding_at(device, k).0,
            Some(crate::acer_hwmon::binding_at(device, k).1),
            crate::acer_hwmon::permissions_at(k),
            deadline,
        ) by {
            if k < count - 1 {
                assert(after[n + k] == between[n + k]);
            }
        }
        assert forall|i: int| 0 <= i < n implies #[trigger] after[i] == before[i] by {
            assert(after[i] == between[i]);
        }
    }
}

/// A bound directory passes a later check only where, by the deadline, it still held the expected names
/// and its own name, and both duties and modes were writable and both speeds were not, each under the
/// identity that it is bound to.
pub proof fn later_checks_ask_for_every_file(
    before: Calls,
    after: Calls,
    device: DeviceModel,
    deadline: u128,
)
    requires
        abi_is_judged_before(before, after, device, deadline, None),
        device_is_bound(device),
    ensures
        goes_on(before, after, 10),
        ({
            let n = before.len() as int;
            let write = FilePermissions::ReadWrite;
            let read = FilePermissions::ReadOnly;
            &&& after[n] matches MachineCall::ListBoundBefore {
                root,
                identity,
                deadline: by,
                answer: Ok(entries),
            } && root == device.root && identity == device.backing_identity && by == deadline
                && names_error(device.root, entries@) is None
            &&& after[n + 2] matches MachineCall::ReadBoundBefore {
                root,
                identity,
                child,
                deadline: by,
                answer: Ok(name),
                ..
            } && root == device.root && identity == device.backing_identity && by == deadline
                && child == "name"@ && name@ == "acer\n"@
            &&& is_still_permitted(
                after[n + 4],
                device,
                "pwm1"@,
                device.cpu.pwm_identity,
                write,
                deadline,
            )
            &&& is_still_permitted(
                after[n + 5],
                device,
                "pwm1_enable"@,
                device.cpu.enable_identity,
                write,
                deadline,
            )
            &&& is_still_permitted(
                after[n + 6],
                device,
                "fan1_input"@,
                device.cpu.tachometer_identity,
                read,
                deadline,
            )
            &&& is_still_permitted(
                after[n + 7],
                device,
                "pwm2"@,
                device.gpu.pwm_identity,
                write,
                deadline,
            )
            &&& is_still_permitted(
                after[n + 8],
                device,
                "pwm2_enable"@,
                device.gpu.enable_identity,
                write,
                deadline,
            )
            &&& is_still_permitted(
                after[n + 9],
                device,
                "fan2_input"@,
                device.gpu.tachometer_identity,
                read,
                deadline,
            )
        }),
{
    let (listed, listing) = choose|listed: Calls, listing: Result<Vec<ListedEntry>, PlatformError>|
        #[trigger] crate::platform::bound_listing_came_before(
            before,
            listed,
            device.root,
            device.backing_identity,
            deadline,
            listing,
        ) && match listing {
            Err(e) => false,
            Ok(entries) => names_error(device.root, entries@) is None
                && crate::acer_hwmon::listed_abi_is_judged_before(
                listed,
                after,
                device,
                deadline,
                None,
            ),
        };
    let (known, answer) = choose|known: Calls, answer: Result<FileIdentity, PlatformError>|
        #[trigger] crate::platform::identity_came_before(
            listed,
            known,
            child_path(device.root, "name"@),
            deadline,
            answer,
        ) && match answer {
            Err(e) => false,
            Ok(name_identity) => crate::acer_hwmon::name_is_judged_before(
                known,
                after,
                device,
                name_identity,
                deadline,
                None,
            ),
        };
    let name_identity = answer->Ok_0;
    let (told, name) = choose|told: Calls, name: Result<String, PlatformError>|
        #[trigger] crate::platform::contents_came_before(
            known,
            told,
            device.root,
            device.backing_identity,
            "name"@,
            name_identity,
            deadline,
            name,
        ) && match name {
            Err(e) => false,
            Ok(text) => text@ == "acer\n"@ && crate::acer_hwmon::named_abi_is_judged_before(
                told,
                after,
                device,
                name_identity,
                deadline,
                None,
            ),
        };
    let permitted = choose|between: Calls|
        #[trigger] crate::acer_hwmon::permissions_are_judged_before(
            told,
            between,
            device.root,
            device.backing_identity,
            "name"@,
            name_identity,
            FilePermissions::ReadOnly,
            deadline,
            None,
        ) && crate::acer_hwmon::bindings_are_judged_before(between, after, device, deadline, None);
    lemma_bindings_permitted(permitted, after, device, 6, deadline);
    let n = before.len() as int;
    assert(listed.len() == n + 1 && known.len() == n + 2 && told.len() == n + 3 && permitted.len()
        == n + 4);
    assert forall|i: int| 0 <= i < n + 1 implies #[trigger] after[i] == listed[i] by {
        assert(after[i] == permitted[i] && permitted[i] == told[i] && told[i] == known[i]
            && known[i] == listed[i]);
    }
    assert(after[n] == listed[n]);
    assert(after[n + 2] == permitted[n + 2] && permitted[n + 2] == told[n + 2]);
    assert forall|i: int| 0 <= i < n implies #[trigger] after[i] == before[i] by {
        assert(after[i] == listed[i] && listed[i] == before[i]);
    }
    let p = permitted.len() as int;
    assert(after[p + 0] == after[n + 4] && after[p + 1] == after[n + 5] && after[p + 2] == after[n
        + 6] && after[p + 3] == after[n + 7] && after[p + 4] == after[n + 8] && after[p + 5]
        == after[n + 9]);
}

} // verus!
