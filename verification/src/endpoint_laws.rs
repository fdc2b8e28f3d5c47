//! Which file a fan's duty, mode and speed are reached by.

use vstd::prelude::*;
use crate::acer_hwmon::{bound_identity, device_is_bound, DeviceModel};
use crate::discovery_laws::bound_fans_are_the_two_channels;
use crate::endpoint_io::{child_name, endpoint_read, endpoint_write, Endpoint};
use crate::machine::MachineCall;
use crate::platform::{child_path, PlatformError};
use crate::tachometer::Fan;

verus! {

proof fn lemma_children_differ(root: Seq<char>, first: Seq<char>, second: Seq<char>)
    requires
        first != second,
    ensures
        child_path(root, first) != child_path(root, second),
{
    let base = if crate::text::finishes_with(root, "/"@) {
        root
    } else {
        root + "/"@
    };
    assert(child_path(root, first) =~= base + first);
    assert(child_path(root, second) =~= base + second);
    if base + first == base + second {
        assert((base + first).skip(base.len() as int) =~= first);
        assert((base + second).skip(base.len() as int) =~= second);
    }
}

proof fn lemma_names_differ()
    ensures
        "pwm1"@ != "pwm1_enable"@,
        "pwm1"@ != "fan1_input"@,
        "pwm1"@ != "pwm2"@,
        "pwm1"@ != "pwm2_enable"@,
        "pwm1"@ != "fan2_input"@,
        "pwm1_enable"@ != "fan1_input"@,
        "pwm1_enable"@ != "pwm2"@,
        "pwm1_enable"@ != "pwm2_enable"@,
        "pwm1_enable"@ != "fan2_input"@,
        "fan1_input"@ != "pwm2"@,
        "fan1_input"@ != "pwm2_enable"@,
        "fan1_input"@ != "fan2_input"@,
        "pwm2"@ != "pwm2_enable"@,
        "pwm2"@ != "fan2_input"@,
        "pwm2_enable"@ != "fan2_input"@,
{
    reveal_strlit("pwm1");
    reveal_strlit("pwm1_enable");
    reveal_strlit("fan1_input");
    reveal_strlit("pwm2");
    reveal_strlit("pwm2_enable");
    reveal_strlit("fan2_input");
    assert("pwm1"@.len() == 4 && "pwm2"@.len() == 4);
    assert("pwm1_enable"@.len() == 11 && "pwm2_enable"@.len() == 11);
    assert("fan1_input"@.len() == 10 && "fan2_input"@.len() == 10);
    assert("pwm1"@[3] == '1' && "pwm2"@[3] == '2');
    assert("pwm1_enable"@[3] == '1' && "pwm2_enable"@[3] == '2');
    assert("fan1_input"@[3] == '1' && "fan2_input"@[3] == '2');
}

/// The identity that a bound device has for each of its six files is the one of that file.
pub proof fn bound_files_keep_their_identities(device: DeviceModel)
    requires
        device_is_bound(device),
    ensures
        bound_identity(device, device.cpu.pwm) == device.cpu.pwm_identity,
        bound_identity(device, device.cpu.enable) == device.cpu.enable_identity,
        bound_identity(device, device.cpu.tachometer) == device.cpu.tachometer_identity,
        bound_identity(device, device.gpu.pwm) == device.gpu.pwm_identity,
        bound_identity(device, device.gpu.enable) == device.gpu.enable_identity,
        bound_identity(device, device.gpu.tachometer) == device.gpu.tachometer_identity,
        bound_identity(device, child_path(device.root, "name"@)) is None,
{
    bound_fans_are_the_two_channels(device);
    lemma_names_differ();
    let root = device.root;
    lemma_children_differ(root, "pwm1"@, "pwm1_enable"@);
    lemma_children_differ(root, "pwm1"@, "fan1_input"@);
    lemma_children_differ(root, "pwm1"@, "pwm2"@);
    lemma_children_differ(root, "pwm1"@, "pwm2_enable"@);
    lemma_children_differ(root, "pwm1"@, "fan2_input"@);
    lemma_children_differ(root, "pwm1_enable"@, "fan1_input"@);
    lemma_children_differ(root, "pwm1_enable"@, "pwm2"@);
    lemma_children_differ(root, "pwm1_enable"@, "pwm2_enable"@);
    lemma_children_differ(root, "pwm1_enable"@, "fan2_input"@);
    lemma_children_differ(root, "fan1_input"@, "pwm2"@);
    lemma_children_differ(root, "fan1_input"@, "pwm2_enable"@);
    lemma_children_differ(root, "fan1_input"@, "fan2_input"@);
    lemma_children_differ(root, "pwm2"@, "pwm2_enable"@);
    lemma_children_differ(root, "pwm2"@, "fan2_input"@);
    lemma_children_differ(root, "pwm2_enable"@, "fan2_input"@);
    reveal_strlit("name");
    reveal_strlit("pwm1");
    reveal_strlit("pwm1_enable");
    reveal_strlit("fan1_input");
    reveal_strlit("pwm2");
    reveal_strlit("pwm2_enable");
    reveal_strlit("fan2_input");
    assert("name"@[0] == 'n' && "pwm1"@[0] == 'p' && "pwm1_enable"@[0] == 'p' && "fan1_input"@[0]
        == 'f' && "pwm2"@[0] == 'p' && "pwm2_enable"@[0] == 'p' && "fan2_input"@[0] == 'f');
    lemma_children_differ(root, "name"@, "pwm1"@);
    lemma_children_differ(root, "name"@, "pwm1_enable"@);
    lemma_children_differ(root, "name"@, "fan1_input"@);
    lemma_children_differ(root, "name"@, "pwm2"@);
    lemma_children_differ(root, "name"@, "pwm2_enable"@);
    lemma_children_differ(root, "name"@, "fan2_input"@);
}

/// Two files of the fans have one name only where they are the same file.
pub proof fn files_are_told_apart(
    first: Fan,
    first_endpoint: Endpoint,
    second: Fan,
    second_endpoint: Endpoint,
)
    ensures
        child_name(first, first_endpoint) == child_name(second, second_endpoint) <==> first
            == second && first_endpoint == second_endpoint,
{
    lemma_names_differ();
}

/// A file is read under the device's directory and identity, by the fan's own name and identity.
pub proof fn reads_name_the_fan(
    device: DeviceModel,
    endpoint: Endpoint,
    deadline: u128,
    answer: Result<String, PlatformError>,
)
    requires
        device_is_bound(device),
    ensures
        endpoint_read(device, Fan::Cpu, endpoint, deadline, answer) matches
            MachineCall::ReadBoundBefore {
            root,
            identity,
            child,
            child_identity,
            deadline: by,
            answer: came,
        } && {
            &&& root == device.root && identity == device.backing_identity
            &&& by == deadline && came == answer
            &&& endpoint is Duty ==> child == "pwm1"@ && Some(child_identity)
                == device.cpu.pwm_identity
            &&& endpoint is Mode ==> child == "pwm1_enable"@ && Some(child_identity)
                == device.cpu.enable_identity
            &&& endpoint is Tachometer ==> child == "fan1_input"@ && Some(child_identity)
                == device.cpu.tachometer_identity
        },
        endpoint_read(device, Fan::Gpu, endpoint, deadline, answer) matches
            MachineCall::ReadBoundBefore {
            root,
            identity,
            child,
            child_identity,
            deadline: by,
            answer: came,
        } && {
            &&& root == device.root && identity == device.backing_identity
            &&& by == deadline && came == answer
            &&& endpoint is Duty ==> child == "pwm2"@ && Some(child_identity)
                == device.gpu.pwm_identity
            &&& endpoint is Mode ==> child == "pwm2_enable"@ && Some(child_identity)
                == device.gpu.enable_identity
            &&& endpoint is Tachometer ==> child == "fan2_input"@ && Some(child_identity)
                == device.gpu.tachometer_identity
        },
{
}

/// A file is written under the device's directory and identity, with all six files held to their
/// identities and both modes to the expected ones.
pub proof fn writes_are_guarded_by_both_modes(
    device: DeviceModel,
    fan: Fan,
    endpoint: Endpoint,
    modes: (Seq<char>, Seq<char>),
    contents: Seq<char>,
    deadline: u128,
    answer: Result<(), PlatformError>,
)
    requires
        device_is_bound(device),
    ensures
        endpoint_write(device, fan, endpoint, modes, contents, deadline, answer) matches
            MachineCall::WriteBoundIfBefore {
            root,
            identity,
            endpoints,
            guards,
            child,
            contents: written,
            deadline: by,
            answer: came,
        } && {
            &&& root == device.root && identity == device.backing_identity
            &&& written == contents && by == deadline && came == answer
            &&& child == child_name(fan, endpoint)
            &&& endpoints.len() == 6
            &&& endpoints[0] == ("pwm1"@, device.cpu.pwm_identity->0)
            &&& endpoints[1] == ("pwm1_enable"@, device.cpu.enable_identity->0)
            &&& endpoints[2] == ("fan1_input"@, device.cpu.tachometer_identity->0)
            &&& endpoints[3] == ("pwm2"@, device.gpu.pwm_identity->0)
            &&& endpoints[4] == ("pwm2_enable"@, device.gpu.enable_identity->0)
            &&& endpoints[5] == ("fan2_input"@, device.gpu.tachometer_identity->0)
            &&& guards.len() == 2
            &&& guards[0] == ("pwm1_enable"@, modes.0)
            &&& guards[1] == ("pwm2_enable"@, modes.1)
        },
{
}

} // verus!
