//! Bound reads and writes of the six fan endpoints, and what their contents tell.

use vstd::prelude::*;
use vstd::string::*;
use crate::acer_hwmon::{device_is_bound, AcerHwmonDevice, DeviceModel};
use crate::coretemp::are_digits;
use crate::platform::{
    bound_names, guarded_names, BoundedIdentityBoundFileAccess, FileIdentity, PlatformError,
};
use crate::tachometer::{plausible_rpm, rpm_is_plausible, Fan};
use crate::text::{all_digits, decimal_value, join3, parse_unsigned, trim_chars, trimmed};
use crate::machine::MachineCall;

verus! {

broadcast use vstd::string::group_string_axioms;

/// How a text is spelled between quotes, with what is not printable escaped.
pub uninterp spec fn quoted_text(text: Seq<char>) -> Seq<char>;

/// Spells a text between quotes: the `Debug` format of `str` in the standard library. The contract
/// only names the result, which depends on the text alone.
#[verifier::external_body]
pub(crate) fn quoted(text: &str) -> (spelled: String)
    ensures
        spelled@ == quoted_text(text@),
{
    format!("{text:?}")
}

/// The message of a tachometer whose contents are no speed. The contents are given between quotes.
pub open spec fn malformed_tachometer_text(fan: Fan, shown: Seq<char>) -> Seq<char> {
    fan.label() + " fan tachometer readback is malformed: "@ + shown
}

/// Forms the message of a tachometer whose contents are no speed.
pub fn malformed_tachometer_message(fan: Fan, shown: &str) -> (text: String)
    ensures
        text@ == malformed_tachometer_text(fan, shown@),
{
    join3(fan.name(), " fan tachometer readback is malformed: ", shown)
}

/// An endpoint of a fan.
#[derive(Debug, Clone, Copy, PartialEq, Eq, Structural)]
pub enum Endpoint {
    Duty,
    Mode,
    Tachometer,
}

/// The file name of an endpoint.
pub open spec fn child_name(fan: Fan, endpoint: Endpoint) -> Seq<char> {
    match (fan, endpoint) {
        (Fan::Cpu, Endpoint::Duty) => "pwm1"@,
        (Fan::Cpu, Endpoint::Mode) => "pwm1_enable"@,
        (Fan::Cpu, Endpoint::Tachometer) => "fan1_input"@,
        (Fan::Gpu, Endpoint::Duty) => "pwm2"@,
        (Fan::Gpu, Endpoint::Mode) => "pwm2_enable"@,
        (Fan::Gpu, Endpoint::Tachometer) => "fan2_input"@,
    }
}

pub(crate) fn child_of(fan: Fan, endpoint: Endpoint) -> (name: &'static str)
    ensures
        name@ == child_name(fan, endpoint),
{
    match (fan, endpoint) {
        (Fan::Cpu, Endpoint::Duty) => "pwm1",
        (Fan::Cpu, Endpoint::Mode) => "pwm1_enable",
        (Fan::Cpu, Endpoint::Tachometer) => "fan1_input",
        (Fan::Gpu, Endpoint::Duty) => "pwm2",
        (Fan::Gpu, Endpoint::Mode) => "pwm2_enable",
        (Fan::Gpu, Endpoint::Tachometer) => "fan2_input",
    }
}

/// The identity that a bound device's endpoint must keep.
pub open spec fn identity_at(device: DeviceModel, fan: Fan, endpoint: Endpoint) -> FileIdentity {
    let endpoints = match fan {
        Fan::Cpu => device.cpu,
        Fan::Gpu => device.gpu,
    };
    match endpoint {
        Endpoint::Duty => endpoints.pwm_identity->0,
        Endpoint::Mode => endpoints.enable_identity->0,
        Endpoint::Tachometer => endpoints.tachometer_identity->0,
    }
}

fn find_identity(device: &AcerHwmonDevice, fan: Fan, endpoint: Endpoint) -> (identity: FileIdentity)
    requires
        device_is_bound(device@),
    ensures
        identity == identity_at(device@, fan, endpoint),
{
    let endpoints = match fan {
        Fan::Cpu => device.cpu(),
        Fan::Gpu => device.gpu(),
    };
    match endpoint {
        Endpoint::Duty => endpoints.pwm_identity().unwrap(),
        Endpoint::Mode => endpoints.enable_identity().unwrap(),
        Endpoint::Tachometer => endpoints.tachometer_identity().unwrap(),
    }
}

/// The six endpoints of a bound device and the identities that they must keep.
pub open spec fn all_bindings(device: DeviceModel) -> Seq<(Seq<char>, FileIdentity)> {
    seq![
        (child_name(Fan::Cpu, Endpoint::Duty), identity_at(device, Fan::Cpu, Endpoint::Duty)),
        (child_name(Fan::Cpu, Endpoint::Mode), identity_at(device, Fan::Cpu, Endpoint::Mode)),
        (
            child_name(Fan::Cpu, Endpoint::Tachometer),
            identity_at(device, Fan::Cpu, Endpoint::Tachometer),
        ),
        (child_name(Fan::Gpu, Endpoint::Duty), identity_at(device, Fan::Gpu, Endpoint::Duty)),
        (child_name(Fan::Gpu, Endpoint::Mode), identity_at(device, Fan::Gpu, Endpoint::Mode)),
        (
            child_name(Fan::Gpu, Endpoint::Tachometer),
            identity_at(device, Fan::Gpu, Endpoint::Tachometer),
        ),
    ]
}

/// The modes that both fans must still be in.
pub open spec fn mode_guards(cpu_mode: Seq<char>, gpu_mode: Seq<char>) -> Seq<
    (Seq<char>, Seq<char>),
> {
    seq![
        (child_name(Fan::Cpu, Endpoint::Mode), cpu_mode),
        (child_name(Fan::Gpu, Endpoint::Mode), gpu_mode),
    ]
}

/// The call that reads an endpoint by a deadline.
pub open spec fn endpoint_read(
    device: DeviceModel,
    fan: Fan,
    endpoint: Endpoint,
    deadline: u128,
    answer: Result<String, PlatformError>,
) -> MachineCall {
    MachineCall::ReadBoundBefore {
        root: device.root,
        identity: device.backing_identity,
        child: child_name(fan, endpoint),
        child_identity: identity_at(device, fan, endpoint),
        deadline,
        answer,
    }
}

/// The call that writes an endpoint by a deadline, while all endpoints keep their identities and
/// both fans are in the given modes, the CPU fan's first.
pub open spec fn endpoint_write(
    device: DeviceModel,
    fan: Fan,
    endpoint: Endpoint,
    modes: (Seq<char>, Seq<char>),
    contents: Seq<char>,
    deadline: u128,
    answer: Result<(), PlatformError>,
) -> MachineCall {
    MachineCall::WriteBoundIfBefore {
        root: device.root,
        identity: device.backing_identity,
        endpoints: all_bindings(device),
        guards: mode_guards(modes.0, modes.1),
        child: child_name(fan, endpoint),
        contents,
        deadline,
        answer,
    }
}

/// Reads an endpoint of a bound device.
pub(crate) fn read_endpoint<P>(
    platform: &mut P,
    device: &AcerHwmonDevice,
    fan: Fan,
    endpoint: Endpoint,
    deadline: u128,
) -> (answer: Result<String, PlatformError>) where P: BoundedIdentityBoundFileAccess + ?Sized
    requires
        device_is_bound(device@),
    ensures
        final(platform).history() == old(platform).history().push(
            endpoint_read(device@, fan, endpoint, deadline, answer),
        ),
{
    platform.read_bound_before(
        device.root(),
        device.backing_identity(),
        child_of(fan, endpoint),
        find_identity(device, fan, endpoint),
        deadline,
    )
}

/// Writes an endpoint of a bound device while both modes are the expected ones.
pub(crate) fn write_endpoint<P>(
    platform: &mut P,
    device: &AcerHwmonDevice,
    fan: Fan,
    endpoint: Endpoint,
    cpu_mode: &str,
    gpu_mode: &str,
    contents: &str,
    deadline: u128,
) -> (answer: Result<(), PlatformError>) where P: BoundedIdentityBoundFileAccess + ?Sized
    requires
        device_is_bound(device@),
    ensures
        final(platform).history() == old(platform).history().push(
            endpoint_write(
                device@,
                fan,
                endpoint,
                (cpu_mode@, gpu_mode@),
                contents@,
                deadline,
                answer,
            ),
        ),
{
    let mut guards: Vec<(String, String)> = Vec::new();
    guards.push((child_of(Fan::Cpu, Endpoint::Mode).to_owned(), cpu_mode.to_owned()));
    guards.push((child_of(Fan::Gpu, Endpoint::Mode).to_owned(), gpu_mode.to_owned()));
    let bindings = device.endpoint_bindings();
    proof {
        assert(bound_names(bindings@) =~= all_bindings(device@));
        assert(guarded_names(guards@) =~= mode_guards(cpu_mode@, gpu_mode@));
    }
    platform.write_bound_if_before(
        device.root(),
        device.backing_identity(),
        &bindings,
        &guards,
        child_of(fan, endpoint),
        contents,
        deadline,
    )
}

/// What a tachometer's contents tell: nothing trustworthy, a fan that stands still, or a speed.
pub open spec fn tachometer_reading(contents: Seq<char>) -> Option<Option<u32>> {
    let value = trimmed(contents);
    if value.len() == 0 || !all_digits(value) || decimal_value(value) > u32::MAX {
        None
    } else {
        let rpm = decimal_value(value) as u32;
        if rpm == 0 {
            Some(None)
        } else if plausible_rpm(rpm) {
            Some(Some(rpm))
        } else {
            None
        }
    }
}

/// Reads a tachometer's contents.
pub fn parse_tachometer_contents(contents: &str) -> (reading: Option<Option<u32>>)
    ensures
        reading == tachometer_reading(contents@),
{
    let value = trim_chars(contents);
    if value.len() == 0 || !are_digits(&value) {
        return None;
    }
    assert(value@[0] != '+');
    match parse_unsigned(value.as_slice(), u32::MAX as u64) {
        None => None,
        Some(number) => {
            let rpm: u32 = number as u32;
            if rpm == 0 {
                Some(None)
            } else if rpm_is_plausible(rpm) {
                Some(Some(rpm))
            } else {
                None
            }
        },
    }
}

} // verus!
