//! The calls of a handover and of normal control.

use vstd::prelude::*;
use vstd::string::*;
use crate::acer_hwmon::{
    answer_of, device_is_bound, device_is_judged, AcerHwmonDevice, AcerHwmonDiscoveryError,
    DeviceModel, DiscoveryErrorModel,
};
use crate::arming::{ControllerOwnership, FirmwareAutoSafingOutcome};
use crate::endpoint_io::{endpoint_read, endpoint_write, read_endpoint, write_endpoint, Endpoint};
use crate::platform::{BoundedIdentityBoundFileAccess, Clock, PlatformError};
use crate::tachometer::Fan;
use crate::trace::{CallOn, Trace};
use crate::machine::MachineCall;

verus! {

/// A call of a handover or of normal control, with what was asked and what came back.
#[allow(inconsistent_fields)]
pub enum ControllerCall {
    OwnershipId { answer: u64 },
    SamplingEpoch { answer: u64 },
    BeginCustomTransition { answer: u64 },
    CustomEpochIsCurrent { ownership_id: u64, custom_epoch: u64, answer: bool },
    RestoreOrContainFirmwareAuto { device: DeviceModel, answer: FirmwareAutoSafingOutcome },
    MonotonicNow { answer: u128 },
    Delay { nanos: u128 },
    /// The reads by which a device is checked.
    CheckDevice {
        device: DeviceModel,
        deadline: u128,
        answer: Result<bool, DiscoveryErrorModel>,
    },
    ReadEndpoint {
        device: DeviceModel,
        fan: Fan,
        endpoint: Endpoint,
        deadline: u128,
        answer: Result<String, PlatformError>,
    },
    WriteEndpoint {
        device: DeviceModel,
        fan: Fan,
        endpoint: Endpoint,
        /// The modes that the CPU fan and the GPU fan must be in.
        modes: (Seq<char>, Seq<char>),
        contents: Seq<char>,
        deadline: u128,
        answer: Result<(), PlatformError>,
    },
}

/// The call on the machine that a call is, apart from the check of a device, which takes several.
pub open spec fn machine_call(call: ControllerCall) -> MachineCall {
    match call {
        ControllerCall::OwnershipId { answer } => MachineCall::OwnershipId { answer },
        ControllerCall::SamplingEpoch { answer } => MachineCall::SamplingEpoch { answer },
        ControllerCall::BeginCustomTransition { answer } => MachineCall::BeginCustomTransition {
            answer,
        },
        ControllerCall::CustomEpochIsCurrent { ownership_id, custom_epoch, answer } =>
            MachineCall::CustomEpochIsCurrent { ownership_id, custom_epoch, answer },
        ControllerCall::RestoreOrContainFirmwareAuto { device, answer } =>
            MachineCall::RestoreOrContainFirmwareAuto { device, answer },
        ControllerCall::MonotonicNow { answer } => MachineCall::MonotonicNow { answer },
        ControllerCall::Delay { nanos } => MachineCall::Delay { nanos },
        ControllerCall::ReadEndpoint { device, fan, endpoint, deadline, answer } => endpoint_read(
            device,
            fan,
            endpoint,
            deadline,
            answer,
        ),
        ControllerCall::WriteEndpoint {
            device,
            fan,
            endpoint,
            modes,
            contents,
            deadline,
            answer,
        } => endpoint_write(device, fan, endpoint, modes, contents, deadline, answer),
        ControllerCall::CheckDevice { .. } => arbitrary(),
    }
}

impl<E: ControllerOwnership + BoundedIdentityBoundFileAccess + Clock + ?Sized> CallOn<
    E,
> for ControllerCall {
    open spec fn came(self, before: &E, after: &E) -> bool {
        match self {
            ControllerCall::CheckDevice { device, deadline, answer } => device_is_judged(
                before.history(),
                after.history(),
                device,
                deadline,
                answer,
            ),
            _ => after.history() == before.history().push(machine_call(self)),
        }
    }
}

impl<'a, E: ControllerOwnership + BoundedIdentityBoundFileAccess + Clock + ?Sized> Trace<
    'a,
    E,
    ControllerCall,
> {
    /// Calls `ownership_id`.
    pub(crate) fn ownership_id(&mut self, subject: &mut E) -> (answer: u64)
        requires
            old(self).follows(&*old(subject)),
        ensures
            final(self).follows(&*final(subject)),
            final(self).start() == old(self).start(),
            final(self).calls() == old(self).calls().push(ControllerCall::OwnershipId { answer }),
    {
        let ghost before = &*subject;
        let answer = subject.ownership_id();
        self.add(Ghost(before), Ghost(ControllerCall::OwnershipId { answer }), subject);
        answer
    }

    /// Calls `sampling_epoch`.
    pub(crate) fn sampling_epoch(&mut self, subject: &mut E) -> (answer: u64)
        requires
            old(self).follows(&*old(subject)),
        ensures
            final(self).follows(&*final(subject)),
            final(self).start() == old(self).start(),
            final(self).calls() == old(self).calls().push(
                ControllerCall::SamplingEpoch { answer },
            ),
    {
        let ghost before = &*subject;
        let answer = subject.sampling_epoch();
        self.add(Ghost(before), Ghost(ControllerCall::SamplingEpoch { answer }), subject);
        answer
    }

    /// Calls `begin_custom_transition`.
    pub(crate) fn begin_custom_transition(&mut self, subject: &mut E) -> (answer: u64)
        requires
            old(self).follows(&*old(subject)),
        ensures
            final(self).follows(&*final(subject)),
            final(self).start() == old(self).start(),
            final(self).calls() == old(self).calls().push(
                ControllerCall::BeginCustomTransition { answer },
            ),
    {
        let ghost before = &*subject;
        let answer = subject.begin_custom_transition();
        self.add(Ghost(before), Ghost(ControllerCall::BeginCustomTransition { answer }), subject);
        answer
    }

    /// Calls `custom_epoch_is_current`.
    pub(crate) fn custom_epoch_is_current(
        &mut self,
        subject: &mut E,
        ownership_id: u64,
        custom_epoch: u64,
    ) -> (answer: bool)
        requires
            old(self).follows(&*old(subject)),
        ensures
            final(self).follows(&*final(subject)),
            final(self).start() == old(self).start(),
            final(self).calls() == old(self).calls().push(
                ControllerCall::CustomEpochIsCurrent { ownership_id, custom_epoch, answer },
            ),
    {
        let ghost before = &*subject;
        let answer = subject.custom_epoch_is_current(ownership_id, custom_epoch);
        self.add(
            Ghost(before),
            Ghost(ControllerCall::CustomEpochIsCurrent { ownership_id, custom_epoch, answer }),
            subject,
        );
        answer
    }

    /// Calls `restore_or_contain_firmware_auto`.
    pub(crate) fn restore_or_contain_firmware_auto(
        &mut self,
        subject: &mut E,
        device: &AcerHwmonDevice,
    ) -> (answer: FirmwareAutoSafingOutcome)
        requires
            old(self).follows(&*old(subject)),
        ensures
            final(self).follows(&*final(subject)),
            final(self).start() == old(self).start(),
            final(self).calls() == old(self).calls().push(
                ControllerCall::RestoreOrContainFirmwareAuto { device: device@, answer },
            ),
    {
        let ghost before = &*subject;
        let answer = subject.restore_or_contain_firmware_auto(device);
        self.add(
            Ghost(before),
            Ghost(ControllerCall::RestoreOrContainFirmwareAuto { device: device@, answer }),
            subject,
        );
        answer
    }

    /// Calls `monotonic_now`.
    pub(crate) fn monotonic_now(&mut self, subject: &mut E) -> (answer: u128)
        requires
            old(self).follows(&*old(subject)),
        ensures
            final(self).follows(&*final(subject)),
            final(self).start() == old(self).start(),
            final(self).calls() == old(self).calls().push(ControllerCall::MonotonicNow { answer }),
    {
        let ghost before = &*subject;
        let answer = subject.monotonic_now();
        self.add(Ghost(before), Ghost(ControllerCall::MonotonicNow { answer }), subject);
        answer
    }

    /// Calls `delay`.
    pub(crate) fn delay(&mut self, subject: &mut E, nanos: u128)
        requires
            old(self).follows(&*old(subject)),
        ensures
            final(self).follows(&*final(subject)),
            final(self).start() == old(self).start(),
            final(self).calls() == old(self).calls().push(ControllerCall::Delay { nanos }),
    {
        let ghost before = &*subject;
        subject.delay(nanos);
        self.add(Ghost(before), Ghost(ControllerCall::Delay { nanos }), subject);
    }

    /// Checks a device.
    pub(crate) fn check_device(
        &mut self,
        subject: &mut E,
        device: &AcerHwmonDevice,
        deadline: u128,
    ) -> (answer: Result<bool, AcerHwmonDiscoveryError>)
        requires
            old(self).follows(&*old(subject)),
            device_is_bound(device@),
        ensures
            final(self).follows(&*final(subject)),
            final(self).start() == old(self).start(),
            final(self).calls() == old(self).calls().push(
                ControllerCall::CheckDevice {
                    device: device@,
                    deadline,
                    answer: answer_of(answer),
                },
            ),
    {
        let ghost before = &*subject;
        let answer = device.abi_is_current_before(subject, deadline);
        self.add(
            Ghost(before),
            Ghost(
                ControllerCall::CheckDevice {
                    device: device@,
                    deadline,
                    answer: answer_of(answer),
                },
            ),
            subject,
        );
        answer
    }

    /// Reads an endpoint.
    pub(crate) fn read_endpoint(
        &mut self,
        subject: &mut E,
        device: &AcerHwmonDevice,
        fan: Fan,
        endpoint: Endpoint,
        deadline: u128,
    ) -> (answer: Result<String, PlatformError>)
        requires
            old(self).follows(&*old(subject)),
            device_is_bound(device@),
        ensures
            final(self).follows(&*final(subject)),
            final(self).start() == old(self).start(),
            final(self).calls() == old(self).calls().push(
                ControllerCall::ReadEndpoint { device: device@, fan, endpoint, deadline, answer },
            ),
    {
        let ghost before = &*subject;
        let answer = read_endpoint(subject, device, fan, endpoint, deadline);
        self.add(
            Ghost(before),
            Ghost(
                ControllerCall::ReadEndpoint { device: device@, fan, endpoint, deadline, answer },
            ),
            subject,
        );
        answer
    }

    /// Writes an endpoint.
    pub(crate) fn write_endpoint(
        &mut self,
        subject: &mut E,
        device: &AcerHwmonDevice,
        fan: Fan,
        endpoint: Endpoint,
        cpu_mode: &str,
        gpu_mode: &str,
        contents: &str,
        deadline: u128,
    ) -> (answer: Result<(), PlatformError>)
        requires
            old(self).follows(&*old(subject)),
            device_is_bound(device@),
        ensures
            final(self).follows(&*final(subject)),
            final(self).start() == old(self).start(),
            final(self).calls() == old(self).calls().push(
                ControllerCall::WriteEndpoint {
                    device: device@,
                    fan,
                    endpoint,
                    modes: (cpu_mode@, gpu_mode@),
                    contents: contents@,
                    deadline,
                    answer,
                },
            ),
    {
        let ghost before = &*subject;
        let answer = write_endpoint(
            subject,
            device,
            fan,
            endpoint,
            cpu_mode,
            gpu_mode,
            contents,
            deadline,
        );
        self.add(
            Ghost(before),
            Ghost(
                ControllerCall::WriteEndpoint {
                    device: device@,
                    fan,
                    endpoint,
                    modes: (cpu_mode@, gpu_mode@),
                    contents: contents@,
                    deadline,
                    answer,
                },
            ),
            subject,
        );
        answer
    }
}

} // verus!
