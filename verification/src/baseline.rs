//! The Firmware Auto baseline run.
//!
//! Every decision is a function from what the run holds and what came back to what the run holds
//! next. The runner only makes the calls, in order.

use vstd::prelude::*;
use vstd::string::*;
use crate::acer_hwmon::{
    answer_of, device_is_bound, device_is_judged, discover_acer_hwmon, discovery_is_made,
    discovery_text, AcerHwmonDevice, AcerHwmonDiscoveryError, DeviceModel, DiscoveryErrorModel,
};
use crate::baseline_calls::BaselineCall;
use crate::evidence::{
    profile_source, EvidenceFan, EvidenceProfile, EvidenceRecord, EvidenceRecordStatus,
    EvidenceTimestamp, EvidenceValidationError, FanReadbackEvidence, FanReadbackField,
    FanReadbackPhase, FaultEvidence, ObservationOutcome, OutcomeModel,
    QualificationEnvelopeIdentityV1, RecordModel, RunOutcomeEvidence, RunOutcomeStatus,
    SampleFreshness, TelemetrySampleEvidence, WorkloadEvidence, WorkloadModel,
    EVIDENCE_SCHEMA_VERSION_V2,
};
use crate::evidence_rules::{
    identity_error, is_valid, validate_identity, validate_workload, validation_error,
    workload_error,
};
use crate::matched_workload::saturated;
use crate::observations::{observed, samples_came, slopes_came};
use crate::platform::{
    contents_came_before, deadline_after, moment_after, now_came, BoundedIdentityBoundFileAccess,
    Clock, FileIdentity, IdentityBoundReadAccess, PlatformError,
};
use crate::run_log::{
    append_readbacks, extend_texts, fault, fault_list, fill_empty, first_detail, first_fault_detail,
    lemma_reported_faults, nonempty_texts, plausible, plausible_temperature, push_fault,
    push_readback, push_reported_faults, readback_list, reported_faults, with_fault_if, FaultModel,
    ReadbackModel, SlopeMeter,
};
use crate::text::{
    clone_texts, decimal, decimal_text, join, join3, parse_trimmed_unsigned, text_option, texts,
    trimmed, unsigned_number,
};
use crate::trace::{effects, goes_on, ran, Trace};
use crate::thermal::{summarize_thermal_evidence, thermal_summary, FinalSlopes};
use crate::machine::Calls;
use crate::baseline_steps::{
    are_sampled, baseline_came_to, baseline_state, baseline_was_opened, baseline_was_prepared,
    captured_state, conditions_state, conditions_were_captured, fresh_baseline, gate_was_passed,
    is_record_of_calls, launch_state, lemma_one_more_sample, modes_were_noted, planned_state,
    sample_due, sample_was_captured, sample_was_taken, samples_were_taken, stop_state,
    stop_was_made, wait_calls, wait_defect, waited_state, BaselineAnswers, BaselineState,
    StopAnswers,
};

verus! {

broadcast use {crate::observations::group_observed, vstd::string::group_string_axioms, crate::trace::group_effects};

pub const CPU_ABSOLUTE_ABORT_MILLICELSIUS: i32 = 95_000;

pub const GPU_ABSOLUTE_ABORT_MILLICELSIUS: i32 = 85_000;

const MODE_CHECK_BUDGET_NANOS: u128 = 100_000_000;

#[derive(Debug, PartialEq, Eq)]
pub struct BaselineObservation {
    pub sample: TelemetrySampleEvidence,
    pub system_stable: bool,
    pub kernel_faults: Vec<String>,
    pub nvidia_faults: Vec<String>,
}

#[derive(Debug, Clone, Copy, PartialEq, Eq, Structural)]
pub struct BaselineStartingConditions {
    pub ambient_millicelsius: i32,
    pub cpu_millicelsius: i32,
    pub gpu_millicelsius: i32,
    pub power_profile: EvidenceProfile,
}

#[derive(Debug, Clone, Copy, PartialEq, Eq, Structural)]
pub struct CapturedBaselineStartingConditions {
    pub conditions: BaselineStartingConditions,
    pub captured_at: EvidenceTimestamp,
}

#[derive(Debug, Clone, Copy, PartialEq, Eq, Structural)]
pub struct BaselineCleanupAttestation {
    /// Every attempted write to either fan-control endpoint during cleanup.
    pub fan_control_write_count: u64,
}

/// What a baseline run asks of the machine.
pub trait FirmwareAutoBaselineEnvironment {
    /// What was asked so far, with what came back.
    spec fn history(&self) -> Seq<BaselineCall>;

    fn timestamp(&mut self) -> (answer: EvidenceTimestamp)
        ensures
            final(self).history() == old(self).history().push(
                BaselineCall::Timestamp { answer },
            ),
    ;

    fn capture_starting_conditions(
        &mut self,
    ) -> (answer: Result<CapturedBaselineStartingConditions, String>)
        ensures
            final(self).history() == old(self).history().push(
                BaselineCall::CaptureStartingConditions { answer },
            ),
    ;

    /// Must return no later than `deadline_monotonic_millis`, including ambiguous launch failures.
    fn start_workload(
        &mut self,
        workload: &WorkloadEvidence,
        deadline_monotonic_millis: u64,
    ) -> (answer: Result<EvidenceTimestamp, String>)
        ensures
            final(self).history() == old(self).history().push(
                BaselineCall::StartWorkload {
                    workload: *workload,
                    deadline: deadline_monotonic_millis,
                    answer,
                },
            ),
    ;

    /// Waits for `target_monotonic_millis` and must return by the absolute deadline.
    fn wait_until(
        &mut self,
        target_monotonic_millis: u64,
        deadline_monotonic_millis: u64,
    ) -> (answer: Result<(), String>)
        ensures
            final(self).history() == old(self).history().push(
                BaselineCall::WaitUntil {
                    target: target_monotonic_millis,
                    deadline: deadline_monotonic_millis,
                    answer,
                },
            ),
    ;

    /// Captures one fresh observation and must return by the absolute deadline.
    fn capture_observation(
        &mut self,
        deadline_monotonic_millis: u64,
    ) -> (answer: Result<BaselineObservation, String>)
        ensures
            final(self).history() == old(self).history().push(
                BaselineCall::CaptureObservation { deadline: deadline_monotonic_millis, answer },
            ),
    ;

    /// Must confirm workload termination no later than the absolute deadline.
    fn stop_workload(&mut self, deadline_monotonic_millis: u64) -> (answer: Result<(), String>)
        ensures
            final(self).history() == old(self).history().push(
                BaselineCall::StopWorkload { deadline: deadline_monotonic_millis, answer },
            ),
    ;

    /// Must report every attempted fan-control write. Any nonzero count blocks acceptance.
    fn cleanup_after_workload(&mut self) -> (answer: Result<BaselineCleanupAttestation, String>)
        ensures
            final(self).history() == old(self).history().push(
                BaselineCall::CleanupAfterWorkload { answer },
            ),
    ;
}

/// How a baseline run reaches the fan device. Everything that reads bound files in time can.
pub trait FirmwareAutoBaselineAccess: IdentityBoundReadAccess + BoundedIdentityBoundFileAccess + Clock {
    /// Whether the device is still current.
    fn baseline_abi_is_current_before(
        &mut self,
        device: &AcerHwmonDevice,
        deadline: u128,
    ) -> (result:
        Result<bool, AcerHwmonDiscoveryError>)
        requires
            device_is_bound(device@),
        ensures
            device_is_judged(
                old(self).history(),
                final(self).history(),
                device@,
                deadline,
                answer_of(result),
            ),
    ;

    /// The contents of one endpoint.
    fn baseline_read_endpoint_before(
        &mut self,
        device: &AcerHwmonDevice,
        child: &str,
        expected_child: FileIdentity,
        deadline: u128,
    ) -> (result: Result<String, PlatformError>)
        ensures
            contents_came_before(
                old(self).history(),
                final(self).history(),
                device@.root,
                device@.backing_identity,
                child@,
                expected_child,
                deadline,
                result,
            ),
    ;
}

impl<T: IdentityBoundReadAccess + BoundedIdentityBoundFileAccess + Clock> FirmwareAutoBaselineAccess for T {
    fn baseline_abi_is_current_before(
        &mut self,
        device: &AcerHwmonDevice,
        deadline: u128,
    ) -> (result:
        Result<bool, AcerHwmonDiscoveryError>) {
        device.abi_is_current_before(self, deadline)
    }

    fn baseline_read_endpoint_before(
        &mut self,
        device: &AcerHwmonDevice,
        child: &str,
        expected_child: FileIdentity,
        deadline: u128,
    ) -> (result: Result<String, PlatformError>) {
        self.read_bound_before(
            device.root(),
            device.backing_identity(),
            child,
            expected_child,
            deadline,
        )
    }
}

pub struct FirmwareAutoBaselinePlan<'a> {
    pub hwmon_root: &'a str,
    pub qualification_envelope: QualificationEnvelopeIdentityV1,
    pub workload: WorkloadEvidence,
    pub samples_required: usize,
}

#[derive(Debug, Clone, Copy, PartialEq, Eq)]
pub enum FirmwareAutoBaselinePlanError {
    InvalidQualificationEnvelope(EvidenceValidationError),
}

impl FirmwareAutoBaselinePlanError {
    /// The message shown to an operator.
    pub fn message(&self) -> (text: String)
        ensures
            text@ == match *self {
                FirmwareAutoBaselinePlanError::InvalidQualificationEnvelope(error) =>
                    "invalid qualification envelope: "@ + error.text(),
            },
    {
        match self {
            FirmwareAutoBaselinePlanError::InvalidQualificationEnvelope(error) => join(
                "invalid qualification envelope: ",
                error.message().as_str(),
            ),
        }
    }
}

/// What reading one fan's mode yielded.
#[derive(Debug)]
pub struct ModeRead {
    /// The endpoint's contents, or the message of the failed read.
    pub payload: Result<String, String>,
    pub identity: FileIdentity,
}

/// What reading both fans' modes yielded.
#[derive(Debug)]
pub enum ModeReading {
    NoDevice,
    DeadlineOverflowed,
    IdentityChanged,
    CheckFailed { message: String },
    Read { cpu: ModeRead, gpu: ModeRead, identity_changed: bool },
}

/// The readbacks of a mode observation, and why Firmware Auto is not confirmed by it.
#[derive(Debug)]
pub struct ModeObservation {
    pub readbacks: Vec<FanReadbackEvidence>,
    pub failure: Option<String>,
}

/// The mode that an endpoint's contents spell.
pub open spec fn mode_value(payload: Seq<char>) -> Option<u32> {
    match unsigned_number(trimmed(payload), u32::MAX as nat) {
        Some(value) => if value <= 2 {
            Some(value as u32)
        } else {
            None
        },
        None => None,
    }
}

/// The mode that a read yielded.
pub open spec fn read_mode(read: ModeRead) -> Option<u32> {
    match read.payload {
        Ok(payload) => mode_value(payload@),
        Err(_) => None,
    }
}

/// The text of an endpoint's identity.
pub open spec fn identity_text(identity: FileIdentity) -> Seq<char> {
    "device-"@ + decimal_text(identity.device as nat) + "-inode-"@ + decimal_text(
        identity.inode as nat,
    )
}

/// The readback of one fan's mode.
pub open spec fn mode_readback(
    read: ModeRead,
    fan: EvidenceFan,
    phase: FanReadbackPhase,
    at: EvidenceTimestamp,
) -> ReadbackModel {
    ReadbackModel {
        timestamp: at,
        source_timestamp: None,
        fresh: None,
        boot_id: None,
        fan,
        field: FanReadbackField::Enable,
        value: read_mode(read),
        endpoint_identity: identity_text(read.identity),
        outcome: match read_mode(read) {
            Some(value) => if value == 2 {
                ObservationOutcome::Confirmed
            } else {
                ObservationOutcome::Unexpected
            },
            None => ObservationOutcome::Unreadable,
        },
        phase: Some(phase),
    }
}

/// How a fan's mode is told to an operator.
pub open spec fn mode_text(name: Seq<char>, read: ModeRead) -> Seq<char> {
    match read.payload {
        Ok(payload) => match mode_value(payload@) {
            Some(value) => name + "="@ + decimal_text(value as nat),
            None => name + "="@ + "invalid"@,
        },
        Err(error) => name + "="@ + "unreadable ("@ + error@ + ")"@,
    }
}

/// The readbacks of a mode reading.
pub open spec fn mode_readbacks(
    reading: ModeReading,
    phase: FanReadbackPhase,
    at: EvidenceTimestamp,
) -> Seq<ReadbackModel> {
    match reading {
        ModeReading::Read { cpu, gpu, identity_changed } => seq![
            mode_readback(cpu, EvidenceFan::Cpu, phase, at),
            mode_readback(gpu, EvidenceFan::Gpu, phase, at),
        ],
        _ => Seq::empty(),
    }
}

/// Why a mode reading does not confirm both fans in Firmware Auto.
pub open spec fn mode_failure(reading: ModeReading) -> Option<Seq<char>> {
    match reading {
        ModeReading::NoDevice => Some("Acer hwmon device was not safely discovered"@),
        ModeReading::DeadlineOverflowed => Some("Firmware Auto mode-check deadline overflowed"@),
        ModeReading::IdentityChanged => Some(
            "Acer hwmon identity changed during fan-mode confirmation"@,
        ),
        ModeReading::CheckFailed { message } => Some(message@),
        ModeReading::Read { cpu, gpu, identity_changed } => if identity_changed {
            Some("Acer hwmon identity changed during fan-mode confirmation"@)
        } else if read_mode(cpu) == Some(2u32) && read_mode(gpu) == Some(2u32) {
            None
        } else {
            Some(
                "both fans must remain Firmware Auto (2); observed "@ + mode_text("CPU"@, cpu) + " "@
                    + mode_text("GPU"@, gpu),
            )
        },
    }
}

fn parse_mode(payload: &str) -> (mode: Option<u32>)
    ensures
        mode == mode_value(payload@),
{
    match parse_trimmed_unsigned(payload, u32::MAX as u64) {
        Some(value) => if value <= 2 {
            Some(value as u32)
        } else {
            None
        },
        None => None,
    }
}

fn judge_mode(
    read: &ModeRead,
    name: &str,
    fan: EvidenceFan,
    phase: FanReadbackPhase,
    at: EvidenceTimestamp,
) -> (judged: (FanReadbackEvidence, String))
    ensures
        judged.0@ == mode_readback(*read, fan, phase, at),
        judged.1@ == mode_text(name@, *read),
{
    let mut told = join(name, "=");
    let value: Option<u32> = match &read.payload {
        Ok(payload) => {
            let mode = parse_mode(payload.as_str());
            match mode {
                Some(value) => {
                    told.append(decimal(value as u64).as_str());
                },
                None => {
                    told.append("invalid");
                },
            }
            mode
        },
        Err(error) => {
            told.append("unreadable (");
            told.append(error.as_str());
            told.append(")");
            None
        },
    };
    let mut endpoint_identity = join3("device-", decimal(read.identity.device).as_str(), "-inode-");
    endpoint_identity.append(decimal(read.identity.inode).as_str());
    let outcome = match value {
        Some(value) => if value == 2 {
            ObservationOutcome::Confirmed
        } else {
            ObservationOutcome::Unexpected
        },
        None => ObservationOutcome::Unreadable,
    };
    (
        FanReadbackEvidence {
            timestamp: at,
            source_timestamp: None,
            fresh: None,
            boot_id: None,
            fan,
            field: FanReadbackField::Enable,
            value,
            endpoint_identity,
            outcome,
            phase: Some(phase),
        },
        told,
    )
}

/// Judges what reading both fans' modes yielded.
pub fn judge_modes(
    reading: &ModeReading,
    phase: FanReadbackPhase,
    at: EvidenceTimestamp,
) -> (observation: ModeObservation)
    ensures
        readback_list(observation.readbacks@) == mode_readbacks(*reading, phase, at),
        text_option(observation.failure) == mode_failure(*reading),
{
    let mut readbacks: Vec<FanReadbackEvidence> = Vec::new();
    assert(readback_list(readbacks@) =~= Seq::<ReadbackModel>::empty());
    let failure = match reading {
        ModeReading::NoDevice => Some("Acer hwmon device was not safely discovered".to_owned()),
        ModeReading::DeadlineOverflowed => Some(
            "Firmware Auto mode-check deadline overflowed".to_owned(),
        ),
        ModeReading::IdentityChanged => Some(
            "Acer hwmon identity changed during fan-mode confirmation".to_owned(),
        ),
        ModeReading::CheckFailed { message } => Some(message.clone()),
        ModeReading::Read { cpu, gpu, identity_changed } => {
            let (cpu_readback, cpu_told) = judge_mode(cpu, "CPU", EvidenceFan::Cpu, phase, at);
            let (gpu_readback, gpu_told) = judge_mode(gpu, "GPU", EvidenceFan::Gpu, phase, at);
            let both_auto = match (cpu_readback.value, gpu_readback.value) {
                (Some(cpu), Some(gpu)) => cpu == 2 && gpu == 2,
                _ => false,
            };
            push_readback(&mut readbacks, cpu_readback);
            push_readback(&mut readbacks, gpu_readback);
            assert(readback_list(readbacks@) =~= mode_readbacks(*reading, phase, at));
            if *identity_changed {
                Some("Acer hwmon identity changed during fan-mode confirmation".to_owned())
            } else if both_auto {
                None
            } else {
                let mut text = join3(
                    "both fans must remain Firmware Auto (2); observed ",
                    cpu_told.as_str(),
                    " ",
                );
                text.append(gpu_told.as_str());
                Some(text)
            }
        },
    };
    ModeObservation { readbacks, failure }
}

/// What an endpoint's read says of a fan's mode.
pub open spec fn is_mode_read(
    read: ModeRead,
    identity: FileIdentity,
    answer: Result<String, PlatformError>,
) -> bool {
    &&& read.identity == identity
    &&& match answer {
        Ok(contents) => read.payload == Ok::<String, String>(contents),
        Err(error) => read.payload matches Err(message) && message@ == error.detail@,
    }
}

/// Whether one fan's mode was read from its own endpoint by a deadline.
pub open spec fn mode_was_read(
    before: Calls,
    after: Calls,
    device: DeviceModel,
    child: Seq<char>,
    identity: FileIdentity,
    deadline: u128,
    read: ModeRead,
) -> bool {
    exists|answer: Result<String, PlatformError>|
        #[trigger] contents_came_before(
            before,
            after,
            device.root,
            device.backing_identity,
            child,
            identity,
            deadline,
            answer,
        ) && is_mode_read(read, identity, answer)
}

/// Whether a reading is what came back by a deadline: the device is checked first, then the CPU
/// fan's mode and the GPU fan's are read, and then the device is checked again.
pub open spec fn reading_came(
    before: Calls,
    after: Calls,
    device: DeviceModel,
    deadline: u128,
    reading: ModeReading,
) -> bool {
    exists|checked: Calls, first: Result<bool, DiscoveryErrorModel>|
        #[trigger] device_is_judged(before, checked, device, deadline, first) && match first {
            Err(error) => after == checked && (reading matches ModeReading::CheckFailed { message }
                && message@ == discovery_text(error)),
            Ok(false) => after == checked && reading is IdentityChanged,
            Ok(true) => cpu_mode_came(checked, after, device, deadline, reading),
        }
}

/// The part of that from the CPU fan's mode on.
pub open spec fn cpu_mode_came(
    before: Calls,
    after: Calls,
    device: DeviceModel,
    deadline: u128,
    reading: ModeReading,
) -> bool {
    reading matches ModeReading::Read { cpu, gpu, identity_changed } && exists|between: Calls|
        {
            &&& #[trigger] mode_was_read(
                before,
                between,
                device,
                "pwm1_enable"@,
                device.cpu.enable_identity->0,
                deadline,
                cpu,
            )
            &&& gpu_mode_came(between, after, device, deadline, gpu, identity_changed)
        }
}

/// The part of that from the GPU fan's mode on.
pub open spec fn gpu_mode_came(
    before: Calls,
    after: Calls,
    device: DeviceModel,
    deadline: u128,
    gpu: ModeRead,
    identity_changed: bool,
) -> bool {
    exists|between: Calls|
        {
            &&& #[trigger] mode_was_read(
                before,
                between,
                device,
                "pwm2_enable"@,
                device.gpu.enable_identity->0,
                deadline,
                gpu,
            )
            &&& device_was_rechecked(between, after, device, deadline, identity_changed)
        }
}

/// Whether the device was checked again, and found changed or not.
pub open spec fn device_was_rechecked(
    before: Calls,
    after: Calls,
    device: DeviceModel,
    deadline: u128,
    identity_changed: bool,
) -> bool {
    exists|second: Result<bool, DiscoveryErrorModel>|
        #[trigger] device_is_judged(before, after, device, deadline, second) && identity_changed
            == !(second matches Ok(current) && current)
}

/// Whether a reading of both fans' modes is what the answers say.
#[verifier::opaque]
pub open spec fn modes_were_read(
    before: Calls,
    after: Calls,
    device: Option<DeviceModel>,
    reading: ModeReading,
) -> bool {
    match device {
        None => after == before && reading is NoDevice,
        Some(device) => exists|asked: Calls, now: u128|
            #[trigger] now_came(before, asked, now) && match moment_after(now, 100_000_000) {
                None => after == asked && reading is DeadlineOverflowed,
                Some(deadline) => reading_came(asked, after, device, deadline, reading),
            },
    }
}

/// The contents of a device, where there is one.
pub open spec fn device_option(device: Option<AcerHwmonDevice>) -> Option<DeviceModel> {
    match device {
        Some(device) => Some(device@),
        None => None,
    }
}

/// Reads one fan's mode from its own endpoint.
fn read_mode_of<P>(
    platform: &mut P,
    device: &AcerHwmonDevice,
    child: &str,
    identity: FileIdentity,
    deadline: u128,
) -> (read: ModeRead) where P: FirmwareAutoBaselineAccess
    ensures
        mode_was_read(
            old(platform).history(),
            final(platform).history(),
            device@,
            child@,
            identity,
            deadline,
            read,
        ),
{
    let answer = platform.baseline_read_endpoint_before(device, child, identity, deadline);
    assert(contents_came_before(
        old(platform).history(),
        platform.history(),
        device@.root,
        device@.backing_identity,
        child@,
        identity,
        deadline,
        answer,
    ));
    let payload = match answer {
        Ok(contents) => Ok(contents),
        Err(error) => Err(error.message().to_owned()),
    };
    ModeRead { payload, identity }
}

/// Reads both fans' modes from the device.
fn read_modes<P>(platform: &mut P, device: &Option<AcerHwmonDevice>) -> (reading: ModeReading) where
    P: FirmwareAutoBaselineAccess,

    requires
        *device matches Some(found) ==> device_is_bound(found@),
    ensures
        modes_were_read(
            old(platform).history(),
            final(platform).history(),
            device_option(*device),
            reading,
        ),
{
    proof {
        reveal(modes_were_read);
    }
    let device = match device {
        Some(device) => device,
        None => {
            return ModeReading::NoDevice;
        },
    };
    let now = platform.monotonic_now();
    assert(now_came(old(platform).history(), platform.history(), now));
    let deadline = match deadline_after(now, MODE_CHECK_BUDGET_NANOS) {
        Some(deadline) => deadline,
        None => {
            return ModeReading::DeadlineOverflowed;
        },
    };
    let first = platform.baseline_abi_is_current_before(device, deadline);
    match first {
        Ok(true) => {},
        Ok(false) => {
            return ModeReading::IdentityChanged;
        },
        Err(error) => {
            return ModeReading::CheckFailed { message: error.message() };
        },
    }
    let cpu_identity = device.cpu().enable_identity().unwrap();
    let gpu_identity = device.gpu().enable_identity().unwrap();
    let cpu = read_mode_of(platform, device, "pwm1_enable", cpu_identity, deadline);
    let gpu = read_mode_of(platform, device, "pwm2_enable", gpu_identity, deadline);
    let second = platform.baseline_abi_is_current_before(device, deadline);
    let identity_changed = match second {
        Ok(current) => !current,
        Err(_) => true,
    };
    ModeReading::Read { cpu, gpu, identity_changed }
}

/// What a baseline run holds.
#[derive(Debug)]
pub struct BaselineRun {
    pub workload: WorkloadEvidence,
    pub starting_conditions_valid: bool,
    pub starting_conditions_captured_at: Option<EvidenceTimestamp>,
    pub workload_started_at: Option<EvidenceTimestamp>,
    pub samples: Vec<TelemetrySampleEvidence>,
    pub readbacks: Vec<FanReadbackEvidence>,
    pub faults: Vec<FaultEvidence>,
    pub kernel_faults: Vec<String>,
    pub nvidia_faults: Vec<String>,
    pub system_stable: bool,
}

/// The contents of a baseline run.
pub struct BaselineRunModel {
    pub workload: WorkloadModel,
    pub starting_conditions_valid: bool,
    pub starting_conditions_captured_at: Option<EvidenceTimestamp>,
    pub workload_started_at: Option<EvidenceTimestamp>,
    pub samples: Seq<TelemetrySampleEvidence>,
    pub readbacks: Seq<ReadbackModel>,
    pub faults: Seq<FaultModel>,
    pub kernel_faults: Seq<Seq<char>>,
    pub nvidia_faults: Seq<Seq<char>>,
    pub system_stable: bool,
}

impl View for BaselineRun {
    type V = BaselineRunModel;

    open spec fn view(&self) -> BaselineRunModel {
        BaselineRunModel {
            workload: self.workload@,
            starting_conditions_valid: self.starting_conditions_valid,
            starting_conditions_captured_at: self.starting_conditions_captured_at,
            workload_started_at: self.workload_started_at,
            samples: self.samples@,
            readbacks: readback_list(self.readbacks@),
            faults: fault_list(self.faults@),
            kernel_faults: texts(self.kernel_faults@),
            nvidia_faults: texts(self.nvidia_faults@),
            system_stable: self.system_stable,
        }
    }
}

/// A run with one more fault.
pub open spec fn baseline_fault(
    m: BaselineRunModel,
    at: EvidenceTimestamp,
    code: Seq<char>,
    detail: Seq<char>,
) -> BaselineRunModel {
    BaselineRunModel { faults: m.faults.push(fault(at, code, detail)), ..m }
}

/// A run after a mode observation.
pub open spec fn after_modes(
    m: BaselineRunModel,
    reading: ModeReading,
    phase: FanReadbackPhase,
    at: EvidenceTimestamp,
    code: Seq<char>,
) -> BaselineRunModel {
    let read = BaselineRunModel {
        readbacks: m.readbacks + mode_readbacks(reading, phase, at),
        ..m
    };
    match mode_failure(reading) {
        Some(detail) => baseline_fault(read, at, code, detail),
        None => read,
    }
}

/// Whether starting conditions are plausible, below the abort limits and on a profile.
pub open spec fn conditions_are_safe(
    conditions: BaselineStartingConditions,
    profile: EvidenceProfile,
) -> bool {
    &&& conditions.power_profile == profile
    &&& plausible(conditions.ambient_millicelsius, 80_000)
    &&& plausible(conditions.cpu_millicelsius, 150_000)
    &&& plausible(conditions.gpu_millicelsius, 150_000)
    &&& conditions.cpu_millicelsius < 95_000
    &&& conditions.gpu_millicelsius < 85_000
}

/// A run after its starting conditions were captured.
pub open spec fn after_conditions(
    m: BaselineRunModel,
    confirmed_at: EvidenceTimestamp,
    completed_at: EvidenceTimestamp,
    result: Result<CapturedBaselineStartingConditions, String>,
) -> BaselineRunModel {
    match result {
        Err(error) => baseline_fault(
            m,
            completed_at,
            "starting-conditions"@,
            "cannot capture starting conditions: "@ + error@,
        ),
        Ok(capture) => if !(confirmed_at.monotonic_millis <= capture.captured_at.monotonic_millis
            <= completed_at.monotonic_millis) {
            baseline_fault(
                m,
                completed_at,
                "starting-conditions"@,
                "starting-condition source timestamp lies outside its confirmed Firmware Auto capture window"@,
            )
        } else if conditions_are_safe(capture.conditions, m.workload.power_profile) {
            BaselineRunModel {
                starting_conditions_captured_at: Some(capture.captured_at),
                starting_conditions_valid: true,
                workload: WorkloadModel {
                    ambient_millicelsius: capture.conditions.ambient_millicelsius,
                    starting_cpu_millicelsius: capture.conditions.cpu_millicelsius,
                    starting_gpu_millicelsius: capture.conditions.gpu_millicelsius,
                    ..m.workload
                },
                ..m
            }
        } else {
            baseline_fault(
                BaselineRunModel {
                    starting_conditions_captured_at: Some(capture.captured_at),
                    ..m
                },
                capture.captured_at,
                "starting-conditions"@,
                "measured temperatures are implausible, at an abort limit, or the power profile does not match"@,
            )
        },
    }
}

/// Whether the workload of a run can be put on record.
pub open spec fn workload_is_recordable(m: BaselineRunModel) -> bool {
    m.starting_conditions_valid && workload_error(m.workload) is None
}

/// A run after its workload was checked.
pub open spec fn after_workload_check(m: BaselineRunModel, started_at: EvidenceTimestamp) -> BaselineRunModel {
    if m.starting_conditions_valid && workload_error(m.workload) is Some && m.faults.len() == 0 {
        baseline_fault(
            m,
            started_at,
            "invalid-baseline-plan"@,
            workload_error(m.workload)->0.text(),
        )
    } else {
        m
    }
}

/// Whether the launch of a workload was stamped within its own window.
pub open spec fn launch_is_in_window(
    source: EvidenceTimestamp,
    requested_at: EvidenceTimestamp,
    completed_at: EvidenceTimestamp,
    confirmed_at: Option<EvidenceTimestamp>,
) -> bool {
    &&& requested_at.monotonic_millis <= source.monotonic_millis <= completed_at.monotonic_millis
    &&& confirmed_at matches Some(confirmed) ==> confirmed.monotonic_millis
        <= source.monotonic_millis
}

/// A run after its workload was launched, and whether sampling may begin.
pub open spec fn after_launch(
    m: BaselineRunModel,
    requested_at: EvidenceTimestamp,
    deadline: u64,
    completed_at: EvidenceTimestamp,
    confirmed_at: Option<EvidenceTimestamp>,
    result: Result<EvidenceTimestamp, String>,
) -> BaselineRunModel {
    let timed = if completed_at.monotonic_millis > deadline {
        baseline_fault(
            m,
            completed_at,
            "workload-start"@,
            "fixed workload launch exceeded its deadline"@,
        )
    } else {
        m
    };
    match result {
        Err(error) => baseline_fault(
            timed,
            completed_at,
            "workload-start"@,
            "cannot start fixed workload: "@ + error@,
        ),
        Ok(source) => if !launch_is_in_window(source, requested_at, completed_at, confirmed_at) {
            baseline_fault(
                timed,
                completed_at,
                "workload-start"@,
                "workload source timestamp lies outside its confirmed launch window"@,
            )
        } else if timed.faults.len() == 0 {
            BaselineRunModel { workload_started_at: Some(source), ..timed }
        } else {
            timed
        },
    }
}

/// Whether a sample carries every required reading, freshly.
pub open spec fn telemetry_is_complete(sample: TelemetrySampleEvidence) -> bool {
    &&& sample.freshness == SampleFreshness::Fresh
    &&& sample.cpu_millicelsius is Some
    &&& sample.gpu_millicelsius is Some
    &&& sample.external_power is Some
    &&& sample.selected_profile is Some
    &&& sample.cpu_source_demand_basis_points is Some
    &&& sample.gpu_source_demand_basis_points is Some
    &&& sample.commanded_demand_basis_points is Some
    &&& sample.cpu_thermal_throttling is Some
    &&& sample.gpu_thermal_throttling is Some
}

/// Whether a temperature, where there is one, is plausible.
pub open spec fn reading_is_plausible(value: Option<i32>) -> bool {
    value matches Some(value) ==> plausible(value, 150_000)
}

/// A demand, dropped where it exceeds 100 percent.
pub open spec fn bounded_demand(demand: Option<u16>) -> Option<u16> {
    match demand {
        Some(value) => if value > 10_000 {
            None
        } else {
            Some(value)
        },
        None => None,
    }
}

/// A sample without demands that exceed 100 percent.
pub open spec fn with_bounded_demands(sample: TelemetrySampleEvidence) -> TelemetrySampleEvidence {
    TelemetrySampleEvidence {
        cpu_source_demand_basis_points: bounded_demand(sample.cpu_source_demand_basis_points),
        gpu_source_demand_basis_points: bounded_demand(sample.gpu_source_demand_basis_points),
        commanded_demand_basis_points: bounded_demand(sample.commanded_demand_basis_points),
        ..sample
    }
}

/// Whether a sample's telemetry can be used.
pub open spec fn telemetry_is_usable(sample: TelemetrySampleEvidence) -> bool {
    &&& telemetry_is_complete(sample)
    &&& reading_is_plausible(sample.cpu_millicelsius)
    &&& reading_is_plausible(sample.gpu_millicelsius)
    &&& with_bounded_demands(sample) == sample
}

/// A sample as it is put on record: invalid where its telemetry cannot be used.
pub open spec fn recorded_sample(sample: TelemetrySampleEvidence) -> TelemetrySampleEvidence {
    if telemetry_is_usable(sample) {
        sample
    } else {
        TelemetrySampleEvidence {
            freshness: SampleFreshness::Invalid,
            ..with_bounded_demands(sample)
        }
    }
}

/// Whether either component throttled.
pub open spec fn is_throttling(sample: TelemetrySampleEvidence) -> bool {
    sample.cpu_thermal_throttling == Some(true) || sample.gpu_thermal_throttling == Some(true)
}

/// Whether either component reached its absolute abort limit.
pub open spec fn is_at_abort_limit(sample: TelemetrySampleEvidence) -> bool {
    (sample.cpu_millicelsius matches Some(value) && value >= 95_000) || (
    sample.gpu_millicelsius matches Some(value) && value >= 85_000)
}

/// Whether a moment is at most a tenth of a second from the expected one.
pub open spec fn is_on_time(at: EvidenceTimestamp, expected_millis: u64) -> bool {
    -100 <= at.monotonic_millis - expected_millis <= 100
}

/// The faults of a baseline sample, in order.
pub open spec fn observation_faults(
    faults: Seq<FaultModel>,
    sample: TelemetrySampleEvidence,
    profile: EvidenceProfile,
    expected_millis: u64,
    system_stable: bool,
) -> Seq<FaultModel> {
    let at = sample.timestamp;
    let unusable = with_fault_if(
        faults,
        !telemetry_is_usable(sample),
        fault(at, "invalid-telemetry"@, "required telemetry is missing, stale, or invalid"@),
    );
    let late = with_fault_if(
        unusable,
        !is_on_time(at, expected_millis),
        fault(
            at,
            "sample-cadence"@,
            "telemetry did not arrive on the runner-owned two-second schedule"@,
        ),
    );
    let elsewhere = with_fault_if(
        late,
        telemetry_is_complete(sample) && !(sample.external_power == Some(profile_source(profile))
            && sample.selected_profile == Some(profile)),
        fault(
            at,
            "starting-conditions"@,
            "observed power/profile does not match the fixed workload"@,
        ),
    );
    let throttled = with_fault_if(
        elsewhere,
        is_throttling(sample),
        fault(at, "thermal-throttling"@, "CPU or GPU thermal throttling was observed"@),
    );
    let hot = with_fault_if(
        throttled,
        is_at_abort_limit(sample),
        fault(at, "absolute-thermal-abort"@, "CPU reached 95 C or GPU reached 85 C"@),
    );
    with_fault_if(
        hot,
        !system_stable,
        fault(at, "system-instability"@, "system stability check failed"@),
    )
}

pub(crate) fn is_complete_telemetry(sample: &TelemetrySampleEvidence) -> (yes: bool)
    ensures
        yes == telemetry_is_complete(*sample),
{
    sample.freshness == SampleFreshness::Fresh && sample.cpu_millicelsius.is_some()
        && sample.gpu_millicelsius.is_some() && sample.external_power.is_some()
        && sample.selected_profile.is_some() && sample.cpu_source_demand_basis_points.is_some()
        && sample.gpu_source_demand_basis_points.is_some()
        && sample.commanded_demand_basis_points.is_some() && sample.cpu_thermal_throttling.is_some()
        && sample.gpu_thermal_throttling.is_some()
}

fn reading_fits(value: Option<i32>) -> (yes: bool)
    ensures
        yes == reading_is_plausible(value),
{
    match value {
        Some(value) => plausible_temperature(value, 150_000),
        None => true,
    }
}

fn bound_demand(demand: Option<u16>) -> (bounded: Option<u16>)
    ensures
        bounded == bounded_demand(demand),
{
    match demand {
        Some(value) => if value > 10_000 {
            None
        } else {
            Some(value)
        },
        None => None,
    }
}

/// Puts a sample into the form in which it is recorded, and tells whether it was usable.
pub(crate) fn settle_sample(sample: &mut TelemetrySampleEvidence) -> (usable: bool)
    ensures
        usable == telemetry_is_usable(*old(sample)),
        *final(sample) == recorded_sample(*old(sample)),
{
    let cpu = bound_demand(sample.cpu_source_demand_basis_points);
    let gpu = bound_demand(sample.gpu_source_demand_basis_points);
    let commanded = bound_demand(sample.commanded_demand_basis_points);
    let dropped = cpu.is_some() != sample.cpu_source_demand_basis_points.is_some() || gpu.is_some()
        != sample.gpu_source_demand_basis_points.is_some() || commanded.is_some()
        != sample.commanded_demand_basis_points.is_some();
    let usable = is_complete_telemetry(sample) && reading_fits(sample.cpu_millicelsius)
        && reading_fits(sample.gpu_millicelsius) && !dropped;
    sample.cpu_source_demand_basis_points = cpu;
    sample.gpu_source_demand_basis_points = gpu;
    sample.commanded_demand_basis_points = commanded;
    if !usable {
        sample.freshness = SampleFreshness::Invalid;
    }
    usable
}

pub(crate) fn throttles(sample: &TelemetrySampleEvidence) -> (yes: bool)
    ensures
        yes == is_throttling(*sample),
{
    let cpu = match sample.cpu_thermal_throttling {
        Some(throttling) => throttling,
        None => false,
    };
    let gpu = match sample.gpu_thermal_throttling {
        Some(throttling) => throttling,
        None => false,
    };
    cpu || gpu
}

pub(crate) fn reaches_abort_limit(sample: &TelemetrySampleEvidence) -> (yes: bool)
    ensures
        yes == is_at_abort_limit(*sample),
{
    let cpu = match sample.cpu_millicelsius {
        Some(value) => value >= CPU_ABSOLUTE_ABORT_MILLICELSIUS,
        None => false,
    };
    let gpu = match sample.gpu_millicelsius {
        Some(value) => value >= GPU_ABSOLUTE_ABORT_MILLICELSIUS,
        None => false,
    };
    cpu || gpu
}

pub(crate) fn arrives_on_time(at: EvidenceTimestamp, expected_millis: u64) -> (yes: bool)
    ensures
        yes == is_on_time(at, expected_millis),
{
    if at.monotonic_millis >= expected_millis {
        at.monotonic_millis - expected_millis <= 100
    } else {
        expected_millis - at.monotonic_millis <= 100
    }
}

/// Judges a baseline sample: records its faults and puts it into its recorded form.
pub fn validate_observation(
    sample: &mut TelemetrySampleEvidence,
    system_stable: bool,
    profile: EvidenceProfile,
    expected_millis: u64,
    faults: &mut Vec<FaultEvidence>,
)
    ensures
        *final(sample) == recorded_sample(*old(sample)),
        fault_list(final(faults)@) == observation_faults(
            fault_list(old(faults)@),
            *old(sample),
            profile,
            expected_millis,
            system_stable,
        ),
{
    let at = sample.timestamp;
    let complete = is_complete_telemetry(sample);
    let on_profile = crate::baseline_record::runs_on(sample, profile);
    let throttling = throttles(sample);
    let at_limit = reaches_abort_limit(sample);
    if !settle_sample(sample) {
        push_fault(
            faults,
            at,
            "invalid-telemetry",
            "required telemetry is missing, stale, or invalid",
        );
    }
    if !arrives_on_time(at, expected_millis) {
        push_fault(
            faults,
            at,
            "sample-cadence",
            "telemetry did not arrive on the runner-owned two-second schedule",
        );
    }
    if complete && !on_profile {
        push_fault(
            faults,
            at,
            "starting-conditions",
            "observed power/profile does not match the fixed workload",
        );
    }
    if throttling {
        push_fault(faults, at, "thermal-throttling", "CPU or GPU thermal throttling was observed");
    }
    if at_limit {
        push_fault(faults, at, "absolute-thermal-abort", "CPU reached 95 C or GPU reached 85 C");
    }
    if !system_stable {
        push_fault(faults, at, "system-instability", "system stability check failed");
    }
}

/// The contents of an observation.
pub struct BaselineObservationModel {
    pub sample: TelemetrySampleEvidence,
    pub system_stable: bool,
    pub kernel_faults: Seq<Seq<char>>,
    pub nvidia_faults: Seq<Seq<char>>,
}

impl View for BaselineObservation {
    type V = BaselineObservationModel;

    open spec fn view(&self) -> BaselineObservationModel {
        BaselineObservationModel {
            sample: self.sample,
            system_stable: self.system_stable,
            kernel_faults: texts(self.kernel_faults@),
            nvidia_faults: texts(self.nvidia_faults@),
        }
    }
}

impl Clone for BaselineObservation {
    fn clone(&self) -> (copy: BaselineObservation)
        ensures
            copy@ == self@,
    {
        BaselineObservation {
            sample: self.sample,
            system_stable: self.system_stable,
            kernel_faults: clone_texts(&self.kernel_faults),
            nvidia_faults: clone_texts(&self.nvidia_faults),
        }
    }
}

/// The message for a sample stamped outside the run.
pub open spec fn outside_run_text(source: EvidenceTimestamp, captured: EvidenceTimestamp) -> Seq<
    char,
> {
    "telemetry source timestamp "@ + decimal_text(source.monotonic_millis as nat)
        + " lies outside the active run through "@ + decimal_text(captured.monotonic_millis as nat)
}

/// Whether a sample was stamped between the start of the run and its capture.
pub open spec fn stamped_in_run(
    source: EvidenceTimestamp,
    started: EvidenceTimestamp,
    captured: EvidenceTimestamp,
) -> bool {
    started.monotonic_millis <= source.monotonic_millis <= captured.monotonic_millis
}

/// A sample that keeps its stamp only where it was stamped in the run.
pub open spec fn restamped(
    sample: TelemetrySampleEvidence,
    started: EvidenceTimestamp,
    captured: EvidenceTimestamp,
) -> TelemetrySampleEvidence {
    if stamped_in_run(sample.timestamp, started, captured) {
        sample
    } else {
        TelemetrySampleEvidence {
            timestamp: captured,
            freshness: SampleFreshness::Invalid,
            ..sample
        }
    }
}

/// A run after one more observation was captured.
pub open spec fn after_observation(
    m: BaselineRunModel,
    started_at: EvidenceTimestamp,
    expected_millis: u64,
    deadline: u64,
    captured_at: EvidenceTimestamp,
    observation: BaselineObservationModel,
) -> BaselineRunModel {
    let stamped = observation.sample.timestamp;
    let late = with_fault_if(
        m.faults,
        captured_at.monotonic_millis > deadline,
        fault(captured_at, "sample-cadence"@, "telemetry capture exceeded its deadline"@),
    );
    let outside = with_fault_if(
        late,
        !stamped_in_run(stamped, started_at, captured_at),
        fault(captured_at, "invalid-telemetry"@, outside_run_text(stamped, captured_at)),
    );
    let sample = restamped(observation.sample, started_at, captured_at);
    let judged = observation_faults(
        outside,
        sample,
        m.workload.power_profile,
        expected_millis,
        observation.system_stable,
    );
    let kernel = reported_faults(
        judged,
        sample.timestamp,
        "kernel-instability"@,
        observation.kernel_faults,
        "kernel fault reported"@,
    );
    let nvidia = reported_faults(
        kernel,
        sample.timestamp,
        "nvidia-instability"@,
        observation.nvidia_faults,
        "NVIDIA fault reported"@,
    );
    BaselineRunModel {
        faults: nvidia,
        kernel_faults: m.kernel_faults + observation.kernel_faults,
        nvidia_faults: m.nvidia_faults + observation.nvidia_faults,
        system_stable: m.system_stable && observation.system_stable,
        samples: m.samples.push(recorded_sample(sample)),
        ..m
    }
}

/// A run after its workload was stopped and cleaned up. `cleanup` is what the cleanup reported,
/// and the time after it, where the stop was confirmed.
pub open spec fn after_stop(
    m: BaselineRunModel,
    deadline: u64,
    stopped_at: EvidenceTimestamp,
    result: Result<(), String>,
    cleanup: Option<(Result<BaselineCleanupAttestation, String>, EvidenceTimestamp)>,
) -> BaselineRunModel {
    match result {
        Err(error) => baseline_fault(
            m,
            stopped_at,
            "workload-stop"@,
            "cannot confirm fixed workload stopped: "@ + error@,
        ),
        Ok(()) => {
            let timed = if stopped_at.monotonic_millis > deadline {
                baseline_fault(
                    m,
                    stopped_at,
                    "workload-stop"@,
                    "workload termination exceeded its deadline"@,
                )
            } else {
                m
            };
            match cleanup {
                None => timed,
                Some((Ok(attestation), at)) => if attestation.fan_control_write_count > 0 {
                    baseline_fault(
                        timed,
                        at,
                        "cleanup-fan-control-write"@,
                        "post-workload cleanup attempted "@ + decimal_text(
                            attestation.fan_control_write_count as nat,
                        ) + " fan-control writes"@,
                    )
                } else {
                    timed
                },
                Some((Err(error), at)) => baseline_fault(
                    timed,
                    at,
                    "cleanup"@,
                    "post-workload cleanup failed: "@ + error@,
                ),
            }
        },
    }
}

impl BaselineRun {
    /// Starts a run for a workload.
    pub fn begin(workload: &WorkloadEvidence) -> (run: BaselineRun)
        ensures
            run@ == (BaselineRunModel {
                workload: workload@,
                starting_conditions_valid: false,
                starting_conditions_captured_at: None,
                workload_started_at: None,
                samples: Seq::empty(),
                readbacks: Seq::empty(),
                faults: Seq::empty(),
                kernel_faults: Seq::empty(),
                nvidia_faults: Seq::empty(),
                system_stable: true,
            }),
    {
        let run = BaselineRun {
            workload: workload.clone(),
            starting_conditions_valid: false,
            starting_conditions_captured_at: None,
            workload_started_at: None,
            samples: Vec::new(),
            readbacks: Vec::new(),
            faults: Vec::new(),
            kernel_faults: Vec::new(),
            nvidia_faults: Vec::new(),
            system_stable: true,
        };
        proof {
            assert(run@.samples =~= Seq::empty());
            assert(run@.readbacks =~= Seq::empty());
            assert(run@.faults =~= Seq::empty());
            assert(run@.kernel_faults =~= Seq::empty());
            assert(run@.nvidia_faults =~= Seq::empty());
        }
        run
    }

    /// Whether the run has met no fault so far.
    pub fn is_clean(&self) -> (yes: bool)
        ensures
            yes == (self@.faults.len() == 0),
    {
        assert(fault_list(self.faults@).len() == self.faults@.len());
        self.faults.len() == 0
    }

    /// Records a fault.
    pub fn note(&mut self, at: EvidenceTimestamp, code: &str, detail: &str)
        ensures
            final(self)@ == baseline_fault(old(self)@, at, code@, detail@),
    {
        push_fault(&mut self.faults, at, code, detail);
    }

    /// Records a mode observation.
    pub fn record_modes(
        &mut self,
        reading: &ModeReading,
        phase: FanReadbackPhase,
        at: EvidenceTimestamp,
        code: &str,
    ) -> (confirmed: bool)
        ensures
            final(self)@ == after_modes(old(self)@, *reading, phase, at, code@),
            confirmed == (mode_failure(*reading) is None),
    {
        let ModeObservation { readbacks, failure } = judge_modes(reading, phase, at);
        append_readbacks(&mut self.readbacks, readbacks);
        match failure {
            Some(detail) => {
                self.note(at, code, detail.as_str());
                false
            },
            None => true,
        }
    }

    /// Records the starting conditions.
    pub fn record_conditions(
        &mut self,
        confirmed_at: EvidenceTimestamp,
        completed_at: EvidenceTimestamp,
        result: Result<CapturedBaselineStartingConditions, String>,
    )
        ensures
            final(self)@ == after_conditions(old(self)@, confirmed_at, completed_at, result),
    {
        let capture = match result {
            Ok(capture) => capture,
            Err(error) => {
                let detail = join("cannot capture starting conditions: ", error.as_str());
                self.note(completed_at, "starting-conditions", detail.as_str());
                return;
            },
        };
        if capture.captured_at.monotonic_millis < confirmed_at.monotonic_millis
            || capture.captured_at.monotonic_millis > completed_at.monotonic_millis {
            self.note(
                completed_at,
                "starting-conditions",
                "starting-condition source timestamp lies outside its confirmed Firmware Auto capture window",
            );
            return;
        }
        self.starting_conditions_captured_at = Some(capture.captured_at);
        let conditions = capture.conditions;
        if conditions.power_profile == self.workload.power_profile && plausible_temperature(
            conditions.ambient_millicelsius,
            80_000,
        ) && plausible_temperature(conditions.cpu_millicelsius, 150_000) && plausible_temperature(
            conditions.gpu_millicelsius,
            150_000,
        ) && conditions.cpu_millicelsius < CPU_ABSOLUTE_ABORT_MILLICELSIUS
            && conditions.gpu_millicelsius < GPU_ABSOLUTE_ABORT_MILLICELSIUS {
            self.workload.ambient_millicelsius = conditions.ambient_millicelsius;
            self.workload.starting_cpu_millicelsius = conditions.cpu_millicelsius;
            self.workload.starting_gpu_millicelsius = conditions.gpu_millicelsius;
            self.starting_conditions_valid = true;
        } else {
            self.note(
                capture.captured_at,
                "starting-conditions",
                "measured temperatures are implausible, at an abort limit, or the power profile does not match",
            );
        }
    }

    /// Checks the workload, and tells whether it can be put on record.
    pub fn check_workload(&mut self, started_at: EvidenceTimestamp) -> (recordable: bool)
        ensures
            final(self)@ == after_workload_check(old(self)@, started_at),
            recordable == workload_is_recordable(old(self)@),
    {
        if !self.starting_conditions_valid {
            return false;
        }
        match validate_workload(&self.workload) {
            Ok(()) => true,
            Err(error) => {
                if self.is_clean() {
                    self.note(started_at, "invalid-baseline-plan", error.message().as_str());
                }
                false
            },
        }
    }

    /// Records the launch of the workload.
    pub fn record_launch(
        &mut self,
        requested_at: EvidenceTimestamp,
        deadline: u64,
        completed_at: EvidenceTimestamp,
        confirmed_at: Option<EvidenceTimestamp>,
        result: Result<EvidenceTimestamp, String>,
    )
        ensures
            final(self)@ == after_launch(
                old(self)@,
                requested_at,
                deadline,
                completed_at,
                confirmed_at,
                result,
            ),
    {
        if completed_at.monotonic_millis > deadline {
            self.note(
                completed_at,
                "workload-start",
                "fixed workload launch exceeded its deadline",
            );
        }
        match result {
            Err(error) => {
                let detail = join("cannot start fixed workload: ", error.as_str());
                self.note(completed_at, "workload-start", detail.as_str());
            },
            Ok(source) => {
                let follows_confirmation = match confirmed_at {
                    Some(confirmed) => confirmed.monotonic_millis <= source.monotonic_millis,
                    None => true,
                };
                if source.monotonic_millis < requested_at.monotonic_millis
                    || source.monotonic_millis > completed_at.monotonic_millis
                    || !follows_confirmation {
                    self.note(
                        completed_at,
                        "workload-start",
                        "workload source timestamp lies outside its confirmed launch window",
                    );
                } else if self.is_clean() {
                    self.workload_started_at = Some(source);
                }
            },
        }
    }

    /// Records one more observation.
    pub fn record_observation(
        &mut self,
        started_at: EvidenceTimestamp,
        expected_millis: u64,
        deadline: u64,
        captured_at: EvidenceTimestamp,
        observation: BaselineObservation,
    )
        ensures
            final(self)@ == after_observation(
                old(self)@,
                started_at,
                expected_millis,
                deadline,
                captured_at,
                observation@,
            ),
    {
        if captured_at.monotonic_millis > deadline {
            self.note(captured_at, "sample-cadence", "telemetry capture exceeded its deadline");
        }
        let mut sample = observation.sample;
        let source = sample.timestamp;
        if source.monotonic_millis < started_at.monotonic_millis || source.monotonic_millis
            > captured_at.monotonic_millis {
            let mut detail = join3(
                "telemetry source timestamp ",
                decimal(source.monotonic_millis).as_str(),
                " lies outside the active run through ",
            );
            detail.append(decimal(captured_at.monotonic_millis).as_str());
            self.note(captured_at, "invalid-telemetry", detail.as_str());
            sample.timestamp = captured_at;
            sample.freshness = SampleFreshness::Invalid;
        }
        let at = sample.timestamp;
        validate_observation(
            &mut sample,
            observation.system_stable,
            self.workload.power_profile,
            expected_millis,
            &mut self.faults,
        );
        extend_texts(&mut self.kernel_faults, &observation.kernel_faults);
        extend_texts(&mut self.nvidia_faults, &observation.nvidia_faults);
        push_reported_faults(
            &mut self.faults,
            at,
            "kernel-instability",
            &observation.kernel_faults,
            "kernel fault reported",
        );
        push_reported_faults(
            &mut self.faults,
            at,
            "nvidia-instability",
            &observation.nvidia_faults,
            "NVIDIA fault reported",
        );
        self.system_stable = self.system_stable && observation.system_stable;
        self.samples.push(sample);
    }

    /// Records the end of the workload.
    pub fn record_stop(
        &mut self,
        deadline: u64,
        stopped_at: EvidenceTimestamp,
        result: Result<(), String>,
        cleanup: Option<(Result<BaselineCleanupAttestation, String>, EvidenceTimestamp)>,
    )
        ensures
            final(self)@ == after_stop(old(self)@, deadline, stopped_at, result, cleanup),
    {
        match result {
            Err(error) => {
                let detail = join("cannot confirm fixed workload stopped: ", error.as_str());
                self.note(stopped_at, "workload-stop", detail.as_str());
                return;
            },
            Ok(()) => {},
        }
        if stopped_at.monotonic_millis > deadline {
            self.note(
                stopped_at,
                "workload-stop",
                "workload termination exceeded its deadline",
            );
        }
        match cleanup {
            None => {},
            Some((Ok(attestation), at)) => {
                if attestation.fan_control_write_count > 0 {
                    let detail = join3(
                        "post-workload cleanup attempted ",
                        decimal(attestation.fan_control_write_count).as_str(),
                        " fan-control writes",
                    );
                    self.note(at, "cleanup-fan-control-write", detail.as_str());
                }
            },
            Some((Err(error), at)) => {
                let detail = join("post-workload cleanup failed: ", error.as_str());
                self.note(at, "cleanup", detail.as_str());
            },
        }
    }
}

/// Whether a run met its plan without a fault.
pub open spec fn run_is_accepted(m: BaselineRunModel, samples_required: nat) -> bool {
    m.faults.len() == 0 && m.samples.len() == samples_required
}

/// How a run is put on record, before the record itself is checked.
pub open spec fn is_assembled(
    record: RecordModel,
    m: BaselineRunModel,
    envelope: crate::evidence::EnvelopeModel,
    started_at: EvidenceTimestamp,
    completed_at: EvidenceTimestamp,
    final_auto: bool,
    recordable: bool,
    samples_required: nat,
    slopes: FinalSlopes,
) -> bool {
    let accepted = run_is_accepted(m, samples_required);
    &&& record.schema_version == 2
    &&& record.envelope == envelope
    &&& record.stage == "firmware-auto-baseline"@
    &&& record.started_at == started_at
    &&& record.completed_at == completed_at
    &&& record.starting_conditions_captured_at == m.starting_conditions_captured_at
    &&& record.workload_started_at == m.workload_started_at
    &&& record.workload == if recordable {
        Some(m.workload)
    } else {
        None
    }
    &&& record.samples == m.samples
    &&& readback_list(record.readbacks) == m.readbacks
    &&& fault_list(record.faults) == m.faults
    &&& record.thermal_summary == Some(
        thermal_summary(
            m.samples,
            slopes,
            m.system_stable,
            nonempty_texts(m.kernel_faults, "kernel fault reported"@),
            nonempty_texts(m.nvidia_faults, "NVIDIA fault reported"@),
        ),
    )
    &&& record.outcome == (OutcomeModel {
        status: if accepted {
            RunOutcomeStatus::Passed
        } else {
            RunOutcomeStatus::Failed
        },
        reason: if accepted {
            "Firmware Auto baseline accepted"@
        } else {
            first_detail(m.faults, "Firmware Auto baseline incomplete"@)
        },
        another_passing_run_required: !accepted,
        final_firmware_auto_confirmed: final_auto,
    })
    &&& holds_no_control(record)
}

/// Whether a record holds nothing of Custom control or of other stages.
pub open spec fn holds_no_control(record: RecordModel) -> bool {
    &&& record.commands.len() == 0
    &&& record.state_transitions.len() == 0
    &&& record.restoration_attempts.len() == 0
    &&& record.process_stops.len() == 0
    &&& record.calibration.len() == 0
    &&& record.baseline_binding_sha256 is None
    &&& record.prerequisite_binding_sha256 is None
    &&& record.fan_endpoint_identities is None
    &&& record.endurance_thermal_envelope is None
    &&& record.endurance_observer_attestation is None
    &&& record.live_lifecycle_cases is None
}

/// Puts a run on record.
pub fn assemble_baseline_record(
    run: BaselineRun,
    envelope: &QualificationEnvelopeIdentityV1,
    started_at: EvidenceTimestamp,
    completed_at: EvidenceTimestamp,
    final_auto: bool,
    recordable: bool,
    samples_required: usize,
    slopes: FinalSlopes,
) -> (record: EvidenceRecord)
    ensures
        is_assembled(
            record@,
            run@,
            envelope@,
            started_at,
            completed_at,
            final_auto,
            recordable,
            samples_required as nat,
            slopes,
        ),
{
    let accepted = run.is_clean() && run.samples.len() == samples_required;
    let reason = if accepted {
        "Firmware Auto baseline accepted".to_owned()
    } else {
        first_fault_detail(&run.faults, "Firmware Auto baseline incomplete")
    };
    let summary = summarize_thermal_evidence(
        &run.samples,
        slopes,
        run.system_stable,
        fill_empty(&run.kernel_faults, "kernel fault reported"),
        fill_empty(&run.nvidia_faults, "NVIDIA fault reported"),
    );
    EvidenceRecord {
        schema_version: EVIDENCE_SCHEMA_VERSION_V2,
        record_status: EvidenceRecordStatus::Complete,
        qualification_envelope: envelope.clone(),
        stage: "firmware-auto-baseline".to_owned(),
        started_at,
        completed_at,
        starting_conditions_captured_at: run.starting_conditions_captured_at,
        workload_started_at: run.workload_started_at,
        baseline_binding_sha256: None,
        prerequisite_binding_sha256: None,
        fan_endpoint_identities: None,
        workload: if recordable {
            Some(run.workload)
        } else {
            None
        },
        samples: run.samples,
        commands: Vec::new(),
        readbacks: run.readbacks,
        state_transitions: Vec::new(),
        faults: run.faults,
        restoration_attempts: Vec::new(),
        process_stops: Vec::new(),
        calibration: Vec::new(),
        thermal_summary: Some(summary),
        endurance_thermal_envelope: None,
        endurance_observer_attestation: None,
        live_lifecycle_cases: None,
        outcome: RunOutcomeEvidence {
            status: if accepted {
                RunOutcomeStatus::Passed
            } else {
                RunOutcomeStatus::Failed
            },
            reason,
            another_passing_run_required: !accepted,
            final_firmware_auto_confirmed: final_auto,
        },
    }
}

/// The record that stands at the end: a passed record that is not valid evidence is turned into a
/// failed one that says so.
pub open spec fn is_concluded(
    before: RecordModel,
    after: RecordModel,
    completed_at: EvidenceTimestamp,
    slopes: FinalSlopes,
) -> bool {
    let error = validation_error(before, slopes);
    if before.outcome.status == RunOutcomeStatus::Passed && error is Some {
        &&& fault_list(after.faults) == fault_list(before.faults).push(
            fault(completed_at, "invalid-evidence"@, error->0.text()),
        )
        &&& after == RecordModel {
            faults: after.faults,
            outcome: OutcomeModel {
                status: RunOutcomeStatus::Failed,
                reason: "generated baseline evidence is invalid"@,
                another_passing_run_required: true,
                ..before.outcome
            },
            ..before
        }
    } else {
        after == before
    }
}

/// Checks a record that claims to have passed.
pub fn conclude_baseline_record(
    mut record: EvidenceRecord,
    completed_at: EvidenceTimestamp,
    slopes: FinalSlopes,
) -> (concluded: EvidenceRecord)
    ensures
        is_concluded(record@, concluded@, completed_at, slopes),
{
    if record.outcome.status == RunOutcomeStatus::Passed {
        match record.validate(slopes) {
            Ok(()) => {},
            Err(error) => {
                push_fault(
                    &mut record.faults,
                    completed_at,
                    "invalid-evidence",
                    error.message().as_str(),
                );
                record.outcome.status = RunOutcomeStatus::Failed;
                record.outcome.reason = "generated baseline evidence is invalid".to_owned();
                record.outcome.another_passing_run_required = true;
            },
        }
    }
    record
}

/// What a baseline run did to the machine, with what was asked, the moment from which the deadline
/// counts, and what came back.
#[allow(inconsistent_fields)]
pub enum BaselineAction {
    Launch {
        workload: WorkloadEvidence,
        from: u64,
        deadline: u64,
        answer: Result<EvidenceTimestamp, String>,
    },
    Stop { from: u64, deadline: u64, answer: Result<(), String> },
    Cleanup { answer: Result<BaselineCleanupAttestation, String> },
}

impl BaselineAction {
    /// The call that the action is.
    pub open spec fn call(self) -> BaselineCall {
        match self {
            BaselineAction::Launch { workload, deadline, answer, .. } =>
                BaselineCall::StartWorkload { workload, deadline, answer },
            BaselineAction::Stop { deadline, answer, .. } => BaselineCall::StopWorkload {
                deadline,
                answer,
            },
            BaselineAction::Cleanup { answer } => BaselineCall::CleanupAfterWorkload { answer },
        }
    }
}

/// The calls that actions are.
pub open spec fn action_calls(actions: Seq<BaselineAction>) -> Seq<BaselineCall> {
    actions.map_values(|action: BaselineAction| action.call())
}

/// Whether a workload is another one, whatever the temperatures at its start.
pub open spec fn is_same_workload(workload: WorkloadModel, other: WorkloadModel) -> bool {
    &&& workload.workload_id == other.workload_id
    &&& workload.command == other.command
    &&& workload.version == other.version
    &&& workload.power_profile == other.power_profile
}

/// Whether a launched workload was also stopped, once, and cleaned up after that exactly where the
/// stop was confirmed.
pub open spec fn workload_was_stopped(actions: Seq<BaselineAction>) -> bool {
    ||| actions.len() == 0
    ||| {
        &&& actions.len() == 2 || actions.len() == 3
        &&& actions[0] matches BaselineAction::Launch { from, deadline, .. } && deadline
            == saturated(from, 10_000)
        &&& actions[1] matches BaselineAction::Stop { from, deadline, answer } && deadline
            == saturated(from, 5_000) && (answer is Ok <==> actions.len() == 3)
        &&& actions.len() == 3 ==> actions[2] is Cleanup
    }
}

/// Whether a workload was launched and cleaned up without a write to a fan.
pub open spec fn cleanup_was_quiet(actions: Seq<BaselineAction>) -> bool {
    actions.len() == 3 && (actions[2] matches BaselineAction::Cleanup { answer: Ok(attestation) }
        && attestation.fan_control_write_count == 0)
}

/// The outcome of a baseline run.
pub struct FirmwareAutoBaselineReport {
    record: EvidenceRecord,
    actions: Ghost<Seq<BaselineAction>>,
}

impl FirmwareAutoBaselineReport {
    /// The contents of the record.
    pub closed spec fn evidence(&self) -> RecordModel {
        self.record@
    }

    /// What the run did to the machine.
    pub closed spec fn actions(&self) -> Seq<BaselineAction> {
        self.actions@
    }

    pub fn record(&self) -> (record: &EvidenceRecord)
        ensures
            record@ == self.evidence(),
    {
        &self.record
    }

    pub fn accepted(&self) -> (yes: bool)
        ensures
            yes == (self.evidence().outcome.status == RunOutcomeStatus::Passed),
    {
        self.record.outcome.status == RunOutcomeStatus::Passed
    }

    pub fn into_record(self) -> (record: EvidenceRecord)
        ensures
            record@ == self.evidence(),
    {
        self.record
    }
}

impl Clone for FirmwareAutoBaselineReport {
    fn clone(&self) -> (copy: FirmwareAutoBaselineReport)
        ensures
            copy.evidence() == self.evidence(),
            copy.actions() == self.actions(),
    {
        FirmwareAutoBaselineReport { record: self.record.clone(), actions: self.actions }
    }
}

/// A run without a fault keeps an observation's sample as it came.
proof fn lemma_clean_observation(
    m: BaselineRunModel,
    started_at: EvidenceTimestamp,
    expected_millis: u64,
    deadline: u64,
    captured_at: EvidenceTimestamp,
    observation: BaselineObservationModel,
)
    ensures
        ({
            let after = after_observation(
                m,
                started_at,
                expected_millis,
                deadline,
                captured_at,
                observation,
            );
            after.faults.len() == 0 ==> m.faults.len() == 0 && after.samples == m.samples.push(
                observation.sample,
            )
        }),
{
    let sample = restamped(observation.sample, started_at, captured_at);
    let stamped = observation.sample.timestamp;
    let late = with_fault_if(
        m.faults,
        captured_at.monotonic_millis > deadline,
        fault(captured_at, "sample-cadence"@, "telemetry capture exceeded its deadline"@),
    );
    let outside = with_fault_if(
        late,
        !stamped_in_run(stamped, started_at, captured_at),
        fault(captured_at, "invalid-telemetry"@, outside_run_text(stamped, captured_at)),
    );
    let judged = observation_faults(
        outside,
        sample,
        m.workload.power_profile,
        expected_millis,
        observation.system_stable,
    );
    lemma_reported_faults(
        judged,
        sample.timestamp,
        "kernel-instability"@,
        observation.kernel_faults,
        "kernel fault reported"@,
    );
    let kernel = reported_faults(
        judged,
        sample.timestamp,
        "kernel-instability"@,
        observation.kernel_faults,
        "kernel fault reported"@,
    );
    lemma_reported_faults(
        kernel,
        sample.timestamp,
        "nvidia-instability"@,
        observation.nvidia_faults,
        "NVIDIA fault reported"@,
    );
}

/// What came back while a sample was waited for.
spec fn wait_answers(
    before_wait: EvidenceTimestamp,
    waited: Result<(), String>,
    after_wait: EvidenceTimestamp,
    ended_at: EvidenceTimestamp,
) -> BaselineAnswers {
    BaselineAnswers { before_wait, waited, after_wait, observed: arbitrary(), ended_at }
}

/// Waits until the next sample is due. Where its time does not come as it should, a fault is noted.
fn wait_for_sample<E>(
    environment: &mut E,
    trace: &mut Trace<'_, E, BaselineCall>,
    run: &mut BaselineRun,
    started_at: EvidenceTimestamp,
) -> (due: (Option<u64>, Ghost<BaselineAnswers>)) where
    E: FirmwareAutoBaselineEnvironment + ?Sized,

    requires
        old(trace).follows(&*old(environment)),
        old(run)@.workload_started_at is Some,
    ensures
        final(trace).follows(&*final(environment)),
        final(trace).start() == old(trace).start(),
        goes_on(old(trace).calls(), final(trace).calls()),
        effects(final(trace).calls()) == effects(old(trace).calls()),
        observed(final(trace).calls()) == observed(old(trace).calls()),
        final(trace).calls() == old(trace).calls() + wait_calls(old(run)@, due.1@),
        match (due.0, wait_defect(old(run)@, due.1@, started_at)) {
            (Some(millis), None) => {
                &&& final(run)@ == old(run)@
                &&& millis == sample_due(old(run)@)
                &&& millis + 100 <= u64::MAX
            },
            (None, Some((at, detail))) => final(run)@ == baseline_fault(
                old(run)@,
                at,
                "sample-cadence"@,
                detail,
            ),
            _ => false,
        },
{
    let ghost none: EvidenceTimestamp = arbitrary();
    let number: u64 = run.samples.len() as u64;
    let offset: u64 = if number < u64::MAX / 2_000 {
        (number + 1) * 2_000
    } else {
        u64::MAX
    };
    let launched: u64 = run.workload_started_at.unwrap().monotonic_millis;
    let expected_millis: u64 = match launched.checked_add(offset) {
        Some(expected) => expected,
        None => {
            run.note(started_at, "sample-cadence", "telemetry schedule overflowed");
            return (None, Ghost(wait_answers(none, Ok(()), none, none)));
        },
    };
    let deadline: u64 = match expected_millis.checked_add(100) {
        Some(deadline) => deadline,
        None => {
            run.note(started_at, "sample-cadence", "telemetry deadline overflowed");
            return (None, Ghost(wait_answers(none, Ok(()), none, none)));
        },
    };
    let before_wait = trace.timestamp(environment);
    if before_wait.monotonic_millis > deadline {
        run.note(
            before_wait,
            "sample-cadence",
            "workload launch acknowledgement missed the telemetry deadline",
        );
        return (None, Ghost(wait_answers(before_wait, Ok(()), none, none)));
    }
    let waited = trace.wait_until(environment, expected_millis, deadline);
    let ghost answer = waited;
    match waited {
        Ok(()) => {},
        Err(error) => {
            let detail = join("cannot wait for the next telemetry sample: ", error.as_str());
            let at = trace.timestamp(environment);
            run.note(at, "sample-cadence", detail.as_str());
            return (None, Ghost(wait_answers(before_wait, answer, none, at)));
        },
    }
    let wait_returned_at = trace.timestamp(environment);
    let ghost answers = wait_answers(before_wait, answer, wait_returned_at, none);
    if wait_returned_at.monotonic_millis > deadline {
        run.note(wait_returned_at, "sample-cadence", "telemetry wait exceeded its deadline");
        return (None, Ghost(answers));
    }
    (Some(expected_millis), Ghost(answers))
}

/// Captures a sample whose time has come.
fn capture_sample<E>(
    environment: &mut E,
    trace: &mut Trace<'_, E, BaselineCall>,
    run: &mut BaselineRun,
    started_at: EvidenceTimestamp,
    expected_millis: u64,
    Ghost(waited): Ghost<BaselineAnswers>,
    Ghost(platform): Ghost<Calls>,
) -> (answers: Ghost<BaselineAnswers>) where E: FirmwareAutoBaselineEnvironment + ?Sized
    requires
        old(trace).follows(&*old(environment)),
        expected_millis == sample_due(old(run)@),
        expected_millis + 100 <= u64::MAX,
        old(run)@.faults.len() == 0,
    ensures
        final(trace).follows(&*final(environment)),
        final(trace).start() == old(trace).start(),
        goes_on(old(trace).calls(), final(trace).calls()),
        effects(final(trace).calls()) == effects(old(trace).calls()),
        baseline_state(final(run)@, final(trace).calls(), platform) == captured_state(
            baseline_state(old(run)@, old(trace).calls(), platform),
            answers@,
            started_at,
        ),
        answers@ == (BaselineAnswers {
            observed: answers@.observed,
            ended_at: answers@.ended_at,
            ..waited
        }),
        observed(old(trace).calls()) == old(run)@.samples ==> samples_came(
            final(run)@.samples,
            observed(final(trace).calls()),
            final(run)@.faults.len() == 0,
        ),
        final(run)@.samples.len() <= old(run)@.samples.len() + 1,
        final(run)@.faults.len() == 0 ==> final(run)@.samples.len() == old(run)@.samples.len() + 1,
        final(run)@.workload_started_at == old(run)@.workload_started_at,
        final(run)@.workload == old(run)@.workload,
        final(run)@.starting_conditions_valid == old(run)@.starting_conditions_valid,
{
    let ghost before = run@;
    let deadline: u64 = expected_millis + 100;
    let captured = trace.capture_observation(environment, deadline);
    let ghost answer = captured;
    let at = trace.timestamp(environment);
    match captured {
        Ok(observation) => {
            proof {
                lemma_clean_observation(
                    before,
                    started_at,
                    expected_millis,
                    deadline,
                    at,
                    observation@,
                );
            }
            run.record_observation(started_at, expected_millis, deadline, at, observation);
        },
        Err(error) => {
            let detail = join("cannot capture required telemetry: ", error.as_str());
            run.note(at, "invalid-telemetry", detail.as_str());
        },
    }
    Ghost(BaselineAnswers { observed: answer, ended_at: at, ..waited })
}

/// Reads both fans' modes and notes what was read. Tells when that was, and whether both fans are
/// confirmed in Firmware Auto.
fn check_modes<P, E>(
    platform: &mut P,
    environment: &mut E,
    trace: &mut Trace<'_, E, BaselineCall>,
    device: &Option<AcerHwmonDevice>,
    run: &mut BaselineRun,
    phase: FanReadbackPhase,
    code: &str,
) -> (checked: (
    Ghost<ModeReading>,
    EvidenceTimestamp,
    bool,
)) where P: FirmwareAutoBaselineAccess, E: FirmwareAutoBaselineEnvironment + ?Sized
    requires
        old(trace).follows(&*old(environment)),
        *device matches Some(found) ==> device_is_bound(found@),
    ensures
        final(trace).follows(&*final(environment)),
        final(trace).start() == old(trace).start(),
        goes_on(old(trace).calls(), final(trace).calls()),
        effects(final(trace).calls()) == effects(old(trace).calls()),
        observed(final(trace).calls()) == observed(old(trace).calls()),
        final(trace).calls() == old(trace).calls().push(
            BaselineCall::Timestamp { answer: checked.1 },
        ),
        final(run)@ == after_modes(old(run)@, checked.0@, phase, checked.1, code@),
        checked.2 == (mode_failure(checked.0@) is None),
        modes_were_noted(
            baseline_state(old(run)@, old(trace).calls(), old(platform).history()),
            baseline_state(final(run)@, final(trace).calls(), final(platform).history()),
            device_option(*device),
            phase,
            code@,
            checked.0@,
            checked.1,
        ),
{
    let reading = read_modes(platform, device);
    let at = trace.timestamp(environment);
    let confirmed = run.record_modes(&reading, phase, at, code);
    (Ghost(reading), at, confirmed)
}

/// Waits for one more sample, takes it, and reads both fans' modes after it.
fn take_baseline_sample<P, E>(
    platform: &mut P,
    environment: &mut E,
    trace: &mut Trace<'_, E, BaselineCall>,
    device: &Option<AcerHwmonDevice>,
    run: &mut BaselineRun,
    started_at: EvidenceTimestamp,
) where P: FirmwareAutoBaselineAccess, E: FirmwareAutoBaselineEnvironment + ?Sized
    requires
        old(trace).follows(&*old(environment)),
        *device matches Some(found) ==> device_is_bound(found@),
        old(run)@.faults.len() == 0,
        old(run)@.workload_started_at is Some,
    ensures
        final(trace).follows(&*final(environment)),
        final(trace).start() == old(trace).start(),
        goes_on(old(trace).calls(), final(trace).calls()),
        effects(final(trace).calls()) == effects(old(trace).calls()),
        sample_was_taken(
            baseline_state(old(run)@, old(trace).calls(), old(platform).history()),
            baseline_state(final(run)@, final(trace).calls(), final(platform).history()),
            device_option(*device),
            started_at,
        ),
        observed(old(trace).calls()) == old(run)@.samples ==> samples_came(
            final(run)@.samples,
            observed(final(trace).calls()),
            final(run)@.faults.len() == 0,
        ),
        final(run)@.samples.len() <= old(run)@.samples.len() + 1,
        final(run)@.faults.len() == 0 ==> final(run)@.samples.len() == old(run)@.samples.len() + 1,
        final(run)@.workload_started_at == old(run)@.workload_started_at,
        final(run)@.workload == old(run)@.workload,
        final(run)@.starting_conditions_valid == old(run)@.starting_conditions_valid,
{
    let ghost before = baseline_state(run@, trace.calls(), platform.history());
    let (due, Ghost(first)) = wait_for_sample(environment, trace, run, started_at);
    let ghost waited = baseline_state(run@, trace.calls(), platform.history());
    let expected_millis: u64 = match due {
        Some(millis) => millis,
        None => {
            assert(waited == waited_state(before, first, started_at));
            return;
        },
    };
    let Ghost(answers) = capture_sample(
        environment,
        trace,
        run,
        started_at,
        expected_millis,
        Ghost(first),
        Ghost(platform.history()),
    );
    let ghost captured = baseline_state(run@, trace.calls(), platform.history());
    assert(waited == waited_state(before, answers, started_at));
    assert(captured == captured_state(waited, answers, started_at));
    if run.is_clean() {
        check_modes(
            platform,
            environment,
            trace,
            device,
            run,
            FanReadbackPhase::Sample,
            "firmware-auto-lost",
        );
    }
    assert(sample_was_captured(
        captured,
        baseline_state(run@, trace.calls(), platform.history()),
        device_option(*device),
    ));
}

/// Samples until the plan is met or a fault comes up.
fn sample_baseline<P, E>(
    platform: &mut P,
    environment: &mut E,
    trace: &mut Trace<'_, E, BaselineCall>,
    device: &Option<AcerHwmonDevice>,
    run: &mut BaselineRun,
    started_at: EvidenceTimestamp,
    samples_required: usize,
) where P: FirmwareAutoBaselineAccess, E: FirmwareAutoBaselineEnvironment + ?Sized
    requires
        old(trace).follows(&*old(environment)),
        *device matches Some(found) ==> device_is_bound(found@),
        old(run)@.samples.len() == 0,
        observed(old(trace).calls()).len() == 0,
        old(run)@.faults.len() == 0 ==> old(run)@.workload_started_at is Some,
    ensures
        final(trace).follows(&*final(environment)),
        final(trace).start() == old(trace).start(),
        goes_on(old(trace).calls(), final(trace).calls()),
        effects(final(trace).calls()) == effects(old(trace).calls()),
        samples_were_taken(
            baseline_state(old(run)@, old(trace).calls(), old(platform).history()),
            baseline_state(final(run)@, final(trace).calls(), final(platform).history()),
            device_option(*device),
            started_at,
            samples_required as nat,
        ),
        samples_came(
            final(run)@.samples,
            observed(final(trace).calls()),
            final(run)@.faults.len() == 0,
        ),
        final(run)@.samples.len() <= samples_required,
        final(run)@.faults.len() == 0 ==> final(run)@.samples.len() == samples_required,
        final(run)@.workload == old(run)@.workload,
        final(run)@.starting_conditions_valid == old(run)@.starting_conditions_valid,
        old(run)@.faults.len() > 0 ==> final(run)@ == old(run)@,
{
    let ghost mut states: Seq<BaselineState> = seq![
        baseline_state(run@, trace.calls(), platform.history()),
    ];
    while run.is_clean() && run.samples.len() < samples_required
        invariant
            trace.follows(&*environment),
            trace.start() == old(trace).start(),
            goes_on(old(trace).calls(), trace.calls()),
            effects(trace.calls()) == effects(old(trace).calls()),
            are_sampled(states, device_option(*device), started_at, samples_required as nat),
            states[0] == baseline_state(old(run)@, old(trace).calls(), old(platform).history()),
            states.last() == baseline_state(run@, trace.calls(), platform.history()),
            samples_came(run@.samples, observed(trace.calls()), run@.faults.len() == 0),
            *device matches Some(found) ==> device_is_bound(found@),
            run@.samples.len() <= samples_required,
            run@.faults.len() == 0 ==> run@.workload_started_at is Some,
            run@.workload == old(run)@.workload,
            run@.starting_conditions_valid == old(run)@.starting_conditions_valid,
            old(run)@.faults.len() > 0 ==> run@ == old(run)@,
        decreases
                (if run@.faults.len() == 0 {
                    1int
                } else {
                    0
                }),
                samples_required - run@.samples.len(),
    {
        take_baseline_sample(platform, environment, trace, device, run, started_at);
        proof {
            let next = baseline_state(run@, trace.calls(), platform.history());
            lemma_one_more_sample(
                states,
                next,
                device_option(*device),
                started_at,
                samples_required as nat,
            );
            states = states.push(next);
        }
    }
}

/// Reads both fans' modes, captures the starting conditions, checks the workload, and confirms
/// Firmware Auto again. Tells what was read first, whether the workload can be put on record, and
/// when Firmware Auto was confirmed last.
fn prepare_baseline<P, E>(
    platform: &mut P,
    environment: &mut E,
    trace: &mut Trace<'_, E, BaselineCall>,
    device: &Option<AcerHwmonDevice>,
    run: &mut BaselineRun,
    started_at: EvidenceTimestamp,
    samples_required: usize,
) -> (prepared: (
    Ghost<ModeReading>,
    bool,
    Option<EvidenceTimestamp>,
)) where P: FirmwareAutoBaselineAccess, E: FirmwareAutoBaselineEnvironment + ?Sized
    requires
        old(trace).follows(&*old(environment)),
        *device matches Some(found) ==> device_is_bound(found@),
        old(run)@.faults.len() == 0,
        old(run)@.samples.len() == 0,
    ensures
        final(trace).follows(&*final(environment)),
        final(trace).start() == old(trace).start(),
        goes_on(old(trace).calls(), final(trace).calls()),
        effects(final(trace).calls()) == effects(old(trace).calls()),
        observed(final(trace).calls()) == observed(old(trace).calls()),
        baseline_was_prepared(
            baseline_state(old(run)@, old(trace).calls(), old(platform).history()),
            baseline_state(final(run)@, final(trace).calls(), final(platform).history()),
            device_option(*device),
            started_at,
            samples_required as nat,
            prepared.0@,
            prepared.1,
            prepared.2,
        ),
        final(run)@.samples.len() == 0,
        final(run)@.faults.len() == 0 ==> samples_required >= 2 && mode_failure(prepared.0@) is None
            && prepared.1,
        is_same_workload(final(run)@.workload, old(run)@.workload),
        mode_failure(prepared.0@) matches Some(detail) ==> final(run)@.faults.len() > 0
            && final(run)@.faults[0].detail == detail,
{
    let ghost before = baseline_state(run@, trace.calls(), platform.history());
    let (first, initial_modes_at, _) = check_modes(
        platform,
        environment,
        trace,
        device,
        run,
        FanReadbackPhase::Initial,
        "firmware-auto-unconfirmed",
    );
    let ghost initial = baseline_state(run@, trace.calls(), platform.history());
    if samples_required < 2 {
        run.note(
            started_at,
            "invalid-baseline-plan",
            "at least two telemetry samples are required to calculate thermal slope",
        );
    }
    let ghost planned = baseline_state(run@, trace.calls(), platform.history());
    assert(planned == planned_state(initial, started_at, samples_required as nat));
    if run.is_clean() {
        let captured = trace.capture_starting_conditions(environment);
        let ghost answer = captured;
        let completed_at = trace.timestamp(environment);
        run.record_conditions(initial_modes_at, completed_at, captured);
        assert(baseline_state(run@, trace.calls(), platform.history()) == conditions_state(
            planned,
            initial_modes_at,
            answer,
            completed_at,
        ));
    }
    let ghost conditioned = baseline_state(run@, trace.calls(), platform.history());
    assert(conditions_were_captured(planned, conditioned, initial_modes_at));
    let recordable = run.check_workload(started_at);
    let ghost checked = baseline_state(run@, trace.calls(), platform.history());
    let mut confirmed_at: Option<EvidenceTimestamp> = None;
    if run.is_clean() {
        let (_, at, confirmed) = check_modes(
            platform,
            environment,
            trace,
            device,
            run,
            FanReadbackPhase::StartGate,
            "firmware-auto-unconfirmed",
        );
        if confirmed {
            confirmed_at = Some(at);
        }
    }
    assert(gate_was_passed(
        checked,
        baseline_state(run@, trace.calls(), platform.history()),
        device_option(*device),
        confirmed_at,
    ));
    (first, recordable, confirmed_at)
}

/// Launches the workload, and reads both fans' modes after that.
fn open_baseline<P, E>(
    platform: &mut P,
    environment: &mut E,
    trace: &mut Trace<'_, E, BaselineCall>,
    device: &Option<AcerHwmonDevice>,
    run: &mut BaselineRun,
    confirmed_at: Option<EvidenceTimestamp>,
) -> (launch: Ghost<BaselineAction>) where
    P: FirmwareAutoBaselineAccess,
    E: FirmwareAutoBaselineEnvironment + ?Sized,

    requires
        old(trace).follows(&*old(environment)),
        *device matches Some(found) ==> device_is_bound(found@),
        old(run)@.faults.len() == 0,
    ensures
        final(trace).follows(&*final(environment)),
        final(trace).start() == old(trace).start(),
        goes_on(old(trace).calls(), final(trace).calls()),
        effects(final(trace).calls()) == effects(old(trace).calls()).push(launch@.call()),
        observed(final(trace).calls()) == observed(old(trace).calls()),
        baseline_was_opened(
            baseline_state(old(run)@, old(trace).calls(), old(platform).history()),
            baseline_state(final(run)@, final(trace).calls(), final(platform).history()),
            device_option(*device),
            confirmed_at,
        ),
        launch@ matches BaselineAction::Launch { workload, from, deadline, answer } && deadline
            == saturated(from, 10_000) && workload@ == old(run)@.workload && (final(run)@.faults.len()
            == 0 ==> answer is Ok),
        final(run)@.workload == old(run)@.workload,
        final(run)@.samples == old(run)@.samples,
        final(run)@.faults.len() == 0 ==> final(run)@.workload_started_at is Some,
{
    let ghost before = baseline_state(run@, trace.calls(), platform.history());
    let ghost workload = run.workload;
    let requested_at = trace.timestamp(environment);
    let deadline: u64 = requested_at.monotonic_millis.saturating_add(10_000);
    let launched = trace.start_workload(environment, &run.workload, deadline);
    let ghost answer = launched;
    let ghost launch = BaselineAction::Launch {
        workload,
        from: requested_at.monotonic_millis,
        deadline,
        answer: launched,
    };
    let at = trace.timestamp(environment);
    run.record_launch(requested_at, deadline, at, confirmed_at, launched);
    assert(baseline_state(run@, trace.calls(), platform.history()) == launch_state(
        before,
        confirmed_at,
        requested_at,
        workload,
        answer,
        at,
    ));
    if run.is_clean() {
        check_modes(
            platform,
            environment,
            trace,
            device,
            run,
            FanReadbackPhase::WorkloadStarted,
            "firmware-auto-lost",
        );
    }
    Ghost(launch)
}

/// Stops the workload, and cleans up after it where it was stopped.
fn stop_baseline<E>(
    environment: &mut E,
    trace: &mut Trace<'_, E, BaselineCall>,
    run: &mut BaselineRun,
    Ghost(platform): Ghost<Calls>,
) -> (actions: Ghost<Seq<BaselineAction>>) where E: FirmwareAutoBaselineEnvironment + ?Sized
    requires
        old(trace).follows(&*old(environment)),
    ensures
        final(trace).follows(&*final(environment)),
        final(trace).start() == old(trace).start(),
        goes_on(old(trace).calls(), final(trace).calls()),
        effects(final(trace).calls()) == effects(old(trace).calls()) + action_calls(actions@),
        observed(final(trace).calls()) == observed(old(trace).calls()),
        stop_was_made(
            baseline_state(old(run)@, old(trace).calls(), platform),
            baseline_state(final(run)@, final(trace).calls(), platform),
        ),
        actions@.len() == 1 || actions@.len() == 2,
        actions@[0] matches BaselineAction::Stop { from, deadline, answer } && deadline == saturated(
            from,
            5_000,
        ) && (answer is Ok <==> actions@.len() == 2),
        actions@.len() == 2 ==> actions@[1] is Cleanup,
        final(run)@.workload == old(run)@.workload,
        final(run)@.samples == old(run)@.samples,
        goes_on(old(run)@.faults, final(run)@.faults),
        final(run)@.faults.len() == 0 ==> actions@.len() == 2 && (
        actions@[1] matches BaselineAction::Cleanup { answer: Ok(attestation) }
            && attestation.fan_control_write_count == 0),
{
    let ghost before = baseline_state(run@, trace.calls(), platform);
    let ghost acted = effects(trace.calls());
    let requested_at = trace.timestamp(environment);
    let from: u64 = requested_at.monotonic_millis;
    let deadline: u64 = from.saturating_add(5_000);
    let stopped = trace.stop_workload(environment, deadline);
    let ghost answer = stopped;
    let ghost stop = BaselineAction::Stop { from, deadline, answer: stopped };
    let mut actions: Ghost<Seq<BaselineAction>> = Ghost(Seq::empty().push(stop));
    let stopped_at = trace.timestamp(environment);
    assert(effects(trace.calls()) =~= acted + action_calls(actions@));
    let ghost mut answers = StopAnswers {
        requested_at,
        stopped: answer,
        stopped_at,
        cleaned: arbitrary(),
        cleaned_at: stopped_at,
    };
    let cleanup = if stopped.is_ok() {
        let cleaned = trace.cleanup_after_workload(environment);
        let ghost cleanup = BaselineAction::Cleanup { answer: cleaned };
        actions = Ghost(actions@.push(cleanup));
        assert(effects(trace.calls()) =~= acted + action_calls(actions@));
        let quiet = match &cleaned {
            Ok(attestation) => attestation.fan_control_write_count == 0,
            Err(_) => false,
        };
        let cleaned_at = if quiet {
            stopped_at
        } else {
            trace.timestamp(environment)
        };
        proof {
            answers = StopAnswers { cleaned, cleaned_at, ..answers };
        }
        Some((cleaned, cleaned_at))
    } else {
        None
    };
    run.record_stop(deadline, stopped_at, stopped, cleanup);
    assert(baseline_state(run@, trace.calls(), platform) == stop_state(before, answers));
    actions
}

/// Asks for the device, if there is one that can be trusted.
fn find_device<P>(platform: &mut P, hwmon_root: &str) -> (device: Option<AcerHwmonDevice>) where
    P: FirmwareAutoBaselineAccess,

    ensures
        device_was_asked_for(
            old(platform).history(),
            final(platform).history(),
            hwmon_root@,
            device_option(device),
        ),
        device matches Some(found) ==> device_is_bound(found@),
{
    let result = discover_acer_hwmon(platform, hwmon_root);
    match result {
        Ok(device) => Some(device),
        Err(_) => None,
    }
}

/// Whether a device is what its discovery gave.
pub open spec fn device_was_asked_for(
    before: Calls,
    after: Calls,
    hwmon_root: Seq<char>,
    device: Option<DeviceModel>,
) -> bool {
    exists|outcome: Result<DeviceModel, DiscoveryErrorModel>|
        #[trigger] discovery_is_made(before, after, hwmon_root, outcome) && match device {
            Some(found) => outcome == Ok::<DeviceModel, DiscoveryErrorModel>(found),
            None => outcome is Err,
        }
}

/// What holds of the outcome of a baseline run, whatever the machine answered. `first` and `last`
/// are the readings of both fans' modes at the start and at the end.
pub open spec fn baseline_report_stands(
    record: RecordModel,
    actions: Seq<BaselineAction>,
    plan: FirmwareAutoBaselinePlan<'_>,
    first: ModeReading,
    last: ModeReading,
    slopes: FinalSlopes,
) -> bool {
    let passed = record.outcome.status == RunOutcomeStatus::Passed;
    &&& workload_was_stopped(actions)
    &&& record.schema_version == 2
    &&& record.stage == "firmware-auto-baseline"@
    &&& record.envelope == plan.qualification_envelope@
    &&& holds_no_control(record)
    &&& record.samples.len() <= plan.samples_required
    &&& passed || record.outcome.status == RunOutcomeStatus::Failed
    &&& record.outcome.another_passing_run_required == !passed
    &&& passed <==> record.faults.len() == 0
    &&& passed ==> record.samples.len() == plan.samples_required && cleanup_was_quiet(actions)
        && is_valid(record, slopes) && (actions[0] matches BaselineAction::Launch { answer, .. }
        && answer is Ok)
    &&& actions.len() > 0 ==> plan.samples_required >= 2 && mode_failure(first) is None && (
    actions[0] matches BaselineAction::Launch { workload, .. } && record.workload == Some(workload@))
    &&& record.workload matches Some(workload) ==> is_same_workload(workload, plan.workload@)
    &&& record.outcome.final_firmware_auto_confirmed == (mode_failure(last) is None)
    &&& mode_failure(first) matches Some(detail) ==> record.faults.len() > 0 && fault_list(
        record.faults,
    )[0].detail == detail
    &&& !passed && record.outcome.reason != "generated baseline evidence is invalid"@
        ==> record.outcome.reason == first_detail(fault_list(record.faults), seq![])
}

/// Whether a run on the machine led to an outcome: the device is the one that was found, both fans'
/// modes were read from it at the start and at the end, the calls that acted are the actions of the
/// report, and no others, and the samples and their slopes are those that came back.
pub open spec fn baseline_was_run<
    P: FirmwareAutoBaselineAccess,
    E: FirmwareAutoBaselineEnvironment + ?Sized,
    M: SlopeMeter + ?Sized,
>(
    platform_before: &P,
    platform_after: &P,
    before: &E,
    after: &E,
    meter_before: &M,
    meter_after: &M,
    plan: FirmwareAutoBaselinePlan<'_>,
    report: FirmwareAutoBaselineReport,
) -> bool {
    exists|
        calls: Seq<BaselineCall>,
        first: ModeReading,
        last: ModeReading,
        slopes: FinalSlopes,
    |
        {
            &&& #[trigger] ran(before, calls, after)
            &&& effects(calls) == action_calls(report.actions())
            &&& samples_came(
                report.evidence().samples,
                observed(calls),
                report.evidence().outcome.status == RunOutcomeStatus::Passed,
            )
            &&& slopes_came(meter_before, meter_after, report.evidence().samples, slopes)
            &&& is_record_of_calls(
                report.evidence(),
                calls,
                platform_before.history(),
                platform_after.history(),
                plan,
                first,
                last,
                slopes,
            )
            &&& #[trigger] baseline_report_stands(
                report.evidence(),
                report.actions(),
                plan,
                first,
                last,
                slopes,
            )
        }
}

/// Prepares a baseline, launches, samples and stops its workload where no fault came up, and reads
/// both fans' modes once more. Tells whether the workload can be put on record, when the baseline
/// ended, and whether both fans are then confirmed in Firmware Auto.
fn perform_baseline<P, E>(
    platform: &mut P,
    environment: &mut E,
    trace: &mut Trace<'_, E, BaselineCall>,
    device: &Option<AcerHwmonDevice>,
    run: &mut BaselineRun,
    started_at: EvidenceTimestamp,
    samples_required: usize,
) -> (done: (
    (bool, EvidenceTimestamp, bool),
    Ghost<(ModeReading, ModeReading)>,
    Ghost<Seq<BaselineAction>>,
)) where P: FirmwareAutoBaselineAccess, E: FirmwareAutoBaselineEnvironment + ?Sized
    requires
        old(trace).follows(&*old(environment)),
        *device matches Some(found) ==> device_is_bound(found@),
        effects(old(trace).calls()).len() == 0,
        observed(old(trace).calls()).len() == 0,
        old(run)@.faults.len() == 0,
        old(run)@.samples.len() == 0,
    ensures
        final(trace).follows(&*final(environment)),
        final(trace).start() == old(trace).start(),
        effects(final(trace).calls()) == action_calls(done.2@),
        samples_came(
            final(run)@.samples,
            observed(final(trace).calls()),
            final(run)@.faults.len() == 0,
        ),
        baseline_came_to(
            baseline_state(old(run)@, old(trace).calls(), old(platform).history()),
            baseline_state(final(run)@, final(trace).calls(), final(platform).history()),
            device_option(*device),
            started_at,
            done.0.1,
            samples_required as nat,
            done.1@.0,
            done.1@.1,
            done.0.0,
        ),
        done.0.2 == (mode_failure(done.1@.1) is None),
        workload_was_stopped(done.2@),
        final(run)@.samples.len() <= samples_required,
        final(run)@.faults.len() == 0 ==> final(run)@.samples.len() == samples_required
            && cleanup_was_quiet(done.2@) && (
        done.2@[0] matches BaselineAction::Launch { answer, .. } && answer is Ok),
        done.2@.len() > 0 ==> samples_required >= 2 && mode_failure(done.1@.0) is None && done.0.0
            && (done.2@[0] matches BaselineAction::Launch { workload, .. } && workload@
            == final(run)@.workload),
        is_same_workload(final(run)@.workload, old(run)@.workload),
        mode_failure(done.1@.0) matches Some(detail) ==> final(run)@.faults.len() > 0
            && final(run)@.faults[0].detail == detail,
{
    let ghost begun = baseline_state(run@, trace.calls(), platform.history());
    let (first, recordable, confirmed_at) = prepare_baseline(
        platform,
        environment,
        trace,
        device,
        run,
        started_at,
        samples_required,
    );
    let ghost prepared = baseline_state(run@, trace.calls(), platform.history());
    let mut actions: Ghost<Seq<BaselineAction>> = Ghost(Seq::empty());
    assert(action_calls(actions@) =~= Seq::empty());
    let attempted = run.is_clean();
    if attempted {
        let launch = open_baseline(platform, environment, trace, device, run, confirmed_at);
        actions = Ghost(actions@.push(launch@));
        assert(effects(trace.calls()) =~= action_calls(actions@));
    }
    let ghost opened = baseline_state(run@, trace.calls(), platform.history());
    sample_baseline(
        platform,
        environment,
        trace,
        device,
        run,
        started_at,
        samples_required,
    );
    let ghost sampled = baseline_state(run@, trace.calls(), platform.history());
    if attempted {
        let stop = stop_baseline(environment, trace, run, Ghost(platform.history()));
        proof {
            assert(action_calls(actions@ + stop@) =~= action_calls(actions@) + action_calls(stop@));
        }
        actions = Ghost(actions@ + stop@);
    }
    let ghost stopped = baseline_state(run@, trace.calls(), platform.history());
    let (last, completed_at, final_auto) = check_modes(
        platform,
        environment,
        trace,
        device,
        run,
        FanReadbackPhase::Final,
        "firmware-auto-unconfirmed",
    );
    let ghost end = baseline_state(run@, trace.calls(), platform.history());
    proof {
        reveal(baseline_came_to);
        assert(baseline_was_prepared(
            begun,
            prepared,
            device_option(*device),
            started_at,
            samples_required as nat,
            first@,
            recordable,
            confirmed_at,
        ));
        assert(samples_were_taken(
            opened,
            sampled,
            device_option(*device),
            started_at,
            samples_required as nat,
        ));
        assert(baseline_came_to(
            begun,
            end,
            device_option(*device),
            started_at,
            completed_at,
            samples_required as nat,
            first@,
            last@,
            recordable,
        ));
    }
    ((recordable, completed_at, final_auto), Ghost((first@, last@)), actions)
}

/// Runs a baseline in an envelope that can be qualified, up to the record that it leaves. Tells the
/// first and the last reading of both fans' modes.
fn run_accepted_baseline<P, E, M>(
    platform: &mut P,
    environment: &mut E,
    trace: &mut Trace<'_, E, BaselineCall>,
    meter: &mut M,
    plan: &FirmwareAutoBaselinePlan<'_>,
) -> (left: (
    EvidenceRecord,
    FinalSlopes,
    Ghost<(ModeReading, ModeReading)>,
    Ghost<Seq<BaselineAction>>,
)) where
    P: FirmwareAutoBaselineAccess,
    E: FirmwareAutoBaselineEnvironment + ?Sized,
    M: SlopeMeter + ?Sized,

    requires
        old(trace).calls() == Seq::<BaselineCall>::empty(),
        old(trace).follows(&*old(environment)),
    ensures
        final(trace).follows(&*final(environment)),
        final(trace).start() == old(trace).start(),
        effects(final(trace).calls()) == action_calls(left.3@),
        samples_came(
            left.0@.samples,
            observed(final(trace).calls()),
            left.0@.outcome.status == RunOutcomeStatus::Passed,
        ),
        slopes_came(&*old(meter), &*final(meter), left.0@.samples, left.1),
        is_record_of_calls(
            left.0@,
            final(trace).calls(),
            old(platform).history(),
            final(platform).history(),
            *plan,
            left.2@.0,
            left.2@.1,
            left.1,
        ),
        baseline_report_stands(left.0@, left.3@, *plan, left.2@.0, left.2@.1, left.1),
{
    let ghost platform_before = platform.history();
    let started_at = trace.timestamp(environment);
    let mut run = BaselineRun::begin(&plan.workload);
    let device = find_device(platform, plan.hwmon_root);
    let ghost found = platform.history();
    let ghost begun = baseline_state(run@, trace.calls(), platform.history());
    let (performed, modes, actions) = perform_baseline(
        platform,
        environment,
        trace,
        &device,
        &mut run,
        started_at,
        plan.samples_required,
    );
    let (recordable, completed_at, final_auto) = performed;
    let ghost ended = run@;
    let slopes = meter.measure(&run.samples);
    let record = assemble_baseline_record(
        run,
        &plan.qualification_envelope,
        started_at,
        completed_at,
        final_auto,
        recordable,
        plan.samples_required,
        slopes,
    );
    let ghost assembled = record@;
    let record = conclude_baseline_record(record, completed_at, slopes);
    proof {
        reveal(is_record_of_calls);
        assert(begun.calls =~= seq![BaselineCall::Timestamp { answer: started_at }]);
        assert(begun == baseline_state(
            fresh_baseline(plan.workload@),
            seq![BaselineCall::Timestamp { answer: started_at }],
            found,
        ));
        let start = baseline_state(
            fresh_baseline(plan.workload@),
            seq![BaselineCall::Timestamp { answer: record@.started_at }],
            found,
        );
        assert(record@.started_at == started_at && record@.completed_at == completed_at);
        assert(device_was_asked_for(
            platform_before,
            found,
            plan.hwmon_root@,
            device_option(device),
        ));
        assert(baseline_came_to(
            start,
            baseline_state(ended, trace.calls(), platform.history()),
            device_option(device),
            record@.started_at,
            record@.completed_at,
            plan.samples_required as nat,
            modes@.0,
            modes@.1,
            recordable,
        ));
        assert(is_assembled(
            assembled,
            ended,
            plan.qualification_envelope@,
            record@.started_at,
            record@.completed_at,
            mode_failure(modes@.1) is None,
            recordable,
            plan.samples_required as nat,
            slopes,
        ));
        assert(is_record_of_calls(
            record@,
            trace.calls(),
            platform_before,
            platform.history(),
            *plan,
            modes@.0,
            modes@.1,
            slopes,
        ));
        assert(fault_list(assembled.faults).len() == assembled.faults.len());
        assert(fault_list(record@.faults).len() == record@.faults.len());
    }
    (record, slopes, modes, actions)
}

/// Runs a Firmware Auto baseline.
///
/// An envelope that cannot be qualified leaves the machine untouched. Whatever the machine answers, a
/// workload that was launched is also stopped, once, a cleanup that wrote to a fan blocks acceptance,
/// and a record that claims to have passed is valid evidence without a fault.
pub fn run_firmware_auto_baseline<P, E, M>(
    platform: &mut P,
    environment: &mut E,
    meter: &mut M,
    plan: &FirmwareAutoBaselinePlan<'_>,
) -> (result: Result<FirmwareAutoBaselineReport, FirmwareAutoBaselinePlanError>) where
    P: FirmwareAutoBaselineAccess,
    E: FirmwareAutoBaselineEnvironment + ?Sized,
    M: SlopeMeter + ?Sized,

    ensures
        match identity_error(plan.qualification_envelope@) {
            Some(error) => {
                &&& result matches Err(
                    FirmwareAutoBaselinePlanError::InvalidQualificationEnvelope(e),
                ) && e == error
                &&& &*final(platform) == &*old(platform)
                &&& &*final(environment) == &*old(environment)
                &&& &*final(meter) == &*old(meter)
            },
            None => result matches Ok(report) && baseline_was_run(
                &*old(platform),
                &*final(platform),
                &*old(environment),
                &*final(environment),
                &*old(meter),
                &*final(meter),
                *plan,
                report,
            ),
        },
{
    match validate_identity(&plan.qualification_envelope) {
        Ok(()) => {},
        Err(error) => {
            return Err(FirmwareAutoBaselinePlanError::InvalidQualificationEnvelope(error));
        },
    }
    let mut trace = Trace::begin(environment);
    let (record, slopes, modes, actions) = run_accepted_baseline(
        platform,
        environment,
        &mut trace,
        meter,
        plan,
    );
    assert(ran(&*old(environment), trace.calls(), &*environment));
    let report = FirmwareAutoBaselineReport { record, actions };
    assert(baseline_report_stands(
        report.evidence(),
        report.actions(),
        *plan,
        modes@.0,
        modes@.1,
        slopes,
    ));
    assert(slopes_came(&*old(meter), &*meter, report.evidence().samples, slopes));
    assert(is_record_of_calls(
        report.evidence(),
        trace.calls(),
        old(platform).history(),
        platform.history(),
        *plan,
        modes@.0,
        modes@.1,
        slopes,
    ));
    Ok(report)
}

} // verus!
