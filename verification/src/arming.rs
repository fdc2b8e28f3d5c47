//! The only handover from Firmware Auto to Custom control.

use vstd::prelude::*;
use vstd::string::*;
use crate::acer_hwmon::{
    answer_of, device_is_bound, AcerHwmonDevice, AcerHwmonDiscoveryError, DeviceModel,
};
use crate::authority::{AdmittedPolicyAuthority, AuthorityModel};
use crate::config::{ConfigModel, ValidatedConfig};
use crate::controller_calls::ControllerCall;
use crate::endpoint_io::{
    malformed_tachometer_message, malformed_tachometer_text, parse_tachometer_contents, quoted,
    quoted_text, Endpoint,
};
use crate::envelope::{is_covered, is_first_envelope_error, EnvelopeValidationError};
use crate::platform::{
    deadline_after, moment_after, BoundedIdentityBoundFileAccess, Clock, PlatformError,
};
use crate::tachometer::{plausible_rpm, Fan};
use crate::tachometer_policy::{FanTachometerModel, QualifiedTachometerCalibrations};
use crate::trace::{goes_on, ran, Trace};
use crate::text::{decimal, decimal_text, join, join3, trims_to};
use crate::machine::{Calls, Machine, MachineCall};
use crate::moves::{
    failure_of, lemma_moves_go_on, lemma_moves_stop, lemma_moves_then, lemma_one_move, moves_went,
    Move,
};
use crate::handover_steps::{
    are_rounds, both_confirmed, confirmed_moments, custom_at_maximum, custom_entered,
    device_verdict, fan_at_maximum, first_sight_went, handover_went, lemma_one_more_round,
    lemma_polls_end, lemma_polls_run_out, maximum_staged, opening_moves, opening_went, poll_round,
    polls_went, readback_verdict, response_went, round_went, second_sight_went, settling_went,
    tachometer_call, tachometer_verdict, HandoverFindings, HandoverMove, PollAnswers, PollState,
};

verus! {

broadcast use {vstd::string::group_string_axioms, crate::trace::group_effects};

/// The time between two normal samples, in nanoseconds.
pub const NORMAL_SAMPLE_CADENCE_NANOS: u128 = 2_000_000_000;

const HANDOVER_WINDOW_NANOS: u128 = 2_000_000_000;

const ARMING_TACHOMETER_RESPONSE_WINDOW_NANOS: u128 = 10_000_000_000;

const TACHOMETER_POLL_INTERVAL_NANOS: u128 = 250_000_000;

/// The exclusive ownership of both fans.
pub trait ControllerOwnership: Machine {
    fn ownership_id(&mut self) -> (answer: u64)
        ensures
            final(self).history() == old(self).history().push(
                MachineCall::OwnershipId { answer },
            ),
    ;

    fn sampling_epoch(&mut self) -> (answer: u64)
        ensures
            final(self).history() == old(self).history().push(
                MachineCall::SamplingEpoch { answer },
            ),
    ;

    /// Leaves Firmware Auto and gives the epoch of the Custom control that follows.
    fn begin_custom_transition(&mut self) -> (answer: u64)
        ensures
            final(self).history() == old(self).history().push(
                MachineCall::BeginCustomTransition { answer },
            ),
    ;

    /// Tells whether an epoch of Custom control still stands. It does not once Firmware Auto was
    /// restored.
    fn custom_epoch_is_current(&mut self, ownership_id: u64, custom_epoch: u64) -> (answer: bool)
        ensures
            final(self).history() == old(self).history().push(
                MachineCall::CustomEpochIsCurrent { ownership_id, custom_epoch, answer },
            ),
            answer ==> !was_given_back(old(self).history(), custom_epoch),
    ;

    /// Restores Firmware Auto, or contains both fans where that fails.
    fn restore_or_contain_firmware_auto(
        &mut self,
        device: &AcerHwmonDevice,
    ) -> (answer: FirmwareAutoSafingOutcome)
        ensures
            final(self).history() == old(self).history().push(
                MachineCall::RestoreOrContainFirmwareAuto { device: device@, answer },
            ),
    ;
}

/// Whether a call restored Firmware Auto.
pub open spec fn is_restoration(call: MachineCall) -> bool {
    call matches MachineCall::RestoreOrContainFirmwareAuto { answer, .. } && answer is Restored
}

/// Whether Firmware Auto was restored, and an epoch of Custom control has not begun since.
pub open spec fn was_given_back(history: Calls, custom_epoch: u64) -> bool {
    exists|i: int|
        {
            &&& 0 <= i < history.len()
            &&& is_restoration(#[trigger] history[i])
            &&& forall|k: int|
                i < k < history.len() ==> #[trigger] history[k]
                    != (MachineCall::BeginCustomTransition { answer: custom_epoch })
        }
}

/// How a restoration after a failure ended. Failures carry their messages.
#[derive(Debug, PartialEq, Eq)]
pub enum FirmwareAutoSafingOutcome {
    Restored,
    Contained { restoration: String, containment: String },
    Critical { restoration: String, containment: String },
}

/// A fresh sample that arming may rest on.
#[derive(Debug, Clone, Copy, PartialEq, Eq, Structural)]
pub struct ArmingReadySample {
    pub completed_at: u128,
    pub ownership_id: u64,
    pub sampling_epoch: u64,
}

#[derive(Debug, Clone, Copy, PartialEq, Eq, Structural)]
pub enum FanArmingOperation {
    ConfirmFirmwareAuto,
    StageMaximum,
    ReadDuty,
    EnterCustom,
    ConfirmCustom,
    FinalConfirmCustom,
    ReadTachometer,
}

impl FanArmingOperation {
    /// The text of the operation's name.
    pub open spec fn label(self) -> Seq<char> {
        match self {
            FanArmingOperation::ConfirmFirmwareAuto => "Firmware Auto confirmation"@,
            FanArmingOperation::StageMaximum => "maximum-duty write"@,
            FanArmingOperation::ReadDuty => "duty read"@,
            FanArmingOperation::EnterCustom => "Custom-mode write"@,
            FanArmingOperation::ConfirmCustom => "Custom-mode confirmation"@,
            FanArmingOperation::FinalConfirmCustom => "final Custom-mode confirmation"@,
            FanArmingOperation::ReadTachometer => "tachometer read"@,
        }
    }

    pub fn name(self) -> (name: &'static str)
        ensures
            name@ == self.label(),
    {
        match self {
            FanArmingOperation::ConfirmFirmwareAuto => "Firmware Auto confirmation",
            FanArmingOperation::StageMaximum => "maximum-duty write",
            FanArmingOperation::ReadDuty => "duty read",
            FanArmingOperation::EnterCustom => "Custom-mode write",
            FanArmingOperation::ConfirmCustom => "Custom-mode confirmation",
            FanArmingOperation::FinalConfirmCustom => "final Custom-mode confirmation",
            FanArmingOperation::ReadTachometer => "tachometer read",
        }
    }
}

#[derive(Debug, Clone, Copy, PartialEq, Eq, Structural)]
pub enum FanArmingReadback {
    Mode,
    Duty,
}

impl FanArmingReadback {
    /// The text of the readback's name.
    pub open spec fn label(self) -> Seq<char> {
        match self {
            FanArmingReadback::Mode => "mode"@,
            FanArmingReadback::Duty => "duty"@,
        }
    }

    pub fn name(self) -> (name: &'static str)
        ensures
            name@ == self.label(),
    {
        match self {
            FanArmingReadback::Mode => "mode",
            FanArmingReadback::Duty => "duty",
        }
    }
}

/// Why the handover failed.
#[derive(Debug, PartialEq, Eq)]
pub enum FanArmingFailure {
    Policy(EnvelopeValidationError),
    ForeignOwnershipAuthority,
    ForeignOwnershipSample,
    ObsoleteSampleEpoch,
    SampleFromFuture,
    StaleSample,
    DeviceIdentity(PlatformError),
    DeviceAbi(AcerHwmonDiscoveryError),
    DeviceChanged,
    DeadlineOverflow,
    Platform { fan: Fan, operation: FanArmingOperation, source: PlatformError },
    UnexpectedReadback {
        fan: Fan,
        field: FanArmingReadback,
        operation: FanArmingOperation,
        expected: &'static str,
        actual: String,
    },
    InvalidTachometer { fan: Fan, actual: String },
    TachometerTimeout { cpu_rpm: Option<u32>, gpu_rpm: Option<u32> },
}

/// How an optional speed is told.
pub open spec fn speed_text(rpm: Option<u32>) -> Seq<char> {
    match rpm {
        Some(rpm) => "Some("@ + decimal_text(rpm as nat) + ")"@,
        None => "None"@,
    }
}

fn tell_speed(rpm: Option<u32>) -> (text: String)
    ensures
        text@ == speed_text(rpm),
{
    match rpm {
        Some(rpm) => join3("Some(", decimal(rpm as u64).as_str(), ")"),
        None => "None".to_owned(),
    }
}

/// The message of a readback that does not hold what it must. The contents are given between
/// quotes.
pub open spec fn unexpected_readback_text(
    fan: Fan,
    operation: FanArmingOperation,
    field: FanArmingReadback,
    expected: Seq<char>,
    shown: Seq<char>,
) -> Seq<char> {
    fan.label() + " fan "@ + operation.label() + " "@ + field.label() + " readback expected "@
        + expected + ", got "@ + shown
}

/// Forms the message of a readback that does not hold what it must.
pub fn unexpected_readback_message(
    fan: Fan,
    operation: FanArmingOperation,
    field: FanArmingReadback,
    expected: &str,
    shown: &str,
) -> (text: String)
    ensures
        text@ == unexpected_readback_text(fan, operation, field, expected@, shown@),
{
    let mut text = join3(fan.name(), " fan ", operation.name());
    text.append(" ");
    text.append(field.name());
    text.append(" readback expected ");
    text.append(expected);
    text.append(", got ");
    text.append(shown);
    text
}

impl FanArmingFailure {
    /// Whether the handover itself failed, and not its admission.
    pub open spec fn comes_from_handover(self) -> bool {
        !(self is Policy || self is ForeignOwnershipAuthority || self is ForeignOwnershipSample
            || self is ObsoleteSampleEpoch)
    }

    /// The text of the message.
    pub open spec fn text(self) -> Seq<char> {
        match self {
            FanArmingFailure::Policy(error) => "candidate policy: "@ + error.text(),
            FanArmingFailure::ForeignOwnershipAuthority =>
                "policy authority belongs to a different controller ownership"@,
            FanArmingFailure::ForeignOwnershipSample =>
                "fresh sample belongs to a different controller ownership"@,
            FanArmingFailure::ObsoleteSampleEpoch =>
                "fresh sample belongs to an obsolete Firmware Auto epoch"@,
            FanArmingFailure::SampleFromFuture => "fresh sample timestamp is in the future"@,
            FanArmingFailure::StaleSample => "fresh sample expired before arming"@,
            FanArmingFailure::DeviceIdentity(error) => "fan device identity check: "@
                + error.detail@,
            FanArmingFailure::DeviceAbi(error) => "fan device ABI check: "@ + error.text(),
            FanArmingFailure::DeviceChanged => "fan device identity changed during arming"@,
            FanArmingFailure::DeadlineOverflow => "fan arming deadline overflowed"@,
            FanArmingFailure::Platform { fan, operation, source } => fan.label() + " fan "@
                + operation.label() + " failed: "@ + source.detail@,
            FanArmingFailure::UnexpectedReadback { fan, field, operation, expected, actual } =>
                unexpected_readback_text(
                fan,
                operation,
                field,
                expected@,
                quoted_text(actual@),
            ),
            FanArmingFailure::InvalidTachometer { fan, actual } => malformed_tachometer_text(
                fan,
                quoted_text(actual@),
            ),
            FanArmingFailure::TachometerTimeout { cpu_rpm, gpu_rpm } =>
                "fan tachometer response timed out (CPU: "@ + speed_text(cpu_rpm) + ", GPU: "@
                + speed_text(gpu_rpm) + ")"@,
        }
    }

    /// The message shown to an operator.
    pub fn message(&self) -> (text: String)
        ensures
            text@ == self.text(),
    {
        match self {
            FanArmingFailure::Policy(error) => join(
                "candidate policy: ",
                error.message().as_str(),
            ),
            FanArmingFailure::ForeignOwnershipAuthority =>
                "policy authority belongs to a different controller ownership".to_owned(),
            FanArmingFailure::ForeignOwnershipSample =>
                "fresh sample belongs to a different controller ownership".to_owned(),
            FanArmingFailure::ObsoleteSampleEpoch =>
                "fresh sample belongs to an obsolete Firmware Auto epoch".to_owned(),
            FanArmingFailure::SampleFromFuture =>
                "fresh sample timestamp is in the future".to_owned(),
            FanArmingFailure::StaleSample => "fresh sample expired before arming".to_owned(),
            FanArmingFailure::DeviceIdentity(error) => join(
                "fan device identity check: ",
                error.message(),
            ),
            FanArmingFailure::DeviceAbi(error) => join(
                "fan device ABI check: ",
                error.message().as_str(),
            ),
            FanArmingFailure::DeviceChanged =>
                "fan device identity changed during arming".to_owned(),
            FanArmingFailure::DeadlineOverflow => "fan arming deadline overflowed".to_owned(),
            FanArmingFailure::Platform { fan, operation, source } => {
                let mut text = join3(fan.name(), " fan ", operation.name());
                text.append(" failed: ");
                text.append(source.message());
                text
            },
            FanArmingFailure::UnexpectedReadback { fan, field, operation, expected, actual } =>
                unexpected_readback_message(
                *fan,
                *operation,
                *field,
                expected,
                quoted(actual.as_str()).as_str(),
            ),
            FanArmingFailure::InvalidTachometer { fan, actual } => malformed_tachometer_message(
                *fan,
                quoted(actual.as_str()).as_str(),
            ),
            FanArmingFailure::TachometerTimeout { cpu_rpm, gpu_rpm } => {
                let mut text = join3(
                    "fan tachometer response timed out (CPU: ",
                    tell_speed(*cpu_rpm).as_str(),
                    ", GPU: ",
                );
                text.append(tell_speed(*gpu_rpm).as_str());
                text.append(")");
                text
            },
        }
    }
}

/// A failed handover, and how both fans were made safe after it.
#[derive(Debug, PartialEq, Eq)]
pub enum FanArmingError {
    Rejected(FanArmingFailure),
    Recovered { reason: FanArmingFailure, restoration: String, containment: String },
    RestorationFailed { reason: FanArmingFailure, restoration: String, containment: String },
}

impl FanArmingError {
    /// Why the handover failed.
    pub open spec fn cause(self) -> FanArmingFailure {
        match self {
            FanArmingError::Rejected(reason) => reason,
            FanArmingError::Recovered { reason, restoration, containment } => reason,
            FanArmingError::RestorationFailed { reason, restoration, containment } => reason,
        }
    }

    pub fn reason(&self) -> (reason: &FanArmingFailure)
        ensures
            *reason == self.cause(),
    {
        match self {
            FanArmingError::Rejected(reason) => reason,
            FanArmingError::Recovered { reason, .. } => reason,
            FanArmingError::RestorationFailed { reason, .. } => reason,
        }
    }

    /// The message shown to an operator.
    pub fn message(&self) -> (text: String)
        ensures
            text@ == match *self {
                FanArmingError::Rejected(reason) => "fan arming rejected: "@ + reason.text(),
                FanArmingError::Recovered { reason, restoration, containment } =>
                    "fan arming rejected ("@ + reason.text()
                    + "); initial Firmware Auto restoration failed ("@ + restoration@
                    + "), then containment recovered: "@ + containment@,
                FanArmingError::RestorationFailed { reason, restoration, containment } =>
                    "fan arming rejected ("@ + reason.text()
                    + "); Firmware Auto restoration failed: "@ + restoration@
                    + "; emergency containment: "@ + containment@,
            },
    {
        match self {
            FanArmingError::Rejected(reason) => join(
                "fan arming rejected: ",
                reason.message().as_str(),
            ),
            FanArmingError::Recovered { reason, restoration, containment } => {
                let mut text = join3(
                    "fan arming rejected (",
                    reason.message().as_str(),
                    "); initial Firmware Auto restoration failed (",
                );
                text.append(restoration.as_str());
                text.append("), then containment recovered: ");
                text.append(containment.as_str());
                text
            },
            FanArmingError::RestorationFailed { reason, restoration, containment } => {
                let mut text = join3(
                    "fan arming rejected (",
                    reason.message().as_str(),
                    "); Firmware Auto restoration failed: ",
                );
                text.append(restoration.as_str());
                text.append("; emergency containment: ");
                text.append(containment.as_str());
                text
            },
        }
    }
}

/// The error of a failed handover, given how both fans were made safe.
pub open spec fn safed_error(
    reason: FanArmingFailure,
    outcome: FirmwareAutoSafingOutcome,
) -> FanArmingError {
    match outcome {
        FirmwareAutoSafingOutcome::Restored => FanArmingError::Rejected(reason),
        FirmwareAutoSafingOutcome::Contained { restoration, containment } =>
            FanArmingError::Recovered { reason, restoration, containment },
        FirmwareAutoSafingOutcome::Critical { restoration, containment } =>
            FanArmingError::RestorationFailed { reason, restoration, containment },
    }
}

/// Forms the error of a failed handover.
pub fn reject_arming(reason: FanArmingFailure, outcome: FirmwareAutoSafingOutcome) -> (error:
    FanArmingError)
    ensures
        error == safed_error(reason, outcome),
{
    match outcome {
        FirmwareAutoSafingOutcome::Restored => FanArmingError::Rejected(reason),
        FirmwareAutoSafingOutcome::Contained { restoration, containment } =>
            FanArmingError::Recovered { reason, restoration, containment },
        FirmwareAutoSafingOutcome::Critical { restoration, containment } =>
            FanArmingError::RestorationFailed { reason, restoration, containment },
    }
}

/// Whether an authority, a candidate and a sample may arm under an ownership, and the first reason
/// why not.
pub open spec fn arming_is_admitted(
    result: Result<(), FanArmingFailure>,
    authority: AuthorityModel,
    candidate: ConfigModel,
    sample: ArmingReadySample,
    ownership_id: u64,
    sampling_epoch: u64,
) -> bool {
    if authority.ownership_id != ownership_id {
        result == Err::<(), FanArmingFailure>(FanArmingFailure::ForeignOwnershipAuthority)
    } else if !is_covered(candidate, authority.protected) {
        result matches Err(FanArmingFailure::Policy(error)) && is_first_envelope_error(
            error,
            candidate,
            authority.protected,
        )
    } else if sample.ownership_id != ownership_id {
        result == Err::<(), FanArmingFailure>(FanArmingFailure::ForeignOwnershipSample)
    } else if sample.sampling_epoch != sampling_epoch {
        result == Err::<(), FanArmingFailure>(FanArmingFailure::ObsoleteSampleEpoch)
    } else {
        result is Ok
    }
}

/// Decides whether an authority, a candidate and a sample may arm under an ownership.
pub fn admit_arming(
    authority: &AdmittedPolicyAuthority,
    candidate: &ValidatedConfig,
    sample: ArmingReadySample,
    ownership_id: u64,
    sampling_epoch: u64,
) -> (result: Result<(), FanArmingFailure>)
    ensures
        arming_is_admitted(
            result,
            authority@,
            candidate@,
            sample,
            ownership_id,
            sampling_epoch,
        ),
{
    if !authority.belongs_to_ownership(ownership_id) {
        return Err(FanArmingFailure::ForeignOwnershipAuthority);
    }
    match authority.validate_candidate(candidate) {
        Ok(()) => {},
        Err(error) => {
            return Err(FanArmingFailure::Policy(error));
        },
    }
    if sample.ownership_id != ownership_id {
        return Err(FanArmingFailure::ForeignOwnershipSample);
    }
    if sample.sampling_epoch != sampling_epoch {
        return Err(FanArmingFailure::ObsoleteSampleEpoch);
    }
    Ok(())
}

/// Whether a sample is fresh enough, and the deadline of the handover: both within two seconds.
pub open spec fn sample_admission(started_at: u128, completed_at: u128) -> Result<
    u128,
    FanArmingFailure,
> {
    if completed_at > started_at {
        Err(FanArmingFailure::SampleFromFuture)
    } else if started_at - completed_at > 2_000_000_000 {
        Err(FanArmingFailure::StaleSample)
    } else {
        match moment_after(started_at, 2_000_000_000) {
            Some(deadline) => Ok(deadline),
            None => Err(FanArmingFailure::DeadlineOverflow),
        }
    }
}

/// Decides [`sample_admission`].
pub fn admit_sample(
    started_at: u128,
    completed_at: u128,
) -> (result: Result<u128, FanArmingFailure>)
    ensures
        result == sample_admission(started_at, completed_at),
{
    if completed_at > started_at {
        return Err(FanArmingFailure::SampleFromFuture);
    }
    if started_at - completed_at > NORMAL_SAMPLE_CADENCE_NANOS {
        return Err(FanArmingFailure::StaleSample);
    }
    match deadline_after(started_at, HANDOVER_WINDOW_NANOS) {
        Some(deadline) => Ok(deadline),
        None => Err(FanArmingFailure::DeadlineOverflow),
    }
}

/// Judges a readback: it must hold exactly the expected text, apart from white space around it.
pub fn judge_readback(
    read: Result<String, PlatformError>,
    fan: Fan,
    field: FanArmingReadback,
    operation: FanArmingOperation,
    expected: &'static str,
) -> (result: Result<(), FanArmingFailure>)
    ensures
        result == readback_verdict(read, fan, field, operation, expected),
{
    match read {
        Err(source) => Err(FanArmingFailure::Platform { fan, operation, source }),
        Ok(actual) => if trims_to(actual.as_str(), expected) {
            Ok(())
        } else {
            Err(
                FanArmingFailure::UnexpectedReadback { fan, field, operation, expected, actual },
            )
        },
    }
}

/// Judges a tachometer: no speed yet is fine, an implausible one is not.
pub fn judge_tachometer(read: Result<String, PlatformError>, fan: Fan) -> (result: Result<
    Option<u32>,
    FanArmingFailure,
>)
    ensures
        result == tachometer_verdict(read, fan),
{
    match read {
        Err(source) => Err(
            FanArmingFailure::Platform {
                fan,
                operation: FanArmingOperation::ReadTachometer,
                source,
            },
        ),
        Ok(actual) => match parse_tachometer_contents(actual.as_str()) {
            Some(rpm) => Ok(rpm),
            None => Err(FanArmingFailure::InvalidTachometer { fan, actual }),
        },
    }
}

/// Judges whether the device is still the discovered one.
pub fn judge_device(current: Result<bool, AcerHwmonDiscoveryError>) -> (result: Result<
    (),
    FanArmingFailure,
>)
    ensures
        result == device_verdict(current),
{
    match current {
        Ok(true) => Ok(()),
        Ok(false) => Err(FanArmingFailure::DeviceChanged),
        Err(AcerHwmonDiscoveryError::Platform(error)) => Err(
            FanArmingFailure::DeviceIdentity(error),
        ),
        Err(error) => Err(FanArmingFailure::DeviceAbi(error)),
    }
}

/// The endpoint that a readback is taken from.
pub open spec fn endpoint_of(field: FanArmingReadback) -> Endpoint {
    match field {
        FanArmingReadback::Mode => Endpoint::Mode,
        FanArmingReadback::Duty => Endpoint::Duty,
    }
}

/// Checks the device.
fn verify<P>(
    platform: &mut P,
    trace: &mut Trace<'_, P, ControllerCall>,
    device: &AcerHwmonDevice,
    deadline: u128,
) -> (result: Result<(), FanArmingFailure>) where
    P: ControllerOwnership + BoundedIdentityBoundFileAccess + Clock,

    requires
        device_is_bound(device@),
        old(trace).follows(&*old(platform)),
    ensures
        final(trace).follows(&*final(platform)),
        final(trace).start() == old(trace).start(),
        goes_on(old(trace).calls(), final(trace).calls()),
        result matches Err(failure) ==> failure.comes_from_handover(),
        moves_went(
            old(trace).calls(),
            final(trace).calls(),
            seq![HandoverMove::Verify { deadline }],
            device@,
            failure_of(result),
        ),
{
    let ghost start = trace.calls();
    let current = trace.check_device(platform, device, deadline);
    let ghost answer = current;
    let result = judge_device(current);
    proof {
        let call = ControllerCall::CheckDevice {
            device: device@,
            deadline,
            answer: answer_of(answer),
        };
        let due = HandoverMove::Verify { deadline };
        assert(due.tells(call, device@, result));
        lemma_one_move(start, call, due, device@, result);
    }
    result
}

/// Reads an endpoint, which must hold a text.
fn confirm<P>(
    platform: &mut P,
    trace: &mut Trace<'_, P, ControllerCall>,
    device: &AcerHwmonDevice,
    fan: Fan,
    field: FanArmingReadback,
    expected: &'static str,
    operation: FanArmingOperation,
    deadline: u128,
) -> (result: Result<(), FanArmingFailure>) where
    P: ControllerOwnership + BoundedIdentityBoundFileAccess + Clock,

    requires
        device_is_bound(device@),
        old(trace).follows(&*old(platform)),
    ensures
        final(trace).follows(&*final(platform)),
        final(trace).start() == old(trace).start(),
        goes_on(old(trace).calls(), final(trace).calls()),
        result matches Err(failure) ==> failure.comes_from_handover(),
        moves_went(
            old(trace).calls(),
            final(trace).calls(),
            seq![HandoverMove::Confirm { fan, field, contents: expected, operation, deadline }],
            device@,
            failure_of(result),
        ),
{
    let ghost start = trace.calls();
    let endpoint = match field {
        FanArmingReadback::Mode => Endpoint::Mode,
        FanArmingReadback::Duty => Endpoint::Duty,
    };
    let read = trace.read_endpoint(platform, device, fan, endpoint, deadline);
    let ghost answer = read;
    let result = judge_readback(read, fan, field, operation, expected);
    proof {
        let call = ControllerCall::ReadEndpoint { device: device@, fan, endpoint, deadline, answer };
        let due = HandoverMove::Confirm { fan, field, contents: expected, operation, deadline };
        assert(due.tells(call, device@, result));
        lemma_one_move(start, call, due, device@, result);
    }
    result
}

/// Writes an endpoint while the CPU fan is held to a mode and the GPU fan to Firmware Auto.
fn write<P>(
    platform: &mut P,
    trace: &mut Trace<'_, P, ControllerCall>,
    device: &AcerHwmonDevice,
    fan: Fan,
    field: FanArmingReadback,
    cpu_mode: &str,
    contents: &str,
    operation: FanArmingOperation,
    deadline: u128,
) -> (result: Result<(), FanArmingFailure>) where
    P: ControllerOwnership + BoundedIdentityBoundFileAccess + Clock,

    requires
        device_is_bound(device@),
        old(trace).follows(&*old(platform)),
    ensures
        final(trace).follows(&*final(platform)),
        final(trace).start() == old(trace).start(),
        goes_on(old(trace).calls(), final(trace).calls()),
        result matches Err(failure) ==> failure.comes_from_handover(),
        moves_went(
            old(trace).calls(),
            final(trace).calls(),
            seq![
                HandoverMove::Write {
                    fan,
                    field,
                    cpu_mode: cpu_mode@,
                    contents: contents@,
                    operation,
                    deadline,
                },
            ],
            device@,
            failure_of(result),
        ),
{
    let ghost start = trace.calls();
    let endpoint = match field {
        FanArmingReadback::Mode => Endpoint::Mode,
        FanArmingReadback::Duty => Endpoint::Duty,
    };
    let written = trace.write_endpoint(
        platform,
        device,
        fan,
        endpoint,
        cpu_mode,
        "2",
        contents,
        deadline,
    );
    let ghost answer = written;
    let result = match written {
        Ok(()) => Ok(()),
        Err(source) => Err(FanArmingFailure::Platform { fan, operation, source }),
    };
    proof {
        let call = ControllerCall::WriteEndpoint {
            device: device@,
            fan,
            endpoint,
            modes: (cpu_mode@, "2"@),
            contents: contents@,
            deadline,
            answer,
        };
        let due = HandoverMove::Write {
            fan,
            field,
            cpu_mode: cpu_mode@,
            contents: contents@,
            operation,
            deadline,
        };
        assert(due.tells(call, device@, result));
        lemma_one_move(start, call, due, device@, result);
    }
    result
}

/// Confirms that both fans hold the same text.
fn confirm_both<P>(
    platform: &mut P,
    trace: &mut Trace<'_, P, ControllerCall>,
    device: &AcerHwmonDevice,
    field: FanArmingReadback,
    expected: &'static str,
    operation: FanArmingOperation,
    deadline: u128,
) -> (result: Result<(), FanArmingFailure>) where
    P: ControllerOwnership + BoundedIdentityBoundFileAccess + Clock,

    requires
        device_is_bound(device@),
        old(trace).follows(&*old(platform)),
    ensures
        final(trace).follows(&*final(platform)),
        final(trace).start() == old(trace).start(),
        goes_on(old(trace).calls(), final(trace).calls()),
        result matches Err(failure) ==> failure.comes_from_handover(),
        moves_went(
            old(trace).calls(),
            final(trace).calls(),
            both_confirmed(field, expected, operation, deadline),
            device@,
            failure_of(result),
        ),
{
    let ghost start = trace.calls();
    let ghost moves = seq![
        HandoverMove::Confirm {
            fan: Fan::Cpu,
            field,
            contents: expected,
            operation,
            deadline,
        },
    ];
    let part0 = confirm(platform, trace, device, Fan::Cpu, field, expected, operation, deadline);
    match part0 {
        Ok(()) => {},
        Err(error) => {
            proof {
                lemma_moves_stop(
                    start,
                    trace.calls(),
                    moves,
                    seq![
                        HandoverMove::Confirm {
                            fan: Fan::Gpu,
                            field,
                            contents: expected,
                            operation,
                            deadline,
                        },
                    ],
                    device@,
                    error,
                );
            }
            return Err(error);
        },
    }
    let ghost between = trace.calls();
    let part1 = confirm(platform, trace, device, Fan::Gpu, field, expected, operation, deadline);
    proof {
        lemma_moves_then(
            start,
            between,
            trace.calls(),
            moves,
            seq![
                HandoverMove::Confirm {
                    fan: Fan::Gpu,
                    field,
                    contents: expected,
                    operation,
                    deadline,
                },
            ],
            device@,
            failure_of(part1),
        );
    }
    let ghost moves = moves + seq![
        HandoverMove::Confirm {
            fan: Fan::Gpu,
            field,
            contents: expected,
            operation,
            deadline,
        },
    ];
    part1
}

/// Stages the maximum duty of both fans while Firmware Auto still holds, and reads it back.
fn stage_maximum<P>(
    platform: &mut P,
    trace: &mut Trace<'_, P, ControllerCall>,
    device: &AcerHwmonDevice,
    deadline: u128,
) -> (result: Result<(), FanArmingFailure>) where
    P: ControllerOwnership + BoundedIdentityBoundFileAccess + Clock,

    requires
        device_is_bound(device@),
        old(trace).follows(&*old(platform)),
    ensures
        final(trace).follows(&*final(platform)),
        final(trace).start() == old(trace).start(),
        goes_on(old(trace).calls(), final(trace).calls()),
        result matches Err(failure) ==> failure.comes_from_handover(),
        moves_went(
            old(trace).calls(),
            final(trace).calls(),
            maximum_staged(deadline),
            device@,
            failure_of(result),
        ),
{
    let ghost start = trace.calls();
    let ghost moves = seq![
        HandoverMove::Write {
            fan: Fan::Cpu,
            field: FanArmingReadback::Duty,
            cpu_mode: "2"@,
            contents: "255"@,
            operation: FanArmingOperation::StageMaximum,
            deadline,
        },
    ];
    let part0 = write(
        platform,
        trace,
        device,
        Fan::Cpu,
        FanArmingReadback::Duty,
        "2",
        "255",
        FanArmingOperation::StageMaximum,
        deadline,
    );
    match part0 {
        Ok(()) => {},
        Err(error) => {
            proof {
                lemma_moves_stop(
                    start,
                    trace.calls(),
                    moves,
                    seq![
                        HandoverMove::Write {
                            fan: Fan::Gpu,
                            field: FanArmingReadback::Duty,
                            cpu_mode: "2"@,
                            contents: "255"@,
                            operation: FanArmingOperation::StageMaximum,
                            deadline,
                        },
                    ],
                    device@,
                    error,
                );
                lemma_moves_stop(
                    start,
                    trace.calls(),
                    moves + seq![
                        HandoverMove::Write {
                            fan: Fan::Gpu,
                            field: FanArmingReadback::Duty,
                            cpu_mode: "2"@,
                            contents: "255"@,
                            operation: FanArmingOperation::StageMaximum,
                            deadline,
                        },
                    ],
                    both_confirmed(
                        FanArmingReadback::Duty,
                        "255",
                        FanArmingOperation::ReadDuty,
                        deadline,
                    ),
                    device@,
                    error,
                );
            }
            return Err(error);
        },
    }
    let ghost between = trace.calls();
    let part1 = write(
        platform,
        trace,
        device,
        Fan::Gpu,
        FanArmingReadback::Duty,
        "2",
        "255",
        FanArmingOperation::StageMaximum,
        deadline,
    );
    proof {
        lemma_moves_then(
            start,
            between,
            trace.calls(),
            moves,
            seq![
                HandoverMove::Write {
                    fan: Fan::Gpu,
                    field: FanArmingReadback::Duty,
                    cpu_mode: "2"@,
                    contents: "255"@,
                    operation: FanArmingOperation::StageMaximum,
                    deadline,
                },
            ],
            device@,
            failure_of(part1),
        );
    }
    let ghost moves = moves + seq![
        HandoverMove::Write {
            fan: Fan::Gpu,
            field: FanArmingReadback::Duty,
            cpu_mode: "2"@,
            contents: "255"@,
            operation: FanArmingOperation::StageMaximum,
            deadline,
        },
    ];
    match part1 {
        Ok(()) => {},
        Err(error) => {
            proof {
                lemma_moves_stop(
                    start,
                    trace.calls(),
                    moves,
                    both_confirmed(
                        FanArmingReadback::Duty,
                        "255",
                        FanArmingOperation::ReadDuty,
                        deadline,
                    ),
                    device@,
                    error,
                );
            }
            return Err(error);
        },
    }
    let ghost between = trace.calls();
    let part2 = confirm_both(
        platform,
        trace,
        device,
        FanArmingReadback::Duty,
        "255",
        FanArmingOperation::ReadDuty,
        deadline,
    );
    proof {
        lemma_moves_then(
            start,
            between,
            trace.calls(),
            moves,
            both_confirmed(FanArmingReadback::Duty, "255", FanArmingOperation::ReadDuty, deadline),
            device@,
            failure_of(part2),
        );
    }
    let ghost moves = moves + both_confirmed(
        FanArmingReadback::Duty,
        "255",
        FanArmingOperation::ReadDuty,
        deadline,
    );
    part2
}

/// Puts both fans under Custom control, the CPU fan first.
fn enter_custom<P>(
    platform: &mut P,
    trace: &mut Trace<'_, P, ControllerCall>,
    device: &AcerHwmonDevice,
    deadline: u128,
) -> (result: Result<(), FanArmingFailure>) where
    P: ControllerOwnership + BoundedIdentityBoundFileAccess + Clock,

    requires
        device_is_bound(device@),
        old(trace).follows(&*old(platform)),
    ensures
        final(trace).follows(&*final(platform)),
        final(trace).start() == old(trace).start(),
        goes_on(old(trace).calls(), final(trace).calls()),
        result matches Err(failure) ==> failure.comes_from_handover(),
        moves_went(
            old(trace).calls(),
            final(trace).calls(),
            custom_entered(deadline),
            device@,
            failure_of(result),
        ),
{
    let ghost start = trace.calls();
    let ghost moves = seq![
        HandoverMove::Write {
            fan: Fan::Cpu,
            field: FanArmingReadback::Mode,
            cpu_mode: "2"@,
            contents: "1"@,
            operation: FanArmingOperation::EnterCustom,
            deadline,
        },
    ];
    let part0 = write(
        platform,
        trace,
        device,
        Fan::Cpu,
        FanArmingReadback::Mode,
        "2",
        "1",
        FanArmingOperation::EnterCustom,
        deadline,
    );
    match part0 {
        Ok(()) => {},
        Err(error) => {
            proof {
                lemma_moves_stop(
                    start,
                    trace.calls(),
                    moves,
                    seq![
                        HandoverMove::Write {
                            fan: Fan::Gpu,
                            field: FanArmingReadback::Mode,
                            cpu_mode: "1"@,
                            contents: "1"@,
                            operation: FanArmingOperation::EnterCustom,
                            deadline,
                        },
                    ],
                    device@,
                    error,
                );
            }
            return Err(error);
        },
    }
    let ghost between = trace.calls();
    let part1 = write(
        platform,
        trace,
        device,
        Fan::Gpu,
        FanArmingReadback::Mode,
        "1",
        "1",
        FanArmingOperation::EnterCustom,
        deadline,
    );
    proof {
        lemma_moves_then(
            start,
            between,
            trace.calls(),
            moves,
            seq![
                HandoverMove::Write {
                    fan: Fan::Gpu,
                    field: FanArmingReadback::Mode,
                    cpu_mode: "1"@,
                    contents: "1"@,
                    operation: FanArmingOperation::EnterCustom,
                    deadline,
                },
            ],
            device@,
            failure_of(part1),
        );
    }
    let ghost moves = moves + seq![
        HandoverMove::Write {
            fan: Fan::Gpu,
            field: FanArmingReadback::Mode,
            cpu_mode: "1"@,
            contents: "1"@,
            operation: FanArmingOperation::EnterCustom,
            deadline,
        },
    ];
    part1
}

/// Confirms a fan under Custom control at its maximum, and gives when it was.
fn confirm_fan_at_maximum<P>(
    platform: &mut P,
    trace: &mut Trace<'_, P, ControllerCall>,
    device: &AcerHwmonDevice,
    fan: Fan,
    operation: FanArmingOperation,
    deadline: u128,
) -> (result: Result<u128, FanArmingFailure>) where
    P: ControllerOwnership + BoundedIdentityBoundFileAccess + Clock,

    requires
        device_is_bound(device@),
        old(trace).follows(&*old(platform)),
    ensures
        final(trace).follows(&*final(platform)),
        final(trace).start() == old(trace).start(),
        goes_on(old(trace).calls(), final(trace).calls()),
        result matches Err(failure) ==> failure.comes_from_handover(),
        moves_went(
            old(trace).calls(),
            final(trace).calls(),
            fan_at_maximum(fan, operation, deadline),
            device@,
            failure_of(result),
        ),
        result matches Ok(at) ==> final(trace).calls().len() == old(trace).calls().len() + 3
            && final(trace).calls().last() == (ControllerCall::MonotonicNow { answer: at }),
{
    let ghost start = trace.calls();
    let ghost moves = seq![
        HandoverMove::Confirm {
            fan,
            field: FanArmingReadback::Mode,
            contents: "1",
            operation,
            deadline,
        },
    ];
    let part0 = confirm(
        platform,
        trace,
        device,
        fan,
        FanArmingReadback::Mode,
        "1",
        operation,
        deadline,
    );
    match part0 {
        Ok(()) => {},
        Err(error) => {
            proof {
                lemma_moves_stop(
                    start,
                    trace.calls(),
                    moves,
                    seq![
                        HandoverMove::Confirm {
                            fan,
                            field: FanArmingReadback::Duty,
                            contents: "255",
                            operation,
                            deadline,
                        },
                    ],
                    device@,
                    error,
                );
            }
            proof {
                lemma_moves_stop(
                    start,
                    trace.calls(),
                    moves + seq![
                        HandoverMove::Confirm {
                            fan,
                            field: FanArmingReadback::Duty,
                            contents: "255",
                            operation,
                            deadline,
                        },
                    ],
                    seq![HandoverMove::Clock],
                    device@,
                    error,
                );
            }
            return Err(error);
        },
    }
    let ghost between = trace.calls();
    let part1 = confirm(
        platform,
        trace,
        device,
        fan,
        FanArmingReadback::Duty,
        "255",
        operation,
        deadline,
    );
    proof {
        lemma_moves_then(
            start,
            between,
            trace.calls(),
            moves,
            seq![
                HandoverMove::Confirm {
                    fan,
                    field: FanArmingReadback::Duty,
                    contents: "255",
                    operation,
                    deadline,
                },
            ],
            device@,
            failure_of(part1),
        );
    }
    let ghost moves = moves + seq![
        HandoverMove::Confirm {
            fan,
            field: FanArmingReadback::Duty,
            contents: "255",
            operation,
            deadline,
        },
    ];
    let ghost confirmed = trace.calls();
    match part1 {
        Ok(()) => {},
        Err(error) => {
            proof {
                lemma_moves_stop(
                    start,
                    trace.calls(),
                    moves,
                    seq![HandoverMove::Clock],
                    device@,
                    error,
                );
            }
            return Err(error);
        },
    }
    let confirmed_at = trace.monotonic_now(platform);
    proof {
        let call = ControllerCall::MonotonicNow { answer: confirmed_at };
        lemma_one_move(
            confirmed,
            call,
            HandoverMove::Clock,
            device@,
            Ok::<(), FanArmingFailure>(()),
        );
        lemma_moves_then(
            start,
            confirmed,
            trace.calls(),
            moves,
            seq![HandoverMove::Clock],
            device@,
            None::<FanArmingFailure>,
        );
        lemma_moves_go_on(
            start,
            trace.calls(),
            fan_at_maximum(fan, operation, deadline),
            device@,
            None::<FanArmingFailure>,
        );
    }
    Ok(confirmed_at)
}

/// Confirms both fans under Custom control at their maximum, and gives when each was.
fn confirm_custom_at_maximum<P>(
    platform: &mut P,
    trace: &mut Trace<'_, P, ControllerCall>,
    device: &AcerHwmonDevice,
    operation: FanArmingOperation,
    deadline: u128,
) -> (result: Result<(u128, u128), FanArmingFailure>) where
    P: ControllerOwnership + BoundedIdentityBoundFileAccess + Clock,

    requires
        device_is_bound(device@),
        old(trace).follows(&*old(platform)),
    ensures
        final(trace).follows(&*final(platform)),
        final(trace).start() == old(trace).start(),
        goes_on(old(trace).calls(), final(trace).calls()),
        result matches Err(failure) ==> failure.comes_from_handover(),
        moves_went(
            old(trace).calls(),
            final(trace).calls(),
            custom_at_maximum(operation, deadline),
            device@,
            failure_of(result),
        ),
        result matches Ok((cpu_at, gpu_at)) ==> confirmed_moments(
            final(trace).calls(),
            cpu_at,
            gpu_at,
        ),
{
    let ghost start = trace.calls();
    let cpu_confirmed_at = match confirm_fan_at_maximum(
        platform,
        trace,
        device,
        Fan::Cpu,
        operation,
        deadline,
    ) {
        Ok(at) => at,
        Err(error) => {
            proof {
                lemma_moves_stop(
                    start,
                    trace.calls(),
                    fan_at_maximum(Fan::Cpu, operation, deadline),
                    fan_at_maximum(Fan::Gpu, operation, deadline),
                    device@,
                    error,
                );
            }
            return Err(error);
        },
    };
    let ghost between = trace.calls();
    let gpu = confirm_fan_at_maximum(platform, trace, device, Fan::Gpu, operation, deadline);
    proof {
        lemma_moves_then(
            start,
            between,
            trace.calls(),
            fan_at_maximum(Fan::Cpu, operation, deadline),
            fan_at_maximum(Fan::Gpu, operation, deadline),
            device@,
            failure_of(gpu),
        );
        assert(trace.calls()[between.len() - 1] == between[between.len() - 1]);
    }
    match gpu {
        Ok(gpu_confirmed_at) => Ok((cpu_confirmed_at, gpu_confirmed_at)),
        Err(error) => Err(error),
    }
}

/// Puts both fans under Custom control, and gives when each was confirmed in it.
fn open_handover<P>(
    platform: &mut P,
    trace: &mut Trace<'_, P, ControllerCall>,
    device: &AcerHwmonDevice,
    deadline: u128,
) -> (result: Result<(u128, u128), FanArmingFailure>) where
    P: ControllerOwnership + BoundedIdentityBoundFileAccess + Clock,

    requires
        device_is_bound(device@),
        old(trace).follows(&*old(platform)),
    ensures
        final(trace).follows(&*final(platform)),
        final(trace).start() == old(trace).start(),
        goes_on(old(trace).calls(), final(trace).calls()),
        result matches Err(failure) ==> failure.comes_from_handover(),
        moves_went(
            old(trace).calls(),
            final(trace).calls(),
            opening_moves(deadline),
            device@,
            failure_of(result),
        ),
        result matches Ok((cpu_at, gpu_at)) ==> confirmed_moments(
            final(trace).calls(),
            cpu_at,
            gpu_at,
        ),
{
    let ghost start = trace.calls();
    let ghost moves = seq![HandoverMove::Verify { deadline }];
    let part0 = verify(platform, trace, device, deadline);
    match part0 {
        Ok(()) => {},
        Err(error) => {
            proof {
                lemma_moves_stop(
                    start,
                    trace.calls(),
                    moves,
                    both_confirmed(
                        FanArmingReadback::Mode,
                        "2",
                        FanArmingOperation::ConfirmFirmwareAuto,
                        deadline,
                    ),
                    device@,
                    error,
                );
                lemma_moves_stop(
                    start,
                    trace.calls(),
                    moves + both_confirmed(
                        FanArmingReadback::Mode,
                        "2",
                        FanArmingOperation::ConfirmFirmwareAuto,
                        deadline,
                    ),
                    maximum_staged(deadline),
                    device@,
                    error,
                );
                lemma_moves_stop(
                    start,
                    trace.calls(),
                    moves + both_confirmed(
                        FanArmingReadback::Mode,
                        "2",
                        FanArmingOperation::ConfirmFirmwareAuto,
                        deadline,
                    ) + maximum_staged(deadline),
                    custom_entered(deadline),
                    device@,
                    error,
                );
                lemma_moves_stop(
                    start,
                    trace.calls(),
                    moves + both_confirmed(
                        FanArmingReadback::Mode,
                        "2",
                        FanArmingOperation::ConfirmFirmwareAuto,
                        deadline,
                    ) + maximum_staged(deadline) + custom_entered(deadline),
                    custom_at_maximum(FanArmingOperation::ConfirmCustom, deadline),
                    device@,
                    error,
                );
            }
            return Err(error);
        },
    }
    let ghost between = trace.calls();
    let part1 = confirm_both(
        platform,
        trace,
        device,
        FanArmingReadback::Mode,
        "2",
        FanArmingOperation::ConfirmFirmwareAuto,
        deadline,
    );
    proof {
        lemma_moves_then(
            start,
            between,
            trace.calls(),
            moves,
            both_confirmed(
                FanArmingReadback::Mode,
                "2",
                FanArmingOperation::ConfirmFirmwareAuto,
                deadline,
            ),
            device@,
            failure_of(part1),
        );
    }
    let ghost moves = moves + both_confirmed(
        FanArmingReadback::Mode,
        "2",
        FanArmingOperation::ConfirmFirmwareAuto,
        deadline,
    );
    match part1 {
        Ok(()) => {},
        Err(error) => {
            proof {
                lemma_moves_stop(
                    start,
                    trace.calls(),
                    moves,
                    maximum_staged(deadline),
                    device@,
                    error,
                );
                lemma_moves_stop(
                    start,
                    trace.calls(),
                    moves + maximum_staged(deadline),
                    custom_entered(deadline),
                    device@,
                    error,
                );
                lemma_moves_stop(
                    start,
                    trace.calls(),
                    moves + maximum_staged(deadline) + custom_entered(deadline),
                    custom_at_maximum(FanArmingOperation::ConfirmCustom, deadline),
                    device@,
                    error,
                );
            }
            return Err(error);
        },
    }
    let ghost between = trace.calls();
    let part2 = stage_maximum(platform, trace, device, deadline);
    proof {
        lemma_moves_then(
            start,
            between,
            trace.calls(),
            moves,
            maximum_staged(deadline),
            device@,
            failure_of(part2),
        );
    }
    let ghost moves = moves + maximum_staged(deadline);
    match part2 {
        Ok(()) => {},
        Err(error) => {
            proof {
                lemma_moves_stop(
                    start,
                    trace.calls(),
                    moves,
                    custom_entered(deadline),
                    device@,
                    error,
                );
                lemma_moves_stop(
                    start,
                    trace.calls(),
                    moves + custom_entered(deadline),
                    custom_at_maximum(FanArmingOperation::ConfirmCustom, deadline),
                    device@,
                    error,
                );
            }
            return Err(error);
        },
    }
    let ghost between = trace.calls();
    let part3 = enter_custom(platform, trace, device, deadline);
    proof {
        lemma_moves_then(
            start,
            between,
            trace.calls(),
            moves,
            custom_entered(deadline),
            device@,
            failure_of(part3),
        );
    }
    let ghost moves = moves + custom_entered(deadline);
    match part3 {
        Ok(()) => {},
        Err(error) => {
            proof {
                lemma_moves_stop(
                    start,
                    trace.calls(),
                    moves,
                    custom_at_maximum(FanArmingOperation::ConfirmCustom, deadline),
                    device@,
                    error,
                );
            }
            return Err(error);
        },
    }
    let ghost between = trace.calls();
    let part4 = confirm_custom_at_maximum(
        platform,
        trace,
        device,
        FanArmingOperation::ConfirmCustom,
        deadline,
    );
    proof {
        lemma_moves_then(
            start,
            between,
            trace.calls(),
            moves,
            custom_at_maximum(FanArmingOperation::ConfirmCustom, deadline),
            device@,
            failure_of(part4),
        );
    }
    let ghost moves = moves + custom_at_maximum(FanArmingOperation::ConfirmCustom, deadline);
    part4
}

/// Reads one tachometer.
fn see<P>(
    platform: &mut P,
    trace: &mut Trace<'_, P, ControllerCall>,
    device: &AcerHwmonDevice,
    fan: Fan,
    deadline: u128,
) -> (read: (Result<Option<u32>, FanArmingFailure>, Ghost<Result<String, PlatformError>>)) where
    P: ControllerOwnership + BoundedIdentityBoundFileAccess + Clock,

    requires
        device_is_bound(device@),
        old(trace).follows(&*old(platform)),
    ensures
        final(trace).follows(&*final(platform)),
        final(trace).start() == old(trace).start(),
        final(trace).calls() == old(trace).calls().push(
            tachometer_call(device@, fan, deadline, read.1@),
        ),
        read.0 == tachometer_verdict(read.1@, fan),
        read.0 matches Ok(Some(rpm)) ==> plausible_rpm(rpm),
        read.0 matches Err(failure) ==> failure.comes_from_handover(),
{
    let read = trace.read_endpoint(platform, device, fan, Endpoint::Tachometer, deadline);
    let ghost answer = read;
    (judge_tachometer(read, fan), Ghost(answer))
}

/// Polls both tachometers once. Tells the speeds that were read last, and how polling ends where it
/// does.
fn poll_once<P>(
    platform: &mut P,
    trace: &mut Trace<'_, P, ControllerCall>,
    device: &AcerHwmonDevice,
    deadline: u128,
    last_cpu_rpm: Option<u32>,
    last_gpu_rpm: Option<u32>,
) -> (round: (
    Option<u32>,
    Option<u32>,
    Option<Result<(u32, u32), FanArmingFailure>>,
)) where P: ControllerOwnership + BoundedIdentityBoundFileAccess + Clock
    requires
        device_is_bound(device@),
        old(trace).follows(&*old(platform)),
    ensures
        final(trace).follows(&*final(platform)),
        final(trace).start() == old(trace).start(),
        goes_on(old(trace).calls(), final(trace).calls()),
        round_went(
            PollState {
                calls: old(trace).calls(),
                cpu_rpm: last_cpu_rpm,
                gpu_rpm: last_gpu_rpm,
            },
            PollState { calls: final(trace).calls(), cpu_rpm: round.0, gpu_rpm: round.1 },
            device@,
            deadline,
            round.2,
        ),
        round.2 matches Some(Err(failure)) ==> failure.comes_from_handover(),
        round.2 matches Some(Ok((cpu_rpm, gpu_rpm))) ==> plausible_rpm(cpu_rpm) && plausible_rpm(
            gpu_rpm,
        ),
{
    let ghost before = PollState {
        calls: trace.calls(),
        cpu_rpm: last_cpu_rpm,
        gpu_rpm: last_gpu_rpm,
    };
    let ghost mut answers: PollAnswers = arbitrary();
    let now = trace.monotonic_now(platform);
    proof {
        answers = PollAnswers { now, ..answers };
    }
    if now >= deadline {
        let end = Some(
            Err(
                FanArmingFailure::TachometerTimeout {
                    cpu_rpm: last_cpu_rpm,
                    gpu_rpm: last_gpu_rpm,
                },
            ),
        );
        assert((
            PollState { calls: trace.calls(), cpu_rpm: last_cpu_rpm, gpu_rpm: last_gpu_rpm },
            end,
        ) == poll_round(before, answers, device@, deadline));
        return (last_cpu_rpm, last_gpu_rpm, end);
    }
    let (cpu_read, cpu_answer) = see(platform, trace, device, Fan::Cpu, deadline);
    proof {
        answers = PollAnswers { cpu: cpu_answer@, ..answers };
    }
    let cpu_rpm = match cpu_read {
        Ok(rpm) => rpm,
        Err(error) => {
            let end = Some(Err(error));
            assert((
                PollState { calls: trace.calls(), cpu_rpm: last_cpu_rpm, gpu_rpm: last_gpu_rpm },
                end,
            ) == poll_round(before, answers, device@, deadline));
            return (last_cpu_rpm, last_gpu_rpm, end);
        },
    };
    let (gpu_read, gpu_answer) = see(platform, trace, device, Fan::Gpu, deadline);
    proof {
        answers = PollAnswers { gpu: gpu_answer@, ..answers };
    }
    let gpu_rpm = match gpu_read {
        Ok(rpm) => rpm,
        Err(error) => {
            let end = Some(Err(error));
            assert((
                PollState { calls: trace.calls(), cpu_rpm: last_cpu_rpm, gpu_rpm: last_gpu_rpm },
                end,
            ) == poll_round(before, answers, device@, deadline));
            return (last_cpu_rpm, last_gpu_rpm, end);
        },
    };
    match (cpu_rpm, gpu_rpm) {
        (Some(cpu), Some(gpu)) => {
            let end = Some(Ok((cpu, gpu)));
            assert((PollState { calls: trace.calls(), cpu_rpm, gpu_rpm }, end) == poll_round(
                before,
                answers,
                device@,
                deadline,
            ));
            return (cpu_rpm, gpu_rpm, end);
        },
        _ => {},
    }
    let again = trace.monotonic_now(platform);
    proof {
        answers = PollAnswers { again, ..answers };
    }
    if again >= deadline {
        let end = Some(Err(FanArmingFailure::TachometerTimeout { cpu_rpm, gpu_rpm }));
        assert((PollState { calls: trace.calls(), cpu_rpm, gpu_rpm }, end) == poll_round(
            before,
            answers,
            device@,
            deadline,
        ));
        return (cpu_rpm, gpu_rpm, end);
    }
    let remaining: u128 = deadline - again;
    trace.delay(
        platform,
        if remaining < TACHOMETER_POLL_INTERVAL_NANOS {
            remaining
        } else {
            TACHOMETER_POLL_INTERVAL_NANOS
        },
    );
    let end: Option<Result<(u32, u32), FanArmingFailure>> = None;
    assert((PollState { calls: trace.calls(), cpu_rpm, gpu_rpm }, end) == poll_round(
        before,
        answers,
        device@,
        deadline,
    ));
    (cpu_rpm, gpu_rpm, end)
}

/// Polls both tachometers until both fans turn, or until the deadline, and gives their speeds.
fn await_response<P>(
    platform: &mut P,
    trace: &mut Trace<'_, P, ControllerCall>,
    device: &AcerHwmonDevice,
    deadline: u128,
) -> (result: Result<(u32, u32), FanArmingFailure>) where
    P: ControllerOwnership + BoundedIdentityBoundFileAccess + Clock,

    requires
        device_is_bound(device@),
        old(trace).follows(&*old(platform)),
    ensures
        final(trace).follows(&*final(platform)),
        final(trace).start() == old(trace).start(),
        goes_on(old(trace).calls(), final(trace).calls()),
        result matches Err(failure) ==> failure.comes_from_handover(),
        polls_went(old(trace).calls(), final(trace).calls(), device@, deadline, result),
        result matches Ok((cpu_rpm, gpu_rpm)) ==> plausible_rpm(cpu_rpm) && plausible_rpm(gpu_rpm),
{
    let mut last_cpu_rpm: Option<u32> = None;
    let mut last_gpu_rpm: Option<u32> = None;
    let mut polls: u64 = 0;
    let ghost mut states: Seq<PollState> = seq![
        PollState { calls: trace.calls(), cpu_rpm: None, gpu_rpm: None },
    ];
    while polls < u64::MAX
        invariant
            device_is_bound(device@),
            trace.follows(&*platform),
            trace.start() == old(trace).start(),
            goes_on(old(trace).calls(), trace.calls()),
            are_rounds(states, device@, deadline),
            states.len() == polls + 1,
            states[0] == (PollState { calls: old(trace).calls(), cpu_rpm: None, gpu_rpm: None }),
            states.last() == (PollState {
                calls: trace.calls(),
                cpu_rpm: last_cpu_rpm,
                gpu_rpm: last_gpu_rpm,
            }),
        decreases u64::MAX - polls,
    {
        let (cpu_rpm, gpu_rpm, end) = poll_once(
            platform,
            trace,
            device,
            deadline,
            last_cpu_rpm,
            last_gpu_rpm,
        );
        let ghost next = PollState { calls: trace.calls(), cpu_rpm, gpu_rpm };
        match end {
            Some(result) => {
                proof {
                    lemma_polls_end(states, next, device@, deadline, result);
                }
                return result;
            },
            None => {},
        }
        last_cpu_rpm = cpu_rpm;
        last_gpu_rpm = gpu_rpm;
        polls = polls + 1;
        proof {
            lemma_one_more_round(states, next, device@, deadline);
            states = states.push(next);
        }
    }
    let result = Err(
        FanArmingFailure::TachometerTimeout { cpu_rpm: last_cpu_rpm, gpu_rpm: last_gpu_rpm },
    );
    proof {
        lemma_polls_run_out(states, device@, deadline);
    }
    result
}

/// What a handover found, given when each fan was confirmed and the speeds that were seen last.
pub open spec fn findings_of(
    moments: (u128, u128),
    speeds: Result<(u32, u32), FanArmingFailure>,
) -> Result<HandoverFindings, FanArmingFailure> {
    match speeds {
        Ok((cpu_rpm, gpu_rpm)) => Ok(
            HandoverFindings {
                cpu_custom_confirmed_at: moments.0,
                gpu_custom_confirmed_at: moments.1,
                cpu_rpm,
                gpu_rpm,
            },
        ),
        Err(failure) => Err(failure),
    }
}

/// What a handover found, or why it failed.
pub open spec fn outcome_of(
    handed: Result<((u128, u128), (u32, u32)), FanArmingFailure>,
) -> Result<HandoverFindings, FanArmingFailure> {
    match handed {
        Ok((moments, speeds)) => findings_of(moments, Ok(speeds)),
        Err(failure) => Err(failure),
    }
}

/// Sees both fans turn a second time, and confirms them after that.
fn see_again<P>(
    platform: &mut P,
    trace: &mut Trace<'_, P, ControllerCall>,
    device: &AcerHwmonDevice,
    deadline: u128,
    moments: (u128, u128),
) -> (result: Result<(u32, u32), FanArmingFailure>) where
    P: ControllerOwnership + BoundedIdentityBoundFileAccess + Clock,

    requires
        device_is_bound(device@),
        old(trace).follows(&*old(platform)),
    ensures
        final(trace).follows(&*final(platform)),
        final(trace).start() == old(trace).start(),
        goes_on(old(trace).calls(), final(trace).calls()),
        result matches Err(failure) ==> failure.comes_from_handover(),
        second_sight_went(
            old(trace).calls(),
            final(trace).calls(),
            device@,
            deadline,
            moments.0,
            moments.1,
            findings_of(moments, result),
        ),
        result matches Ok((cpu_rpm, gpu_rpm)) ==> plausible_rpm(cpu_rpm) && plausible_rpm(gpu_rpm),
{
    let speeds = match await_response(platform, trace, device, deadline) {
        Ok(speeds) => speeds,
        Err(error) => {
            return Err(error);
        },
    };
    match confirm_custom_at_maximum(
        platform,
        trace,
        device,
        FanArmingOperation::FinalConfirmCustom,
        deadline,
    ) {
        Ok(_) => Ok(speeds),
        Err(error) => Err(error),
    }
}

/// Confirms both fans after they were seen to turn, and sees them again.
fn settle<P>(
    platform: &mut P,
    trace: &mut Trace<'_, P, ControllerCall>,
    device: &AcerHwmonDevice,
    deadline: u128,
    moments: (u128, u128),
) -> (result: Result<(u32, u32), FanArmingFailure>) where
    P: ControllerOwnership + BoundedIdentityBoundFileAccess + Clock,

    requires
        device_is_bound(device@),
        old(trace).follows(&*old(platform)),
    ensures
        final(trace).follows(&*final(platform)),
        final(trace).start() == old(trace).start(),
        goes_on(old(trace).calls(), final(trace).calls()),
        result matches Err(failure) ==> failure.comes_from_handover(),
        settling_went(
            old(trace).calls(),
            final(trace).calls(),
            device@,
            deadline,
            moments.0,
            moments.1,
            findings_of(moments, result),
        ),
        result matches Ok((cpu_rpm, gpu_rpm)) ==> plausible_rpm(cpu_rpm) && plausible_rpm(gpu_rpm),
{
    match confirm_custom_at_maximum(
        platform,
        trace,
        device,
        FanArmingOperation::FinalConfirmCustom,
        deadline,
    ) {
        Ok(_) => {},
        Err(error) => {
            return Err(error);
        },
    }
    see_again(platform, trace, device, deadline, moments)
}

/// Sees both fans turn, and confirms them after that.
fn see_first<P>(
    platform: &mut P,
    trace: &mut Trace<'_, P, ControllerCall>,
    device: &AcerHwmonDevice,
    deadline: u128,
    moments: (u128, u128),
) -> (result: Result<(u32, u32), FanArmingFailure>) where
    P: ControllerOwnership + BoundedIdentityBoundFileAccess + Clock,

    requires
        device_is_bound(device@),
        old(trace).follows(&*old(platform)),
    ensures
        final(trace).follows(&*final(platform)),
        final(trace).start() == old(trace).start(),
        goes_on(old(trace).calls(), final(trace).calls()),
        result matches Err(failure) ==> failure.comes_from_handover(),
        first_sight_went(
            old(trace).calls(),
            final(trace).calls(),
            device@,
            deadline,
            moments.0,
            moments.1,
            findings_of(moments, result),
        ),
        result matches Ok((cpu_rpm, gpu_rpm)) ==> plausible_rpm(cpu_rpm) && plausible_rpm(gpu_rpm),
{
    match await_response(platform, trace, device, deadline) {
        Ok(_) => {},
        Err(error) => {
            return Err(error);
        },
    }
    settle(platform, trace, device, deadline, moments)
}

/// Hands both fans over: both are confirmed in Firmware Auto, staged and read back at their
/// maximum, put under Custom control, and seen to turn at that maximum before and after. Gives when
/// each was confirmed under Custom control, and their speeds.
fn hand_over<P>(
    platform: &mut P,
    trace: &mut Trace<'_, P, ControllerCall>,
    device: &AcerHwmonDevice,
    sample_completed_at: u128,
) -> (result: Result<((u128, u128), (u32, u32)), FanArmingFailure>) where
    P: ControllerOwnership + BoundedIdentityBoundFileAccess + Clock,

    requires
        device_is_bound(device@),
        old(trace).follows(&*old(platform)),
    ensures
        final(trace).follows(&*final(platform)),
        final(trace).start() == old(trace).start(),
        goes_on(old(trace).calls(), final(trace).calls()),
        result matches Err(failure) ==> failure.comes_from_handover(),
        handover_went(
            old(trace).calls(),
            final(trace).calls(),
            device@,
            sample_completed_at,
            outcome_of(result),
        ),
        result matches Ok((_, (cpu_rpm, gpu_rpm))) ==> plausible_rpm(cpu_rpm) && plausible_rpm(
            gpu_rpm,
        ),
{
    let ghost start = trace.calls();
    let started_at = trace.monotonic_now(platform);
    let ghost asked = start.push(ControllerCall::MonotonicNow { answer: started_at });
    assert(trace.calls() == asked);
    let deadline = match admit_sample(started_at, sample_completed_at) {
        Ok(deadline) => deadline,
        Err(error) => {
            return Err(error);
        },
    };
    let moments = match open_handover(platform, trace, device, deadline) {
        Ok(moments) => moments,
        Err(error) => {
            assert(opening_went(asked, trace.calls(), device@, deadline, Err(error)));
            return Err(error);
        },
    };
    let ghost opened = trace.calls();
    let response_from = trace.monotonic_now(platform);
    let ghost answered = opened.push(ControllerCall::MonotonicNow { answer: response_from });
    assert(trace.calls() == answered);
    let response_deadline = match deadline_after(
        response_from,
        ARMING_TACHOMETER_RESPONSE_WINDOW_NANOS,
    ) {
        Some(deadline) => deadline,
        None => {
            proof {
                let outcome = Err(FanArmingFailure::DeadlineOverflow);
                assert(confirmed_moments(opened, moments.0, moments.1));
                assert(response_went(opened, trace.calls(), device@, outcome));
                assert(opening_went(asked, trace.calls(), device@, deadline, outcome));
            }
            return Err(FanArmingFailure::DeadlineOverflow);
        },
    };
    let seen = see_first(platform, trace, device, response_deadline, moments);
    proof {
        let outcome = findings_of(moments, seen);
        assert(confirmed_moments(opened, moments.0, moments.1));
        assert(response_went(opened, trace.calls(), device@, outcome));
        assert(opening_went(asked, trace.calls(), device@, deadline, outcome));
    }
    match seen {
        Ok(speeds) => Ok((moments, speeds)),
        Err(error) => Err(error),
    }
}

/// Receipt for a completed safety handover.
///
/// The recorded state is current only while [`Self::is_current_for`] returns true for the owning
/// controller. Restoring Firmware Auto invalidates the receipt.
#[derive(Debug, PartialEq)]
pub struct ArmedFanControl {
    ownership_id: u64,
    custom_epoch: u64,
    config: ValidatedConfig,
    device: AcerHwmonDevice,
    calibration: QualifiedTachometerCalibrations,
    cpu_custom_confirmed_at: u128,
    gpu_custom_confirmed_at: u128,
    cpu_rpm: u32,
    gpu_rpm: u32,
}

/// The contents of a receipt.
pub struct ArmedModel {
    pub ownership_id: u64,
    pub custom_epoch: u64,
    pub config: ConfigModel,
    pub device: DeviceModel,
    pub cpu_calibration: FanTachometerModel,
    pub gpu_calibration: FanTachometerModel,
    pub cpu_custom_confirmed_at: u128,
    pub gpu_custom_confirmed_at: u128,
    pub cpu_rpm: u32,
    pub gpu_rpm: u32,
}

impl View for ArmedFanControl {
    type V = ArmedModel;

    closed spec fn view(&self) -> ArmedModel {
        ArmedModel {
            ownership_id: self.ownership_id,
            custom_epoch: self.custom_epoch,
            config: self.config@,
            device: self.device@,
            cpu_calibration: self.calibration.of(Fan::Cpu),
            gpu_calibration: self.calibration.of(Fan::Gpu),
            cpu_custom_confirmed_at: self.cpu_custom_confirmed_at,
            gpu_custom_confirmed_at: self.gpu_custom_confirmed_at,
            cpu_rpm: self.cpu_rpm,
            gpu_rpm: self.gpu_rpm,
        }
    }
}

/// Whether the machine was asked if a receipt is current, and answered so.
pub open spec fn receipt_is_current(
    armed: ArmedModel,
    before: Calls,
    after: Calls,
    current: bool,
) -> bool {
    after == before.push(
        MachineCall::CustomEpochIsCurrent {
            ownership_id: armed.ownership_id,
            custom_epoch: armed.custom_epoch,
            answer: current,
        },
    )
}

/// What normal control takes over from a receipt.
pub(crate) struct ArmedControlParts {
    pub ownership_id: u64,
    pub custom_epoch: u64,
    pub config: ValidatedConfig,
    pub device: AcerHwmonDevice,
    pub calibration: QualifiedTachometerCalibrations,
    pub cpu_custom_confirmed_at: u128,
    pub gpu_custom_confirmed_at: u128,
}

impl ArmedFanControl {
    #[verifier::type_invariant]
    closed spec fn is_usable(self) -> bool {
        device_is_bound(self.device@)
    }

    /// Whether the receipt's own ownership and epoch are still current. They are not once Firmware
    /// Auto was restored.
    pub fn is_current_for<O>(&self, ownership: &mut O) -> (current: bool) where
        O: ControllerOwnership + ?Sized,

        ensures
            receipt_is_current(
                self@,
                old(ownership).history(),
                final(ownership).history(),
                current,
            ),
            was_given_back(old(ownership).history(), self@.custom_epoch) ==> !current,
    {
        ownership.custom_epoch_is_current(self.ownership_id, self.custom_epoch)
    }

    pub fn cpu_rpm(&self) -> (rpm: u32)
        ensures
            rpm == self@.cpu_rpm,
    {
        self.cpu_rpm
    }

    pub fn gpu_rpm(&self) -> (rpm: u32)
        ensures
            rpm == self@.gpu_rpm,
    {
        self.gpu_rpm
    }

    pub(crate) fn into_control_parts(self) -> (parts: ArmedControlParts)
        ensures
            parts.ownership_id == self@.ownership_id,
            parts.custom_epoch == self@.custom_epoch,
            parts.config@ == self@.config,
            parts.device@ == self@.device,
            parts.calibration.of(Fan::Cpu) == self@.cpu_calibration,
            parts.calibration.of(Fan::Gpu) == self@.gpu_calibration,
            parts.cpu_custom_confirmed_at == self@.cpu_custom_confirmed_at,
            parts.gpu_custom_confirmed_at == self@.gpu_custom_confirmed_at,
            device_is_bound(parts.device@),
    {
        proof {
            use_type_invariant(&self);
        }
        ArmedControlParts {
            ownership_id: self.ownership_id,
            custom_epoch: self.custom_epoch,
            config: self.config,
            device: self.device,
            calibration: self.calibration,
            cpu_custom_confirmed_at: self.cpu_custom_confirmed_at,
            gpu_custom_confirmed_at: self.gpu_custom_confirmed_at,
        }
    }
}

/// Whether a failed handover was followed by exactly one restoration, whose outcome shapes the error.
pub open spec fn is_made_safe(
    result: Result<ArmedFanControl, FanArmingError>,
    handled: Seq<ControllerCall>,
    calls: Seq<ControllerCall>,
    device: DeviceModel,
    failure: FanArmingFailure,
) -> bool {
    &&& calls.len() > 0
    &&& calls.drop_last() == handled
    &&& calls.last() matches ControllerCall::RestoreOrContainFirmwareAuto {
        device: restored,
        answer,
    }
    &&& restored == device
    &&& result matches Err(error) && error == safed_error(failure, answer)
}

/// The receipt of a completed handover.
pub open spec fn receipt_of(
    findings: HandoverFindings,
    device: DeviceModel,
    authority: AuthorityModel,
    candidate: ConfigModel,
    custom_epoch: u64,
) -> ArmedModel {
    ArmedModel {
        ownership_id: authority.ownership_id,
        custom_epoch,
        config: candidate,
        device,
        cpu_calibration: authority.cpu_calibration,
        gpu_calibration: authority.gpu_calibration,
        cpu_custom_confirmed_at: findings.cpu_custom_confirmed_at,
        gpu_custom_confirmed_at: findings.gpu_custom_confirmed_at,
        cpu_rpm: findings.cpu_rpm,
        gpu_rpm: findings.gpu_rpm,
    }
}

/// Whether an admitted handover led to its outcome: the transition begins, the handover is made, and
/// what it found is the receipt, or its failure is made safe.
pub open spec fn is_admitted_outcome(
    result: Result<ArmedFanControl, FanArmingError>,
    asked: Seq<ControllerCall>,
    calls: Seq<ControllerCall>,
    device: DeviceModel,
    authority: AuthorityModel,
    candidate: ConfigModel,
    sample: ArmingReadySample,
) -> bool {
    exists|
        custom_epoch: u64,
        handled: Seq<ControllerCall>,
        outcome: Result<HandoverFindings, FanArmingFailure>,
    |
        {
            &&& #[trigger] handover_went(
                asked.push(ControllerCall::BeginCustomTransition { answer: custom_epoch }),
                handled,
                device,
                sample.completed_at,
                outcome,
            )
            &&& match outcome {
                Ok(findings) => {
                    &&& calls == handled
                    &&& result matches Ok(armed) && armed@ == receipt_of(
                        findings,
                        device,
                        authority,
                        candidate,
                        custom_epoch,
                    )
                },
                Err(failure) => is_made_safe(result, handled, calls, device, failure),
            }
        }
}

/// Whether a handover that was admitted or not led to its outcome. Where it was not, nothing else is
/// called but a restoration.
pub open spec fn is_judged_outcome(
    result: Result<ArmedFanControl, FanArmingError>,
    asked: Seq<ControllerCall>,
    calls: Seq<ControllerCall>,
    device: DeviceModel,
    authority: AuthorityModel,
    candidate: ConfigModel,
    sample: ArmingReadySample,
    admission: Result<(), FanArmingFailure>,
) -> bool {
    match admission {
        Ok(_) => is_admitted_outcome(result, asked, calls, device, authority, candidate, sample),
        Err(failure) => is_made_safe(result, asked, calls, device, failure),
    }
}

/// Whether the calls of a handover led to its outcome. The ownership and its epoch are asked for
/// first, and decide whether the authority, the candidate and the sample are admitted.
pub open spec fn is_handover_outcome(
    result: Result<ArmedFanControl, FanArmingError>,
    calls: Seq<ControllerCall>,
    device: DeviceModel,
    authority: AuthorityModel,
    candidate: ConfigModel,
    sample: ArmingReadySample,
) -> bool {
    exists|ownership_id: u64, sampling_epoch: u64, admission: Result<(), FanArmingFailure>|
        {
            &&& #[trigger] arming_is_admitted(
                admission,
                authority,
                candidate,
                sample,
                ownership_id,
                sampling_epoch,
            )
            &&& is_judged_outcome(
                result,
                seq![
                    ControllerCall::OwnershipId { answer: ownership_id },
                    ControllerCall::SamplingEpoch { answer: sampling_epoch },
                ],
                calls,
                device,
                authority,
                candidate,
                sample,
                admission,
            )
        }
}

/// Performs the only Auto-to-Custom handover.
///
/// A receipt belongs to the authority's ownership, carries its calibrations and shows both fans
/// turning, and is only given for a candidate that stays within the protected envelope. Whatever the
/// machine answers, the four writes and their readbacks are the only ones of a completed handover,
/// and a handover that fails ends with one restoration, whose outcome shapes the error.
pub fn arm_both_fans_safely<O>(
    ownership: &mut O,
    device: &AcerHwmonDevice,
    authority: &AdmittedPolicyAuthority,
    candidate: &ValidatedConfig,
    ready_sample: ArmingReadySample,
) -> (result: Result<ArmedFanControl, FanArmingError>) where
    O: ControllerOwnership + BoundedIdentityBoundFileAccess + Clock,

    requires
        device_is_bound(device@),
    ensures
        exists|calls: Seq<ControllerCall>|
            ran(&*old(ownership), calls, &*final(ownership)) && #[trigger] is_handover_outcome(
                result,
                calls,
                device@,
                authority@,
                candidate@,
                ready_sample,
            ),
        result matches Ok(armed) ==> {
            &&& is_covered(candidate@, authority@.protected)
            &&& ready_sample.ownership_id == authority@.ownership_id
            &&& armed@.ownership_id == authority@.ownership_id
            &&& armed@.config == candidate@
            &&& armed@.device == device@
            &&& armed@.cpu_calibration == authority@.cpu_calibration
            &&& armed@.gpu_calibration == authority@.gpu_calibration
            &&& plausible_rpm(armed@.cpu_rpm)
            &&& plausible_rpm(armed@.gpu_rpm)
        },
        result matches Err(error) ==> {
            &&& !is_covered(candidate@, authority@.protected)
                ==> error.cause() is ForeignOwnershipAuthority || error.cause() is Policy
            &&& error.cause() matches FanArmingFailure::Policy(reason) ==> !is_covered(
                candidate@,
                authority@.protected,
            ) && is_first_envelope_error(reason, candidate@, authority@.protected)
        },
{
    let mut trace = Trace::begin(ownership);
    let ownership_id = trace.ownership_id(ownership);
    let sampling_epoch = trace.sampling_epoch(ownership);
    let ghost asked = trace.calls();
    let admission = admit_arming(
        authority,
        candidate,
        ready_sample,
        ownership_id,
        sampling_epoch,
    );
    let ghost admitted = admission;
    assert(asked =~= seq![
        ControllerCall::OwnershipId { answer: ownership_id },
        ControllerCall::SamplingEpoch { answer: sampling_epoch },
    ]);
    match admission {
        Err(reason) => {
            let outcome = trace.restore_or_contain_firmware_auto(ownership, device);
            let result = Err(reject_arming(reason, outcome));
            proof {
                assert(trace.calls().drop_last() =~= asked);
                assert(is_made_safe(result, asked, trace.calls(), device@, reason));
                assert(arming_is_admitted(
                    admitted,
                    authority@,
                    candidate@,
                    ready_sample,
                    ownership_id,
                    sampling_epoch,
                ));
                assert(ran(&*old(ownership), trace.calls(), &*ownership));
                assert(is_handover_outcome(
                    result,
                    trace.calls(),
                    device@,
                    authority@,
                    candidate@,
                    ready_sample,
                ));
            }
            return result;
        },
        Ok(()) => {},
    }
    let custom_epoch = trace.begin_custom_transition(ownership);
    let ghost begun = asked.push(ControllerCall::BeginCustomTransition { answer: custom_epoch });
    assert(trace.calls() == begun);
    let handed = hand_over(ownership, &mut trace, device, ready_sample.completed_at);
    let ghost handled = trace.calls();
    let ghost findings = outcome_of(handed);
    assert(handover_went(begun, handled, device@, ready_sample.completed_at, findings));
    let result = match handed {
        Ok((moments, speeds)) => Ok(
            ArmedFanControl {
                ownership_id,
                custom_epoch,
                config: candidate.clone(),
                device: device.clone(),
                calibration: authority.tachometer_calibrations(),
                cpu_custom_confirmed_at: moments.0,
                gpu_custom_confirmed_at: moments.1,
                cpu_rpm: speeds.0,
                gpu_rpm: speeds.1,
            },
        ),
        Err(reason) => {
            let outcome = trace.restore_or_contain_firmware_auto(ownership, device);
            assert(trace.calls().drop_last() =~= handled);
            Err(reject_arming(reason, outcome))
        },
    };
    proof {
        assert(is_admitted_outcome(
            result,
            asked,
            trace.calls(),
            device@,
            authority@,
            candidate@,
            ready_sample,
        ));
        assert(arming_is_admitted(
            admitted,
            authority@,
            candidate@,
            ready_sample,
            ownership_id,
            sampling_epoch,
        ));
        assert(ran(&*old(ownership), trace.calls(), &*ownership));
        assert(is_handover_outcome(
            result,
            trace.calls(),
            device@,
            authority@,
            candidate@,
            ready_sample,
        ));
    }
    result
}

} // verus!
