//! One cycle of normal control after a completed handover.

use vstd::prelude::*;
use vstd::string::*;
use crate::acer_hwmon::{
    answer_of, device_is_bound, AcerHwmonDevice, AcerHwmonDiscoveryError, DeviceModel,
};
use crate::arming::{
    receipt_is_current, was_given_back, ArmedControlParts, ArmedFanControl, ArmedModel,
    ControllerOwnership, NORMAL_SAMPLE_CADENCE_NANOS,
};
use crate::config::{ConfigModel, ValidatedConfig};
use crate::controller_calls::ControllerCall;
use crate::demand::{FanOutputs, Pwm};
use crate::endpoint_io::{
    malformed_tachometer_message, malformed_tachometer_text, quoted, quoted_text, Endpoint,
};
use crate::external_power::ExternalPower;
use crate::platform::{
    deadline_after, moment_after, BoundedIdentityBoundFileAccess, Clock, PlatformError,
    PlatformErrorKind,
};
use crate::policy_calls::PolicyCall;
use crate::trace::{goes_on, ran, Trace};
use crate::tachometer::Fan;
use crate::tachometer_policy::{
    ConfirmedDuty, SupervisedFan, TachometerObservationError, TachometerValidator,
};
use crate::text::{
    decimal, decimal_text, join, join3, parse_trimmed_unsigned, trimmed, trims_to, unsigned_number,
};
use crate::machine::{Calls, MachineCall};
use crate::moves::{
    failure_of, lemma_moves_stop, lemma_moves_then, lemma_one_move, moves_went, Move,
};
use crate::cycle_steps::{
    device_verdict, duties_went, duty_moves, duty_went, fan_moves, fans_went, judgement_went,
    operation_failure, output_went, prior_moves, readback_tells, result_moves, result_went,
    speed_went, speeds_went, state_moves, CycleMove,
};

verus! {

broadcast use {vstd::string::group_string_axioms, crate::trace::group_effects};

/// One complete set of samples.
#[derive(Debug, Clone, Copy, PartialEq, Eq)]
pub struct CompleteSampleSet {
    pub cycle_started_at: u128,
    pub completed_at: u128,
    pub cpu_temperature_millicelsius: i64,
    pub gpu_temperature_millicelsius: i64,
    pub external_power: ExternalPower,
}

/// Samples the sensors and turns samples into duties. Failures are told by their messages.
pub trait ControlPolicy {
    /// What was asked so far, with what came back.
    spec fn history(&self) -> Seq<PolicyCall>;

    /// Takes one complete set of samples.
    fn sample(&mut self) -> (answer: Result<CompleteSampleSet, String>)
        ensures
            final(self).history() == old(self).history().push(
                PolicyCall::Sample { answer },
            ),
    ;

    /// The duties that a sample asks for. A proposal counts only once it is committed.
    fn propose(
        &mut self,
        config: &ValidatedConfig,
        sample: CompleteSampleSet,
    ) -> (answer: Result<FanOutputs, String>)
        ensures
            final(self).history() == old(self).history().push(
                PolicyCall::Propose { config: *config, sample, answer },
            ),
    ;

    /// Keeps the last proposal as the history of the next one.
    fn commit(&mut self)
        ensures
            final(self).history() == old(self).history().push(
                PolicyCall::Commit,
            ),
    ;
}

#[derive(Debug, Clone, Copy, PartialEq, Eq, Structural)]
pub enum ControlCycleOperation {
    ConfirmBeforeOutput,
    ReadPriorDuty,
    WriteDuty,
    ConfirmWrittenDuty,
    ConfirmResult,
    ReadTachometer,
}

impl ControlCycleOperation {
    /// The text of the operation's name.
    pub open spec fn label(self) -> Seq<char> {
        match self {
            ControlCycleOperation::ConfirmBeforeOutput => "pre-output mode confirmation"@,
            ControlCycleOperation::ReadPriorDuty => "prior-duty confirmation"@,
            ControlCycleOperation::WriteDuty => "duty write"@,
            ControlCycleOperation::ConfirmWrittenDuty => "written-duty confirmation"@,
            ControlCycleOperation::ConfirmResult => "result confirmation"@,
            ControlCycleOperation::ReadTachometer => "tachometer read"@,
        }
    }

    pub fn name(self) -> (name: &'static str)
        ensures
            name@ == self.label(),
    {
        match self {
            ControlCycleOperation::ConfirmBeforeOutput => "pre-output mode confirmation",
            ControlCycleOperation::ReadPriorDuty => "prior-duty confirmation",
            ControlCycleOperation::WriteDuty => "duty write",
            ControlCycleOperation::ConfirmWrittenDuty => "written-duty confirmation",
            ControlCycleOperation::ConfirmResult => "result confirmation",
            ControlCycleOperation::ReadTachometer => "tachometer read",
        }
    }
}

#[derive(Debug, Clone, Copy, PartialEq, Eq, Structural)]
pub enum ControlCycleReadback {
    Mode,
    Duty,
}

impl ControlCycleReadback {
    /// The text of the readback's name.
    pub open spec fn label(self) -> Seq<char> {
        match self {
            ControlCycleReadback::Mode => "mode"@,
            ControlCycleReadback::Duty => "duty"@,
        }
    }

    pub fn name(self) -> (name: &'static str)
        ensures
            name@ == self.label(),
    {
        match self {
            ControlCycleReadback::Mode => "mode",
            ControlCycleReadback::Duty => "duty",
        }
    }
}

/// Why a cycle failed.
#[derive(Debug, PartialEq, Eq)]
pub enum HealthyControlCycleError {
    Invalidated,
    StaleArmingReceipt,
    Sample(String),
    PolicyClock(String),
    DeadlineOverflow,
    DeadlineExceeded,
    Device(AcerHwmonDiscoveryError),
    DeviceChanged,
    Platform { fan: Fan, operation: ControlCycleOperation, source: PlatformError },
    UnexpectedReadback {
        fan: Fan,
        field: ControlCycleReadback,
        operation: ControlCycleOperation,
        expected: String,
        actual: String,
    },
    MalformedTachometer { fan: Fan, actual: String },
    TachometerOutOfBand { fan: Fan, expected_rpm: u32, actual_rpm: u32 },
}

/// The message of a readback that does not hold what it must. Both texts are given between quotes.
pub open spec fn control_readback_text(
    fan: Fan,
    operation: ControlCycleOperation,
    field: ControlCycleReadback,
    expected: Seq<char>,
    shown: Seq<char>,
) -> Seq<char> {
    fan.label() + " fan "@ + operation.label() + " "@ + field.label() + " expected "@ + expected
        + ", got "@ + shown
}

/// Forms the message of a readback that does not hold what it must.
pub fn control_readback_message(
    fan: Fan,
    operation: ControlCycleOperation,
    field: ControlCycleReadback,
    expected: &str,
    shown: &str,
) -> (text: String)
    ensures
        text@ == control_readback_text(fan, operation, field, expected@, shown@),
{
    let mut text = join3(fan.name(), " fan ", operation.name());
    text.append(" ");
    text.append(field.name());
    text.append(" expected ");
    text.append(expected);
    text.append(", got ");
    text.append(shown);
    text
}

impl HealthyControlCycleError {
    /// Whether the cycle itself failed, and not its admission.
    pub open spec fn comes_from_cycle(self) -> bool {
        !(self is Invalidated || self is StaleArmingReceipt)
    }

    /// The text of the message.
    pub open spec fn text(self) -> Seq<char> {
        match self {
            HealthyControlCycleError::Invalidated => "healthy control state is invalidated"@,
            HealthyControlCycleError::StaleArmingReceipt =>
                "arming receipt no longer belongs to current ownership"@,
            HealthyControlCycleError::Sample(error) => "control-cycle sample failed: "@ + error@,
            HealthyControlCycleError::PolicyClock(error) => "control policy clock failed: "@
                + error@,
            HealthyControlCycleError::DeadlineOverflow => "control-cycle deadline overflowed"@,
            HealthyControlCycleError::DeadlineExceeded => "control cycle exceeded its cadence"@,
            HealthyControlCycleError::Device(error) => "Acer hwmon verification failed: "@
                + error.text(),
            HealthyControlCycleError::DeviceChanged =>
                "Acer hwmon identity or endpoint mapping changed"@,
            HealthyControlCycleError::Platform { fan, operation, source } => fan.label() + " fan "@
                + operation.label() + " failed: "@ + source.detail@,
            HealthyControlCycleError::UnexpectedReadback {
                fan,
                field,
                operation,
                expected,
                actual,
            } => control_readback_text(
                fan,
                operation,
                field,
                quoted_text(expected@),
                quoted_text(actual@),
            ),
            HealthyControlCycleError::MalformedTachometer { fan, actual } =>
                malformed_tachometer_text(fan, quoted_text(actual@)),
            HealthyControlCycleError::TachometerOutOfBand { fan, expected_rpm, actual_rpm } =>
                fan.label()
                + " fan tachometer settled outside its qualified \u{b1}30% band (expected "@
                + decimal_text(expected_rpm as nat) + " RPM, got "@ + decimal_text(
                actual_rpm as nat,
            ) + " RPM)"@,
        }
    }

    /// The message shown to an operator.
    pub fn message(&self) -> (text: String)
        ensures
            text@ == self.text(),
    {
        match self {
            HealthyControlCycleError::Invalidated =>
                "healthy control state is invalidated".to_owned(),
            HealthyControlCycleError::StaleArmingReceipt =>
                "arming receipt no longer belongs to current ownership".to_owned(),
            HealthyControlCycleError::Sample(error) => join(
                "control-cycle sample failed: ",
                error.as_str(),
            ),
            HealthyControlCycleError::PolicyClock(error) => join(
                "control policy clock failed: ",
                error.as_str(),
            ),
            HealthyControlCycleError::DeadlineOverflow =>
                "control-cycle deadline overflowed".to_owned(),
            HealthyControlCycleError::DeadlineExceeded =>
                "control cycle exceeded its cadence".to_owned(),
            HealthyControlCycleError::Device(error) => join(
                "Acer hwmon verification failed: ",
                error.message().as_str(),
            ),
            HealthyControlCycleError::DeviceChanged =>
                "Acer hwmon identity or endpoint mapping changed".to_owned(),
            HealthyControlCycleError::Platform { fan, operation, source } => {
                let mut text = join3(fan.name(), " fan ", operation.name());
                text.append(" failed: ");
                text.append(source.message());
                text
            },
            HealthyControlCycleError::UnexpectedReadback {
                fan,
                field,
                operation,
                expected,
                actual,
            } => control_readback_message(
                *fan,
                *operation,
                *field,
                quoted(expected.as_str()).as_str(),
                quoted(actual.as_str()).as_str(),
            ),
            HealthyControlCycleError::MalformedTachometer { fan, actual } =>
                malformed_tachometer_message(*fan, quoted(actual.as_str()).as_str()),
            HealthyControlCycleError::TachometerOutOfBand { fan, expected_rpm, actual_rpm } => {
                let mut text = join3(
                    fan.name(),
                    " fan tachometer settled outside its qualified \u{b1}30% band (expected ",
                    decimal(*expected_rpm as u64).as_str(),
                );
                text.append(" RPM, got ");
                text.append(decimal(*actual_rpm as u64).as_str());
                text.append(" RPM)");
                text
            },
        }
    }
}

/// The error of a failed platform operation: one that ran out of time exceeded the cadence.
pub fn operation_error(fan: Fan, operation: ControlCycleOperation, source: PlatformError) -> (error:
    HealthyControlCycleError)
    ensures
        error == operation_failure(fan, operation, source),
{
    match source.kind() {
        PlatformErrorKind::TimedOut => HealthyControlCycleError::DeadlineExceeded,
        _ => HealthyControlCycleError::Platform { fan, operation, source },
    }
}

/// Judges a readback: it must hold exactly the expected text, apart from white space around it.
pub fn judge_control_readback(
    read: Result<String, PlatformError>,
    fan: Fan,
    field: ControlCycleReadback,
    operation: ControlCycleOperation,
    expected: String,
) -> (result: Result<(), HealthyControlCycleError>)
    ensures
        readback_tells(read, fan, field, operation, expected@, result),
{
    match read {
        Err(source) => Err(operation_error(fan, operation, source)),
        Ok(actual) => if trims_to(actual.as_str(), expected.as_str()) {
            Ok(())
        } else {
            Err(
                HealthyControlCycleError::UnexpectedReadback {
                    fan,
                    field,
                    operation,
                    expected,
                    actual,
                },
            )
        },
    }
}

/// Judges whether the device is still the discovered one.
pub fn judge_control_device(current: Result<bool, AcerHwmonDiscoveryError>) -> (result: Result<
    (),
    HealthyControlCycleError,
>)
    ensures
        result == device_verdict(current),
{
    match current {
        Ok(true) => Ok(()),
        Ok(false) => Err(HealthyControlCycleError::DeviceChanged),
        Err(error) => {
            let timed_out = match &error {
                AcerHwmonDiscoveryError::Platform(source) => match source.kind() {
                    PlatformErrorKind::TimedOut => true,
                    _ => false,
                },
                _ => false,
            };
            if timed_out {
                Err(HealthyControlCycleError::DeadlineExceeded)
            } else {
                Err(HealthyControlCycleError::Device(error))
            }
        },
    }
}

/// Judges a tachometer's contents: any unsigned number of 32 bits is a speed.
pub fn judge_control_tachometer(read: Result<String, PlatformError>, fan: Fan) -> (result: Result<
    u32,
    HealthyControlCycleError,
>)
    ensures
        match read {
            Err(source) => result == Err::<u32, HealthyControlCycleError>(
                operation_failure(fan, ControlCycleOperation::ReadTachometer, source),
            ),
            Ok(actual) => match unsigned_number(trimmed(actual@), u32::MAX as nat) {
                Some(rpm) => result == Ok::<u32, HealthyControlCycleError>(rpm as u32),
                None => result == Err::<u32, HealthyControlCycleError>(
                    HealthyControlCycleError::MalformedTachometer { fan, actual },
                ),
            },
        },
{
    match read {
        Err(source) => Err(operation_error(fan, ControlCycleOperation::ReadTachometer, source)),
        Ok(actual) => match parse_trimmed_unsigned(actual.as_str(), u32::MAX as u64) {
            Some(rpm) => Ok(rpm as u32),
            None => Err(HealthyControlCycleError::MalformedTachometer { fan, actual }),
        },
    }
}

/// Forms the error of a speed that is not accepted.
pub fn observation_failure(fan: Fan, error: TachometerObservationError) -> (failure:
    HealthyControlCycleError)
    ensures
        failure == match error {
            TachometerObservationError::DeadlineOverflow =>
                HealthyControlCycleError::DeadlineOverflow,
            TachometerObservationError::OutOfBand { expected_rpm, actual_rpm } =>
                HealthyControlCycleError::TachometerOutOfBand { fan, expected_rpm, actual_rpm },
        },
{
    match error {
        TachometerObservationError::DeadlineOverflow => HealthyControlCycleError::DeadlineOverflow,
        TachometerObservationError::OutOfBand { expected_rpm, actual_rpm } =>
            HealthyControlCycleError::TachometerOutOfBand { fan, expected_rpm, actual_rpm },
    }
}

/// The endpoint that a readback is taken from.
pub open spec fn endpoint_of(field: ControlCycleReadback) -> Endpoint {
    match field {
        ControlCycleReadback::Mode => Endpoint::Mode,
        ControlCycleReadback::Duty => Endpoint::Duty,
    }
}

/// Checks the device.
fn verify_device<P>(
    platform: &mut P,
    trace: &mut Trace<'_, P, ControllerCall>,
    device: &AcerHwmonDevice,
    deadline: u128,
) -> (result: Result<(), HealthyControlCycleError>) where
    P: ControllerOwnership + BoundedIdentityBoundFileAccess + Clock,

    requires
        device_is_bound(device@),
        old(trace).follows(&*old(platform)),
    ensures
        final(trace).follows(&*final(platform)),
        final(trace).start() == old(trace).start(),
        goes_on(old(trace).calls(), final(trace).calls()),
        result matches Err(error) ==> error.comes_from_cycle(),
        moves_went(
            old(trace).calls(),
            final(trace).calls(),
            seq![CycleMove::Verify { deadline }],
            device@,
            failure_of(result),
        ),
{
    let ghost start = trace.calls();
    let current = trace.check_device(platform, device, deadline);
    let ghost answer = current;
    let result = judge_control_device(current);
    proof {
        let call = ControllerCall::CheckDevice {
            device: device@,
            deadline,
            answer: answer_of(answer),
        };
        let due = CycleMove::Verify { deadline };
        assert(due.tells(call, device@, result));
        lemma_one_move(start, call, due, device@, result);
    }
    result
}

/// Reads an endpoint, which must hold a text.
fn confirm<P>(
    platform: &mut P,
    trace: &mut Trace<'_, P, ControllerCall>,
    device: &AcerHwmonDevice,
    fan: Fan,
    field: ControlCycleReadback,
    expected: String,
    operation: ControlCycleOperation,
    deadline: u128,
) -> (result: Result<(), HealthyControlCycleError>) where
    P: ControllerOwnership + BoundedIdentityBoundFileAccess + Clock,

    requires
        device_is_bound(device@),
        old(trace).follows(&*old(platform)),
    ensures
        final(trace).follows(&*final(platform)),
        final(trace).start() == old(trace).start(),
        goes_on(old(trace).calls(), final(trace).calls()),
        result matches Err(error) ==> error.comes_from_cycle(),
        moves_went(
            old(trace).calls(),
            final(trace).calls(),
            seq![CycleMove::Confirm { fan, field, contents: expected@, operation, deadline }],
            device@,
            failure_of(result),
        ),
{
    let ghost start = trace.calls();
    let ghost due = CycleMove::Confirm { fan, field, contents: expected@, operation, deadline };
    let endpoint = match field {
        ControlCycleReadback::Mode => Endpoint::Mode,
        ControlCycleReadback::Duty => Endpoint::Duty,
    };
    let read = trace.read_endpoint(platform, device, fan, endpoint, deadline);
    let ghost answer = read;
    let result = judge_control_readback(read, fan, field, operation, expected);
    proof {
        let call = ControllerCall::ReadEndpoint { device: device@, fan, endpoint, deadline, answer };
        assert(due.tells(call, device@, result));
        lemma_one_move(start, call, due, device@, result);
    }
    result
}

/// Writes a duty while both fans are held to Custom control.
fn write_duty<P>(
    platform: &mut P,
    trace: &mut Trace<'_, P, ControllerCall>,
    device: &AcerHwmonDevice,
    fan: Fan,
    contents: &str,
    deadline: u128,
) -> (result: Result<(), HealthyControlCycleError>) where
    P: ControllerOwnership + BoundedIdentityBoundFileAccess + Clock,

    requires
        device_is_bound(device@),
        old(trace).follows(&*old(platform)),
    ensures
        final(trace).follows(&*final(platform)),
        final(trace).start() == old(trace).start(),
        goes_on(old(trace).calls(), final(trace).calls()),
        result matches Err(error) ==> error.comes_from_cycle(),
        moves_went(
            old(trace).calls(),
            final(trace).calls(),
            seq![CycleMove::Write { fan, contents: contents@, deadline }],
            device@,
            failure_of(result),
        ),
{
    let ghost start = trace.calls();
    let written = trace.write_endpoint(
        platform,
        device,
        fan,
        Endpoint::Duty,
        "1",
        "1",
        contents,
        deadline,
    );
    let ghost answer = written;
    let result = match written {
        Ok(()) => Ok(()),
        Err(source) => Err(operation_error(fan, ControlCycleOperation::WriteDuty, source)),
    };
    proof {
        let call = ControllerCall::WriteEndpoint {
            device: device@,
            fan,
            endpoint: Endpoint::Duty,
            modes: ("1"@, "1"@),
            contents: contents@,
            deadline,
            answer,
        };
        let due = CycleMove::Write { fan, contents: contents@, deadline };
        assert(due.tells(call, device@, result));
        lemma_one_move(start, call, due, device@, result);
    }
    result
}

/// Confirms a fan's mode and duty.
fn confirm_fan<P>(
    platform: &mut P,
    trace: &mut Trace<'_, P, ControllerCall>,
    device: &AcerHwmonDevice,
    fan: Fan,
    pwm: Pwm,
    deadline: u128,
    mode_operation: ControlCycleOperation,
    duty_operation: ControlCycleOperation,
) -> (result: Result<(), HealthyControlCycleError>) where
    P: ControllerOwnership + BoundedIdentityBoundFileAccess + Clock,

    requires
        device_is_bound(device@),
        old(trace).follows(&*old(platform)),
    ensures
        final(trace).follows(&*final(platform)),
        final(trace).start() == old(trace).start(),
        goes_on(old(trace).calls(), final(trace).calls()),
        result matches Err(error) ==> error.comes_from_cycle(),
        moves_went(
            old(trace).calls(),
            final(trace).calls(),
            fan_moves(fan, pwm.duty(), mode_operation, duty_operation, deadline),
            device@,
            failure_of(result),
        ),
{
    let ghost start = trace.calls();
    let ghost moves = seq![
        CycleMove::Confirm {
            fan,
            field: ControlCycleReadback::Mode,
            contents: "1"@,
            operation: mode_operation,
            deadline,
        },
    ];
    let part0 = confirm(
        platform,
        trace,
        device,
        fan,
        ControlCycleReadback::Mode,
        "1".to_owned(),
        mode_operation,
        deadline,
    );
    match part0 {
        Ok(()) => {},
        Err(error) => {
            proof {
                lemma_moves_stop(
                    start,
                    trace.calls(),
                    moves,
                    seq![
                        CycleMove::Confirm {
                            fan,
                            field: ControlCycleReadback::Duty,
                            contents: decimal_text(pwm.duty() as nat),
                            operation: duty_operation,
                            deadline,
                        },
                    ],
                    device@,
                    error,
                );
            }
            return Err(error);
        },
    }
    let ghost between = trace.calls();
    let part1 = confirm(
        platform,
        trace,
        device,
        fan,
        ControlCycleReadback::Duty,
        decimal(pwm.value() as u64),
        duty_operation,
        deadline,
    );
    proof {
        lemma_moves_then(
            start,
            between,
            trace.calls(),
            moves,
            seq![
                CycleMove::Confirm {
                    fan,
                    field: ControlCycleReadback::Duty,
                    contents: decimal_text(pwm.duty() as nat),
                    operation: duty_operation,
                    deadline,
                },
            ],
            device@,
            failure_of(part1),
        );
    }
    let ghost moves = moves + seq![
        CycleMove::Confirm {
            fan,
            field: ControlCycleReadback::Duty,
            contents: decimal_text(pwm.duty() as nat),
            operation: duty_operation,
            deadline,
        },
    ];
    part1
}

/// Confirms both fans' modes and duties.
fn confirm_state<P>(
    platform: &mut P,
    trace: &mut Trace<'_, P, ControllerCall>,
    device: &AcerHwmonDevice,
    outputs: FanOutputs,
    deadline: u128,
    mode_operation: ControlCycleOperation,
    duty_operation: ControlCycleOperation,
) -> (result: Result<(), HealthyControlCycleError>) where
    P: ControllerOwnership + BoundedIdentityBoundFileAccess + Clock,

    requires
        device_is_bound(device@),
        old(trace).follows(&*old(platform)),
    ensures
        final(trace).follows(&*final(platform)),
        final(trace).start() == old(trace).start(),
        goes_on(old(trace).calls(), final(trace).calls()),
        result matches Err(error) ==> error.comes_from_cycle(),
        moves_went(
            old(trace).calls(),
            final(trace).calls(),
            state_moves(outputs, mode_operation, duty_operation, deadline),
            device@,
            failure_of(result),
        ),
{
    let ghost start = trace.calls();
    let ghost moves = fan_moves(
        Fan::Cpu,
        outputs.cpu.duty(),
        mode_operation,
        duty_operation,
        deadline,
    );
    let part0 = confirm_fan(
        platform,
        trace,
        device,
        Fan::Cpu,
        outputs.cpu,
        deadline,
        mode_operation,
        duty_operation,
    );
    match part0 {
        Ok(()) => {},
        Err(error) => {
            proof {
                lemma_moves_stop(
                    start,
                    trace.calls(),
                    moves,
                    fan_moves(
                        Fan::Gpu,
                        outputs.gpu.duty(),
                        mode_operation,
                        duty_operation,
                        deadline,
                    ),
                    device@,
                    error,
                );
            }
            return Err(error);
        },
    }
    let ghost between = trace.calls();
    let part1 = confirm_fan(
        platform,
        trace,
        device,
        Fan::Gpu,
        outputs.gpu,
        deadline,
        mode_operation,
        duty_operation,
    );
    proof {
        lemma_moves_then(
            start,
            between,
            trace.calls(),
            moves,
            fan_moves(Fan::Gpu, outputs.gpu.duty(), mode_operation, duty_operation, deadline),
            device@,
            failure_of(part1),
        );
    }
    let ghost moves = moves + fan_moves(
        Fan::Gpu,
        outputs.gpu.duty(),
        mode_operation,
        duty_operation,
        deadline,
    );
    part1
}

/// Confirms the duties of the cycle before between two checks of the device.
fn confirm_prior<P>(
    platform: &mut P,
    trace: &mut Trace<'_, P, ControllerCall>,
    device: &AcerHwmonDevice,
    outputs: FanOutputs,
    deadline: u128,
) -> (result: Result<(), HealthyControlCycleError>) where
    P: ControllerOwnership + BoundedIdentityBoundFileAccess + Clock,

    requires
        device_is_bound(device@),
        old(trace).follows(&*old(platform)),
    ensures
        final(trace).follows(&*final(platform)),
        final(trace).start() == old(trace).start(),
        goes_on(old(trace).calls(), final(trace).calls()),
        result matches Err(error) ==> error.comes_from_cycle(),
        moves_went(
            old(trace).calls(),
            final(trace).calls(),
            prior_moves(outputs, deadline),
            device@,
            failure_of(result),
        ),
{
    let ghost start = trace.calls();
    let ghost moves = seq![CycleMove::Verify { deadline }];
    let part0 = verify_device(platform, trace, device, deadline);
    match part0 {
        Ok(()) => {},
        Err(error) => {
            proof {
                lemma_moves_stop(
                    start,
                    trace.calls(),
                    moves,
                    state_moves(
                        outputs,
                        ControlCycleOperation::ConfirmBeforeOutput,
                        ControlCycleOperation::ReadPriorDuty,
                        deadline,
                    ),
                    device@,
                    error,
                );
                lemma_moves_stop(
                    start,
                    trace.calls(),
                    moves + state_moves(
                        outputs,
                        ControlCycleOperation::ConfirmBeforeOutput,
                        ControlCycleOperation::ReadPriorDuty,
                        deadline,
                    ),
                    seq![CycleMove::Verify { deadline }],
                    device@,
                    error,
                );
            }
            return Err(error);
        },
    }
    let ghost between = trace.calls();
    let part1 = confirm_state(
        platform,
        trace,
        device,
        outputs,
        deadline,
        ControlCycleOperation::ConfirmBeforeOutput,
        ControlCycleOperation::ReadPriorDuty,
    );
    proof {
        lemma_moves_then(
            start,
            between,
            trace.calls(),
            moves,
            state_moves(
                outputs,
                ControlCycleOperation::ConfirmBeforeOutput,
                ControlCycleOperation::ReadPriorDuty,
                deadline,
            ),
            device@,
            failure_of(part1),
        );
    }
    let ghost moves = moves + state_moves(
        outputs,
        ControlCycleOperation::ConfirmBeforeOutput,
        ControlCycleOperation::ReadPriorDuty,
        deadline,
    );
    match part1 {
        Ok(()) => {},
        Err(error) => {
            proof {
                lemma_moves_stop(
                    start,
                    trace.calls(),
                    moves,
                    seq![CycleMove::Verify { deadline }],
                    device@,
                    error,
                );
            }
            return Err(error);
        },
    }
    let ghost between = trace.calls();
    let part2 = verify_device(platform, trace, device, deadline);
    proof {
        lemma_moves_then(
            start,
            between,
            trace.calls(),
            moves,
            seq![CycleMove::Verify { deadline }],
            device@,
            failure_of(part2),
        );
    }
    let ghost moves = moves + seq![CycleMove::Verify { deadline }];
    part2
}

/// Confirms the duties of this cycle, and then checks the device.
fn confirm_result<P>(
    platform: &mut P,
    trace: &mut Trace<'_, P, ControllerCall>,
    device: &AcerHwmonDevice,
    outputs: FanOutputs,
    deadline: u128,
) -> (result: Result<(), HealthyControlCycleError>) where
    P: ControllerOwnership + BoundedIdentityBoundFileAccess + Clock,

    requires
        device_is_bound(device@),
        old(trace).follows(&*old(platform)),
    ensures
        final(trace).follows(&*final(platform)),
        final(trace).start() == old(trace).start(),
        goes_on(old(trace).calls(), final(trace).calls()),
        result matches Err(error) ==> error.comes_from_cycle(),
        moves_went(
            old(trace).calls(),
            final(trace).calls(),
            result_moves(outputs, deadline),
            device@,
            failure_of(result),
        ),
{
    let ghost start = trace.calls();
    let ghost moves = state_moves(
        outputs,
        ControlCycleOperation::ConfirmResult,
        ControlCycleOperation::ConfirmResult,
        deadline,
    );
    let part0 = confirm_state(
        platform,
        trace,
        device,
        outputs,
        deadline,
        ControlCycleOperation::ConfirmResult,
        ControlCycleOperation::ConfirmResult,
    );
    match part0 {
        Ok(()) => {},
        Err(error) => {
            proof {
                lemma_moves_stop(
                    start,
                    trace.calls(),
                    moves,
                    seq![CycleMove::Verify { deadline }],
                    device@,
                    error,
                );
            }
            return Err(error);
        },
    }
    let ghost between = trace.calls();
    let part1 = verify_device(platform, trace, device, deadline);
    proof {
        lemma_moves_then(
            start,
            between,
            trace.calls(),
            moves,
            seq![CycleMove::Verify { deadline }],
            device@,
            failure_of(part1),
        );
    }
    let ghost moves = moves + seq![CycleMove::Verify { deadline }];
    part1
}

/// Writes a duty between two confirmations.
fn write_and_confirm<P>(
    platform: &mut P,
    trace: &mut Trace<'_, P, ControllerCall>,
    device: &AcerHwmonDevice,
    fan: Fan,
    pwm: Pwm,
    deadline: u128,
) -> (result: Result<(), HealthyControlCycleError>) where
    P: ControllerOwnership + BoundedIdentityBoundFileAccess + Clock,

    requires
        device_is_bound(device@),
        old(trace).follows(&*old(platform)),
    ensures
        final(trace).follows(&*final(platform)),
        final(trace).start() == old(trace).start(),
        goes_on(old(trace).calls(), final(trace).calls()),
        result matches Err(error) ==> error.comes_from_cycle(),
        moves_went(
            old(trace).calls(),
            final(trace).calls(),
            duty_moves(fan, pwm.duty(), deadline),
            device@,
            failure_of(result),
        ),
{
    let contents = decimal(pwm.value() as u64);
    let ghost start = trace.calls();
    let ghost moves = seq![
        CycleMove::Confirm {
            fan,
            field: ControlCycleReadback::Mode,
            contents: "1"@,
            operation: ControlCycleOperation::ConfirmBeforeOutput,
            deadline,
        },
    ];
    let part0 = confirm(
        platform,
        trace,
        device,
        fan,
        ControlCycleReadback::Mode,
        "1".to_owned(),
        ControlCycleOperation::ConfirmBeforeOutput,
        deadline,
    );
    match part0 {
        Ok(()) => {},
        Err(error) => {
            proof {
                lemma_moves_stop(
                    start,
                    trace.calls(),
                    moves,
                    seq![
                        CycleMove::Write {
                            fan,
                            contents: decimal_text(pwm.duty() as nat),
                            deadline,
                        },
                    ],
                    device@,
                    error,
                );
                lemma_moves_stop(
                    start,
                    trace.calls(),
                    moves + seq![
                        CycleMove::Write {
                            fan,
                            contents: decimal_text(pwm.duty() as nat),
                            deadline,
                        },
                    ],
                    seq![
                        CycleMove::Confirm {
                            fan,
                            field: ControlCycleReadback::Duty,
                            contents: decimal_text(pwm.duty() as nat),
                            operation: ControlCycleOperation::ConfirmWrittenDuty,
                            deadline,
                        },
                    ],
                    device@,
                    error,
                );
            }
            return Err(error);
        },
    }
    let ghost between = trace.calls();
    let part1 = write_duty(platform, trace, device, fan, contents.as_str(), deadline);
    proof {
        lemma_moves_then(
            start,
            between,
            trace.calls(),
            moves,
            seq![CycleMove::Write { fan, contents: decimal_text(pwm.duty() as nat), deadline }],
            device@,
            failure_of(part1),
        );
    }
    let ghost moves = moves + seq![
        CycleMove::Write {
            fan,
            contents: decimal_text(pwm.duty() as nat),
            deadline,
        },
    ];
    match part1 {
        Ok(()) => {},
        Err(error) => {
            proof {
                lemma_moves_stop(
                    start,
                    trace.calls(),
                    moves,
                    seq![
                        CycleMove::Confirm {
                            fan,
                            field: ControlCycleReadback::Duty,
                            contents: decimal_text(pwm.duty() as nat),
                            operation: ControlCycleOperation::ConfirmWrittenDuty,
                            deadline,
                        },
                    ],
                    device@,
                    error,
                );
            }
            return Err(error);
        },
    }
    let ghost between = trace.calls();
    let part2 = confirm(
        platform,
        trace,
        device,
        fan,
        ControlCycleReadback::Duty,
        contents,
        ControlCycleOperation::ConfirmWrittenDuty,
        deadline,
    );
    proof {
        lemma_moves_then(
            start,
            between,
            trace.calls(),
            moves,
            seq![
                CycleMove::Confirm {
                    fan,
                    field: ControlCycleReadback::Duty,
                    contents: decimal_text(pwm.duty() as nat),
                    operation: ControlCycleOperation::ConfirmWrittenDuty,
                    deadline,
                },
            ],
            device@,
            failure_of(part2),
        );
    }
    let ghost moves = moves + seq![
        CycleMove::Confirm {
            fan,
            field: ControlCycleReadback::Duty,
            contents: decimal_text(pwm.duty() as nat),
            operation: ControlCycleOperation::ConfirmWrittenDuty,
            deadline,
        },
    ];
    part2
}

/// Brings a fan to its duty. An unchanged duty is left alone.
fn write_changed<P>(
    platform: &mut P,
    trace: &mut Trace<'_, P, ControllerCall>,
    device: &AcerHwmonDevice,
    fan: Fan,
    previous: Pwm,
    next: Pwm,
    deadline: u128,
    tachometers: &mut TachometerValidator,
) -> (result: Result<(), HealthyControlCycleError>) where
    P: ControllerOwnership + BoundedIdentityBoundFileAccess + Clock,

    requires
        device_is_bound(device@),
        old(trace).follows(&*old(platform)),
    ensures
        final(trace).follows(&*final(platform)),
        final(trace).start() == old(trace).start(),
        goes_on(old(trace).calls(), final(trace).calls()),
        result matches Err(error) ==> error.comes_from_cycle(),
        duty_went(
            old(trace).calls(),
            final(trace).calls(),
            device@,
            fan,
            previous.duty(),
            next.duty(),
            deadline,
            old(tachometers).supervised(fan),
            final(tachometers).supervised(fan),
            failure_of(result),
        ),
        forall|other: Fan|
            other != fan ==> #[trigger] final(tachometers).supervised(other) == old(
                tachometers,
            ).supervised(other),
{
    if previous.value() == next.value() {
        return Ok(());
    }
    let result = write_and_confirm(platform, trace, device, fan, next, deadline);
    let ghost written = trace.calls();
    match result {
        Ok(()) => {},
        Err(error) => {
            return Err(error);
        },
    }
    let confirmed_at = trace.monotonic_now(platform);
    tachometers.command_confirmed(fan, next.value(), confirmed_at);
    assert(trace.calls().drop_last() =~= written);
    Ok(())
}

/// Reads and judges a fan's speed.
fn validate_tachometer<P>(
    platform: &mut P,
    trace: &mut Trace<'_, P, ControllerCall>,
    device: &AcerHwmonDevice,
    fan: Fan,
    tachometers: &TachometerValidator,
    deadline: u128,
) -> (result: Result<u32, HealthyControlCycleError>) where
    P: ControllerOwnership + BoundedIdentityBoundFileAccess + Clock,

    requires
        device_is_bound(device@),
        old(trace).follows(&*old(platform)),
    ensures
        final(trace).follows(&*final(platform)),
        final(trace).start() == old(trace).start(),
        goes_on(old(trace).calls(), final(trace).calls()),
        result matches Err(error) ==> error.comes_from_cycle(),
        speed_went(
            old(trace).calls(),
            final(trace).calls(),
            device@,
            fan,
            tachometers.supervised(fan),
            deadline,
            failure_of(result),
        ),
{
    let ghost start = trace.calls();
    let read = trace.read_endpoint(platform, device, fan, Endpoint::Tachometer, deadline);
    let ghost answer = read;
    let ghost asked = start.push(
        ControllerCall::ReadEndpoint {
            device: device@,
            fan,
            endpoint: Endpoint::Tachometer,
            deadline,
            answer,
        },
    );
    assert(trace.calls() == asked);
    let read = match read {
        Ok(contents) => Ok(contents),
        Err(source) => {
            return Err(operation_error(fan, ControlCycleOperation::ReadTachometer, source));
        },
    };
    let observed_at = trace.monotonic_now(platform);
    assert(trace.calls().drop_last() =~= asked);
    let rpm: u32 = match judge_control_tachometer(read, fan) {
        Ok(rpm) => rpm,
        Err(error) => {
            return Err(error);
        },
    };
    match tachometers.observe(fan, rpm, observed_at) {
        Ok(()) => {},
        Err(error) => {
            return Err(observation_failure(fan, error));
        },
    }
    Ok(rpm)
}

/// Reads and judges both fans' speeds.
fn validate_tachometers<P>(
    platform: &mut P,
    trace: &mut Trace<'_, P, ControllerCall>,
    device: &AcerHwmonDevice,
    tachometers: &TachometerValidator,
    deadline: u128,
) -> (result: Result<(), HealthyControlCycleError>) where
    P: ControllerOwnership + BoundedIdentityBoundFileAccess + Clock,

    requires
        device_is_bound(device@),
        old(trace).follows(&*old(platform)),
    ensures
        final(trace).follows(&*final(platform)),
        final(trace).start() == old(trace).start(),
        goes_on(old(trace).calls(), final(trace).calls()),
        result matches Err(error) ==> error.comes_from_cycle(),
        speeds_went(
            old(trace).calls(),
            final(trace).calls(),
            deadline,
            device@,
            tachometers.supervised(Fan::Cpu),
            tachometers.supervised(Fan::Gpu),
            failure_of(result),
        ),
{
    match validate_tachometer(platform, trace, device, Fan::Cpu, tachometers, deadline) {
        Ok(_) => {},
        Err(error) => {
            return Err(error);
        },
    }
    match validate_tachometer(platform, trace, device, Fan::Gpu, tachometers, deadline) {
        Ok(_) => Ok(()),
        Err(error) => Err(error),
    }
}

/// Judges the speeds and confirms the duties once more.
fn judge_result<P>(
    platform: &mut P,
    trace: &mut Trace<'_, P, ControllerCall>,
    device: &AcerHwmonDevice,
    outputs: FanOutputs,
    tachometers: &TachometerValidator,
    deadline: u128,
) -> (result: Result<(), HealthyControlCycleError>) where
    P: ControllerOwnership + BoundedIdentityBoundFileAccess + Clock,

    requires
        device_is_bound(device@),
        old(trace).follows(&*old(platform)),
    ensures
        final(trace).follows(&*final(platform)),
        final(trace).start() == old(trace).start(),
        goes_on(old(trace).calls(), final(trace).calls()),
        result matches Err(error) ==> error.comes_from_cycle(),
        judgement_went(
            old(trace).calls(),
            final(trace).calls(),
            outputs,
            deadline,
            device@,
            tachometers.supervised(Fan::Cpu),
            tachometers.supervised(Fan::Gpu),
            failure_of(result),
        ),
{
    match validate_tachometers(platform, trace, device, tachometers, deadline) {
        Ok(()) => {},
        Err(error) => {
            return Err(error);
        },
    }
    confirm_result(platform, trace, device, outputs, deadline)
}

/// Confirms the new duties, and judges the speeds.
fn settle<P>(
    platform: &mut P,
    trace: &mut Trace<'_, P, ControllerCall>,
    device: &AcerHwmonDevice,
    outputs: FanOutputs,
    tachometers: &TachometerValidator,
    deadline: u128,
) -> (result: Result<(), HealthyControlCycleError>) where
    P: ControllerOwnership + BoundedIdentityBoundFileAccess + Clock,

    requires
        device_is_bound(device@),
        old(trace).follows(&*old(platform)),
    ensures
        final(trace).follows(&*final(platform)),
        final(trace).start() == old(trace).start(),
        goes_on(old(trace).calls(), final(trace).calls()),
        result matches Err(error) ==> error.comes_from_cycle(),
        result_went(
            old(trace).calls(),
            final(trace).calls(),
            outputs,
            deadline,
            device@,
            tachometers.supervised(Fan::Cpu),
            tachometers.supervised(Fan::Gpu),
            failure_of(result),
        ),
{
    match confirm_result(platform, trace, device, outputs, deadline) {
        Ok(()) => {},
        Err(error) => {
            return Err(error);
        },
    }
    judge_result(platform, trace, device, outputs, tachometers, deadline)
}

/// Runtime state that can exist only after a successful two-fan handover.
#[derive(Debug)]
pub struct HealthyControl {
    ownership_id: u64,
    custom_epoch: u64,
    config: ValidatedConfig,
    device: AcerHwmonDevice,
    last_outputs: FanOutputs,
    tachometers: TachometerValidator,
    invalidated: bool,
}

/// The contents of the runtime state.
pub struct ControlModel {
    pub ownership_id: u64,
    pub custom_epoch: u64,
    pub config: ConfigModel,
    pub device: DeviceModel,
    pub last_outputs: FanOutputs,
    pub cpu: SupervisedFan,
    pub gpu: SupervisedFan,
    pub invalidated: bool,
}

impl View for HealthyControl {
    type V = ControlModel;

    closed spec fn view(&self) -> ControlModel {
        ControlModel {
            ownership_id: self.ownership_id,
            custom_epoch: self.custom_epoch,
            config: self.config@,
            device: self.device@,
            last_outputs: self.last_outputs,
            cpu: self.tachometers.supervised(Fan::Cpu),
            gpu: self.tachometers.supervised(Fan::Gpu),
            invalidated: self.invalidated,
        }
    }
}

impl ControlModel {
    /// Whether the device is bound, and speeds are judged against the duties last confirmed.
    pub open spec fn is_consistent(self) -> bool {
        &&& device_is_bound(self.device)
        &&& !self.invalidated ==> self.cpu.duty.pwm == self.last_outputs.cpu.duty()
            && self.gpu.duty.pwm == self.last_outputs.gpu.duty()
    }
}

/// Whether control starts where a receipt left off: with both fans at full duty, each counting from the
/// moment at which it was confirmed under Custom control.
pub open spec fn takes_over(armed: ArmedModel, control: ControlModel) -> bool {
    &&& !control.invalidated
    &&& control.ownership_id == armed.ownership_id
    &&& control.custom_epoch == armed.custom_epoch
    &&& control.config == armed.config
    &&& control.device == armed.device
    &&& control.last_outputs.cpu.duty() == 255
    &&& control.last_outputs.gpu.duty() == 255
    &&& control.cpu == (SupervisedFan {
        calibration: armed.cpu_calibration,
        duty: ConfirmedDuty { pwm: 255, confirmed_at: armed.cpu_custom_confirmed_at },
    })
    &&& control.gpu == (SupervisedFan {
        calibration: armed.gpu_calibration,
        duty: ConfirmedDuty { pwm: 255, confirmed_at: armed.gpu_custom_confirmed_at },
    })
}

/// Whether the machine was asked if control is current, and answered so. Control that was invalidated
/// is not, and asks nothing.
pub open spec fn control_is_current(
    control: ControlModel,
    before: Calls,
    after: Calls,
    current: bool,
) -> bool {
    if control.invalidated {
        !current && after == before
    } else {
        after == before.push(
            MachineCall::CustomEpochIsCurrent {
                ownership_id: control.ownership_id,
                custom_epoch: control.custom_epoch,
                answer: current,
            },
        )
    }
}

/// Control that was made from a receipt is current exactly where the receipt is: both ask the same
/// question, and have the same answer.
pub proof fn control_is_current_where_its_receipt_is(
    armed: ArmedModel,
    control: ControlModel,
    before: Calls,
    after: Calls,
    current: bool,
)
    requires
        takes_over(armed, control),
    ensures
        control_is_current(control, before, after, current) <==> receipt_is_current(
            armed,
            before,
            after,
            current,
        ),
{
}

/// What no cycle changes.
pub open spec fn same_control(before: ControlModel, after: ControlModel) -> bool {
    &&& after.ownership_id == before.ownership_id
    &&& after.custom_epoch == before.custom_epoch
    &&& after.config == before.config
    &&& after.device == before.device
    &&& after.cpu.calibration == before.cpu.calibration
    &&& after.gpu.calibration == before.gpu.calibration
}

impl HealthyControl {
    /// Takes over from a completed handover, with both fans at full duty.
    pub fn from_armed(armed: ArmedFanControl) -> (control: HealthyControl)
        ensures
            control@.is_consistent(),
            takes_over(armed@, control@),
    {
        let parts: ArmedControlParts = armed.into_control_parts();
        HealthyControl {
            ownership_id: parts.ownership_id,
            custom_epoch: parts.custom_epoch,
            config: parts.config,
            device: parts.device,
            last_outputs: FanOutputs::maximum(),
            tachometers: TachometerValidator::new(
                parts.calibration,
                255,
                parts.cpu_custom_confirmed_at,
                parts.gpu_custom_confirmed_at,
            ),
            invalidated: false,
        }
    }

    /// Whether the state's own ownership and epoch are still current. An invalidated state is not,
    /// and asks nothing.
    pub fn is_current_for<O>(&self, ownership: &mut O) -> (current: bool) where
        O: ControllerOwnership + ?Sized,

        ensures
            control_is_current(
                self@,
                old(ownership).history(),
                final(ownership).history(),
                current,
            ),
            self@.invalidated ==> &*final(ownership) == &*old(ownership),
            was_given_back(old(ownership).history(), self@.custom_epoch) ==> !current,
    {
        !self.invalidated && ownership.custom_epoch_is_current(self.ownership_id, self.custom_epoch)
    }

    pub fn last_outputs(&self) -> (outputs: FanOutputs)
        ensures
            outputs == self@.last_outputs,
    {
        self.last_outputs
    }

    /// Leaves normal control.
    pub fn into_recovery_parts(self) -> (parts: (ValidatedConfig, AcerHwmonDevice))
        ensures
            parts.0@ == self@.config,
            parts.1@ == self@.device,
    {
        (self.config, self.device)
    }

    fn try_cycle<O, C>(
        &mut self,
        ownership: &mut O,
        trace: &mut Trace<'_, O, ControllerCall>,
        policy: &mut C,
        policy_trace: &mut Trace<'_, C, PolicyCall>,
    ) -> (result: Result<CompletedControlCycle, HealthyControlCycleError>) where
        O: ControllerOwnership + BoundedIdentityBoundFileAccess + Clock,
        C: ControlPolicy,

        requires
            old(self)@.is_consistent(),
            !old(self)@.invalidated,
            old(trace).follows(&*old(ownership)),
            old(policy_trace).follows(&*old(policy)),
            old(policy_trace).calls().len() == 0,
        ensures
            final(trace).follows(&*final(ownership)),
            final(trace).start() == old(trace).start(),
            goes_on(old(trace).calls(), final(trace).calls()),
            final(policy_trace).follows(&*final(policy)),
            final(policy_trace).start() == old(policy_trace).start(),
            same_control(old(self)@, final(self)@),
            !final(self)@.invalidated,
            result is Ok ==> final(self)@.is_consistent(),
            result is Err ==> final(self)@.last_outputs == old(self)@.last_outputs,
            result matches Err(error) ==> error.comes_from_cycle(),
            is_tried(
                result,
                old(trace).calls(),
                final(trace).calls(),
                final(policy_trace).calls(),
                old(self)@,
                final(self)@,
            ),
    {
        let sample = match policy_trace.sample(policy) {
            Ok(sample) => sample,
            Err(error) => {
                return Err(HealthyControlCycleError::Sample(error));
            },
        };
        let deadline: u128 = match deadline_after(
            sample.cycle_started_at,
            NORMAL_SAMPLE_CADENCE_NANOS,
        ) {
            Some(deadline) => deadline,
            None => {
                return Err(HealthyControlCycleError::DeadlineOverflow);
            },
        };
        let outputs = match policy_trace.propose(policy, &self.config, sample) {
            Ok(outputs) => outputs,
            Err(error) => {
                return Err(HealthyControlCycleError::PolicyClock(error));
            },
        };
        match self.apply(ownership, trace, outputs, deadline) {
            Ok(()) => {},
            Err(error) => {
                return Err(error);
            },
        }
        policy_trace.commit(policy);
        Ok(CompletedControlCycle { sample, outputs })
    }

    /// Brings both fans to their new duties.
    fn change_duties<O>(
        &mut self,
        platform: &mut O,
        trace: &mut Trace<'_, O, ControllerCall>,
        outputs: FanOutputs,
        deadline: u128,
    ) -> (result: Result<(), HealthyControlCycleError>) where
        O: ControllerOwnership + BoundedIdentityBoundFileAccess + Clock,

        requires
            old(self)@.is_consistent(),
            !old(self)@.invalidated,
            old(trace).follows(&*old(platform)),
        ensures
            final(trace).follows(&*final(platform)),
            final(trace).start() == old(trace).start(),
            goes_on(old(trace).calls(), final(trace).calls()),
            final(self)@ == (ControlModel {
                cpu: final(self)@.cpu,
                gpu: final(self)@.gpu,
                ..old(self)@
            }),
            final(self)@.cpu.calibration == old(self)@.cpu.calibration,
            final(self)@.gpu.calibration == old(self)@.gpu.calibration,
            result is Ok ==> final(self)@.cpu.duty.pwm == outputs.cpu.duty()
                && final(self)@.gpu.duty.pwm == outputs.gpu.duty(),
            result matches Err(error) ==> error.comes_from_cycle(),
            duties_went(
                old(trace).calls(),
                final(trace).calls(),
                outputs,
                deadline,
                old(self)@,
                final(self)@.cpu,
                final(self)@.gpu,
                failure_of(result),
            ),
    {
        match write_changed(
            platform,
            trace,
            &self.device,
            Fan::Cpu,
            self.last_outputs.cpu,
            outputs.cpu,
            deadline,
            &mut self.tachometers,
        ) {
            Ok(()) => {},
            Err(error) => {
                return Err(error);
            },
        }
        write_changed(
            platform,
            trace,
            &self.device,
            Fan::Gpu,
            self.last_outputs.gpu,
            outputs.gpu,
            deadline,
            &mut self.tachometers,
        )
    }

    /// Brings both fans to their new duties, and confirms the result.
    fn put_out<O>(
        &mut self,
        platform: &mut O,
        trace: &mut Trace<'_, O, ControllerCall>,
        outputs: FanOutputs,
        deadline: u128,
    ) -> (result: Result<(), HealthyControlCycleError>) where
        O: ControllerOwnership + BoundedIdentityBoundFileAccess + Clock,

        requires
            old(self)@.is_consistent(),
            !old(self)@.invalidated,
            old(trace).follows(&*old(platform)),
        ensures
            final(trace).follows(&*final(platform)),
            final(trace).start() == old(trace).start(),
            goes_on(old(trace).calls(), final(trace).calls()),
            final(self)@ == (ControlModel {
                cpu: final(self)@.cpu,
                gpu: final(self)@.gpu,
                ..old(self)@
            }),
            final(self)@.cpu.calibration == old(self)@.cpu.calibration,
            final(self)@.gpu.calibration == old(self)@.gpu.calibration,
            result is Ok ==> final(self)@.cpu.duty.pwm == outputs.cpu.duty()
                && final(self)@.gpu.duty.pwm == outputs.gpu.duty(),
            result matches Err(error) ==> error.comes_from_cycle(),
            output_went(
                old(trace).calls(),
                final(trace).calls(),
                outputs,
                deadline,
                old(self)@,
                final(self)@.cpu,
                final(self)@.gpu,
                failure_of(result),
            ),
    {
        match self.change_duties(platform, trace, outputs, deadline) {
            Ok(()) => {},
            Err(error) => {
                return Err(error);
            },
        }
        settle(platform, trace, &self.device, outputs, &self.tachometers, deadline)
    }

    /// Confirms the duties of the cycle before, brings both fans to their new ones, and confirms the
    /// result.
    fn apply<O>(
        &mut self,
        platform: &mut O,
        trace: &mut Trace<'_, O, ControllerCall>,
        outputs: FanOutputs,
        deadline: u128,
    ) -> (result: Result<(), HealthyControlCycleError>) where
        O: ControllerOwnership + BoundedIdentityBoundFileAccess + Clock,

        requires
            old(self)@.is_consistent(),
            !old(self)@.invalidated,
            old(trace).follows(&*old(platform)),
        ensures
            final(trace).follows(&*final(platform)),
            final(trace).start() == old(trace).start(),
            goes_on(old(trace).calls(), final(trace).calls()),
            same_control(old(self)@, final(self)@),
            !final(self)@.invalidated,
            result is Ok ==> final(self)@.is_consistent(),
            final(self)@.last_outputs == if result is Ok {
                outputs
            } else {
                old(self)@.last_outputs
            },
            result matches Err(error) ==> error.comes_from_cycle(),
            fans_went(
                old(trace).calls(),
                final(trace).calls(),
                outputs,
                deadline,
                old(self)@,
                final(self)@,
                failure_of(result),
            ),
    {
        match confirm_prior(platform, trace, &self.device, self.last_outputs, deadline) {
            Ok(()) => {},
            Err(error) => {
                return Err(error);
            },
        }
        match self.put_out(platform, trace, outputs, deadline) {
            Ok(()) => {},
            Err(error) => {
                return Err(error);
            },
        }
        self.last_outputs = outputs;
        Ok(())
    }
}

#[derive(Debug, Clone, Copy, PartialEq, Eq)]
pub struct CompletedControlCycle {
    pub sample: CompleteSampleSet,
    pub outputs: FanOutputs,
}

impl CompletedControlCycle {
    pub fn sample(self) -> (sample: CompleteSampleSet)
        ensures
            sample == self.sample,
    {
        self.sample
    }

    pub fn outputs(self) -> (outputs: FanOutputs)
        ensures
            outputs == self.outputs,
    {
        self.outputs
    }
}

/// Whether what was asked of the policy and of the fans led to the outcome of a cycle. A sample is
/// taken first, and the duties that it asks for are proposed next. Only then are the fans handled,
/// and only a cycle that completes is committed.
pub open spec fn is_tried(
    result: Result<CompletedControlCycle, HealthyControlCycleError>,
    earlier: Seq<ControllerCall>,
    calls: Seq<ControllerCall>,
    asked: Seq<PolicyCall>,
    before: ControlModel,
    after: ControlModel,
) -> bool {
    &&& asked.len() > 0
    &&& asked[0] matches PolicyCall::Sample { answer }
    &&& match answer {
        Err(error) => {
            &&& result == Err::<CompletedControlCycle, _>(HealthyControlCycleError::Sample(error))
            &&& asked.len() == 1
            &&& calls == earlier
        },
        Ok(sample) => match moment_after(sample.cycle_started_at, 2_000_000_000) {
            None => {
                &&& result == Err::<CompletedControlCycle, _>(
                    HealthyControlCycleError::DeadlineOverflow,
                )
                &&& asked.len() == 1
                &&& calls == earlier
            },
            Some(deadline) => {
                &&& asked.len() > 1
                &&& asked[1] matches PolicyCall::Propose {
                    config,
                    sample: proposed_for,
                    answer: proposal,
                }
                &&& config@ == before.config
                &&& proposed_for == sample
                &&& match proposal {
                    Err(error) => {
                        &&& result == Err::<CompletedControlCycle, _>(
                            HealthyControlCycleError::PolicyClock(error),
                        )
                        &&& asked.len() == 2
                        &&& calls == earlier
                    },
                    Ok(outputs) => {
                        &&& fans_went(
                            earlier,
                            calls,
                            outputs,
                            deadline,
                            before,
                            after,
                            failure_of(result),
                        )
                        &&& match result {
                            Ok(cycle) => {
                                &&& cycle.sample == sample
                                &&& cycle.outputs == outputs
                                &&& after.last_outputs == outputs
                                &&& asked.len() == 3
                                &&& asked[2] is Commit
                            },
                            Err(_) => asked.len() == 2,
                        }
                    },
                }
            },
        },
    }
}

/// Whether the calls of a cycle led to its outcome. Whether the state's own ownership and epoch are
/// current is asked first; where they are not, nothing else is called.
pub open spec fn is_cycle_outcome(
    result: Result<CompletedControlCycle, HealthyControlCycleError>,
    calls: Seq<ControllerCall>,
    asked: Seq<PolicyCall>,
    before: ControlModel,
    after: ControlModel,
) -> bool {
    &&& calls.len() > 0
    &&& calls[0] matches ControllerCall::CustomEpochIsCurrent {
        ownership_id,
        custom_epoch,
        answer: current,
    }
    &&& ownership_id == before.ownership_id
    &&& custom_epoch == before.custom_epoch
    &&& if current {
        is_tried(result, seq![calls[0]], calls, asked, before, after)
    } else {
        &&& result == Err::<CompletedControlCycle, _>(HealthyControlCycleError::StaleArmingReceipt)
        &&& calls.len() == 1
        &&& asked.len() == 0
    }
}

/// Runs one serialized normal-control cycle and invalidates the state on any failure.
///
/// An invalidated state touches neither the fans nor the policy.
pub fn run_healthy_control_cycle<O, C>(
    ownership: &mut O,
    control: &mut HealthyControl,
    policy: &mut C,
) -> (result: Result<CompletedControlCycle, HealthyControlCycleError>) where
    O: ControllerOwnership + BoundedIdentityBoundFileAccess + Clock,
    C: ControlPolicy,

    requires
        old(control)@.is_consistent(),
    ensures
        final(control)@.is_consistent(),
        same_control(old(control)@, final(control)@),
        if old(control)@.invalidated {
            &&& result == Err::<CompletedControlCycle, HealthyControlCycleError>(
                HealthyControlCycleError::Invalidated,
            )
            &&& final(control)@ == old(control)@
            &&& *final(ownership) == *old(ownership)
            &&& *final(policy) == *old(policy)
        } else {
            exists|calls: Seq<ControllerCall>, asked: Seq<PolicyCall>|
                {
                    &&& ran(&*old(ownership), calls, &*final(ownership))
                    &&& ran(&*old(policy), asked, &*final(policy))
                    &&& #[trigger] is_cycle_outcome(
                        result,
                        calls,
                        asked,
                        old(control)@,
                        final(control)@,
                    )
                }
        },
        match result {
            Ok(cycle) => {
                &&& !final(control)@.invalidated
                &&& final(control)@.last_outputs == cycle.outputs
            },
            Err(error) => {
                &&& final(control)@.invalidated
                &&& final(control)@.last_outputs == old(control)@.last_outputs
                &&& error is Invalidated <==> old(control)@.invalidated
            },
        },
{
    if control.invalidated {
        return Err(HealthyControlCycleError::Invalidated);
    }
    let mut trace = Trace::begin(ownership);
    let mut policy_trace = Trace::begin(policy);
    if !trace.custom_epoch_is_current(ownership, control.ownership_id, control.custom_epoch) {
        control.invalidated = true;
        let result = Err(HealthyControlCycleError::StaleArmingReceipt);
        assert(is_cycle_outcome(
            result,
            trace.calls(),
            policy_trace.calls(),
            old(control)@,
            control@,
        ));
        return result;
    }
    let ghost first = trace.calls();
    let result = control.try_cycle(ownership, &mut trace, policy, &mut policy_trace);
    proof {
        assert(trace.calls()[0] == first[0]);
        assert(first =~= seq![trace.calls()[0]]);
    }
    match &result {
        Ok(_) => {},
        Err(_) => {
            control.invalidated = true;
        },
    }
    assert(is_cycle_outcome(
        result,
        trace.calls(),
        policy_trace.calls(),
        old(control)@,
        control@,
    ));
    result
}

} // verus!
