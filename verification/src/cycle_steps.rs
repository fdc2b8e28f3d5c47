//! The steps of a normal control cycle: what is called, and how the cycle ends after each answer.

use vstd::prelude::*;
use crate::acer_hwmon::{answer_of, AcerHwmonDiscoveryError, DeviceModel};
use crate::control_cycle::{
    endpoint_of, ControlCycleOperation, ControlCycleReadback, ControlModel,
    HealthyControlCycleError,
};
use crate::controller_calls::ControllerCall;
use crate::demand::FanOutputs;
use crate::endpoint_io::Endpoint;
use crate::moves::{failure_of, moves_went, Move};
use crate::platform::PlatformError;
use crate::tachometer::Fan;
use crate::tachometer_policy::{
    observation_error, ConfirmedDuty, SupervisedFan, TachometerObservationError,
};
use crate::text::{decimal_text, trimmed, unsigned_number};

verus! {

/// The error of a failed platform operation: one that ran out of time exceeded the cadence.
pub open spec fn operation_failure(
    fan: Fan,
    operation: ControlCycleOperation,
    source: PlatformError,
) -> HealthyControlCycleError {
    if source.kind is TimedOut {
        HealthyControlCycleError::DeadlineExceeded
    } else {
        HealthyControlCycleError::Platform { fan, operation, source }
    }
}

/// What checking the device tells.
pub open spec fn device_verdict(current: Result<bool, AcerHwmonDiscoveryError>) -> Result<
    (),
    HealthyControlCycleError,
> {
    match current {
        Ok(true) => Ok(()),
        Ok(false) => Err(HealthyControlCycleError::DeviceChanged),
        Err(error) => if error matches AcerHwmonDiscoveryError::Platform(source)
            && source.kind is TimedOut {
            Err(HealthyControlCycleError::DeadlineExceeded)
        } else {
            Err(HealthyControlCycleError::Device(error))
        },
    }
}

/// Whether a readback has a result: it must hold exactly the expected text, apart from white space
/// around it.
pub open spec fn readback_tells(
    read: Result<String, PlatformError>,
    fan: Fan,
    field: ControlCycleReadback,
    operation: ControlCycleOperation,
    expected: Seq<char>,
    result: Result<(), HealthyControlCycleError>,
) -> bool {
    match read {
        Err(source) => result == Err::<(), HealthyControlCycleError>(
            operation_failure(fan, operation, source),
        ),
        Ok(actual) => if trimmed(actual@) == expected {
            result is Ok
        } else {
            &&& result matches Err(
                HealthyControlCycleError::UnexpectedReadback {
                    fan: f,
                    field: d,
                    operation: o,
                    expected: e,
                    actual: a,
                },
            )
            &&& f == fan && d == field && o == operation && e@ == expected && a == actual
        },
    }
}

/// What a tachometer's contents tell at a moment, for a fan that is held against its calibration and
/// the duty that was last confirmed.
pub open spec fn speed_verdict(
    contents: String,
    fan: Fan,
    supervised: SupervisedFan,
    observed_at: u128,
) -> Result<u32, HealthyControlCycleError> {
    match unsigned_number(trimmed(contents@), u32::MAX as nat) {
        None => Err(HealthyControlCycleError::MalformedTachometer { fan, actual: contents }),
        Some(rpm) => match observation_error(supervised, rpm as u32, observed_at) {
            None => Ok(rpm as u32),
            Some(TachometerObservationError::DeadlineOverflow) => Err(
                HealthyControlCycleError::DeadlineOverflow,
            ),
            Some(TachometerObservationError::OutOfBand { expected_rpm, actual_rpm }) => Err(
                HealthyControlCycleError::TachometerOutOfBand { fan, expected_rpm, actual_rpm },
            ),
        },
    }
}

/// One thing that is due in a cycle.
#[allow(inconsistent_fields)]
pub enum CycleMove {
    /// The device is checked.
    Verify { deadline: u128 },
    /// An endpoint is read, and must hold a text.
    Confirm {
        fan: Fan,
        field: ControlCycleReadback,
        contents: Seq<char>,
        operation: ControlCycleOperation,
        deadline: u128,
    },
    /// A duty is written while both fans are held to Custom control.
    Write { fan: Fan, contents: Seq<char>, deadline: u128 },
}

impl Move<HealthyControlCycleError> for CycleMove {
    open spec fn tells(
        self,
        call: ControllerCall,
        device: DeviceModel,
        result: Result<(), HealthyControlCycleError>,
    ) -> bool {
        match self {
            CycleMove::Verify { deadline } => exists|current: Result<bool, AcerHwmonDiscoveryError>|
                {
                    &&& call == (ControllerCall::CheckDevice {
                        device,
                        deadline,
                        answer: #[trigger] answer_of(current),
                    })
                    &&& result == device_verdict(current)
                },
            CycleMove::Confirm { fan, field, contents, operation, deadline } => {
                &&& call matches ControllerCall::ReadEndpoint {
                    device: d,
                    fan: f,
                    endpoint,
                    deadline: by,
                    answer,
                }
                &&& d == device && f == fan && endpoint == endpoint_of(field) && by == deadline
                &&& readback_tells(answer, fan, field, operation, contents, result)
            },
            CycleMove::Write { fan, contents, deadline } => {
                &&& call matches ControllerCall::WriteEndpoint {
                    device: d,
                    fan: f,
                    endpoint,
                    modes,
                    contents: written,
                    deadline: by,
                    answer,
                }
                &&& d == device && f == fan && endpoint == Endpoint::Duty && by == deadline
                &&& modes == ("1"@, "1"@) && written == contents
                &&& match answer {
                    Ok(_) => result is Ok,
                    Err(source) => result == Err::<(), HealthyControlCycleError>(
                        operation_failure(fan, ControlCycleOperation::WriteDuty, source),
                    ),
                }
            },
        }
    }
}

/// A fan's mode and duty are confirmed.
pub open spec fn fan_moves(
    fan: Fan,
    duty: u8,
    mode_operation: ControlCycleOperation,
    duty_operation: ControlCycleOperation,
    deadline: u128,
) -> Seq<CycleMove> {
    seq![
        CycleMove::Confirm {
            fan,
            field: ControlCycleReadback::Mode,
            contents: "1"@,
            operation: mode_operation,
            deadline,
        },
    ] + seq![
        CycleMove::Confirm {
            fan,
            field: ControlCycleReadback::Duty,
            contents: decimal_text(duty as nat),
            operation: duty_operation,
            deadline,
        },
    ]
}

/// Both fans' modes and duties are confirmed, the CPU fan's first.
pub open spec fn state_moves(
    outputs: FanOutputs,
    mode_operation: ControlCycleOperation,
    duty_operation: ControlCycleOperation,
    deadline: u128,
) -> Seq<CycleMove> {
    fan_moves(Fan::Cpu, outputs.cpu.duty(), mode_operation, duty_operation, deadline) + fan_moves(
        Fan::Gpu,
        outputs.gpu.duty(),
        mode_operation,
        duty_operation,
        deadline,
    )
}

/// The duties of the cycle before are confirmed between two checks of the device.
pub open spec fn prior_moves(outputs: FanOutputs, deadline: u128) -> Seq<CycleMove> {
    seq![CycleMove::Verify { deadline }] + state_moves(
        outputs,
        ControlCycleOperation::ConfirmBeforeOutput,
        ControlCycleOperation::ReadPriorDuty,
        deadline,
    ) + seq![CycleMove::Verify { deadline }]
}

/// The duties of this cycle are confirmed, and then the device is checked.
pub open spec fn result_moves(outputs: FanOutputs, deadline: u128) -> Seq<CycleMove> {
    state_moves(
        outputs,
        ControlCycleOperation::ConfirmResult,
        ControlCycleOperation::ConfirmResult,
        deadline,
    ) + seq![CycleMove::Verify { deadline }]
}

/// A changed duty is written between two confirmations.
pub open spec fn duty_moves(fan: Fan, duty: u8, deadline: u128) -> Seq<CycleMove> {
    seq![
        CycleMove::Confirm {
            fan,
            field: ControlCycleReadback::Mode,
            contents: "1"@,
            operation: ControlCycleOperation::ConfirmBeforeOutput,
            deadline,
        },
    ] + seq![CycleMove::Write { fan, contents: decimal_text(duty as nat), deadline }] + seq![
        CycleMove::Confirm {
            fan,
            field: ControlCycleReadback::Duty,
            contents: decimal_text(duty as nat),
            operation: ControlCycleOperation::ConfirmWrittenDuty,
            deadline,
        },
    ]
}

/// Whether a fan was brought to its duty. An unchanged duty is left alone. A changed one is written and
/// confirmed, and counts from the moment that the clock told directly after its confirmation.
pub open spec fn duty_went(
    earlier: Seq<ControllerCall>,
    later: Seq<ControllerCall>,
    device: DeviceModel,
    fan: Fan,
    previous: u8,
    next: u8,
    deadline: u128,
    before: SupervisedFan,
    after: SupervisedFan,
    failure: Option<HealthyControlCycleError>,
) -> bool {
    if previous == next {
        later == earlier && after == before && failure is None
    } else if failure is Some {
        after == before && moves_went(
            earlier,
            later,
            duty_moves(fan, next, deadline),
            device,
            failure,
        )
    } else {
        &&& later.len() > 0
        &&& moves_went(
            earlier,
            later.drop_last(),
            duty_moves(fan, next, deadline),
            device,
            failure,
        )
        &&& later.last() matches ControllerCall::MonotonicNow { answer } && after
            == (SupervisedFan {
            duty: ConfirmedDuty { pwm: next, confirmed_at: answer },
            ..before
        })
    }
}

/// Whether both fans were brought to their duties, the GPU fan only where the CPU fan did not fail.
pub open spec fn duties_went(
    earlier: Seq<ControllerCall>,
    later: Seq<ControllerCall>,
    outputs: FanOutputs,
    deadline: u128,
    before: ControlModel,
    cpu: SupervisedFan,
    gpu: SupervisedFan,
    failure: Option<HealthyControlCycleError>,
) -> bool {
    exists|between: Seq<ControllerCall>, cpu_failure: Option<HealthyControlCycleError>|
        {
            &&& #[trigger] duty_went(
                earlier,
                between,
                before.device,
                Fan::Cpu,
                before.last_outputs.cpu.duty(),
                outputs.cpu.duty(),
                deadline,
                before.cpu,
                cpu,
                cpu_failure,
            )
            &&& if cpu_failure is Some {
                later == between && gpu == before.gpu && failure == cpu_failure
            } else {
                duty_went(
                    between,
                    later,
                    before.device,
                    Fan::Gpu,
                    before.last_outputs.gpu.duty(),
                    outputs.gpu.duty(),
                    deadline,
                    before.gpu,
                    gpu,
                    failure,
                )
            }
        }
}

/// Whether a fan's speed was read and judged: the clock is asked directly after a tachometer that could
/// be read, and the speed is judged at that moment.
pub open spec fn speed_went(
    earlier: Seq<ControllerCall>,
    later: Seq<ControllerCall>,
    device: DeviceModel,
    fan: Fan,
    supervised: SupervisedFan,
    deadline: u128,
    failure: Option<HealthyControlCycleError>,
) -> bool {
    exists|answer: Result<String, PlatformError>|
        {
            let asked = #[trigger] earlier.push(
                ControllerCall::ReadEndpoint {
                    device,
                    fan,
                    endpoint: Endpoint::Tachometer,
                    deadline,
                    answer,
                },
            );
            match answer {
                Err(source) => later == asked && failure == Some(
                    operation_failure(fan, ControlCycleOperation::ReadTachometer, source),
                ),
                Ok(contents) => {
                    &&& later.len() > 0
                    &&& later.drop_last() == asked
                    &&& later.last() matches ControllerCall::MonotonicNow { answer: observed_at }
                        && failure == failure_of(
                        speed_verdict(contents, fan, supervised, observed_at),
                    )
                },
            }
        }
}

/// Whether both fans' speeds were read and judged, the GPU fan's only where the CPU fan's fits.
pub open spec fn speeds_went(
    earlier: Seq<ControllerCall>,
    later: Seq<ControllerCall>,
    deadline: u128,
    device: DeviceModel,
    cpu: SupervisedFan,
    gpu: SupervisedFan,
    failure: Option<HealthyControlCycleError>,
) -> bool {
    exists|between: Seq<ControllerCall>, cpu_failure: Option<HealthyControlCycleError>|
        {
            &&& #[trigger] speed_went(
                earlier,
                between,
                device,
                Fan::Cpu,
                cpu,
                deadline,
                cpu_failure,
            )
            &&& if cpu_failure is Some {
                later == between && failure == cpu_failure
            } else {
                speed_went(
                    between,
                    later,
                    device,
                    Fan::Gpu,
                    gpu,
                    deadline,
                    failure,
                )
            }
        }
}

/// Whether the speeds were judged and, where they fit, the duties confirmed once more.
pub open spec fn judgement_went(
    earlier: Seq<ControllerCall>,
    later: Seq<ControllerCall>,
    outputs: FanOutputs,
    deadline: u128,
    device: DeviceModel,
    cpu: SupervisedFan,
    gpu: SupervisedFan,
    failure: Option<HealthyControlCycleError>,
) -> bool {
    exists|between: Seq<ControllerCall>, misfit: Option<HealthyControlCycleError>|
        {
            &&& #[trigger] speeds_went(earlier, between, deadline, device, cpu, gpu, misfit)
            &&& if misfit is Some {
                later == between && failure == misfit
            } else {
                moves_went(
                    between,
                    later,
                    result_moves(outputs, deadline),
                    device,
                    failure,
                )
            }
        }
}

/// Whether the new duties were confirmed and, where they hold, the speeds judged.
pub open spec fn result_went(
    earlier: Seq<ControllerCall>,
    later: Seq<ControllerCall>,
    outputs: FanOutputs,
    deadline: u128,
    device: DeviceModel,
    cpu: SupervisedFan,
    gpu: SupervisedFan,
    failure: Option<HealthyControlCycleError>,
) -> bool {
    exists|between: Seq<ControllerCall>, unconfirmed: Option<HealthyControlCycleError>|
        {
            &&& #[trigger] moves_went(
                earlier,
                between,
                result_moves(outputs, deadline),
                device,
                unconfirmed,
            )
            &&& if unconfirmed is Some {
                later == between && failure == unconfirmed
            } else {
                judgement_went(between, later, outputs, deadline, device, cpu, gpu, failure)
            }
        }
}

/// Whether both fans were brought to their duties and, where that did not fail, the result confirmed.
pub open spec fn output_went(
    earlier: Seq<ControllerCall>,
    later: Seq<ControllerCall>,
    outputs: FanOutputs,
    deadline: u128,
    before: ControlModel,
    cpu: SupervisedFan,
    gpu: SupervisedFan,
    failure: Option<HealthyControlCycleError>,
) -> bool {
    exists|between: Seq<ControllerCall>, unwritten: Option<HealthyControlCycleError>|
        {
            &&& #[trigger] duties_went(
                earlier,
                between,
                outputs,
                deadline,
                before,
                cpu,
                gpu,
                unwritten,
            )
            &&& if unwritten is Some {
                later == between && failure == unwritten
            } else {
                result_went(
                    between,
                    later,
                    outputs,
                    deadline,
                    before.device,
                    cpu,
                    gpu,
                    failure,
                )
            }
        }
}

/// Whether the fans were handled as a cycle must: the duties of the cycle before are confirmed first,
/// then both fans are brought to their new ones, these are confirmed, the speeds are judged, and the
/// duties are confirmed again. The first answer that is not as it must be ends the cycle, and is its
/// failure.
pub open spec fn fans_went(
    earlier: Seq<ControllerCall>,
    later: Seq<ControllerCall>,
    outputs: FanOutputs,
    deadline: u128,
    before: ControlModel,
    after: ControlModel,
    failure: Option<HealthyControlCycleError>,
) -> bool {
    exists|between: Seq<ControllerCall>, unconfirmed: Option<HealthyControlCycleError>|
        {
            &&& #[trigger] moves_went(
                earlier,
                between,
                prior_moves(before.last_outputs, deadline),
                before.device,
                unconfirmed,
            )
            &&& if unconfirmed is Some {
                later == between && failure == unconfirmed && after.cpu == before.cpu && after.gpu
                    == before.gpu
            } else {
                output_went(
                    between,
                    later,
                    outputs,
                    deadline,
                    before,
                    after.cpu,
                    after.gpu,
                    failure,
                )
            }
        }
}

} // verus!
