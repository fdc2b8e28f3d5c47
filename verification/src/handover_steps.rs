//! The steps of a handover: what is called, and how the handover ends after each answer.

use vstd::prelude::*;
use crate::acer_hwmon::{answer_of, AcerHwmonDiscoveryError, DeviceModel};
use crate::arming::{
    endpoint_of, sample_admission, FanArmingFailure, FanArmingOperation, FanArmingReadback,
};
use crate::controller_calls::ControllerCall;
use crate::endpoint_io::{tachometer_reading, Endpoint};
use crate::moves::{failure_of, moves_went, Move};
use crate::platform::{moment_after, PlatformError};
use crate::tachometer::Fan;
use crate::text::trimmed;

verus! {

/// What checking the device tells.
pub open spec fn device_verdict(current: Result<bool, AcerHwmonDiscoveryError>) -> Result<
    (),
    FanArmingFailure,
> {
    match current {
        Ok(true) => Ok(()),
        Ok(false) => Err(FanArmingFailure::DeviceChanged),
        Err(AcerHwmonDiscoveryError::Platform(error)) => Err(
            FanArmingFailure::DeviceIdentity(error),
        ),
        Err(error) => Err(FanArmingFailure::DeviceAbi(error)),
    }
}

/// What a readback tells: it must hold exactly the expected text, apart from white space around it.
pub open spec fn readback_verdict(
    read: Result<String, PlatformError>,
    fan: Fan,
    field: FanArmingReadback,
    operation: FanArmingOperation,
    expected: &'static str,
) -> Result<(), FanArmingFailure> {
    match read {
        Err(source) => Err(FanArmingFailure::Platform { fan, operation, source }),
        Ok(actual) => if trimmed(actual@) == expected@ {
            Ok(())
        } else {
            Err(
                FanArmingFailure::UnexpectedReadback { fan, field, operation, expected, actual },
            )
        },
    }
}

/// What a tachometer tells: no speed yet is fine, an implausible one is not.
pub open spec fn tachometer_verdict(read: Result<String, PlatformError>, fan: Fan) -> Result<
    Option<u32>,
    FanArmingFailure,
> {
    match read {
        Err(source) => Err(
            FanArmingFailure::Platform {
                fan,
                operation: FanArmingOperation::ReadTachometer,
                source,
            },
        ),
        Ok(actual) => match tachometer_reading(actual@) {
            Some(rpm) => Ok(rpm),
            None => Err(FanArmingFailure::InvalidTachometer { fan, actual }),
        },
    }
}

/// One thing that is due in a handover.
#[allow(inconsistent_fields)]
pub enum HandoverMove {
    /// The device is checked.
    Verify { deadline: u128 },
    /// An endpoint is read, and must hold a text.
    Confirm {
        fan: Fan,
        field: FanArmingReadback,
        contents: &'static str,
        operation: FanArmingOperation,
        deadline: u128,
    },
    /// An endpoint is written while the CPU fan is held to a mode and the GPU fan to Firmware Auto.
    Write {
        fan: Fan,
        field: FanArmingReadback,
        cpu_mode: Seq<char>,
        contents: Seq<char>,
        operation: FanArmingOperation,
        deadline: u128,
    },
    /// The clock is asked.
    Clock,
}

impl Move<FanArmingFailure> for HandoverMove {
    open spec fn tells(
        self,
        call: ControllerCall,
        device: DeviceModel,
        result: Result<(), FanArmingFailure>,
    ) -> bool {
        match self {
            HandoverMove::Verify { deadline } => exists|
                current: Result<bool, AcerHwmonDiscoveryError>,
            |
                {
                    &&& call == (ControllerCall::CheckDevice {
                        device,
                        deadline,
                        answer: #[trigger] answer_of(current),
                    })
                    &&& result == device_verdict(current)
                },
            HandoverMove::Confirm { fan, field, contents, operation, deadline } => {
                &&& call matches ControllerCall::ReadEndpoint {
                    device: d,
                    fan: f,
                    endpoint,
                    deadline: by,
                    answer,
                }
                &&& d == device && f == fan && endpoint == endpoint_of(field) && by == deadline
                &&& result == readback_verdict(answer, fan, field, operation, contents)
            },
            HandoverMove::Write { fan, field, cpu_mode, contents, operation, deadline } => {
                &&& call matches ControllerCall::WriteEndpoint {
                    device: d,
                    fan: f,
                    endpoint,
                    modes,
                    contents: written,
                    deadline: by,
                    answer,
                }
                &&& d == device && f == fan && endpoint == endpoint_of(field) && by == deadline
                &&& modes == (cpu_mode, "2"@) && written == contents
                &&& match answer {
                    Ok(_) => result is Ok,
                    Err(source) => result == Err::<(), FanArmingFailure>(
                        FanArmingFailure::Platform { fan, operation, source },
                    ),
                }
            },
            HandoverMove::Clock => call is MonotonicNow && result is Ok,
        }
    }
}

/// Both fans are confirmed to hold a text, the CPU fan first.
pub open spec fn both_confirmed(
    field: FanArmingReadback,
    contents: &'static str,
    operation: FanArmingOperation,
    deadline: u128,
) -> Seq<HandoverMove> {
    seq![HandoverMove::Confirm { fan: Fan::Cpu, field, contents, operation, deadline }] + seq![
        HandoverMove::Confirm { fan: Fan::Gpu, field, contents, operation, deadline },
    ]
}

/// Both duties are staged at their maximum while both fans are in Firmware Auto, and read back.
pub open spec fn maximum_staged(deadline: u128) -> Seq<HandoverMove> {
    seq![
        HandoverMove::Write {
            fan: Fan::Cpu,
            field: FanArmingReadback::Duty,
            cpu_mode: "2"@,
            contents: "255"@,
            operation: FanArmingOperation::StageMaximum,
            deadline,
        },
    ] + seq![
        HandoverMove::Write {
            fan: Fan::Gpu,
            field: FanArmingReadback::Duty,
            cpu_mode: "2"@,
            contents: "255"@,
            operation: FanArmingOperation::StageMaximum,
            deadline,
        },
    ] + both_confirmed(FanArmingReadback::Duty, "255", FanArmingOperation::ReadDuty, deadline)
}

/// Both fans are put under Custom control, the CPU fan first.
pub open spec fn custom_entered(deadline: u128) -> Seq<HandoverMove> {
    seq![
        HandoverMove::Write {
            fan: Fan::Cpu,
            field: FanArmingReadback::Mode,
            cpu_mode: "2"@,
            contents: "1"@,
            operation: FanArmingOperation::EnterCustom,
            deadline,
        },
    ] + seq![
        HandoverMove::Write {
            fan: Fan::Gpu,
            field: FanArmingReadback::Mode,
            cpu_mode: "1"@,
            contents: "1"@,
            operation: FanArmingOperation::EnterCustom,
            deadline,
        },
    ]
}

/// A fan is confirmed under Custom control at its maximum duty, and then the clock is asked.
pub open spec fn fan_at_maximum(
    fan: Fan,
    operation: FanArmingOperation,
    deadline: u128,
) -> Seq<HandoverMove> {
    seq![
        HandoverMove::Confirm {
            fan,
            field: FanArmingReadback::Mode,
            contents: "1",
            operation,
            deadline,
        },
    ] + seq![
        HandoverMove::Confirm {
            fan,
            field: FanArmingReadback::Duty,
            contents: "255",
            operation,
            deadline,
        },
    ] + seq![HandoverMove::Clock]
}

/// Both fans are confirmed under Custom control at their maximum duty, each with its moment.
pub open spec fn custom_at_maximum(operation: FanArmingOperation, deadline: u128) -> Seq<
    HandoverMove,
> {
    fan_at_maximum(Fan::Cpu, operation, deadline) + fan_at_maximum(Fan::Gpu, operation, deadline)
}

/// Everything up to Custom control: the device is checked, Firmware Auto confirmed, the maximum staged
/// and read back, Custom control entered, and both fans confirmed in it.
pub open spec fn opening_moves(deadline: u128) -> Seq<HandoverMove> {
    seq![HandoverMove::Verify { deadline }] + both_confirmed(
        FanArmingReadback::Mode,
        "2",
        FanArmingOperation::ConfirmFirmwareAuto,
        deadline,
    ) + maximum_staged(deadline) + custom_entered(deadline) + custom_at_maximum(
        FanArmingOperation::ConfirmCustom,
        deadline,
    )
}

/// What polling both tachometers has called so far, and the speeds that it read last.
pub struct PollState {
    pub calls: Seq<ControllerCall>,
    pub cpu_rpm: Option<u32>,
    pub gpu_rpm: Option<u32>,
}

/// What came back during one round of polling.
pub struct PollAnswers {
    pub now: u128,
    pub cpu: Result<String, PlatformError>,
    pub gpu: Result<String, PlatformError>,
    pub again: u128,
}

/// The call by which a tachometer is read.
pub open spec fn tachometer_call(
    device: DeviceModel,
    fan: Fan,
    deadline: u128,
    answer: Result<String, PlatformError>,
) -> ControllerCall {
    ControllerCall::ReadEndpoint { device, fan, endpoint: Endpoint::Tachometer, deadline, answer }
}

/// How long polling pauses: a quarter of a second, but not past the deadline.
pub open spec fn pause_before(deadline: u128, now: u128) -> u128 {
    if deadline - now < 250_000_000 {
        (deadline - now) as u128
    } else {
        250_000_000
    }
}

/// Where one round of polling leads, and how polling ends where it does: the clock is asked, both
/// tachometers are read, the CPU fan's first, and where not both fans turn the clock is asked again
/// and a pause made. Polling ends at the deadline, at a tachometer that cannot be read, or with both
/// fans turning.
pub open spec fn poll_round(
    before: PollState,
    answers: PollAnswers,
    device: DeviceModel,
    deadline: u128,
) -> (PollState, Option<Result<(u32, u32), FanArmingFailure>>) {
    let begun = before.calls.push(ControllerCall::MonotonicNow { answer: answers.now });
    let cpu_calls = begun.push(tachometer_call(device, Fan::Cpu, deadline, answers.cpu));
    let gpu_calls = cpu_calls.push(tachometer_call(device, Fan::Gpu, deadline, answers.gpu));
    let again_calls = gpu_calls.push(ControllerCall::MonotonicNow { answer: answers.again });
    if answers.now >= deadline {
        (
            PollState { calls: begun, ..before },
            Some(
                Err(
                    FanArmingFailure::TachometerTimeout {
                        cpu_rpm: before.cpu_rpm,
                        gpu_rpm: before.gpu_rpm,
                    },
                ),
            ),
        )
    } else {
        match tachometer_verdict(answers.cpu, Fan::Cpu) {
            Err(failure) => (PollState { calls: cpu_calls, ..before }, Some(Err(failure))),
            Ok(cpu_rpm) => match tachometer_verdict(answers.gpu, Fan::Gpu) {
                Err(failure) => (PollState { calls: gpu_calls, ..before }, Some(Err(failure))),
                Ok(gpu_rpm) => match (cpu_rpm, gpu_rpm) {
                    (Some(cpu), Some(gpu)) => (
                        PollState { calls: gpu_calls, cpu_rpm, gpu_rpm },
                        Some(Ok((cpu, gpu))),
                    ),
                    _ => if answers.again >= deadline {
                        (
                            PollState { calls: again_calls, cpu_rpm, gpu_rpm },
                            Some(Err(FanArmingFailure::TachometerTimeout { cpu_rpm, gpu_rpm })),
                        )
                    } else {
                        (
                            PollState {
                                calls: again_calls.push(
                                    ControllerCall::Delay {
                                        nanos: pause_before(deadline, answers.again),
                                    },
                                ),
                                cpu_rpm,
                                gpu_rpm,
                            },
                            None,
                        )
                    },
                },
            },
        }
    }
}

/// Whether one round of polling led from one state to another, and polling ended with it or not.
pub open spec fn round_went(
    before: PollState,
    after: PollState,
    device: DeviceModel,
    deadline: u128,
    end: Option<Result<(u32, u32), FanArmingFailure>>,
) -> bool {
    exists|answers: PollAnswers|
        (after, end) == #[trigger] poll_round(before, answers, device, deadline)
}

/// Whether rounds of polling led from one state to the next, and polling went on after each.
pub open spec fn are_rounds(
    states: Seq<PollState>,
    device: DeviceModel,
    deadline: u128,
) -> bool {
    &&& states.len() > 0
    &&& forall|i: int|
        0 <= i < states.len() - 1 ==> round_went(
            #[trigger] states[i],
            states[i + 1],
            device,
            deadline,
            None,
        )
}

/// Whether both tachometers were polled until polling ended. Where no more rounds can be counted, it
/// ends as at the deadline.
#[verifier::opaque]
pub open spec fn polls_went(
    earlier: Seq<ControllerCall>,
    later: Seq<ControllerCall>,
    device: DeviceModel,
    deadline: u128,
    speeds: Result<(u32, u32), FanArmingFailure>,
) -> bool {
    exists|states: Seq<PollState>, end: PollState|
        {
            &&& #[trigger] are_rounds(states, device, deadline)
            &&& states[0] == (PollState { calls: earlier, cpu_rpm: None, gpu_rpm: None })
            &&& end.calls == later
            &&& #[trigger] polls_ended(states, end, device, deadline, speeds)
        }
}

/// Whether polling ended after rounds that did not end it: with one more round, or where no more can
/// be counted.
pub open spec fn polls_ended(
    states: Seq<PollState>,
    end: PollState,
    device: DeviceModel,
    deadline: u128,
    speeds: Result<(u32, u32), FanArmingFailure>,
) -> bool {
    ||| round_went(states.last(), end, device, deadline, Some(speeds))
    ||| states.len() > u64::MAX && end == states.last() && speeds == Err::<
        (u32, u32),
        FanArmingFailure,
    >(FanArmingFailure::TachometerTimeout { cpu_rpm: end.cpu_rpm, gpu_rpm: end.gpu_rpm })
}

/// One more round goes on from the ones before.
pub proof fn lemma_one_more_round(
    states: Seq<PollState>,
    next: PollState,
    device: DeviceModel,
    deadline: u128,
)
    requires
        are_rounds(states, device, deadline),
        round_went(states.last(), next, device, deadline, None),
    ensures
        are_rounds(states.push(next), device, deadline),
{
    let longer = states.push(next);
    assert forall|i: int| 0 <= i < longer.len() - 1 implies round_went(
        #[trigger] longer[i],
        longer[i + 1],
        device,
        deadline,
        None,
    ) by {
        if i < states.len() - 1 {
            assert(longer[i] == states[i] && longer[i + 1] == states[i + 1]);
        }
    }
}

/// A round ends polling.
pub proof fn lemma_polls_end(
    states: Seq<PollState>,
    end: PollState,
    device: DeviceModel,
    deadline: u128,
    speeds: Result<(u32, u32), FanArmingFailure>,
)
    requires
        are_rounds(states, device, deadline),
        states[0].cpu_rpm is None,
        states[0].gpu_rpm is None,
        round_went(states.last(), end, device, deadline, Some(speeds)),
    ensures
        polls_went(states[0].calls, end.calls, device, deadline, speeds),
{
    reveal(polls_went);
    assert(states[0] == (PollState { calls: states[0].calls, cpu_rpm: None, gpu_rpm: None }));
    assert(polls_ended(states, end, device, deadline, speeds));
}

/// Polling ends where no more rounds can be counted.
pub proof fn lemma_polls_run_out(states: Seq<PollState>, device: DeviceModel, deadline: u128)
    requires
        are_rounds(states, device, deadline),
        states[0].cpu_rpm is None,
        states[0].gpu_rpm is None,
        states.len() > u64::MAX,
    ensures
        polls_went(
            states[0].calls,
            states.last().calls,
            device,
            deadline,
            Err(
                FanArmingFailure::TachometerTimeout {
                    cpu_rpm: states.last().cpu_rpm,
                    gpu_rpm: states.last().gpu_rpm,
                },
            ),
        ),
{
    reveal(polls_went);
    let end = states.last();
    let speeds: Result<(u32, u32), FanArmingFailure> = Err(
        FanArmingFailure::TachometerTimeout { cpu_rpm: end.cpu_rpm, gpu_rpm: end.gpu_rpm },
    );
    assert(states[0] == (PollState { calls: states[0].calls, cpu_rpm: None, gpu_rpm: None }));
    assert(polls_ended(states, end, device, deadline, speeds));
}

/// What a completed handover found: when each fan was confirmed under Custom control, and its speed.
pub struct HandoverFindings {
    pub cpu_custom_confirmed_at: u128,
    pub gpu_custom_confirmed_at: u128,
    pub cpu_rpm: u32,
    pub gpu_rpm: u32,
}

/// When each fan was confirmed under Custom control: the moments that the clock told directly after
/// each confirmation.
pub open spec fn confirmed_moments(
    calls: Seq<ControllerCall>,
    cpu_confirmed_at: u128,
    gpu_confirmed_at: u128,
) -> bool {
    &&& calls.len() >= 4
    &&& calls[calls.len() - 4] == (ControllerCall::MonotonicNow { answer: cpu_confirmed_at })
    &&& calls.last() == (ControllerCall::MonotonicNow { answer: gpu_confirmed_at })
}

/// Whether both fans were confirmed a last time, which completes the handover where it does not fail.
pub open spec fn ending_went(
    earlier: Seq<ControllerCall>,
    later: Seq<ControllerCall>,
    device: DeviceModel,
    deadline: u128,
    findings: HandoverFindings,
    outcome: Result<HandoverFindings, FanArmingFailure>,
) -> bool {
    &&& moves_went(
        earlier,
        later,
        custom_at_maximum(FanArmingOperation::FinalConfirmCustom, deadline),
        device,
        failure_of(outcome),
    )
    &&& outcome matches Ok(found) ==> found == findings
}

/// Whether both fans were seen to turn a second time, and confirmed after that.
pub open spec fn second_sight_went(
    earlier: Seq<ControllerCall>,
    later: Seq<ControllerCall>,
    device: DeviceModel,
    deadline: u128,
    cpu_custom_confirmed_at: u128,
    gpu_custom_confirmed_at: u128,
    outcome: Result<HandoverFindings, FanArmingFailure>,
) -> bool {
    exists|seen: Seq<ControllerCall>, speeds: Result<(u32, u32), FanArmingFailure>|
        {
            &&& #[trigger] polls_went(earlier, seen, device, deadline, speeds)
            &&& match speeds {
                Err(failure) => later == seen && outcome == Err::<HandoverFindings, _>(failure),
                Ok((cpu_rpm, gpu_rpm)) => ending_went(
                    seen,
                    later,
                    device,
                    deadline,
                    HandoverFindings {
                        cpu_custom_confirmed_at,
                        gpu_custom_confirmed_at,
                        cpu_rpm,
                        gpu_rpm,
                    },
                    outcome,
                ),
            }
        }
}

/// Whether both fans were confirmed after they were seen to turn, and then seen again.
pub open spec fn settling_went(
    earlier: Seq<ControllerCall>,
    later: Seq<ControllerCall>,
    device: DeviceModel,
    deadline: u128,
    cpu_custom_confirmed_at: u128,
    gpu_custom_confirmed_at: u128,
    outcome: Result<HandoverFindings, FanArmingFailure>,
) -> bool {
    exists|confirmed: Seq<ControllerCall>, failure: Option<FanArmingFailure>|
        {
            &&& #[trigger] moves_went(
                earlier,
                confirmed,
                custom_at_maximum(FanArmingOperation::FinalConfirmCustom, deadline),
                device,
                failure,
            )
            &&& match failure {
                Some(failure) => later == confirmed && outcome == Err::<HandoverFindings, _>(
                    failure,
                ),
                None => second_sight_went(
                    confirmed,
                    later,
                    device,
                    deadline,
                    cpu_custom_confirmed_at,
                    gpu_custom_confirmed_at,
                    outcome,
                ),
            }
        }
}

/// Whether both fans were seen to turn, and confirmed after that.
pub open spec fn first_sight_went(
    earlier: Seq<ControllerCall>,
    later: Seq<ControllerCall>,
    device: DeviceModel,
    deadline: u128,
    cpu_custom_confirmed_at: u128,
    gpu_custom_confirmed_at: u128,
    outcome: Result<HandoverFindings, FanArmingFailure>,
) -> bool {
    exists|seen: Seq<ControllerCall>, speeds: Result<(u32, u32), FanArmingFailure>|
        {
            &&& #[trigger] polls_went(earlier, seen, device, deadline, speeds)
            &&& match speeds {
                Err(failure) => later == seen && outcome == Err::<HandoverFindings, _>(failure),
                Ok(_) => settling_went(
                    seen,
                    later,
                    device,
                    deadline,
                    cpu_custom_confirmed_at,
                    gpu_custom_confirmed_at,
                    outcome,
                ),
            }
        }
}

/// Whether both fans were waited for under Custom control: the clock is asked, and they have ten
/// seconds from then on.
pub open spec fn response_went(
    opened: Seq<ControllerCall>,
    later: Seq<ControllerCall>,
    device: DeviceModel,
    outcome: Result<HandoverFindings, FanArmingFailure>,
) -> bool {
    exists|cpu_confirmed_at: u128, gpu_confirmed_at: u128, now: u128|
        {
            let asked = #[trigger] opened.push(ControllerCall::MonotonicNow { answer: now });
            &&& #[trigger] confirmed_moments(opened, cpu_confirmed_at, gpu_confirmed_at)
            &&& match moment_after(now, 10_000_000_000) {
                None => later == asked && outcome == Err::<HandoverFindings, _>(
                    FanArmingFailure::DeadlineOverflow,
                ),
                Some(deadline) => first_sight_went(
                    asked,
                    later,
                    device,
                    deadline,
                    cpu_confirmed_at,
                    gpu_confirmed_at,
                    outcome,
                ),
            }
        }
}

/// Whether both fans were put under Custom control and, where that did not fail, waited for.
pub open spec fn opening_went(
    earlier: Seq<ControllerCall>,
    later: Seq<ControllerCall>,
    device: DeviceModel,
    deadline: u128,
    outcome: Result<HandoverFindings, FanArmingFailure>,
) -> bool {
    exists|opened: Seq<ControllerCall>, failure: Option<FanArmingFailure>|
        {
            &&& #[trigger] moves_went(earlier, opened, opening_moves(deadline), device, failure)
            &&& match failure {
                Some(failure) => later == opened && outcome == Err::<HandoverFindings, _>(failure),
                None => response_went(opened, later, device, outcome),
            }
        }
}

/// Whether a handover was made: the clock is asked, the sample must be fresh at that moment, and both
/// fans have two seconds from then on to be put under Custom control. The first answer that is not as
/// it must be ends the handover, and is its failure.
pub open spec fn handover_went(
    earlier: Seq<ControllerCall>,
    later: Seq<ControllerCall>,
    device: DeviceModel,
    completed_at: u128,
    outcome: Result<HandoverFindings, FanArmingFailure>,
) -> bool {
    exists|started_at: u128|
        {
            let asked = #[trigger] earlier.push(
                ControllerCall::MonotonicNow { answer: started_at },
            );
            match sample_admission(started_at, completed_at) {
                Err(failure) => later == asked && outcome == Err::<HandoverFindings, _>(failure),
                Ok(deadline) => opening_went(asked, later, device, deadline, outcome),
            }
        }
}

} // verus!
