//! What a handover does to the fans, told by the calls themselves.

use vstd::prelude::*;
use crate::acer_hwmon::DeviceModel;
use crate::arming::{
    arming_is_admitted, is_handover_outcome, sample_admission, ArmedFanControl, ArmingReadySample,
    FanArmingError, FanArmingFailure, FanArmingOperation,
};
use crate::authority::AuthorityModel;
use crate::config::ConfigModel;
use crate::controller_calls::ControllerCall;
use crate::endpoint_io::{tachometer_reading, Endpoint};
use crate::envelope::is_covered;
use crate::handover_steps::{
    are_rounds, confirmed_moments, custom_at_maximum, ending_went, first_sight_went, handover_went,
    opening_moves, opening_went, poll_round, polls_ended, polls_went, response_went, round_went,
    second_sight_went, settling_went, HandoverFindings, HandoverMove, PollAnswers, PollState,
};
use crate::moves::{failure_of, lemma_moves_go_on, moves_went, Move};
use crate::platform::moment_after;
use crate::tachometer::Fan;
use crate::text::{all_digits, decimal_value, trimmed, unsigned_number};

verus! {

/// A sample is fresh enough to arm exactly where it was completed by the start of the handover and at
/// most two seconds before; the handover has two seconds from its start.
pub proof fn samples_are_at_most_two_seconds_old(started_at: u128, completed_at: u128)
    requires
        started_at + 2_000_000_000 <= 18_446_744_073_709_551_615_999_999_999,
    ensures
        sample_admission(started_at, completed_at) is Ok <==> completed_at <= started_at
            <= completed_at + 2_000_000_000,
        sample_admission(started_at, completed_at) matches Ok(deadline) ==> deadline == started_at
            + 2_000_000_000,
        sample_admission(started_at, completed_at) is Err ==> {
            &&& sample_admission(started_at, completed_at)->Err_0 is SampleFromFuture
                <==> completed_at > started_at
            &&& sample_admission(started_at, completed_at)->Err_0 is StaleSample <==> started_at
                > completed_at + 2_000_000_000
        },
{
}

/// A handover is admitted exactly where the authority and the sample belong to the current ownership,
/// the sample to the current epoch, and the candidate stays within the protected envelope.
pub proof fn handovers_are_admitted_to_their_owner(
    result: Result<(), FanArmingFailure>,
    authority: AuthorityModel,
    candidate: ConfigModel,
    sample: ArmingReadySample,
    ownership_id: u64,
    sampling_epoch: u64,
)
    requires
        arming_is_admitted(
            result,
            authority,
            candidate,
            sample,
            ownership_id,
            sampling_epoch,
        ),
    ensures
        result is Ok <==> {
            &&& authority.ownership_id == ownership_id
            &&& sample.ownership_id == ownership_id
            &&& sample.sampling_epoch == sampling_epoch
            &&& is_covered(candidate, authority.protected)
        },
{
}

/// A tachometer shows a turning fan exactly where it holds a number from 300 to 10000, and a fan that
/// does not turn yet exactly where it holds zero.
pub proof fn turning_fans_show_plausible_speeds(contents: Seq<char>)
    ensures
        tachometer_reading(contents) matches Some(Some(rpm)) ==> 300 <= rpm <= 10_000
            && unsigned_number(trimmed(contents), u32::MAX as nat) == Some(rpm as nat),
        tachometer_reading(contents) matches Some(None) ==> unsigned_number(
            trimmed(contents),
            u32::MAX as nat,
        ) == Some(0nat),
        trimmed(contents).len() > 0 && all_digits(trimmed(contents)) && (300 <= decimal_value(
            trimmed(contents),
        ) <= 10_000 || decimal_value(trimmed(contents)) == 0) ==> tachometer_reading(
            contents,
        ) is Some,
{
}

/// The calls since others that make moves.
proof fn lemma_moved(
    earlier: Seq<ControllerCall>,
    later: Seq<ControllerCall>,
    moves: Seq<HandoverMove>,
    device: DeviceModel,
    failure: Option<FanArmingFailure>,
    index: int,
)
    requires
        moves_went(earlier, later, moves, device, failure),
        earlier.len() <= index < later.len(),
    ensures
        index - earlier.len() < moves.len(),
        exists|result: Result<(), FanArmingFailure>|
            #[trigger] moves[index - earlier.len()].tells(later[index], device, result),
        failure is None || index < later.len() - 1 ==> moves[index - earlier.len()].tells(
            later[index],
            device,
            Ok::<(), FanArmingFailure>(()),
        ),
{
    reveal(moves_went);
    let i = index - earlier.len();
    if failure is Some && i == later.len() - earlier.len() - 1 {
        assert(moves[i].tells(later[index], device, Err::<(), FanArmingFailure>(failure->0)));
    } else {
        assert(moves[i].tells(later[index], device, Ok::<(), FanArmingFailure>(())));
    }
}

/// Whether further calls neither write nor restore.
pub open spec fn only_looks(earlier: Seq<ControllerCall>, later: Seq<ControllerCall>) -> bool {
    &&& earlier.len() <= later.len()
    &&& forall|i: int| 0 <= i < earlier.len() ==> #[trigger] later[i] == earlier[i]
    &&& forall|i: int|
        earlier.len() <= i < later.len() ==> !(#[trigger] later[i] is WriteEndpoint)
            && !(later[i] is RestoreOrContainFirmwareAuto)
}

proof fn lemma_looks_on(
    first: Seq<ControllerCall>,
    second: Seq<ControllerCall>,
    third: Seq<ControllerCall>,
)
    requires
        only_looks(first, second),
        only_looks(second, third),
    ensures
        only_looks(first, third),
{
    assert forall|i: int| 0 <= i < first.len() implies #[trigger] third[i] == first[i] by {
        assert(second[i] == first[i]);
    }
    assert forall|i: int| first.len() <= i < third.len() implies !(
    #[trigger] third[i] is WriteEndpoint) && !(third[i] is RestoreOrContainFirmwareAuto) by {
        if i < second.len() {
            assert(third[i] == second[i]);
        }
    }
}

proof fn lemma_confirming_looks(
    earlier: Seq<ControllerCall>,
    later: Seq<ControllerCall>,
    deadline: u128,
    device: DeviceModel,
    failure: Option<FanArmingFailure>,
)
    requires
        moves_went(
            earlier,
            later,
            custom_at_maximum(FanArmingOperation::FinalConfirmCustom, deadline),
            device,
            failure,
        ),
    ensures
        only_looks(earlier, later),
{
    let moves = custom_at_maximum(FanArmingOperation::FinalConfirmCustom, deadline);
    lemma_moves_go_on(earlier, later, moves, device, failure);
    assert forall|i: int| earlier.len() <= i < later.len() implies !(
    #[trigger] later[i] is WriteEndpoint) && !(later[i] is RestoreOrContainFirmwareAuto) by {
        lemma_moved(earlier, later, moves, device, failure, i);
        assert(moves[i - earlier.len()] is Confirm || moves[i - earlier.len()] is Clock);
    }
}

proof fn lemma_round_looks(
    before: PollState,
    after: PollState,
    device: DeviceModel,
    deadline: u128,
    end: Option<Result<(u32, u32), FanArmingFailure>>,
)
    requires
        round_went(before, after, device, deadline, end),
    ensures
        only_looks(before.calls, after.calls),
        end matches Some(Ok(speeds)) ==> {
            let n = after.calls.len() as int;
            &&& n >= 3
            &&& after.calls[n - 2] matches ControllerCall::ReadEndpoint {
                fan: Fan::Cpu,
                endpoint: Endpoint::Tachometer,
                answer: Ok(text),
                ..
            } && tachometer_reading(text@) == Some(Some(speeds.0))
            &&& after.calls[n - 1] matches ControllerCall::ReadEndpoint {
                fan: Fan::Gpu,
                endpoint: Endpoint::Tachometer,
                answer: Ok(text),
                ..
            } && tachometer_reading(text@) == Some(Some(speeds.1))
            &&& after.calls[n - 3] matches ControllerCall::MonotonicNow { answer } && answer
                < deadline
        },
{
    let answers = choose|answers: PollAnswers|
        (after, end) == #[trigger] poll_round(before, answers, device, deadline);
    assert(after.calls == poll_round(before, answers, device, deadline).0.calls);
}

proof fn lemma_rounds_look(states: Seq<PollState>, device: DeviceModel, deadline: u128, count: int)
    requires
        are_rounds(states, device, deadline),
        0 <= count < states.len(),
    ensures
        only_looks(states[0].calls, states[count].calls),
    decreases count,
{
    if count > 0 {
        lemma_rounds_look(states, device, deadline, count - 1);
        assert(round_went(states[count - 1], states[count - 1 + 1], device, deadline, None));
        lemma_round_looks(states[count - 1], states[count], device, deadline, None);
        lemma_looks_on(states[0].calls, states[count - 1].calls, states[count].calls);
    }
}

proof fn lemma_polls_look(
    earlier: Seq<ControllerCall>,
    later: Seq<ControllerCall>,
    device: DeviceModel,
    deadline: u128,
    speeds: Result<(u32, u32), FanArmingFailure>,
)
    requires
        polls_went(earlier, later, device, deadline, speeds),
    ensures
        only_looks(earlier, later),
        speeds matches Ok(speeds) ==> {
            let n = later.len() as int;
            &&& n >= earlier.len() + 3
            &&& later[n - 2] matches ControllerCall::ReadEndpoint {
                fan: Fan::Cpu,
                endpoint: Endpoint::Tachometer,
                answer: Ok(text),
                ..
            } && tachometer_reading(text@) == Some(Some(speeds.0))
            &&& later[n - 1] matches ControllerCall::ReadEndpoint {
                fan: Fan::Gpu,
                endpoint: Endpoint::Tachometer,
                answer: Ok(text),
                ..
            } && tachometer_reading(text@) == Some(Some(speeds.1))
            &&& later[n - 3] matches ControllerCall::MonotonicNow { answer } && answer < deadline
        },
{
    reveal(polls_went);
    let (states, end) = choose|states: Seq<PollState>, end: PollState|
        {
            &&& #[trigger] are_rounds(states, device, deadline)
            &&& states[0] == (PollState { calls: earlier, cpu_rpm: None, gpu_rpm: None })
            &&& end.calls == later
            &&& #[trigger] polls_ended(states, end, device, deadline, speeds)
        };
    let last = states.len() - 1;
    lemma_rounds_look(states, device, deadline, last);
    if round_went(states.last(), end, device, deadline, Some(speeds)) {
        lemma_round_looks(states.last(), end, device, deadline, Some(speeds));
        lemma_looks_on(earlier, states[last].calls, later);
        let answers = choose|answers: PollAnswers|
            (end, Some(speeds)) == #[trigger] poll_round(states.last(), answers, device, deadline);
        if speeds is Ok {
            assert(later.len() == states.last().calls.len() + 3);
        }
    }
}

/// Whether a call puts a fan's endpoint to a text, while the CPU fan is held to a mode and the GPU fan to
/// Firmware Auto.
pub open spec fn puts(
    call: ControllerCall,
    device: DeviceModel,
    fan: Fan,
    endpoint: Endpoint,
    cpu_mode: Seq<char>,
    contents: Seq<char>,
) -> bool {
    call matches ControllerCall::WriteEndpoint {
        device: d,
        fan: f,
        endpoint: e,
        modes,
        contents: written,
        ..
    } && d == device && f == fan && e == endpoint && modes == (cpu_mode, "2"@) && written
        == contents
}

/// What the calls of a handover up to Custom control are.
proof fn lemma_opening(
    earlier: Seq<ControllerCall>,
    opened: Seq<ControllerCall>,
    deadline: u128,
    device: DeviceModel,
    failure: Option<FanArmingFailure>,
)
    requires
        moves_went(earlier, opened, opening_moves(deadline), device, failure),
    ensures
        earlier.len() < opened.len() <= earlier.len() + 15,
        forall|i: int| 0 <= i < earlier.len() ==> #[trigger] opened[i] == earlier[i],
        failure is None ==> opened.len() == earlier.len() + 15,
        forall|i: int|
            earlier.len() <= i < opened.len() ==> {
                let k = i - earlier.len();
                &&& !(#[trigger] opened[i] is RestoreOrContainFirmwareAuto)
                &&& opened[i] is WriteEndpoint ==> k == 3 || k == 4 || k == 7 || k == 8
                &&& k == 3 ==> puts(opened[i], device, Fan::Cpu, Endpoint::Duty, "2"@, "255"@)
                &&& k == 4 ==> puts(opened[i], device, Fan::Gpu, Endpoint::Duty, "2"@, "255"@)
                &&& k == 7 ==> puts(opened[i], device, Fan::Cpu, Endpoint::Mode, "2"@, "1"@)
                &&& k == 8 ==> puts(opened[i], device, Fan::Gpu, Endpoint::Mode, "1"@, "1"@)
                &&& failure is None || i < opened.len() - 1 ==> opening_moves(deadline)[k].tells(
                    opened[i],
                    device,
                    Ok::<(), FanArmingFailure>(()),
                )
            },
{
    let moves = opening_moves(deadline);
    lemma_moves_go_on(earlier, opened, moves, device, failure);
    assert(moves.len() == 15);
    assert forall|i: int| earlier.len() <= i < opened.len() implies {
        let k = i - earlier.len();
        &&& !(#[trigger] opened[i] is RestoreOrContainFirmwareAuto)
        &&& opened[i] is WriteEndpoint ==> k == 3 || k == 4 || k == 7 || k == 8
        &&& k == 3 ==> puts(opened[i], device, Fan::Cpu, Endpoint::Duty, "2"@, "255"@)
        &&& k == 4 ==> puts(opened[i], device, Fan::Gpu, Endpoint::Duty, "2"@, "255"@)
        &&& k == 7 ==> puts(opened[i], device, Fan::Cpu, Endpoint::Mode, "2"@, "1"@)
        &&& k == 8 ==> puts(opened[i], device, Fan::Gpu, Endpoint::Mode, "1"@, "1"@)
        &&& failure is None || i < opened.len() - 1 ==> opening_moves(deadline)[k].tells(
            opened[i],
            device,
            Ok::<(), FanArmingFailure>(()),
        )
    } by {
        let k = i - earlier.len();
        lemma_moved(earlier, opened, moves, device, failure, i);
        assert(moves[0] is Verify && moves[1] is Confirm && moves[2] is Confirm);
        assert(moves[3] is Write && moves[4] is Write);
        assert(moves[5] is Confirm && moves[6] is Confirm);
        assert(moves[7] is Write && moves[8] is Write);
        assert(moves[9] is Confirm && moves[10] is Confirm && moves[11] is Clock);
        assert(moves[12] is Confirm && moves[13] is Confirm && moves[14] is Clock);
    }
}

/// What a handover calls after its start.
proof fn lemma_handed(
    earlier: Seq<ControllerCall>,
    later: Seq<ControllerCall>,
    device: DeviceModel,
    completed_at: u128,
    outcome: Result<HandoverFindings, FanArmingFailure>,
) -> (deadline: u128)
    requires
        handover_went(earlier, later, device, completed_at, outcome),
    ensures
        earlier.len() < later.len(),
        forall|i: int| 0 <= i < earlier.len() ==> #[trigger] later[i] == earlier[i],
        later[earlier.len() as int] is MonotonicNow,
        forall|i: int|
            earlier.len() < i < later.len() ==> {
                let k = i - earlier.len() - 1;
                &&& !(#[trigger] later[i] is RestoreOrContainFirmwareAuto)
                &&& later[i] is WriteEndpoint ==> k == 3 || k == 4 || k == 7 || k == 8
                &&& k == 3 ==> puts(later[i], device, Fan::Cpu, Endpoint::Duty, "2"@, "255"@)
                &&& k == 4 ==> puts(later[i], device, Fan::Gpu, Endpoint::Duty, "2"@, "255"@)
                &&& k == 7 ==> puts(later[i], device, Fan::Cpu, Endpoint::Mode, "2"@, "1"@)
                &&& k == 8 ==> puts(later[i], device, Fan::Gpu, Endpoint::Mode, "1"@, "1"@)
                &&& k < 15 && (outcome is Ok || i < later.len() - 1) ==> opening_moves(
                    deadline,
                )[k].tells(later[i], device, Ok::<(), FanArmingFailure>(()))
            },
        sample_admission(later[earlier.len() as int]->MonotonicNow_answer, completed_at) is Ok
            ==> sample_admission(later[earlier.len() as int]->MonotonicNow_answer, completed_at)
            == Ok::<u128, FanArmingFailure>(deadline),
        outcome is Ok ==> sample_admission(
            later[earlier.len() as int]->MonotonicNow_answer,
            completed_at,
        ) is Ok,
        outcome matches Ok(found) ==> {
            let n = later.len() as int;
            let at = earlier.len() as int;
            &&& n >= at + 17 + 3 + 6 + 3 + 6
            &&& later[at + 12] == (ControllerCall::MonotonicNow {
                answer: found.cpu_custom_confirmed_at,
            })
            &&& later[at + 15] == (ControllerCall::MonotonicNow {
                answer: found.gpu_custom_confirmed_at,
            })
            &&& later[at + 16] is MonotonicNow
            &&& exists|by: u128|
                moves_went(
                    later.take(n - 6),
                    later,
                    #[trigger] custom_at_maximum(FanArmingOperation::FinalConfirmCustom, by),
                    device,
                    None::<FanArmingFailure>,
                )
            &&& later[n - 8] matches ControllerCall::ReadEndpoint {
                fan: Fan::Cpu,
                endpoint: Endpoint::Tachometer,
                answer: Ok(text),
                ..
            } && tachometer_reading(text@) == Some(Some(found.cpu_rpm))
            &&& later[n - 7] matches ControllerCall::ReadEndpoint {
                fan: Fan::Gpu,
                endpoint: Endpoint::Tachometer,
                answer: Ok(text),
                ..
            } && tachometer_reading(text@) == Some(Some(found.gpu_rpm))
            &&& later[n - 9] matches ControllerCall::MonotonicNow { answer } && answer
                < later[at + 16]->MonotonicNow_answer + 10_000_000_000
        },
{
    let started_at = choose|started_at: u128|
        {
            let asked = #[trigger] earlier.push(
                ControllerCall::MonotonicNow { answer: started_at },
            );
            match sample_admission(started_at, completed_at) {
                Err(failure) => later == asked && outcome == Err::<HandoverFindings, _>(failure),
                Ok(deadline) => opening_went(asked, later, device, deadline, outcome),
            }
        };
    let asked = earlier.push(ControllerCall::MonotonicNow { answer: started_at });
    match sample_admission(started_at, completed_at) {
        Err(_) => 0u128,
        Ok(deadline) => {
            let (opened, failure) = choose|
                opened: Seq<ControllerCall>,
                failure: Option<FanArmingFailure>,
            |
                {
                    &&& #[trigger] moves_went(
                        asked,
                        opened,
                        opening_moves(deadline),
                        device,
                        failure,
                    )
                    &&& match failure {
                        Some(failure) => later == opened && outcome == Err::<HandoverFindings, _>(
                            failure,
                        ),
                        None => response_went(opened, later, device, outcome),
                    }
                };
            lemma_opening(asked, opened, deadline, device, failure);
            if failure is None {
                lemma_responded(opened, later, device, outcome);
            }
            let at = earlier.len() as int;
            assert forall|i: int| 0 <= i < earlier.len() implies #[trigger] later[i]
                == earlier[i] by {
                assert(asked[i] == earlier[i]);
                assert(opened[i] == asked[i]);
            }
            assert(later[at] == opened[at] && opened[at] == asked[at]);
            assert forall|i: int| earlier.len() < i < later.len() implies {
                let k = i - earlier.len() - 1;
                &&& !(#[trigger] later[i] is RestoreOrContainFirmwareAuto)
                &&& later[i] is WriteEndpoint ==> k == 3 || k == 4 || k == 7 || k == 8
                &&& k == 3 ==> puts(later[i], device, Fan::Cpu, Endpoint::Duty, "2"@, "255"@)
                &&& k == 4 ==> puts(later[i], device, Fan::Gpu, Endpoint::Duty, "2"@, "255"@)
                &&& k == 7 ==> puts(later[i], device, Fan::Cpu, Endpoint::Mode, "2"@, "1"@)
                &&& k == 8 ==> puts(later[i], device, Fan::Gpu, Endpoint::Mode, "1"@, "1"@)
                &&& k < 15 && (outcome is Ok || i < later.len() - 1) ==> opening_moves(
                    deadline,
                )[k].tells(later[i], device, Ok::<(), FanArmingFailure>(()))
            } by {
                if i < opened.len() {
                    assert(later[i] == opened[i]);
                }
            }
            if outcome is Ok {
                assert(later[at + 12] == opened[at + 12]);
                assert(later[at + 15] == opened[at + 15]);
            }
            deadline
        },
    }
}

/// What a handover calls from the wait for both fans on.
proof fn lemma_responded(
    opened: Seq<ControllerCall>,
    later: Seq<ControllerCall>,
    device: DeviceModel,
    outcome: Result<HandoverFindings, FanArmingFailure>,
)
    requires
        response_went(opened, later, device, outcome),
    ensures
        only_looks(opened, later),
        opened.len() >= 4,
        opened.len() < later.len(),
        outcome matches Ok(found) ==> {
            let n = later.len() as int;
            let at = opened.len() as int;
            &&& n >= at + 19
            &&& opened[at - 4] == (ControllerCall::MonotonicNow {
                answer: found.cpu_custom_confirmed_at,
            })
            &&& opened[at - 1] == (ControllerCall::MonotonicNow {
                answer: found.gpu_custom_confirmed_at,
            })
            &&& later[at] is MonotonicNow
            &&& exists|by: u128|
                moves_went(
                    later.take(n - 6),
                    later,
                    #[trigger] custom_at_maximum(FanArmingOperation::FinalConfirmCustom, by),
                    device,
                    None::<FanArmingFailure>,
                )
            &&& later[n - 8] matches ControllerCall::ReadEndpoint {
                fan: Fan::Cpu,
                endpoint: Endpoint::Tachometer,
                answer: Ok(text),
                ..
            } && tachometer_reading(text@) == Some(Some(found.cpu_rpm))
            &&& later[n - 7] matches ControllerCall::ReadEndpoint {
                fan: Fan::Gpu,
                endpoint: Endpoint::Tachometer,
                answer: Ok(text),
                ..
            } && tachometer_reading(text@) == Some(Some(found.gpu_rpm))
            &&& later[n - 9] matches ControllerCall::MonotonicNow { answer } && answer
                < later[at]->MonotonicNow_answer + 10_000_000_000
        },
{
    let (cpu_at, gpu_at, now) = choose|cpu_confirmed_at: u128, gpu_confirmed_at: u128, now: u128|
        {
            let asked = #[trigger] opened.push(ControllerCall::MonotonicNow { answer: now });
            &&& #[trigger] confirmed_moments(opened, cpu_confirmed_at, gpu_confirmed_at)
            &&& match moment_after(now, 10_000_000_000) {
                None => later == asked && outcome == Err::<HandoverFindings, _>(
                    FanArmingFailure::DeadlineOverflow,
                ),
                Some(deadline) => first_sight_went(
                    asked,
                    later,
                    device,
                    deadline,
                    cpu_confirmed_at,
                    gpu_confirmed_at,
                    outcome,
                ),
            }
        };
    let asked = opened.push(ControllerCall::MonotonicNow { answer: now });
    assert(only_looks(opened, asked));
    if moment_after(now, 10_000_000_000) is Some {
        let by = moment_after(now, 10_000_000_000)->0;
        let (seen, speeds) = choose|
            seen: Seq<ControllerCall>,
            speeds: Result<(u32, u32), FanArmingFailure>,
        |
            {
                &&& #[trigger] polls_went(asked, seen, device, by, speeds)
                &&& match speeds {
                    Err(failure) => later == seen && outcome == Err::<HandoverFindings, _>(
                        failure,
                    ),
                    Ok(_) => settling_went(seen, later, device, by, cpu_at, gpu_at, outcome),
                }
            };
        lemma_polls_look(asked, seen, device, by, speeds);
        lemma_looks_on(opened, asked, seen);
        if speeds is Ok {
            let moves = custom_at_maximum(FanArmingOperation::FinalConfirmCustom, by);
            assert(moves.len() == 6);
            let (confirmed, failure) = choose|
                confirmed: Seq<ControllerCall>,
                failure: Option<FanArmingFailure>,
            |
                {
                    &&& #[trigger] moves_went(seen, confirmed, moves, device, failure)
                    &&& match failure {
                        Some(failure) => later == confirmed && outcome == Err::<
                            HandoverFindings,
                            _,
                        >(failure),
                        None => second_sight_went(
                            confirmed,
                            later,
                            device,
                            by,
                            cpu_at,
                            gpu_at,
                            outcome,
                        ),
                    }
                };
            lemma_confirming_looks(seen, confirmed, by, device, failure);
            lemma_moves_go_on(seen, confirmed, moves, device, failure);
            lemma_looks_on(opened, seen, confirmed);
            if failure is None {
                let (again, speeds) = choose|
                    seen: Seq<ControllerCall>,
                    speeds: Result<(u32, u32), FanArmingFailure>,
                |
                    {
                        &&& #[trigger] polls_went(confirmed, seen, device, by, speeds)
                        &&& match speeds {
                            Err(failure) => later == seen && outcome == Err::<HandoverFindings, _>(
                                failure,
                            ),
                            Ok((cpu_rpm, gpu_rpm)) => ending_went(
                                seen,
                                later,
                                device,
                                by,
                                HandoverFindings {
                                    cpu_custom_confirmed_at: cpu_at,
                                    gpu_custom_confirmed_at: gpu_at,
                                    cpu_rpm,
                                    gpu_rpm,
                                },
                                outcome,
                            ),
                        }
                    };
                lemma_polls_look(confirmed, again, device, by, speeds);
                lemma_looks_on(opened, confirmed, again);
                if speeds is Ok {
                    lemma_confirming_looks(again, later, by, device, failure_of(outcome));
                    lemma_moves_go_on(again, later, moves, device, failure_of(outcome));
                    lemma_looks_on(opened, again, later);
                    if outcome is Ok {
                        let n = later.len() as int;
                        assert(later.take(n - 6) =~= again);
                        assert(later[n - 8] == again[n - 8]);
                        assert(later[n - 7] == again[n - 7]);
                        assert(later[n - 9] == again[n - 9]);
                        assert(later[opened.len() as int] == asked[opened.len() as int]) by {
                            let at = opened.len() as int;
                            assert(seen[at] == asked[at]);
                            assert(confirmed[at] == seen[at]);
                            assert(again[at] == confirmed[at]);
                            assert(later[at] == again[at]);
                        }
                    }
                }
            }
        }
    }
}

/// Whatever a handover comes to, it writes at most four times and in this order: the full duty to the CPU
/// fan and to the GPU fan, both while both fans are in Firmware Auto, and then Custom mode to the CPU fan
/// and to the GPU fan. Nothing else is ever written, and Custom mode only after both duties were taken
/// and read back as the full one.
pub proof fn handovers_stage_the_full_duty_first(
    result: Result<ArmedFanControl, FanArmingError>,
    calls: Seq<ControllerCall>,
    device: DeviceModel,
    authority: AuthorityModel,
    candidate: ConfigModel,
    sample: ArmingReadySample,
    index: int,
)
    requires
        is_handover_outcome(result, calls, device, authority, candidate, sample),
        0 <= index < calls.len(),
        calls[index] is WriteEndpoint,
    ensures
        index == 7 || index == 8 || index == 11 || index == 12,
        calls[index] matches ControllerCall::WriteEndpoint {
            device: written_on,
            fan,
            endpoint,
            modes,
            contents,
            ..
        } && {
            &&& written_on == device
            &&& fan is Cpu <==> index == 7 || index == 11
            &&& endpoint is Duty <==> index <= 8
            &&& endpoint is Mode <==> index >= 11
            &&& modes.1 == "2"@
            &&& index <= 11 ==> modes.0 == "2"@
            &&& index == 12 ==> modes.0 == "1"@
            &&& endpoint is Duty ==> contents == "255"@
            &&& endpoint is Mode ==> contents == "1"@
        },
        index >= 11 ==> {
            &&& calls[7] matches ControllerCall::WriteEndpoint { answer, .. } && answer is Ok
            &&& calls[8] matches ControllerCall::WriteEndpoint { answer, .. } && answer is Ok
            &&& calls[9] matches ControllerCall::ReadEndpoint {
                fan: Fan::Cpu,
                endpoint: Endpoint::Duty,
                answer: Ok(text),
                ..
            } && trimmed(text@) == "255"@
            &&& calls[10] matches ControllerCall::ReadEndpoint {
                fan: Fan::Gpu,
                endpoint: Endpoint::Duty,
                answer: Ok(text),
                ..
            } && trimmed(text@) == "255"@
        },
        index >= 7 ==> {
            &&& calls[5] matches ControllerCall::ReadEndpoint {
                fan: Fan::Cpu,
                endpoint: Endpoint::Mode,
                answer: Ok(text),
                ..
            } && trimmed(text@) == "2"@
            &&& calls[6] matches ControllerCall::ReadEndpoint {
                fan: Fan::Gpu,
                endpoint: Endpoint::Mode,
                answer: Ok(text),
                ..
            } && trimmed(text@) == "2"@
        },
        calls[2] is BeginCustomTransition,
{
    let (asked, epoch, handled, outcome) = lemma_outcome(
        result,
        calls,
        device,
        authority,
        candidate,
        sample,
    );
    if handled.len() > 0 {
        let earlier = asked.push(ControllerCall::BeginCustomTransition { answer: epoch });
        let deadline = lemma_handed(earlier, handled, device, sample.completed_at, outcome);
        assert(calls[index] == handled[index]);
        assert(handled[2] == earlier[2]);
        assert(calls[2] == handled[2]);
        let moves = opening_moves(deadline);
        assert(index < 3 ==> handled[index] == earlier[index]);
        assert(moves[1] is Confirm && moves[2] is Confirm && moves[3] is Write && moves[4] is Write
            && moves[5] is Confirm && moves[6] is Confirm && moves[7] is Write && moves[8] is Write);
        assert(calls[5] == handled[5] && calls[6] == handled[6]);
        if index >= 11 {
            assert(calls[7] == handled[7] && calls[8] == handled[8]);
            assert(calls[9] == handled[9] && calls[10] == handled[10]);
            assert(moves[3].tells(handled[7], device, Ok::<(), FanArmingFailure>(())));
            assert(moves[4].tells(handled[8], device, Ok::<(), FanArmingFailure>(())));
            assert(moves[5].tells(handled[9], device, Ok::<(), FanArmingFailure>(())));
            assert(moves[6].tells(handled[10], device, Ok::<(), FanArmingFailure>(())));
        }
        assert(moves[1].tells(handled[5], device, Ok::<(), FanArmingFailure>(())));
        assert(moves[2].tells(handled[6], device, Ok::<(), FanArmingFailure>(())));
    }
}

/// The parts of a handover's outcome: what was asked first, the epoch, the calls up to a restoration
/// (none where the handover was not admitted), and what was found.
proof fn lemma_outcome(
    result: Result<ArmedFanControl, FanArmingError>,
    calls: Seq<ControllerCall>,
    device: DeviceModel,
    authority: AuthorityModel,
    candidate: ConfigModel,
    sample: ArmingReadySample,
) -> (parts: (
    Seq<ControllerCall>,
    u64,
    Seq<ControllerCall>,
    Result<HandoverFindings, FanArmingFailure>,
))
    requires
        is_handover_outcome(result, calls, device, authority, candidate, sample),
    ensures
        parts.0.len() == 2,
        parts.0[0] is OwnershipId && parts.0[1] is SamplingEpoch,
        parts.2.len() == 0 ==> {
            &&& result is Err
            &&& calls.drop_last() == parts.0
            &&& calls.last() is RestoreOrContainFirmwareAuto
        },
        parts.2.len() > 0 ==> {
            &&& handover_went(
                parts.0.push(ControllerCall::BeginCustomTransition { answer: parts.1 }),
                parts.2,
                device,
                sample.completed_at,
                parts.3,
            )
            &&& parts.0[0] == (ControllerCall::OwnershipId { answer: authority.ownership_id })
            &&& sample.ownership_id == authority.ownership_id
            &&& parts.0[1] == (ControllerCall::SamplingEpoch { answer: sample.sampling_epoch })
            &&& is_covered(candidate, authority.protected)
            &&& match parts.3 {
                Ok(findings) => calls == parts.2 && (result matches Ok(armed) && armed@
                    == crate::arming::receipt_of(
                    findings,
                    device,
                    authority,
                    candidate,
                    parts.1,
                )),
                Err(_) => result is Err && calls.len() == parts.2.len() + 1 && calls.drop_last()
                    == parts.2 && calls.last() is RestoreOrContainFirmwareAuto,
            }
            &&& forall|i: int| 0 <= i < parts.2.len() ==> #[trigger] calls[i] == parts.2[i]
        },
{
    let (ownership_id, sampling_epoch, admission) = choose|
        ownership_id: u64,
        sampling_epoch: u64,
        admission: Result<(), FanArmingFailure>,
    |
        {
            &&& #[trigger] arming_is_admitted(
                admission,
                authority,
                candidate,
                sample,
                ownership_id,
                sampling_epoch,
            )
            &&& crate::arming::is_judged_outcome(
                result,
                seq![
                    ControllerCall::OwnershipId { answer: ownership_id },
                    ControllerCall::SamplingEpoch { answer: sampling_epoch },
                ],
                calls,
                device,
                authority,
                candidate,
                sample,
                admission,
            )
        };
    let asked = seq![
        ControllerCall::OwnershipId { answer: ownership_id },
        ControllerCall::SamplingEpoch { answer: sampling_epoch },
    ];
    if admission is Ok {
        let (epoch, handled, outcome) = choose|
            custom_epoch: u64,
            handled: Seq<ControllerCall>,
            outcome: Result<HandoverFindings, FanArmingFailure>,
        |
            {
                &&& #[trigger] handover_went(
                    asked.push(ControllerCall::BeginCustomTransition { answer: custom_epoch }),
                    handled,
                    device,
                    sample.completed_at,
                    outcome,
                )
                &&& match outcome {
                    Ok(findings) => {
                        &&& calls == handled
                        &&& result matches Ok(armed) && armed@ == crate::arming::receipt_of(
                            findings,
                            device,
                            authority,
                            candidate,
                            custom_epoch,
                        )
                    },
                    Err(failure) => crate::arming::is_made_safe(
                        result,
                        handled,
                        calls,
                        device,
                        failure,
                    ),
                }
            };
        lemma_handed(
            asked.push(ControllerCall::BeginCustomTransition { answer: epoch }),
            handled,
            device,
            sample.completed_at,
            outcome,
        );
        if outcome is Err {
            assert(calls.drop_last() == handled);
            assert forall|i: int| 0 <= i < handled.len() implies #[trigger] calls[i]
                == handled[i] by {
                assert(calls.drop_last()[i] == calls[i]);
            }
        }
        (asked, epoch, handled, outcome)
    } else {
        (asked, 0u64, Seq::empty(), Err(admission->Err_0))
    }
}

/// A receipt stands for a handover that was made: under the authority's ownership and the sample's epoch,
/// from a fresh sample, with all four writes taken, both fans seen turning at 300 to 10000 revolutions
/// per minute within ten seconds, and both read back in Custom mode at the full duty after that. Its
/// moments are those at which the clock was read directly after each fan was first confirmed. Nothing
/// was restored.
pub proof fn receipts_stand_for_completed_handovers(
    armed: ArmedFanControl,
    calls: Seq<ControllerCall>,
    device: DeviceModel,
    authority: AuthorityModel,
    candidate: ConfigModel,
    sample: ArmingReadySample,
)
    requires
        is_handover_outcome(Ok(armed), calls, device, authority, candidate, sample),
    ensures
        ({
            let n = calls.len() as int;
            &&& n >= 38
            &&& calls[0] == (ControllerCall::OwnershipId { answer: armed@.ownership_id })
            &&& armed@.ownership_id == authority.ownership_id
            &&& sample.ownership_id == authority.ownership_id
            &&& calls[1] == (ControllerCall::SamplingEpoch { answer: sample.sampling_epoch })
            &&& calls[2] == (ControllerCall::BeginCustomTransition { answer: armed@.custom_epoch })
            &&& calls[3] matches ControllerCall::MonotonicNow { answer: started } && sample.completed_at
                <= started <= sample.completed_at + 2_000_000_000
            &&& calls[7] matches ControllerCall::WriteEndpoint { answer, .. } && answer is Ok
            &&& calls[8] matches ControllerCall::WriteEndpoint { answer, .. } && answer is Ok
            &&& calls[11] matches ControllerCall::WriteEndpoint { answer, .. } && answer is Ok
            &&& calls[12] matches ControllerCall::WriteEndpoint { answer, .. } && answer is Ok
            &&& calls[15] == (ControllerCall::MonotonicNow {
                answer: armed@.cpu_custom_confirmed_at,
            })
            &&& calls[18] == (ControllerCall::MonotonicNow {
                answer: armed@.gpu_custom_confirmed_at,
            })
            &&& calls[n - 8] matches ControllerCall::ReadEndpoint {
                fan: Fan::Cpu,
                endpoint: Endpoint::Tachometer,
                answer: Ok(text),
                ..
            } && unsigned_number(trimmed(text@), u32::MAX as nat) == Some(armed@.cpu_rpm as nat)
            &&& calls[n - 7] matches ControllerCall::ReadEndpoint {
                fan: Fan::Gpu,
                endpoint: Endpoint::Tachometer,
                answer: Ok(text),
                ..
            } && unsigned_number(trimmed(text@), u32::MAX as nat) == Some(armed@.gpu_rpm as nat)
            &&& 300 <= armed@.cpu_rpm <= 10_000 && 300 <= armed@.gpu_rpm <= 10_000
            &&& calls[n - 6] matches ControllerCall::ReadEndpoint {
                fan: Fan::Cpu,
                endpoint: Endpoint::Mode,
                answer: Ok(text),
                ..
            } && trimmed(text@) == "1"@
            &&& calls[n - 5] matches ControllerCall::ReadEndpoint {
                fan: Fan::Cpu,
                endpoint: Endpoint::Duty,
                answer: Ok(text),
                ..
            } && trimmed(text@) == "255"@
            &&& calls[n - 3] matches ControllerCall::ReadEndpoint {
                fan: Fan::Gpu,
                endpoint: Endpoint::Mode,
                answer: Ok(text),
                ..
            } && trimmed(text@) == "1"@
            &&& calls[n - 2] matches ControllerCall::ReadEndpoint {
                fan: Fan::Gpu,
                endpoint: Endpoint::Duty,
                answer: Ok(text),
                ..
            } && trimmed(text@) == "255"@
            &&& calls[n - 9] matches ControllerCall::MonotonicNow { answer: seen } && (
            calls[19] matches ControllerCall::MonotonicNow { answer: asked } && seen < asked
                + 10_000_000_000)
            &&& forall|i: int|
                0 <= i < n ==> !(#[trigger] calls[i] is RestoreOrContainFirmwareAuto)
            &&& is_covered(candidate, authority.protected)
            &&& armed@.config == candidate
            &&& armed@.device == device
            &&& armed@.cpu_calibration == authority.cpu_calibration
            &&& armed@.gpu_calibration == authority.gpu_calibration
        }),
{
    let (asked, epoch, handled, outcome) = lemma_outcome(
        Ok(armed),
        calls,
        device,
        authority,
        candidate,
        sample,
    );
    let earlier = asked.push(ControllerCall::BeginCustomTransition { answer: epoch });
    let deadline = lemma_handed(earlier, handled, device, sample.completed_at, outcome);
    let n = calls.len() as int;
    let moves = opening_moves(deadline);
    assert(calls == handled);
    assert(earlier[0] == asked[0] && earlier[1] == asked[1]);
    assert(calls[0] == earlier[0] && calls[1] == earlier[1] && calls[2] == earlier[2]);
    assert(moves[3] is Write && moves[4] is Write && moves[7] is Write && moves[8] is Write);
    assert(moves[3].tells(calls[7], device, Ok::<(), FanArmingFailure>(())));
    assert(moves[4].tells(calls[8], device, Ok::<(), FanArmingFailure>(())));
    assert(moves[7].tells(calls[11], device, Ok::<(), FanArmingFailure>(())));
    assert(moves[8].tells(calls[12], device, Ok::<(), FanArmingFailure>(())));
    let by = choose|by: u128|
        moves_went(
            calls.take(n - 6),
            calls,
            #[trigger] custom_at_maximum(FanArmingOperation::FinalConfirmCustom, by),
            device,
            None::<FanArmingFailure>,
        );
    let last = custom_at_maximum(FanArmingOperation::FinalConfirmCustom, by);
    let early = calls.take(n - 6);
    assert(last.len() == 6);
    assert(last[0] is Confirm && last[1] is Confirm && last[3] is Confirm && last[4] is Confirm);
    lemma_moved(early, calls, last, device, None, n - 6);
    lemma_moved(early, calls, last, device, None, n - 5);
    lemma_moved(early, calls, last, device, None, n - 3);
    lemma_moved(early, calls, last, device, None, n - 2);
    turning_fans_show_plausible_speeds(calls[n - 8]->ReadEndpoint_answer->Ok_0@);
    turning_fans_show_plausible_speeds(calls[n - 7]->ReadEndpoint_answer->Ok_0@);
    assert forall|i: int| 0 <= i < n implies !(
    #[trigger] calls[i] is RestoreOrContainFirmwareAuto) by {
        if i < 3 {
            assert(calls[i] == earlier[i]);
        }
    }
}

/// A handover that failed ends with one restoration of the device, and with it alone. The outcome of that
/// restoration shapes the error.
pub proof fn failed_handovers_end_with_one_restoration(
    error: FanArmingError,
    calls: Seq<ControllerCall>,
    device: DeviceModel,
    authority: AuthorityModel,
    candidate: ConfigModel,
    sample: ArmingReadySample,
)
    requires
        is_handover_outcome(Err(error), calls, device, authority, candidate, sample),
    ensures
        calls.len() > 2,
        calls.last() is RestoreOrContainFirmwareAuto,
        forall|i: int|
            0 <= i < calls.len() - 1 ==> !(#[trigger] calls[i] is RestoreOrContainFirmwareAuto),
{
    let (asked, epoch, handled, outcome) = lemma_outcome(
        Err(error),
        calls,
        device,
        authority,
        candidate,
        sample,
    );
    if handled.len() > 0 {
        let earlier = asked.push(ControllerCall::BeginCustomTransition { answer: epoch });
        lemma_handed(earlier, handled, device, sample.completed_at, outcome);
        assert forall|i: int| 0 <= i < calls.len() - 1 implies !(
        #[trigger] calls[i] is RestoreOrContainFirmwareAuto) by {
            assert(calls[i] == handled[i]);
            if i < 3 {
                assert(handled[i] == earlier[i]);
            }
        }
    } else {
        assert forall|i: int| 0 <= i < calls.len() - 1 implies !(
        #[trigger] calls[i] is RestoreOrContainFirmwareAuto) by {
            assert(calls[i] == calls.drop_last()[i]);
        }
    }
}

} // verus!
