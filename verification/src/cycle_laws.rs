//! What a control cycle does to the fans, told by the calls themselves.

use vstd::prelude::*;
use crate::acer_hwmon::{DeviceModel, DiscoveryErrorModel};
use crate::control_cycle::{
    is_cycle_outcome, CompletedControlCycle, ControlCycleOperation, ControlModel,
    HealthyControlCycleError,
};
use crate::controller_calls::ControllerCall;
use crate::cycle_steps::{
    duties_went, duty_moves, duty_went, fans_went, judgement_went, operation_failure, output_went,
    prior_moves, result_moves, result_went, speed_verdict, speed_went, speeds_went, CycleMove,
};
use crate::demand::FanOutputs;
use crate::endpoint_io::Endpoint;
use crate::moves::{failure_of, lemma_moves_go_on, moves_went, Move};
use crate::platform::{moment_after, PlatformError};
use crate::policy_calls::PolicyCall;
use crate::tachometer::{expected_rpm, Fan};
use crate::tachometer_policy::SupervisedFan;
use crate::text::{decimal_text_reads_back, trimmed, unsigned_number};

verus! {

/// A fan's duty among both fans' duties.
pub open spec fn duty_for(outputs: FanOutputs, fan: Fan) -> u8 {
    match fan {
        Fan::Cpu => outputs.cpu.duty(),
        Fan::Gpu => outputs.gpu.duty(),
    }
}

/// Whether a call is no write, or writes a fan's changed duty: to the duty endpoint of the device,
/// while both fans are held to Custom control.
pub open spec fn writes_only(
    call: ControllerCall,
    device: DeviceModel,
    previous: FanOutputs,
    proposed: FanOutputs,
    deadline: u128,
) -> bool {
    call matches ControllerCall::WriteEndpoint {
        device: written_on,
        fan,
        endpoint,
        modes,
        contents,
        deadline: by,
        ..
    } ==> {
        &&& written_on == device
        &&& by == deadline
        &&& endpoint is Duty
        &&& modes == ("1"@, "1"@)
        &&& duty_for(proposed, fan) != duty_for(previous, fan)
        &&& unsigned_number(contents, 255) == Some(duty_for(proposed, fan) as nat)
    }
}

/// The calls since others that make moves.
proof fn lemma_made(
    earlier: Seq<ControllerCall>,
    later: Seq<ControllerCall>,
    moves: Seq<CycleMove>,
    device: DeviceModel,
    failure: Option<HealthyControlCycleError>,
    index: int,
)
    requires
        moves_went(earlier, later, moves, device, failure),
        earlier.len() <= index < later.len(),
    ensures
        index - earlier.len() < moves.len(),
        exists|result: Result<(), HealthyControlCycleError>|
            #[trigger] moves[index - earlier.len()].tells(later[index], device, result),
        failure is None ==> moves[index - earlier.len()].tells(
            later[index],
            device,
            Ok::<(), HealthyControlCycleError>(()),
        ),
{
    reveal(moves_went);
    let i = index - earlier.len();
    if failure is Some && i == later.len() - earlier.len() - 1 {
        assert(moves[i].tells(
            later[index],
            device,
            Err::<(), HealthyControlCycleError>(failure->0),
        ));
    } else {
        assert(moves[i].tells(later[index], device, Ok::<(), HealthyControlCycleError>(())));
    }
}

/// Confirmations write nothing.
proof fn lemma_confirmations_do_not_write(
    earlier: Seq<ControllerCall>,
    later: Seq<ControllerCall>,
    outputs: FanOutputs,
    prior: bool,
    deadline: u128,
    device: DeviceModel,
    failure: Option<HealthyControlCycleError>,
)
    requires
        moves_went(
            earlier,
            later,
            if prior {
                prior_moves(outputs, deadline)
            } else {
                result_moves(outputs, deadline)
            },
            device,
            failure,
        ),
    ensures
        earlier.len() <= later.len(),
        forall|i: int| 0 <= i < earlier.len() ==> #[trigger] later[i] == earlier[i],
        forall|i: int| earlier.len() <= i < later.len() ==> !(#[trigger] later[i] is WriteEndpoint),
{
    let moves = if prior {
        prior_moves(outputs, deadline)
    } else {
        result_moves(outputs, deadline)
    };
    lemma_moves_go_on(earlier, later, moves, device, failure);
    assert forall|i: int| earlier.len() <= i < later.len() implies !(
    #[trigger] later[i] is WriteEndpoint) by {
        lemma_made(earlier, later, moves, device, failure, i);
        assert(!(moves[i - earlier.len()] is Write));
    }
}

/// A fan's changed duty is written once, and nothing else is.
proof fn lemma_duty_writes(
    earlier: Seq<ControllerCall>,
    later: Seq<ControllerCall>,
    fan: Fan,
    deadline: u128,
    before: ControlModel,
    outputs: FanOutputs,
    was: SupervisedFan,
    becomes: SupervisedFan,
    failure: Option<HealthyControlCycleError>,
)
    requires
        duty_went(
            earlier,
            later,
            before.device,
            fan,
            duty_for(before.last_outputs, fan),
            duty_for(outputs, fan),
            deadline,
            was,
            becomes,
            failure,
        ),
    ensures
        earlier.len() <= later.len(),
        forall|i: int| 0 <= i < earlier.len() ==> #[trigger] later[i] == earlier[i],
        forall|i: int|
            earlier.len() <= i < later.len() ==> writes_only(
                #[trigger] later[i],
                before.device,
                before.last_outputs,
                outputs,
                deadline,
            ) && (later[i] matches ControllerCall::WriteEndpoint { fan: f, .. } ==> f == fan),
        failure is None && duty_for(outputs, fan) != duty_for(before.last_outputs, fan) ==> {
            &&& later.len() == earlier.len() + 4
            &&& later[earlier.len() as int + 1] matches ControllerCall::WriteEndpoint {
                answer,
                ..
            } && answer is Ok
            &&& later[earlier.len() as int + 2] matches ControllerCall::ReadEndpoint {
                fan: f,
                endpoint,
                answer,
                ..
            } && f == fan && endpoint is Duty && (answer matches Ok(text) && unsigned_number(
                trimmed(text@),
                255,
            ) == Some(duty_for(outputs, fan) as nat))
            &&& later[earlier.len() as int + 3] matches ControllerCall::MonotonicNow { answer }
                && becomes.duty.confirmed_at == answer
            &&& becomes.duty.pwm == duty_for(outputs, fan)
        },
        failure is None && duty_for(outputs, fan) == duty_for(before.last_outputs, fan) ==> later
            == earlier && becomes == was,
        becomes.calibration == was.calibration,
{
    let next = duty_for(outputs, fan);
    if duty_for(before.last_outputs, fan) != next {
        let moves = duty_moves(fan, next, deadline);
        let made = if failure is Some {
            later
        } else {
            later.drop_last()
        };
        decimal_text_reads_back(next as nat, 255);
        lemma_moves_go_on(earlier, made, moves, before.device, failure);
        assert(moves.len() == 3);
        assert forall|i: int| earlier.len() <= i < made.len() implies writes_only(
            #[trigger] made[i],
            before.device,
            before.last_outputs,
            outputs,
            deadline,
        ) && (made[i] matches ControllerCall::WriteEndpoint { fan: f, .. } ==> f == fan) by {
            lemma_made(earlier, made, moves, before.device, failure, i);
        }
        if failure is None {
            let at = earlier.len() as int;
            lemma_made(earlier, made, moves, before.device, failure, at + 1);
            lemma_made(earlier, made, moves, before.device, failure, at + 2);
            assert(moves[1] is Write && moves[2] is Confirm);
            assert(later[at + 1] == made[at + 1]);
            assert(later[at + 2] == made[at + 2]);
        }
        assert forall|i: int| 0 <= i < earlier.len() implies #[trigger] later[i] == earlier[i] by {
            assert(made[i] == earlier[i]);
            assert(later[i] == made[i]);
        }
        assert forall|i: int| earlier.len() <= i < later.len() implies writes_only(
            #[trigger] later[i],
            before.device,
            before.last_outputs,
            outputs,
            deadline,
        ) && (later[i] matches ControllerCall::WriteEndpoint { fan: f, .. } ==> f == fan) by {
            if i < made.len() {
                assert(later[i] == made[i]);
            }
        }
    }
}

/// The calls that handle the fans write nothing but changed duties.
proof fn lemma_fans_writes(
    earlier: Seq<ControllerCall>,
    later: Seq<ControllerCall>,
    outputs: FanOutputs,
    deadline: u128,
    before: ControlModel,
    after: ControlModel,
    failure: Option<HealthyControlCycleError>,
)
    requires
        fans_went(earlier, later, outputs, deadline, before, after, failure),
    ensures
        earlier.len() <= later.len(),
        forall|i: int|
            earlier.len() <= i < later.len() ==> writes_only(
                #[trigger] later[i],
                before.device,
                before.last_outputs,
                outputs,
                deadline,
            ),
        forall|i: int| 0 <= i < earlier.len() ==> #[trigger] later[i] == earlier[i],
{
    let (prior, unconfirmed) = choose|
        between: Seq<ControllerCall>,
        unconfirmed: Option<HealthyControlCycleError>,
    |
        {
            &&& #[trigger] moves_went(
                earlier,
                between,
                prior_moves(before.last_outputs, deadline),
                before.device,
                unconfirmed,
            )
            &&& if unconfirmed is Some {
                later == between && failure == unconfirmed && after.cpu == before.cpu && after.gpu
                    == before.gpu
            } else {
                output_went(
                    between,
                    later,
                    outputs,
                    deadline,
                    before,
                    after.cpu,
                    after.gpu,
                    failure,
                )
            }
        };
    lemma_confirmations_do_not_write(
        earlier,
        prior,
        before.last_outputs,
        true,
        deadline,
        before.device,
        unconfirmed,
    );
    if unconfirmed is None {
        lemma_output_writes(
            prior,
            later,
            outputs,
            deadline,
            before,
            after.cpu,
            after.gpu,
            failure,
        );
        assert forall|i: int| 0 <= i < earlier.len() implies #[trigger] later[i] == earlier[i] by {
            assert(prior[i] == earlier[i]);
        }
        assert forall|i: int| earlier.len() <= i < later.len() implies writes_only(
            #[trigger] later[i],
            before.device,
            before.last_outputs,
            outputs,
            deadline,
        ) by {
            if i < prior.len() {
                assert(later[i] == prior[i]);
            }
        }
    }
}

proof fn lemma_output_writes(
    earlier: Seq<ControllerCall>,
    later: Seq<ControllerCall>,
    outputs: FanOutputs,
    deadline: u128,
    before: ControlModel,
    cpu: SupervisedFan,
    gpu: SupervisedFan,
    failure: Option<HealthyControlCycleError>,
)
    requires
        output_went(earlier, later, outputs, deadline, before, cpu, gpu, failure),
    ensures
        earlier.len() <= later.len(),
        forall|i: int| 0 <= i < earlier.len() ==> #[trigger] later[i] == earlier[i],
        forall|i: int|
            earlier.len() <= i < later.len() ==> writes_only(
                #[trigger] later[i],
                before.device,
                before.last_outputs,
                outputs,
                deadline,
            ),
{
    let (written, unwritten) = choose|
        between: Seq<ControllerCall>,
        unwritten: Option<HealthyControlCycleError>,
    |
        {
            &&& #[trigger] duties_went(
                earlier,
                between,
                outputs,
                deadline,
                before,
                cpu,
                gpu,
                unwritten,
            )
            &&& if unwritten is Some {
                later == between && failure == unwritten
            } else {
                result_went(
                    between,
                    later,
                    outputs,
                    deadline,
                    before.device,
                    cpu,
                    gpu,
                    failure,
                )
            }
        };
    lemma_duties_writes(earlier, written, outputs, deadline, before, cpu, gpu, unwritten);
    if unwritten is None {
        lemma_result_writes(
            written,
            later,
            outputs,
            deadline,
            before.device,
            cpu,
            gpu,
            failure,
        );
        assert forall|i: int| 0 <= i < earlier.len() implies #[trigger] later[i] == earlier[i] by {
            assert(written[i] == earlier[i]);
        }
        assert forall|i: int| earlier.len() <= i < later.len() implies writes_only(
            #[trigger] later[i],
            before.device,
            before.last_outputs,
            outputs,
            deadline,
        ) by {
            if i < written.len() {
                assert(later[i] == written[i]);
            }
        }
    }
}

proof fn lemma_duties_writes(
    earlier: Seq<ControllerCall>,
    later: Seq<ControllerCall>,
    outputs: FanOutputs,
    deadline: u128,
    before: ControlModel,
    cpu: SupervisedFan,
    gpu: SupervisedFan,
    failure: Option<HealthyControlCycleError>,
)
    requires
        duties_went(earlier, later, outputs, deadline, before, cpu, gpu, failure),
    ensures
        earlier.len() <= later.len(),
        forall|i: int| 0 <= i < earlier.len() ==> #[trigger] later[i] == earlier[i],
        forall|i: int|
            earlier.len() <= i < later.len() ==> writes_only(
                #[trigger] later[i],
                before.device,
                before.last_outputs,
                outputs,
                deadline,
            ),
        failure is None ==> forall|fan: Fan|
            #![trigger duty_for(outputs, fan)]
            duty_for(outputs, fan) != duty_for(before.last_outputs, fan) ==> exists|i: int|
                earlier.len() <= i < later.len() && (
                #[trigger] later[i] matches ControllerCall::WriteEndpoint { fan: f, answer, .. }
                    && f == fan && answer is Ok),
{
    let (between, cpu_failure) = choose|
        between: Seq<ControllerCall>,
        cpu_failure: Option<HealthyControlCycleError>,
    |
        {
            &&& #[trigger] duty_went(
                earlier,
                between,
                before.device,
                Fan::Cpu,
                before.last_outputs.cpu.duty(),
                outputs.cpu.duty(),
                deadline,
                before.cpu,
                cpu,
                cpu_failure,
            )
            &&& if cpu_failure is Some {
                later == between && gpu == before.gpu && failure == cpu_failure
            } else {
                duty_went(
                    between,
                    later,
                    before.device,
                    Fan::Gpu,
                    before.last_outputs.gpu.duty(),
                    outputs.gpu.duty(),
                    deadline,
                    before.gpu,
                    gpu,
                    failure,
                )
            }
        };
    lemma_duty_writes(
        earlier,
        between,
        Fan::Cpu,
        deadline,
        before,
        outputs,
        before.cpu,
        cpu,
        cpu_failure,
    );
    if cpu_failure is None {
        lemma_duty_writes(
            between,
            later,
            Fan::Gpu,
            deadline,
            before,
            outputs,
            before.gpu,
            gpu,
            failure,
        );
        assert forall|i: int| 0 <= i < earlier.len() implies #[trigger] later[i] == earlier[i] by {
            assert(between[i] == earlier[i]);
        }
        assert forall|i: int| earlier.len() <= i < later.len() implies writes_only(
            #[trigger] later[i],
            before.device,
            before.last_outputs,
            outputs,
            deadline,
        ) by {
            if i < between.len() {
                assert(later[i] == between[i]);
            }
        }
        if failure is None {
            assert forall|fan: Fan| #[trigger]
                duty_for(outputs, fan) != duty_for(before.last_outputs, fan) implies exists|i: int|
                earlier.len() <= i < later.len() && (
                #[trigger] later[i] matches ControllerCall::WriteEndpoint { fan: f, answer, .. }
                    && f == fan && answer is Ok) by {
                if fan is Cpu {
                    let at = earlier.len() as int + 1;
                    assert(later[at] == between[at]);
                } else {
                    let at = between.len() as int + 1;
                    assert(later[at] is WriteEndpoint);
                }
            }
        }
    }
}

proof fn lemma_result_writes(
    earlier: Seq<ControllerCall>,
    later: Seq<ControllerCall>,
    outputs: FanOutputs,
    deadline: u128,
    device: DeviceModel,
    cpu: SupervisedFan,
    gpu: SupervisedFan,
    failure: Option<HealthyControlCycleError>,
)
    requires
        result_went(earlier, later, outputs, deadline, device, cpu, gpu, failure),
    ensures
        earlier.len() <= later.len(),
        forall|i: int| 0 <= i < earlier.len() ==> #[trigger] later[i] == earlier[i],
        forall|i: int| earlier.len() <= i < later.len() ==> !(#[trigger] later[i] is WriteEndpoint),
        failure is None ==> {
            let n = later.len() as int;
            &&& n == earlier.len() + 14
            &&& moves_went(
                later.take(n - 5),
                later,
                result_moves(outputs, deadline),
                device,
                None::<HealthyControlCycleError>,
            )
            &&& speeds_went(
                later.take(n - 9),
                later.take(n - 5),
                deadline,
                device,
                cpu,
                gpu,
                None::<HealthyControlCycleError>,
            )
        },
{
    let (confirmed, unconfirmed) = choose|
        between: Seq<ControllerCall>,
        unconfirmed: Option<HealthyControlCycleError>,
    |
        {
            &&& #[trigger] moves_went(
                earlier,
                between,
                result_moves(outputs, deadline),
                device,
                unconfirmed,
            )
            &&& if unconfirmed is Some {
                later == between && failure == unconfirmed
            } else {
                judgement_went(between, later, outputs, deadline, device, cpu, gpu, failure)
            }
        };
    lemma_confirmations_do_not_write(
        earlier,
        confirmed,
        outputs,
        false,
        deadline,
        device,
        unconfirmed,
    );
    if unconfirmed is None {
        let (judged, misfit) = choose|
            between: Seq<ControllerCall>,
            misfit: Option<HealthyControlCycleError>,
        |
            {
                &&& #[trigger] speeds_went(confirmed, between, deadline, device, cpu, gpu, misfit)
                &&& if misfit is Some {
                    later == between && failure == misfit
                } else {
                    moves_went(between, later, result_moves(outputs, deadline), device, failure)
                }
            };
        lemma_speeds_do_not_write(confirmed, judged, deadline, device, cpu, gpu, misfit);
        if misfit is None {
            lemma_confirmations_do_not_write(
                judged,
                later,
                outputs,
                false,
                deadline,
                device,
                failure,
            );
        }
        assert forall|i: int| 0 <= i < earlier.len() implies #[trigger] later[i] == earlier[i] by {
            assert(confirmed[i] == earlier[i]);
            assert(judged[i] == confirmed[i]);
        }
        assert forall|i: int| earlier.len() <= i < later.len() implies !(
        #[trigger] later[i] is WriteEndpoint) by {
            if i < confirmed.len() {
                assert(later[i] == judged[i] && judged[i] == confirmed[i]);
            } else if i < judged.len() {
                assert(later[i] == judged[i]);
            }
        }
        if failure is None {
            lemma_moves_go_on(
                earlier,
                confirmed,
                result_moves(outputs, deadline),
                device,
                unconfirmed,
            );
            lemma_moves_go_on(judged, later, result_moves(outputs, deadline), device, failure);
            assert(result_moves(outputs, deadline).len() == 5);
            let n = later.len() as int;
            assert(later.take(n - 5) =~= judged);
            assert(later.take(n - 9) =~= confirmed) by {
                assert forall|i: int| 0 <= i < confirmed.len() implies later[i] == confirmed[i] by {
                    assert(judged[i] == confirmed[i]);
                    assert(later[i] == judged[i]);
                }
            }
        }
    }
}

proof fn lemma_speeds_do_not_write(
    earlier: Seq<ControllerCall>,
    later: Seq<ControllerCall>,
    deadline: u128,
    device: DeviceModel,
    cpu: SupervisedFan,
    gpu: SupervisedFan,
    failure: Option<HealthyControlCycleError>,
)
    requires
        speeds_went(earlier, later, deadline, device, cpu, gpu, failure),
    ensures
        earlier.len() <= later.len(),
        failure is None ==> later.len() == earlier.len() + 4,
        forall|i: int| 0 <= i < earlier.len() ==> #[trigger] later[i] == earlier[i],
        forall|i: int| earlier.len() <= i < later.len() ==> !(#[trigger] later[i] is WriteEndpoint),
{
    let (between, cpu_failure) = choose|
        between: Seq<ControllerCall>,
        cpu_failure: Option<HealthyControlCycleError>,
    |
        {
            &&& #[trigger] speed_went(
                earlier,
                between,
                device,
                Fan::Cpu,
                cpu,
                deadline,
                cpu_failure,
            )
            &&& if cpu_failure is Some {
                later == between && failure == cpu_failure
            } else {
                speed_went(between, later, device, Fan::Gpu, gpu, deadline, failure)
            }
        };
    lemma_speed_reads(earlier, between, device, Fan::Cpu, cpu, deadline, cpu_failure);
    if cpu_failure is None {
        lemma_speed_reads(between, later, device, Fan::Gpu, gpu, deadline, failure);
        assert forall|i: int| 0 <= i < earlier.len() implies #[trigger] later[i] == earlier[i] by {
            assert(between[i] == earlier[i]);
        }
        assert forall|i: int| earlier.len() <= i < later.len() implies !(
        #[trigger] later[i] is WriteEndpoint) by {
            if i < between.len() {
                assert(later[i] == between[i]);
            }
        }
    }
}

proof fn lemma_speed_reads(
    earlier: Seq<ControllerCall>,
    later: Seq<ControllerCall>,
    device: DeviceModel,
    fan: Fan,
    supervised: SupervisedFan,
    deadline: u128,
    failure: Option<HealthyControlCycleError>,
)
    requires
        speed_went(earlier, later, device, fan, supervised, deadline, failure),
    ensures
        earlier.len() < later.len(),
        forall|i: int| 0 <= i < earlier.len() ==> #[trigger] later[i] == earlier[i],
        forall|i: int| earlier.len() <= i < later.len() ==> !(#[trigger] later[i] is WriteEndpoint),
        failure is None ==> {
            &&& later.len() == earlier.len() + 2
            &&& later[earlier.len() as int] matches ControllerCall::ReadEndpoint {
                device: d,
                fan: f,
                endpoint,
                answer,
                ..
            }
            &&& d == device && f == fan && endpoint is Tachometer
            &&& answer matches Ok(contents)
            &&& later.last() matches ControllerCall::MonotonicNow { answer: observed_at }
            &&& speed_verdict(contents, fan, supervised, observed_at) is Ok
        },
{
    let answer = choose|answer: Result<String, PlatformError>|
        {
            let asked = #[trigger] earlier.push(
                ControllerCall::ReadEndpoint {
                    device,
                    fan,
                    endpoint: Endpoint::Tachometer,
                    deadline,
                    answer,
                },
            );
            match answer {
                Err(source) => later == asked && failure == Some(
                    operation_failure(fan, ControlCycleOperation::ReadTachometer, source),
                ),
                Ok(contents) => {
                    &&& later.len() > 0
                    &&& later.drop_last() == asked
                    &&& later.last() matches ControllerCall::MonotonicNow { answer: observed_at }
                        && failure == failure_of(
                        speed_verdict(contents, fan, supervised, observed_at),
                    )
                },
            }
        };
    let asked = earlier.push(
        ControllerCall::ReadEndpoint {
            device,
            fan,
            endpoint: Endpoint::Tachometer,
            deadline,
            answer,
        },
    );
    if answer is Ok {
        assert forall|i: int| 0 <= i < asked.len() implies #[trigger] later[i] == asked[i] by {
            assert(later.drop_last()[i] == asked[i]);
        }
    }
}

/// How a completed cycle handled the fans.
proof fn lemma_fans_done(
    earlier: Seq<ControllerCall>,
    later: Seq<ControllerCall>,
    outputs: FanOutputs,
    deadline: u128,
    before: ControlModel,
    after: ControlModel,
)
    requires
        fans_went(earlier, later, outputs, deadline, before, after, None),
    ensures
        ({
            let n = later.len() as int;
            let from = earlier.len() as int;
            &&& n >= from + 20
            &&& moves_went(
                earlier,
                later.take(from + 6),
                prior_moves(before.last_outputs, deadline),
                before.device,
                None::<HealthyControlCycleError>,
            )
            &&& moves_went(
                later.take(n - 5),
                later,
                result_moves(outputs, deadline),
                before.device,
                None::<HealthyControlCycleError>,
            )
            &&& speeds_went(
                later.take(n - 9),
                later.take(n - 5),
                deadline,
                before.device,
                after.cpu,
                after.gpu,
                None::<HealthyControlCycleError>,
            )
            &&& forall|fan: Fan|
                #![trigger duty_for(outputs, fan)]
                duty_for(outputs, fan) != duty_for(before.last_outputs, fan) ==> exists|i: int|
                    from + 6 <= i < n - 9 && (
                    #[trigger] later[i] matches ControllerCall::WriteEndpoint { fan: f, answer, .. }
                        && f == fan && answer is Ok)
        }),
{
    let failure = None::<HealthyControlCycleError>;
    let (prior, unconfirmed) = choose|
        between: Seq<ControllerCall>,
        unconfirmed: Option<HealthyControlCycleError>,
    |
        {
            &&& #[trigger] moves_went(
                earlier,
                between,
                prior_moves(before.last_outputs, deadline),
                before.device,
                unconfirmed,
            )
            &&& if unconfirmed is Some {
                later == between && failure == unconfirmed && after.cpu == before.cpu && after.gpu
                    == before.gpu
            } else {
                output_went(
                    between,
                    later,
                    outputs,
                    deadline,
                    before,
                    after.cpu,
                    after.gpu,
                    failure,
                )
            }
        };
    lemma_moves_go_on(
        earlier,
        prior,
        prior_moves(before.last_outputs, deadline),
        before.device,
        unconfirmed,
    );
    assert(prior_moves(before.last_outputs, deadline).len() == 6);
    let (written, unwritten) = choose|
        between: Seq<ControllerCall>,
        unwritten: Option<HealthyControlCycleError>,
    |
        {
            &&& #[trigger] duties_went(
                prior,
                between,
                outputs,
                deadline,
                before,
                after.cpu,
                after.gpu,
                unwritten,
            )
            &&& if unwritten is Some {
                later == between && failure == unwritten
            } else {
                result_went(
                    between,
                    later,
                    outputs,
                    deadline,
                    before.device,
                    after.cpu,
                    after.gpu,
                    failure,
                )
            }
        };
    lemma_duties_writes(
        prior,
        written,
        outputs,
        deadline,
        before,
        after.cpu,
        after.gpu,
        unwritten,
    );
    lemma_result_writes(
        written,
        later,
        outputs,
        deadline,
        before.device,
        after.cpu,
        after.gpu,
        failure,
    );
    let n = later.len() as int;
    let from = earlier.len() as int;
    assert forall|i: int| 0 <= i < prior.len() implies #[trigger] later[i] == prior[i] by {
        assert(written[i] == prior[i]);
    }
    assert(later.take(from + 6) =~= prior);
    assert forall|fan: Fan| #[trigger]
        duty_for(outputs, fan) != duty_for(before.last_outputs, fan) implies exists|i: int|
        from + 6 <= i < n - 9 && (
        #[trigger] later[i] matches ControllerCall::WriteEndpoint { fan: f, answer, .. } && f == fan
            && answer is Ok) by {
        let i = choose|i: int|
            prior.len() <= i < written.len() && (
            #[trigger] written[i] matches ControllerCall::WriteEndpoint { fan: f, answer, .. } && f
                == fan && answer is Ok);
        assert(later[i] == written[i]);
    }
}

/// Whatever a cycle comes to, each write puts a duty that the policy proposed to the duty endpoint of
/// its fan, spelled as a number, and only where that fan's duty was another one before. Both fans are
/// held to Custom control while it is written, and it has two seconds from the cycle's start.
pub proof fn only_proposed_duties_are_written(
    result: Result<CompletedControlCycle, HealthyControlCycleError>,
    calls: Seq<ControllerCall>,
    asked: Seq<PolicyCall>,
    before: ControlModel,
    after: ControlModel,
    index: int,
)
    requires
        is_cycle_outcome(result, calls, asked, before, after),
        0 <= index < calls.len(),
        calls[index] is WriteEndpoint,
    ensures
        asked.len() >= 2,
        asked[0] matches PolicyCall::Sample { answer: Ok(sample) } && calls[index] matches
            ControllerCall::WriteEndpoint { deadline, .. } && deadline == sample.cycle_started_at
            + 2_000_000_000,
        asked[1] matches PolicyCall::Propose { answer: Ok(proposed), .. } && calls[index] matches
            ControllerCall::WriteEndpoint { device, fan, endpoint, modes, contents, .. } && {
            &&& device == before.device
            &&& endpoint is Duty
            &&& modes.0 == "1"@ && modes.1 == "1"@
            &&& unsigned_number(contents, 255) == Some(
                match fan {
                    Fan::Cpu => proposed.cpu.duty() as nat,
                    Fan::Gpu => proposed.gpu.duty() as nat,
                },
            )
            &&& match fan {
                Fan::Cpu => proposed.cpu.duty() != before.last_outputs.cpu.duty(),
                Fan::Gpu => proposed.gpu.duty() != before.last_outputs.gpu.duty(),
            }
        },
{
    let earlier = seq![calls[0]];
    assert(calls[0] == earlier[0]);
    if calls.len() == 1 {
        assert(index == 0);
    }
    assert(calls != earlier) by {
        if calls == earlier {
            assert(index == 0);
        }
    }
    let proposed = asked[1]->Propose_answer->Ok_0;
    let sample = asked[0]->Sample_answer->Ok_0;
    let deadline = moment_after(sample.cycle_started_at, 2_000_000_000)->0;
    lemma_fans_writes(earlier, calls, proposed, deadline, before, after, failure_of(result));
    assert(writes_only(calls[index], before.device, before.last_outputs, proposed, deadline));
}

/// Without a current receipt a cycle asks nothing more. Without a sample, a moment two seconds after its
/// start or a proposal for it, the cycle ends with that failure and leaves the machine alone.
pub proof fn cycles_without_a_proposal_leave_the_machine_alone(
    result: Result<CompletedControlCycle, HealthyControlCycleError>,
    calls: Seq<ControllerCall>,
    asked: Seq<PolicyCall>,
    before: ControlModel,
    after: ControlModel,
)
    requires
        is_cycle_outcome(result, calls, asked, before, after),
    ensures
        calls[0] == (ControllerCall::CustomEpochIsCurrent {
            ownership_id: before.ownership_id,
            custom_epoch: before.custom_epoch,
            answer: asked.len() > 0,
        }),
        asked.len() == 0 ==> calls.len() == 1 && (result matches Err(error)
            && error is StaleArmingReceipt),
        asked.len() == 1 ==> {
            &&& calls.len() == 1
            &&& asked[0] matches PolicyCall::Sample { answer }
            &&& result matches Err(error)
            &&& match answer {
                Err(cause) => error == HealthyControlCycleError::Sample(cause),
                Ok(sample) => error is DeadlineOverflow && sample.cycle_started_at + 2_000_000_000
                    > 18_446_744_073_709_551_615_999_999_999,
            }
        },
        asked.len() >= 2 ==> {
            &&& asked[0] matches PolicyCall::Sample { answer: Ok(sample) }
            &&& sample.cycle_started_at + 2_000_000_000
                <= 18_446_744_073_709_551_615_999_999_999
            &&& asked[1] matches PolicyCall::Propose { config, sample: used, answer }
            &&& config@ == before.config
            &&& used == sample
            &&& answer matches Err(cause) ==> calls.len() == 1 && result == Err::<
                CompletedControlCycle,
                _,
            >(HealthyControlCycleError::PolicyClock(cause))
        },
        asked.len() <= 3,
        result is Ok <==> asked.len() == 3,
{
}

/// A completed cycle proposed duties for the sample it took, and committed them. It ended with both
/// fans read back in Custom mode at exactly the proposed duties, and the device found unchanged after
/// that. A duty that was to change was written before, and the machine took it; every other one was
/// read back before anything was written, too.
pub proof fn completed_cycles_leave_the_proposed_duties(
    cycle: CompletedControlCycle,
    calls: Seq<ControllerCall>,
    asked: Seq<PolicyCall>,
    before: ControlModel,
    after: ControlModel,
)
    requires
        is_cycle_outcome(Ok(cycle), calls, asked, before, after),
    ensures
        asked.len() == 3,
        asked[0] == (PolicyCall::Sample { answer: Ok(cycle.sample) }),
        asked[1] matches PolicyCall::Propose { sample, answer, .. } && sample == cycle.sample
            && answer == Ok::<FanOutputs, String>(cycle.outputs),
        asked[2] is Commit,
        calls.len() >= 21,
        calls[calls.len() - 5] matches ControllerCall::ReadEndpoint {
            fan: Fan::Cpu,
            endpoint: Endpoint::Mode,
            answer: Ok(text),
            ..
        } && trimmed(text@) == "1"@,
        calls[calls.len() - 4] matches ControllerCall::ReadEndpoint {
            fan: Fan::Cpu,
            endpoint: Endpoint::Duty,
            answer: Ok(text),
            ..
        } && unsigned_number(trimmed(text@), 255) == Some(cycle.outputs.cpu.duty() as nat),
        calls[calls.len() - 3] matches ControllerCall::ReadEndpoint {
            fan: Fan::Gpu,
            endpoint: Endpoint::Mode,
            answer: Ok(text),
            ..
        } && trimmed(text@) == "1"@,
        calls[calls.len() - 2] matches ControllerCall::ReadEndpoint {
            fan: Fan::Gpu,
            endpoint: Endpoint::Duty,
            answer: Ok(text),
            ..
        } && unsigned_number(trimmed(text@), 255) == Some(cycle.outputs.gpu.duty() as nat),
        calls.last() matches ControllerCall::CheckDevice { device, answer, .. } && device
            == before.device && answer == Ok::<bool, DiscoveryErrorModel>(true),
        cycle.outputs.cpu.duty() != before.last_outputs.cpu.duty() ==> exists|i: int|
            7 <= i < calls.len() - 9 && (#[trigger] calls[i] matches ControllerCall::WriteEndpoint {
                fan: Fan::Cpu,
                answer: Ok(_),
                ..
            }),
        cycle.outputs.gpu.duty() != before.last_outputs.gpu.duty() ==> exists|i: int|
            7 <= i < calls.len() - 9 && (#[trigger] calls[i] matches ControllerCall::WriteEndpoint {
                fan: Fan::Gpu,
                answer: Ok(_),
                ..
            }),
        forall|i: int| 0 <= i < 7 ==> !(#[trigger] calls[i] is WriteEndpoint),
        calls[1] matches ControllerCall::CheckDevice { answer, .. } && answer == Ok::<
            bool,
            DiscoveryErrorModel,
        >(true),
        calls[3] matches ControllerCall::ReadEndpoint {
            fan: Fan::Cpu,
            endpoint: Endpoint::Duty,
            answer: Ok(text),
            ..
        } && unsigned_number(trimmed(text@), 255) == Some(
            before.last_outputs.cpu.duty() as nat,
        ),
        calls[5] matches ControllerCall::ReadEndpoint {
            fan: Fan::Gpu,
            endpoint: Endpoint::Duty,
            answer: Ok(text),
            ..
        } && unsigned_number(trimmed(text@), 255) == Some(
            before.last_outputs.gpu.duty() as nat,
        ),
        after.last_outputs == cycle.outputs,
{
    let earlier = seq![calls[0]];
    let proposed = cycle.outputs;
    let deadline = moment_after(cycle.sample.cycle_started_at, 2_000_000_000)->0;
    let none = None::<HealthyControlCycleError>;
    assert(failure_of(Ok::<CompletedControlCycle, HealthyControlCycleError>(cycle)) == none);
    lemma_fans_done(earlier, calls, proposed, deadline, before, after);
    let n = calls.len() as int;
    let device = before.device;
    decimal_text_reads_back(proposed.cpu.duty() as nat, 255);
    decimal_text_reads_back(proposed.gpu.duty() as nat, 255);
    decimal_text_reads_back(before.last_outputs.cpu.duty() as nat, 255);
    decimal_text_reads_back(before.last_outputs.gpu.duty() as nat, 255);
    let last = result_moves(proposed, deadline);
    let early = calls.take(n - 5);
    lemma_made(early, calls, last, device, none, n - 5);
    lemma_made(early, calls, last, device, none, n - 4);
    lemma_made(early, calls, last, device, none, n - 3);
    lemma_made(early, calls, last, device, none, n - 2);
    lemma_made(early, calls, last, device, none, n - 1);
    assert(last.len() == 5);
    assert(last[0] is Confirm && last[1] is Confirm && last[2] is Confirm && last[3] is Confirm
        && last[4] is Verify);
    let first = prior_moves(before.last_outputs, deadline);
    let opened = calls.take(7);
    assert(first.len() == 6);
    assert forall|i: int| 1 <= i < 7 implies #[trigger] calls[i] == opened[i] && first[i - 1].tells(
        calls[i],
        device,
        Ok::<(), HealthyControlCycleError>(()),
    ) by {
        lemma_made(earlier, opened, first, device, none, i);
        assert(calls[i] == opened[i]);
    }
    assert(first[0] is Verify && first[1] is Confirm && first[2] is Confirm && first[3] is Confirm
        && first[4] is Confirm && first[5] is Verify);
    assert(first[0].tells(calls[1], device, Ok::<(), HealthyControlCycleError>(())));
    assert(first[2].tells(calls[3], device, Ok::<(), HealthyControlCycleError>(())));
    assert(first[4].tells(calls[5], device, Ok::<(), HealthyControlCycleError>(())));
    assert forall|i: int| 0 <= i < 7 implies !(#[trigger] calls[i] is WriteEndpoint) by {
        if i > 0 {
            assert(first[i - 1].tells(calls[i], device, Ok::<(), HealthyControlCycleError>(())));
            assert(!(first[i - 1] is Write));
        }
    }
    assert(duty_for(proposed, Fan::Cpu) == proposed.cpu.duty());
    assert(duty_for(proposed, Fan::Gpu) == proposed.gpu.duty());
}

/// A completed cycle read both fans' speeds after their duties were confirmed. A speed within 30
/// percent of the expected one is accepted at any time; one outside of it only until the response
/// deadline after the moment at which the fan's duty was last confirmed. A duty that changed in this
/// cycle counts from this cycle on.
pub proof fn completed_cycles_supervise_both_speeds(
    cycle: CompletedControlCycle,
    calls: Seq<ControllerCall>,
    asked: Seq<PolicyCall>,
    before: ControlModel,
    after: ControlModel,
    fan: Fan,
)
    requires
        is_cycle_outcome(Ok(cycle), calls, asked, before, after),
    ensures
        ({
            let at = calls.len() - (if fan is Cpu {
                9int
            } else {
                7int
            });
            let supervised = if fan is Cpu {
                after.cpu
            } else {
                after.gpu
            };
            &&& at > 7
            &&& calls[at] matches ControllerCall::ReadEndpoint {
                device,
                fan: read,
                endpoint: Endpoint::Tachometer,
                answer: Ok(text),
                ..
            } && device == before.device && read == fan && (calls[at
                + 1] matches ControllerCall::MonotonicNow { answer: observed_at } && (unsigned_number(
                trimmed(text@),
                u32::MAX as nat,
            ) matches Some(rpm) && (expected_rpm(
                supervised.calibration.anchors,
                supervised.duty.pwm,
            ) matches Some(expected) && ({
                ||| observed_at <= supervised.duty.confirmed_at
                    + supervised.calibration.response_deadline_millis * 1_000_000
                ||| 7 * expected <= 10 * rpm <= 13 * expected
            }))))
        }),
{
    let earlier = seq![calls[0]];
    let deadline = moment_after(cycle.sample.cycle_started_at, 2_000_000_000)->0;
    let none = None::<HealthyControlCycleError>;
    assert(failure_of(Ok::<CompletedControlCycle, HealthyControlCycleError>(cycle)) == none);
    lemma_fans_done(earlier, calls, cycle.outputs, deadline, before, after);
    let n = calls.len() as int;
    let start = calls.take(n - 9);
    let end = calls.take(n - 5);
    let (between, cpu_failure) = choose|
        between: Seq<ControllerCall>,
        cpu_failure: Option<HealthyControlCycleError>,
    |
        {
            &&& #[trigger] speed_went(
                start,
                between,
                before.device,
                Fan::Cpu,
                after.cpu,
                deadline,
                cpu_failure,
            )
            &&& if cpu_failure is Some {
                end == between && none == cpu_failure
            } else {
                speed_went(between, end, before.device, Fan::Gpu, after.gpu, deadline, none)
            }
        };
    lemma_speed_reads(start, between, before.device, Fan::Cpu, after.cpu, deadline, cpu_failure);
    lemma_speed_reads(between, end, before.device, Fan::Gpu, after.gpu, deadline, none);
    assert(calls[n - 9] == end[n - 9] && end[n - 9] == between[n - 9]);
    assert(calls[n - 8] == end[n - 8] && end[n - 8] == between[n - 8]);
    assert(calls[n - 7] == end[n - 7]);
    assert(calls[n - 6] == end[n - 6]);
}

} // verus!
