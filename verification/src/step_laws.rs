//! What each step of a run is held to: how long it has, and when it leaves a fault.

use vstd::prelude::*;
use crate::acer_hwmon::DeviceModel;
use crate::baseline::{
    after_launch, after_stop, bounded_demand, modes_were_read, BaselineCleanupAttestation,
    BaselineRunModel, ModeReading,
};
use crate::baseline_calls::BaselineCall;
use crate::baseline_record::readbacks_for;
use crate::baseline_steps::{BaselineAnswers, BaselineState, StopAnswers};
use crate::endurance::{after_segment_request, after_shutdown_check, segment_is_due};
use crate::endurance_record::{segment_entered_on_time, utilization_matches};
use crate::endurance_schedule::{segment, segment_start, SupervisedEnduranceLoad};
use crate::endurance_shutdown::{
    after_containment, after_restore_request, containment_is_confirmed, fan_deadline, ShutdownModel,
    SupervisedEnduranceFanContainment, SupervisedEnduranceSegmentConfirmation,
};
use crate::endurance_steps::{
    after_endurance_launch, after_segment_change, after_step_request, confirms_segment,
    step_deadline, EnduranceModel,
};
use crate::evidence::{
    EvidenceFan, EvidenceTimestamp, FanReadbackEvidence, FanReadbackField, StateTransitionEvidence,
    WorkloadEvidence,
};
use crate::handover_steps::pause_before;
use crate::machine::{Calls, MachineCall};
use crate::matched_calls::MatchedCall;
use crate::matched_control::{ControlModel, TachometerExpectation};
use crate::matched_steps::{
    captured_state, entry_state, launch_state, restoration_state, stop_state, MatchedState,
    SampleAnswers,
};
use crate::matched_workload::{
    after_entry, after_matched_launch, after_matched_stop, after_request, after_restoration,
    MatchedRunModel, MatchedWorkloadFanRestoration,
};
use crate::run_log::FaultModel;
use crate::text::trimmed;

verus! {

/// Between two looks at the tachometers a quarter of a second passes, and less where the deadline is
/// nearer.
pub proof fn pauses_last_a_quarter_second(deadline: u128, now: u128)
    requires
        now < deadline,
    ensures
        0 < pause_before(deadline, now) <= 250_000_000,
        now + pause_before(deadline, now) <= deadline,
        pause_before(deadline, now) == 250_000_000 || now + pause_before(deadline, now) == deadline,
{
}

/// A baseline's fan modes are read within a tenth of a second of asking for the time.
pub proof fn modes_are_read_within_a_tenth_second(
    before: Calls,
    after: Calls,
    device: DeviceModel,
    reading: ModeReading,
)
    requires
        modes_were_read(before, after, Some(device), reading),
    ensures
        exists|asked: Calls, now: u128|
            {
                &&& asked == before.push(MachineCall::MonotonicNow { answer: now })
                &&& {
                    ||| reading is DeadlineOverflowed && after == asked
                    ||| #[trigger] crate::baseline::reading_came(
                        asked,
                        after,
                        device,
                        (now + 100_000_000) as u128,
                        reading,
                    )
                }
            },
{
    reveal(modes_were_read);
    let (asked, now) = choose|asked: Calls, now: u128|
        #[trigger] crate::platform::now_came(before, asked, now)
            && match crate::platform::moment_after(now, 100_000_000) {
            None => after == asked && reading is DeadlineOverflowed,
            Some(deadline) => crate::baseline::reading_came(
                asked,
                after,
                device,
                deadline,
                reading,
            ),
        };
    assert(crate::baseline::reading_came(
        asked,
        after,
        device,
        (now + 100_000_000) as u128,
        reading,
    ) || (reading is DeadlineOverflowed && after == asked));
}

/// A demand over the full scale counts as none, and any other as itself.
pub proof fn demands_stay_within_the_scale(demand: Option<u16>)
    ensures
        bounded_demand(demand) matches Some(share) ==> share <= 10_000 && demand == Some(share),
        demand matches Some(share) ==> (share <= 10_000 ==> bounded_demand(demand) == demand),
{
}

/// A readback belongs to a sample exactly where it is the fan's own, of that phase, and came within a
/// tenth of a second after it.
pub proof fn readbacks_follow_their_sample(
    fan: EvidenceFan,
    sample_at: EvidenceTimestamp,
    readback: FanReadbackEvidence,
)
    ensures
        readbacks_for(fan, sample_at)(readback) <==> {
            &&& readback.fan == fan
            &&& readback.phase matches Some(phase)
            &&& phase is Sample
            &&& sample_at.monotonic_millis <= readback.timestamp.monotonic_millis
            &&& readback.timestamp.monotonic_millis <= sample_at.monotonic_millis + 100
        },
{
}

/// A baseline's workload counts as started exactly where it was launched by the deadline, at a moment
/// within the launch and after Firmware Auto was confirmed; else a fault is left.
pub proof fn launches_are_dated_within_their_window(
    m: BaselineRunModel,
    requested_at: EvidenceTimestamp,
    deadline: u64,
    completed_at: EvidenceTimestamp,
    confirmed_at: Option<EvidenceTimestamp>,
    result: Result<EvidenceTimestamp, String>,
)
    requires
        m.faults.len() == 0,
        m.workload_started_at is None,
    ensures
        ({
            let after = after_launch(
                m,
                requested_at,
                deadline,
                completed_at,
                confirmed_at,
                result,
            );
            let good = completed_at.monotonic_millis <= deadline && (result matches Ok(source)
                && crate::baseline::launch_is_in_window(
                source,
                requested_at,
                completed_at,
                confirmed_at,
            ));
            &&& after.faults.len() == 0 <==> good
            &&& after.workload_started_at is Some <==> good
            &&& good ==> after.workload_started_at == Some(result->Ok_0)
        }),
{
}

/// A baseline's workload is stopped without a fault exactly where the stop was confirmed by the deadline
/// and the cleanup after it wrote no fan control.
pub proof fn stops_are_quiet_and_in_time(
    m: BaselineRunModel,
    deadline: u64,
    stopped_at: EvidenceTimestamp,
    result: Result<(), String>,
    cleanup: (Result<BaselineCleanupAttestation, String>, EvidenceTimestamp),
)
    ensures
        after_stop(m, deadline, stopped_at, result, Some(cleanup)).faults.len() == m.faults.len()
            <==> {
            &&& result is Ok
            &&& stopped_at.monotonic_millis <= deadline
            &&& cleanup.0 matches Ok(attestation)
            &&& attestation.fan_control_write_count == 0
        },
        after_stop(m, deadline, stopped_at, result, Some(cleanup)).faults.len() >= m.faults.len(),
        after_stop(m, deadline, stopped_at, result, Some(cleanup)).samples == m.samples,
{
}

/// A matched run enters Custom control without a fault exactly where the handover was confirmed, no
/// earlier than asked for and by the deadline. Only then is the change noted.
pub proof fn matched_runs_enter_in_time(
    m: MatchedRunModel,
    requested_at: EvidenceTimestamp,
    deadline: u64,
    completed_at: EvidenceTimestamp,
    result: Result<(), String>,
)
    requires
        m.faults.len() == 0,
    ensures
        ({
            let after = after_entry(m, requested_at, deadline, completed_at, result);
            let good = result is Ok && requested_at.monotonic_millis
                <= completed_at.monotonic_millis <= deadline;
            &&& after.faults.len() == 0 <==> good
            &&& good ==> {
                &&& after.transitions.len() == m.transitions.len() + 1
                &&& after.transitions.last().from == "firmware-auto"@
                &&& after.transitions.last().to == "custom-control"@
                &&& after.transitions.last().timestamp == completed_at
            }
            &&& !good ==> after.transitions == m.transitions
        }),
{
}

/// A matched run's workload counts as started exactly where it was launched by the deadline, at a moment
/// within the launch; else a fault is left.
pub proof fn matched_launches_are_dated_within_their_window(
    m: MatchedRunModel,
    requested_at: EvidenceTimestamp,
    deadline: u64,
    completed_at: EvidenceTimestamp,
    result: Result<EvidenceTimestamp, String>,
)
    requires
        m.faults.len() == 0,
        m.workload_started_at is None,
    ensures
        ({
            let after = after_matched_launch(m, requested_at, deadline, completed_at, result);
            let good = completed_at.monotonic_millis <= deadline && (result matches Ok(source)
                && requested_at.monotonic_millis <= source.monotonic_millis
                <= completed_at.monotonic_millis);
            &&& after.faults.len() == 0 <==> good
            &&& after.workload_started_at is Some <==> good
            &&& good ==> after.workload_started_at == Some(result->Ok_0)
        }),
{
}

/// A matched run's workload is stopped without a fault exactly where the stop was confirmed between its
/// request and the deadline.
pub proof fn matched_stops_are_in_time(
    m: MatchedRunModel,
    boundary: EvidenceTimestamp,
    deadline: u64,
    stopped_at: EvidenceTimestamp,
    result: Result<(), String>,
)
    ensures
        after_matched_stop(m, boundary, deadline, stopped_at, result).faults.len() == m.faults.len()
            <==> result is Ok && boundary.monotonic_millis <= stopped_at.monotonic_millis
            <= deadline,
        after_matched_stop(m, boundary, deadline, stopped_at, result).samples == m.samples,
{
}

/// A request leaves a fault where the clock went back before it, and one where it has no five seconds
/// left.
pub proof fn requests_need_a_clock_that_goes_on(
    m: MatchedRunModel,
    requested_at: EvidenceTimestamp,
    code: Seq<char>,
    regressed: Seq<char>,
    overflowed: Seq<char>,
)
    requires
        requested_at.monotonic_millis + 5_000 <= u64::MAX,
        m.not_before.monotonic_millis + 5_000 <= u64::MAX,
    ensures
        after_request(m, requested_at, code, regressed, overflowed).faults.len() == m.faults.len()
            <==> m.not_before.monotonic_millis <= requested_at.monotonic_millis,
{
}

/// A fan's restoration is noted as it was answered, and read back as confirmed exactly where it reads
/// back Firmware Auto; it leaves no fault exactly where it ended between its request and the deadline.
pub proof fn restorations_are_noted_as_answered(
    m: MatchedRunModel,
    fan: EvidenceFan,
    boundary: EvidenceTimestamp,
    deadline: u64,
    completed_at: EvidenceTimestamp,
    restoration: MatchedWorkloadFanRestoration,
)
    ensures
        ({
            let after = after_restoration(m, fan, boundary, deadline, completed_at, restoration);
            &&& after.faults.len() == m.faults.len() <==> boundary.monotonic_millis
                <= completed_at.monotonic_millis <= deadline
            &&& after.attempts.len() == m.attempts.len() + 1
            &&& after.attempts.last().fan == fan
            &&& after.attempts.last().auto_write_succeeded == restoration.auto_write_succeeded
            &&& after.attempts.last().enable_readback == restoration.enable_readback
            &&& after.attempts.last().outcome == restoration.outcome
            &&& after.readbacks.len() == m.readbacks.len() + 1
            &&& after.readbacks.last().fan == fan
            &&& after.readbacks.last().field is Enable
            &&& after.readbacks.last().value == restoration.enable_readback
            &&& after.readbacks.last().outcome is Confirmed
                <==> crate::matched_workload::reads_back_auto(
                m.control,
                fan,
                boundary,
                deadline,
                completed_at,
                restoration,
            )
        }),
{
}

/// A matched run has five seconds to enter Custom control, ten to launch its workload, and five to stop
/// it and to restore each fan.
pub proof fn matched_steps_have_their_time(
    before: MatchedState,
    requested_at: EvidenceTimestamp,
    workload: WorkloadEvidence,
    entered: Result<(), String>,
    launched: Result<EvidenceTimestamp, String>,
    stopped: Result<(), String>,
    fan: EvidenceFan,
    restored: MatchedWorkloadFanRestoration,
    completed_at: EvidenceTimestamp,
)
    requires
        requested_at.monotonic_millis + 10_000 <= u64::MAX,
        before.run.not_before.monotonic_millis <= requested_at.monotonic_millis,
    ensures
        ({
            let n = before.calls.len() as int;
            let at = requested_at.monotonic_millis;
            &&& entry_state(before, requested_at, entered, completed_at).calls[n + 1]
                matches MatchedCall::EnterCustomControl { deadline, answer } && deadline == at
                + 5_000 && answer == entered
            &&& launch_state(before, requested_at, workload, launched, completed_at).calls[n + 1]
                matches MatchedCall::StartWorkload { workload: run, deadline, answer } && deadline
                == at + 10_000 && run == workload && answer == launched
            &&& stop_state(before, requested_at, stopped, completed_at).calls[n + 1]
                matches MatchedCall::StopWorkload { deadline, answer } && deadline == at + 5_000
                && answer == stopped
            &&& restoration_state(before, fan, requested_at, restored, completed_at).calls[n + 1]
                matches MatchedCall::RestoreFan { fan: asked, deadline, answer } && deadline == at
                + 5_000 && asked == fan && answer == restored
        }),
{
}

/// A step of an endurance run has five seconds from its request, and none where the clock went back.
pub proof fn endurance_steps_have_five_seconds(
    m: EnduranceModel,
    observed_at: EvidenceTimestamp,
    code: Seq<char>,
    regressed: Seq<char>,
)
    requires
        observed_at.monotonic_millis + 10_000 <= u64::MAX,
    ensures
        step_deadline(m, observed_at) is Some <==> m.not_before.monotonic_millis
            <= observed_at.monotonic_millis,
        step_deadline(m, observed_at) matches Some(deadline) ==> deadline
            == observed_at.monotonic_millis + 5_000,
        after_step_request(m, observed_at, code, regressed).faults.len() == m.faults.len()
            <==> m.not_before.monotonic_millis <= observed_at.monotonic_millis,
{
}

/// A segment changes without a fault exactly where the next one was confirmed, at or after its boundary,
/// between the request and the answer, and by the deadline. Only then is it the run's segment.
pub proof fn segments_change_at_their_boundary(
    m: EnduranceModel,
    next: int,
    boundary: u64,
    deadline: u64,
    requested_at: EvidenceTimestamp,
    completed_at: EvidenceTimestamp,
    result: Result<SupervisedEnduranceSegmentConfirmation, String>,
)
    ensures
        ({
            let after = after_segment_change(
                m,
                next,
                boundary,
                deadline,
                requested_at,
                completed_at,
                result,
            );
            let good = result matches Ok(confirmation) && {
                &&& confirms_segment(confirmation, segment(next))
                &&& boundary <= confirmation.observed_at.monotonic_millis
                &&& requested_at.monotonic_millis <= confirmation.observed_at.monotonic_millis
                &&& confirmation.observed_at.monotonic_millis <= completed_at.monotonic_millis
                &&& completed_at.monotonic_millis <= deadline
            };
            &&& after.faults.len() == m.faults.len() <==> good
            &&& good ==> {
                &&& after.segment == next
                &&& after.transitions.len() == m.transitions.len() + 1
                &&& after.transitions.last().from == segment(m.segment).id@
                &&& after.transitions.last().to == segment(next).id@
            }
            &&& !good ==> after.segment == m.segment && after.transitions == m.transitions
        }),
{
}

/// A segment may be asked for until two seconds after its boundary, which counts from the workload's
/// start; a later or an earlier moment than the run's last leaves a fault and changes nothing.
pub proof fn segments_are_asked_for_in_time(
    m: EnduranceModel,
    next: int,
    asked_at: EvidenceTimestamp,
    asked: EnduranceModel,
    answer: Result<SupervisedEnduranceSegmentConfirmation, String>,
    ended_at: EvidenceTimestamp,
)
    requires
        m.workload_started_at is Some,
        m.workload_started_at->0.monotonic_millis + segment_start(next) + 2_000 <= u64::MAX,
        m.workload_started_at->0.monotonic_millis + segment_start(next) >= 0,
    ensures
        ({
            let start = m.workload_started_at->0.monotonic_millis + segment_start(next);
            let in_time = m.not_before.monotonic_millis <= asked_at.monotonic_millis <= start
                + 2_000;
            &&& segment_is_due(m, next, asked_at) <==> in_time
            &&& !in_time ==> {
                let after = after_segment_request(m, next, asked_at, asked, answer, ended_at);
                &&& after.faults.len() == m.faults.len() + 1
                &&& after.segment == m.segment
                &&& after.transitions == m.transitions
            }
            &&& in_time ==> after_segment_request(m, next, asked_at, asked, answer, ended_at)
                == after_segment_change(
                asked,
                next,
                start as u64,
                (start + 2_000) as u64,
                asked_at,
                ended_at,
                answer,
            )
        }),
{
}

/// A recorded segment was entered on time exactly where it was entered at its boundary or within two
/// seconds after it.
pub proof fn recorded_segments_are_entered_on_time(
    transitions: Seq<StateTransitionEvidence>,
    index: int,
    started: EvidenceTimestamp,
)
    requires
        started.monotonic_millis + segment_start(index) + 2_000 <= u64::MAX,
        started.monotonic_millis + segment_start(index) >= 0,
    ensures
        segment_entered_on_time(transitions, index, started) <==> started.monotonic_millis
            + segment_start(index) <= transitions[index + 1].timestamp.monotonic_millis
            <= started.monotonic_millis + segment_start(index) + 2_000,
{
}

/// A load keeps both processors at least half busy, and an idle part at most a tenth.
pub proof fn loads_keep_both_processors_busy(
    cpu: Option<u16>,
    gpu: Option<u16>,
    load: SupervisedEnduranceLoad,
)
    ensures
        utilization_matches(cpu, gpu, load) <==> {
            &&& cpu matches Some(c)
            &&& gpu matches Some(g)
            &&& c <= 10_000 && g <= 10_000
            &&& load is Load ==> c >= 5_000 && g >= 5_000
            &&& load is Idle ==> c <= 1_000 && g <= 1_000
        },
{
}

/// A fan has five seconds to be given back or contained, and a request leaves no fault exactly where the
/// clock did not go back.
pub proof fn fans_have_five_seconds(
    faults: Seq<FaultModel>,
    not_before: EvidenceTimestamp,
    observed_at: EvidenceTimestamp,
)
    requires
        observed_at.monotonic_millis + 5_000 <= u64::MAX,
        not_before.monotonic_millis + 5_000 <= u64::MAX,
    ensures
        fan_deadline(observed_at) == observed_at.monotonic_millis + 5_000,
        after_restore_request(faults, not_before, observed_at).len() == faults.len()
            <==> not_before.monotonic_millis <= observed_at.monotonic_millis,
{
}

/// A containment always leaves a fault, for the fan was not given back. It is noted with both readbacks,
/// mode and duty, and as confirmed exactly where it is.
pub proof fn containments_are_never_clean(
    m: ShutdownModel,
    control: ControlModel,
    fan: EvidenceFan,
    asked_at: EvidenceTimestamp,
    containment: SupervisedEnduranceFanContainment,
    answered_at: EvidenceTimestamp,
)
    requires
        m.not_before.monotonic_millis <= asked_at.monotonic_millis,
        asked_at.monotonic_millis <= answered_at.monotonic_millis,
        asked_at.monotonic_millis + 5_000 <= u64::MAX,
    ensures
        ({
            let after = after_containment(m, control, fan, asked_at, containment, answered_at);
            let deadline = asked_at.monotonic_millis + 5_000;
            &&& after.faults.len() == m.faults.len() + 1
            &&& after.readbacks.len() == m.readbacks.len() + 2
            &&& after.attempts.len() == m.attempts.len() + 1
            &&& after.attempts.last().fan == fan
            &&& !after.attempts.last().auto_write_succeeded
            &&& after.attempts.last().outcome is MaximumContainmentConfirmed
                <==> containment_is_confirmed(control, fan, deadline, later_of_two(
                answered_at,
                asked_at,
            ), containment)
        }),
{
}

/// A baseline has ten seconds to launch its workload and five to stop it, and the cleanup is asked for
/// exactly where the stop was confirmed.
pub proof fn baseline_steps_have_their_time(
    before: BaselineState,
    confirmed_at: Option<EvidenceTimestamp>,
    requested_at: EvidenceTimestamp,
    workload: WorkloadEvidence,
    launched: Result<EvidenceTimestamp, String>,
    completed_at: EvidenceTimestamp,
    answers: StopAnswers,
)
    requires
        requested_at.monotonic_millis + 10_000 <= u64::MAX,
        answers.requested_at == requested_at,
    ensures
        ({
            let n = before.calls.len() as int;
            let at = requested_at.monotonic_millis;
            let ended = crate::baseline_steps::stop_state(before, answers).calls;
            &&& crate::baseline_steps::launch_state(
                before,
                confirmed_at,
                requested_at,
                workload,
                launched,
                completed_at,
            ).calls[n + 1] matches BaselineCall::StartWorkload { workload: run, deadline, answer }
                && deadline == at + 10_000 && run == workload && answer == launched
            &&& ended[n + 1] matches BaselineCall::StopWorkload { deadline, answer } && deadline
                == at + 5_000 && answer == answers.stopped
            &&& answers.stopped is Ok ==> ended[n + 3] == (BaselineCall::CleanupAfterWorkload {
                answer: answers.cleaned,
            })
            &&& answers.stopped is Err ==> ended.len() == n + 3
        }),
{
}

/// Samples fall due every two seconds from the workload's start, and each is captured within a tenth of
/// a second of that.
pub proof fn samples_are_captured_at_their_time(
    matched: MatchedState,
    taken: SampleAnswers,
    baseline: BaselineState,
    answers: BaselineAnswers,
    started_at: EvidenceTimestamp,
    cpu: TachometerExpectation,
    gpu: TachometerExpectation,
)
    requires
        matched.run.workload_started_at is Some,
        matched.run.workload_started_at->0.monotonic_millis + (matched.run.samples.len() + 1)
            * 2_000 + 100 <= u64::MAX,
        baseline.run.workload_started_at is Some,
        baseline.run.workload_started_at->0.monotonic_millis + (baseline.run.samples.len() + 1)
            * 2_000 + 100 <= u64::MAX,
    ensures
        captured_state(matched, taken, started_at, cpu, gpu).calls[matched.calls.len() as int]
            matches MatchedCall::CaptureObservation { deadline, answer } && deadline
            == matched.run.workload_started_at->0.monotonic_millis + (matched.run.samples.len() + 1)
            * 2_000 + 100 && answer == taken.observed,
        crate::baseline_steps::captured_state(baseline, answers, started_at).calls[baseline.calls.len() as int]
            matches BaselineCall::CaptureObservation { deadline, answer } && deadline
            == baseline.run.workload_started_at->0.monotonic_millis + (baseline.run.samples.len()
            + 1) * 2_000 + 100 && answer == answers.observed,
{
}

/// An endurance run's workload counts as started exactly where nothing failed before and it was launched
/// at a moment within the launch, which ended by the deadline; else a fault is left.
pub proof fn endurance_launches_are_dated_within_their_window(
    m: EnduranceModel,
    requested_at: EvidenceTimestamp,
    deadline: u64,
    observed_at: EvidenceTimestamp,
    result: Result<EvidenceTimestamp, String>,
)
    requires
        m.faults.len() == 0,
        m.workload_started_at is None,
    ensures
        ({
            let after = after_endurance_launch(m, requested_at, deadline, observed_at, result);
            let good = result matches Ok(source) && requested_at.monotonic_millis
                <= source.monotonic_millis <= observed_at.monotonic_millis <= deadline;
            &&& after.faults.len() == 0 <==> good
            &&& after.workload_started_at is Some <==> good
            &&& good ==> after.workload_started_at == Some(result->Ok_0)
            &&& after.not_before.monotonic_millis >= requested_at.monotonic_millis
            &&& after.not_before.monotonic_millis >= observed_at.monotonic_millis
        }),
{
}

/// A physical observer who refuses to see the shutdown through leaves a fault, and one who agrees leaves
/// none.
pub proof fn observers_see_the_shutdown_through(
    m: EnduranceModel,
    asked_at: EvidenceTimestamp,
    asked: EnduranceModel,
    refusal: Option<Seq<char>>,
    ended_at: EvidenceTimestamp,
)
    requires
        asked_at.monotonic_millis + 10_000 <= u64::MAX,
    ensures
        ({
            let after = after_shutdown_check(m, asked_at, asked, refusal, ended_at);
            &&& after.faults.len() == asked.faults.len() <==> refusal is None
            &&& after.faults.len() >= asked.faults.len()
            &&& after.samples == asked.samples
            &&& after.not_before.monotonic_millis >= ended_at.monotonic_millis
        }),
{
}

/// A containment that says it was confirmed, wrote the duty, reads back Manual and the full duty over the
/// fan's own named endpoints, and ended by the deadline, is confirmed.
pub proof fn full_duty_containments_are_confirmed(
    control: ControlModel,
    fan: EvidenceFan,
    deadline: int,
    completed_at: EvidenceTimestamp,
    containment: SupervisedEnduranceFanContainment,
)
    requires
        containment.outcome is MaximumContainmentConfirmed,
        containment.pwm_write_succeeded,
        containment.pwm_readback == Some(255u32),
        containment.enable_readback == Some(1u32),
        control.get(fan, FanReadbackField::Enable) matches Some(identity) && identity
            == containment.enable_endpoint_identity@,
        control.get(fan, FanReadbackField::Pwm) matches Some(identity) && identity
            == containment.pwm_endpoint_identity@,
        trimmed(containment.enable_endpoint_identity@).len() > 0,
        trimmed(containment.pwm_endpoint_identity@).len() > 0,
        completed_at.monotonic_millis <= deadline,
    ensures
        containment_is_confirmed(control, fan, deadline, completed_at, containment),
{
}

/// The later of two moments by the monotonic clock.
pub open spec fn later_of_two(
    left: EvidenceTimestamp,
    right: EvidenceTimestamp,
) -> EvidenceTimestamp {
    if right.monotonic_millis > left.monotonic_millis {
        right
    } else {
        left
    }
}

} // verus!
