//! The supervised endurance run.
//!
//! The runner makes the calls, in order. Whatever the machine answers, it stops the workload, then
//! the service, and only then gives the fans back; where that cannot be confirmed, it drives both
//! fans to their maximum.

use vstd::prelude::*;
use vstd::string::*;
use crate::endurance_calls::{is_watched, observer_confirmed, EnduranceCall};
use crate::endurance_matrix::{
    baseline_records, endurance_workload_error, or_else, qualification_error, records_of,
    validate_endurance_workload, validate_qualification_plan, SupervisedEndurancePlan,
};
use crate::endurance_plan::{
    artifact_error, endurance_thermal_envelope, envelope_of, invalid_artifact,
    EndurancePlanErrorModel, SupervisedEndurancePlanError,
};
use crate::endurance_schedule::{
    segment, segment_at_index, segment_boundary_elapsed, segment_index_at_elapsed, segment_start,
};
use crate::endurance_shutdown::{
    both_were_contained, both_were_restored, contain_fans, perform_stop, restore_fans, stop_list,
    stop_of, stop_was_performed, ContainmentAttempt, RestorationAttempt, StopAttempt, StopEffort,
    StopExpectation, SupervisedEnduranceEnvironment, SupervisedEnduranceSegmentConfirmation,
};
use crate::endurance_steps::{
    after_first_segment, after_segment_change, after_step_request, after_stop_schedule,
    check_is_accepted, endurance_fault, fresh_endurance, scheduled_deadline, step_deadline,
    EnduranceModel, EnduranceRun,
};
use crate::evidence::{
    EnduranceObserverAttestationEvidence, EnduranceThermalEnvelopeEvidence, EvidenceFan,
    EvidenceRecord, EvidenceTimestamp, FanCalibrationModel, ObserverAttestationModel, OutcomeModel,
    QualificationEnvelopeIdentityV1, RecordModel, RunOutcomeEvidence, RunOutcomeStatus,
    StoppedProcess, WorkloadModel,
};
use crate::evidence_rules::{is_valid, validation_error};
use crate::lifecycle_gate::{later_of, later_timestamp};
use crate::matched_control::{
    expectation_of, lemma_clean_observation, ControlJudgement,
    MatchedWorkloadTachometerCalibrations, ObservationSchedule, TachometerExpectation,
};
use crate::run_log::{
    fault_list, first_detail, first_fault_detail, readback_list, transition_list, SlopeMeter,
};
use crate::text::{clone_texts, is_lower_hex, join, lower_hex};
use crate::trace::{effects, goes_on, ran, Trace};
use crate::thermal::{summarize_thermal_evidence, thermal_summary, FinalSlopes};

use crate::observations::{observed, samples_came};
use crate::endurance_fold::{
    after_entry_request, after_launch_request, after_stop_attempt, are_sampled, captured_state,
    completed_state, conditions_state, conditions_were_captured, containment_went,
    containment_went_if, control_was_entered, ended_state, endurance_state, endurance_was_opened,
    endurance_was_shut_down, entry_went, fans_of, fans_went, first_segment_went, is_record_of_calls,
    launch_went, lemma_one_more_sample, restoration_went, run_went_on, sample_deadline,
    sample_was_taken, sample_was_watched, samples_were_taken, segment_went, service_stop_went,
    settled_state, step_was_watched, stop_code, stop_was_escalated, stop_was_tried, stops_were_made,
    third_stop_went, waited_state, watch_went, with_fans, workload_stop_went, workload_was_launched,
    EnduranceAnswers, EnduranceState, Measured,
};
use crate::matched_workload::CapturedMatchedWorkloadStartingConditions;
use crate::baseline::is_same_workload;

verus! {

broadcast use {
    crate::observations::group_observed,
    vstd::string::group_string_axioms,
    crate::trace::group_effects,
    crate::endurance_calls::group_endurance_calls,
};

/// What an endurance run did to the machine. Each list is in order, and so are the lists.
pub struct EnduranceLog {
    /// Whether Custom control was asked for.
    pub entered: bool,
    /// Whether the workload was launched.
    pub launched: bool,
    /// The calls that acted on the machine before the shutdown.
    pub work: Seq<EnduranceCall>,
    pub workload_stops: Seq<StopAttempt>,
    pub service_stops: Seq<StopAttempt>,
    pub restorations: Seq<RestorationAttempt>,
    pub containments: Seq<ContainmentAttempt>,
}

/// The calls of stops.
pub open spec fn stop_effects(stops: Seq<StopAttempt>) -> Seq<EnduranceCall> {
    stops.map_values(|stop: StopAttempt| stop.call())
}

/// The calls of restorations.
pub open spec fn restoration_effects(attempts: Seq<RestorationAttempt>) -> Seq<EnduranceCall> {
    attempts.map_values(|attempt: RestorationAttempt| attempt.call())
}

/// The calls of containments.
pub open spec fn containment_effects(attempts: Seq<ContainmentAttempt>) -> Seq<EnduranceCall> {
    attempts.map_values(|attempt: ContainmentAttempt| attempt.call())
}

/// The calls that acted on the machine: the work first, then the stops of the workload, those of
/// the service, the restorations and the containments.
pub open spec fn log_effects(log: EnduranceLog) -> Seq<EnduranceCall> {
    log.work + stop_effects(log.workload_stops) + stop_effects(log.service_stops)
        + restoration_effects(log.restorations) + containment_effects(log.containments)
}

/// Whether the work of a run is in order: Custom control, then the first segment, then the workload,
/// each once at most, and then only further segments.
pub open spec fn work_is_ordered(work: Seq<EnduranceCall>, entered: bool, launched: bool) -> bool {
    &&& entered == (work.len() > 0)
    &&& launched == (work.len() > 2)
    &&& forall|i: int|
        0 <= i < work.len() ==> if i == 0 {
            #[trigger] work[i] is EnterCustomControl
        } else if i == 2 {
            work[i] is StartWorkload
        } else {
            work[i] is BeginSegment
        }
}

/// Whether a call that acted on the machine before the shutdown succeeded.
pub open spec fn succeeded(call: EnduranceCall) -> bool {
    match call {
        EnduranceCall::EnterCustomControl { answer, .. } => answer is Ok,
        EnduranceCall::BeginSegment { answer, .. } => answer is Ok,
        EnduranceCall::StartWorkload { answer, .. } => answer is Ok,
        _ => true,
    }
}

/// Whether every call succeeded.
pub open spec fn all_succeeded(work: Seq<EnduranceCall>) -> bool {
    forall|i: int| 0 <= i < work.len() ==> succeeded(#[trigger] work[i])
}

/// Whether the calls of a run are the ones on its log, and no others acted. Custom control, segments,
/// the workload's launch and samples each directly follow a confirmation of the physical observer.
pub open spec fn calls_are_logged(calls: Seq<EnduranceCall>, log: EnduranceLog) -> bool {
    &&& is_watched(calls)
    &&& effects(calls) == log_effects(log)
    &&& work_is_ordered(log.work, log.entered, log.launched)
}

/// Whether a trace has come to a state, and every call that needs the observer was watched.
pub open spec fn keeps_watch<E: SupervisedEnduranceEnvironment + ?Sized>(
    trace: Trace<'_, E, EnduranceCall>,
    current: &E,
) -> bool {
    trace.follows(current) && is_watched(trace.calls())
}

/// The effort of a further attempt.
pub open spec fn effort_at(index: int) -> StopEffort {
    if index == 0 {
        StopEffort::Normal
    } else if index == 1 {
        StopEffort::Escalated
    } else {
        StopEffort::Terminal
    }
}

/// Whether a process was stopped with rising effort until that was confirmed or no effort was left.
pub open spec fn stops_escalate(stops: Seq<StopAttempt>, process: StoppedProcess) -> bool {
    &&& 1 <= stops.len() <= 3
    &&& forall|i: int|
        0 <= i < stops.len() ==> (#[trigger] stops[i]).process == process && stops[i].effort
            == effort_at(i)
    &&& forall|i: int| 0 <= i < stops.len() - 1 ==> !(#[trigger] stops[i]).confirmed
    &&& stops.last().confirmed || stops.len() == 3
    &&& stops.last().confirmed ==> (stops.last().answer matches Ok(stopped) && !stopped.running)
}

/// Whether both fans were restored, the CPU fan first.
pub open spec fn both_fans_restored(attempts: Seq<RestorationAttempt>) -> bool {
    attempts.len() == 2 && attempts[0].fan == EvidenceFan::Cpu && attempts[1].fan
        == EvidenceFan::Gpu
}

/// Whether both fans were contained, the CPU fan first.
pub open spec fn both_fans_contained(attempts: Seq<ContainmentAttempt>) -> bool {
    attempts.len() == 2 && attempts[0].fan == EvidenceFan::Cpu && attempts[1].fan
        == EvidenceFan::Gpu
}

/// Whether a process is confirmed to have stopped.
pub open spec fn is_stopped(stops: Seq<StopAttempt>) -> bool {
    stops.len() > 0 && stops.last().confirmed
}

/// Whether both fans are confirmed in Firmware Auto.
pub open spec fn is_restored(log: EnduranceLog) -> bool {
    both_fans_restored(log.restorations) && log.restorations[0].confirmed
        && log.restorations[1].confirmed
}

/// Whether a run shut down as it must: the workload is always stopped, the service after it once
/// Custom control was asked for, the fans are given back only where both are confirmed to have
/// stopped, and are driven to their maximum wherever Firmware Auto is not confirmed.
pub open spec fn shut_down_in_order(log: EnduranceLog) -> bool {
    &&& log.launched ==> log.entered
    &&& stops_escalate(log.workload_stops, StoppedProcess::Workload)
    &&& if log.entered {
        stops_escalate(log.service_stops, StoppedProcess::Service)
    } else {
        log.service_stops.len() == 0
    }
    &&& if is_stopped(log.workload_stops) && (log.entered ==> is_stopped(log.service_stops)) {
        both_fans_restored(log.restorations)
    } else {
        log.restorations.len() == 0
    }
    &&& if is_restored(log) {
        log.containments.len() == 0
    } else {
        both_fans_contained(log.containments)
    }
}

/// Whether a step kept what was sampled.
pub open spec fn keeps_samples(before: EnduranceModel, after: EnduranceModel) -> bool {
    &&& after.samples == before.samples
    &&& after.workload == before.workload
    &&& after.workload_started_at == before.workload_started_at
    &&& after.system_stable == before.system_stable
    &&& after.kernel_faults == before.kernel_faults
    &&& after.nvidia_faults == before.nvidia_faults
    &&& after.segment == before.segment
    &&& after.faults.len() == 0 ==> before.faults.len() == 0
}

/// A run after the physical observer was asked for a confirmation, and why it was not given. Where
/// nothing came back, nothing was completed.
pub open spec fn after_confirmation(
    m: EnduranceModel,
    deadline: u64,
    requested_at: EvidenceTimestamp,
    answer: Result<EvidenceTimestamp, String>,
    completed_at: EvidenceTimestamp,
) -> (EnduranceModel, Option<Seq<char>>) {
    match answer {
        Err(error) => (m, Some(error@)),
        Ok(observed_at) => if check_is_accepted(
            m.checks,
            requested_at,
            observed_at,
            completed_at,
            deadline,
        ) {
            (EnduranceModel { checks: m.checks.push(observed_at), ..m }, None)
        } else {
            (m, Some("observer confirmation was stale, replayed, or outside its call window"@))
        },
    }
}

/// Whether a run is what it must be after the observer was asked, whatever came back.
#[verifier::opaque]
pub open spec fn observer_was_asked(
    before: EnduranceModel,
    deadline: u64,
    after: EnduranceModel,
    refusal: Option<Seq<char>>,
    earlier: Seq<EnduranceCall>,
    later: Seq<EnduranceCall>,
) -> bool {
    exists|
        requested_at: EvidenceTimestamp,
        answer: Result<EvidenceTimestamp, String>,
        completed_at: EvidenceTimestamp,
    |
        {
            &&& (after, refusal) == #[trigger] after_confirmation(
                before,
                deadline,
                requested_at,
                answer,
                completed_at,
            )
            &&& later == confirmation_calls(earlier, deadline, requested_at, answer, completed_at)
        }
}

/// Calls with those of a confirmation behind them: the clock, the observer and, where the observer
/// confirmed, the clock again.
pub open spec fn confirmation_calls(
    calls: Seq<EnduranceCall>,
    deadline: u64,
    requested_at: EvidenceTimestamp,
    answer: Result<EvidenceTimestamp, String>,
    completed_at: EvidenceTimestamp,
) -> Seq<EnduranceCall> {
    let asked = calls.push(EnduranceCall::Timestamp { answer: requested_at }).push(
        EnduranceCall::ConfirmObserver { deadline, answer },
    );
    if answer is Ok {
        asked.push(EnduranceCall::Timestamp { answer: completed_at })
    } else {
        asked
    }
}

/// Whether exactly one more call acted, of a kind, or none did.
pub open spec fn acts_once(
    earlier: Seq<EnduranceCall>,
    later: Seq<EnduranceCall>,
    acted: bool,
    kind: spec_fn(EnduranceCall) -> bool,
) -> bool {
    if acted {
        later.len() == earlier.len() + 1 && later == earlier.push(
            later.last(),
        ) && kind(later.last())
    } else {
        later == earlier
    }
}

/// Whether no call acted since but to begin segments.
pub open spec fn only_segments(earlier: Seq<EnduranceCall>, later: Seq<EnduranceCall>) -> bool {
    goes_on(earlier, later) && forall|i: int|
        earlier.len() <= i < later.len() ==> #[trigger] later[i] is BeginSegment
}

/// Why something failed.
pub open spec fn refusal_of<T>(result: Result<T, String>) -> Option<Seq<char>> {
    match result {
        Ok(_) => None,
        Err(error) => Some(error@),
    }
}

/// Asks the physical observer for a confirmation.
fn record_observer_confirmation<E>(
    environment: &mut E,
    trace: &mut Trace<'_, E, EnduranceCall>,
    run: &mut EnduranceRun,
    deadline: u64,
) -> (result:
    Result<(), String>) where E: SupervisedEnduranceEnvironment + ?Sized
    requires
        keeps_watch(*old(trace), &*old(environment)),
    ensures
        keeps_watch(*final(trace), &*final(environment)),
        final(trace).start() == old(trace).start(),
        final(run)@.samples == old(run)@.samples,
        observed(final(trace).calls()) == observed(old(trace).calls()),
        effects(final(trace).calls()) == effects(old(trace).calls()),
        result is Ok ==> observer_confirmed(final(trace).calls()),
        final(run)@ == (EnduranceModel { checks: final(run)@.checks, ..old(run)@ }),
        observer_was_asked(
            old(run)@,
            deadline,
            final(run)@,
            refusal_of(result),
            old(trace).calls(),
            final(trace).calls(),
        ),
{
    let requested_at = trace.timestamp(environment);
    let answer = trace.confirm_observer(environment, deadline);
    let observed_at = match answer {
        Ok(observed_at) => observed_at,
        Err(error) => {
            proof {
                reveal(observer_was_asked);
                assert((run@, Some(error@)) == after_confirmation(
                    run@,
                    deadline,
                    requested_at,
                    answer,
                    requested_at,
                ));
            }
            return Err(error);
        },
    };
    let completed_at = trace.timestamp(environment);
    let ghost before = run@;
    let accepted = run.record_check(requested_at, observed_at, completed_at, deadline);
    proof {
        reveal(observer_was_asked);
        let after = after_confirmation(before, deadline, requested_at, answer, completed_at);
        assert(after.0 == run@);
        assert(after.1 is None == accepted);
    }
    if accepted {
        Ok(())
    } else {
        Err("observer confirmation was stale, replayed, or outside its call window".to_owned())
    }
}

/// A run after the observer was asked during shutdown: when that began, what the run was once the
/// observer had been asked and why it refused, and when that ended.
pub open spec fn after_shutdown_check(
    m: EnduranceModel,
    asked_at: EvidenceTimestamp,
    asked: EnduranceModel,
    refusal: Option<Seq<char>>,
    ended_at: EvidenceTimestamp,
) -> EnduranceModel {
    let judged = if asked_at.monotonic_millis + 10_000 > u64::MAX {
        endurance_fault(
            m,
            asked_at,
            "observer-shutdown-boundary"@,
            "operation deadline overflowed"@,
        )
    } else {
        match refusal {
            None => asked,
            Some(error) => endurance_fault(
                asked,
                asked_at,
                "observer-withdrawn"@,
                "physical safety observer was not present through service shutdown: "@ + error,
            ),
        }
    };
    EnduranceModel { not_before: later_of(ended_at, judged.not_before), ..judged }
}

/// Whether a run is what it must be after the observer was asked during shutdown, whatever came
/// back.
#[verifier::opaque]
pub open spec fn shutdown_was_watched(
    before: EnduranceModel,
    after: EnduranceModel,
    earlier: Seq<EnduranceCall>,
    later: Seq<EnduranceCall>,
) -> bool {
    exists|
        asked_at: EvidenceTimestamp,
        asked: EnduranceModel,
        refusal: Option<Seq<char>>,
        ended_at: EvidenceTimestamp,
    |
        {
            &&& after == #[trigger] after_shutdown_check(
                before,
                asked_at,
                asked,
                refusal,
                ended_at,
            )
            &&& later.len() > 0
            &&& later.last() == (EnduranceCall::Timestamp { answer: ended_at })
            &&& if asked_at.monotonic_millis + 10_000 <= u64::MAX {
                observer_was_asked(
                    before,
                    (asked_at.monotonic_millis + 5_000) as u64,
                    asked,
                    refusal,
                    earlier.push(EnduranceCall::Timestamp { answer: asked_at }),
                    later.drop_last(),
                )
            } else {
                later.drop_last() == earlier.push(EnduranceCall::Timestamp { answer: asked_at })
            }
        }
}

/// Asks the physical observer for a confirmation during shutdown, which goes on either way.
fn confirm_shutdown_observer<E>(
    environment: &mut E,
    trace: &mut Trace<'_, E, EnduranceCall>,
    run: &mut EnduranceRun,
) where
    E: SupervisedEnduranceEnvironment + ?Sized,

    requires
        keeps_watch(*old(trace), &*old(environment)),
    ensures
        keeps_watch(*final(trace), &*final(environment)),
        final(trace).start() == old(trace).start(),
        observed(final(trace).calls()) == observed(old(trace).calls()),
        effects(final(trace).calls()) == effects(old(trace).calls()),
        keeps_samples(old(run)@, final(run)@),
        final(run)@.attempts == old(run)@.attempts,
        final(run)@.transitions == old(run)@.transitions,
        shutdown_was_watched(
            old(run)@,
            final(run)@,
            old(trace).calls(),
            final(trace).calls(),
        ),
{
    let requested_at = trace.timestamp(environment);
    let ghost mut asked = run@;
    let ghost mut refusal = None::<Seq<char>>;
    match requested_at.monotonic_millis.checked_add(10_000) {
        None => {
            run.note(requested_at, "observer-shutdown-boundary", "operation deadline overflowed");
        },
        Some(_) => {
            let deadline: u64 = requested_at.monotonic_millis + 5_000;
            let result = record_observer_confirmation(environment, trace, run, deadline);
            proof {
                asked = run@;
                refusal = refusal_of(result);
            }
            match result {
                Ok(()) => {},
                Err(error) => {
                    let detail = join(
                        "physical safety observer was not present through service shutdown: ",
                        error.as_str(),
                    );
                    run.note(requested_at, "observer-withdrawn", detail.as_str());
                },
            }
        },
    }
    let ghost before_end = trace.calls();
    let ended_at = trace.timestamp(environment);
    run.not_before = later_timestamp(ended_at, run.not_before);
    proof {
        reveal(shutdown_was_watched);
        assert(trace.calls().drop_last() =~= before_end);
        assert(run@ == after_shutdown_check(old(run)@, requested_at, asked, refusal, ended_at));
    }
}

/// Asks for Custom control. Tells whether it was asked for.
fn enter_control<E>(
    environment: &mut E,
    trace: &mut Trace<'_, E, EnduranceCall>,
    run: &mut EnduranceRun,
) -> (entered: bool) where
    E: SupervisedEnduranceEnvironment + ?Sized,

    requires
        keeps_watch(*old(trace), &*old(environment)),
        old(run)@.faults.len() == 0 ==> all_succeeded(effects(old(trace).calls())),
        old(run)@.faults.len() == 0,
    ensures
        keeps_watch(*final(trace), &*final(environment)),
        final(trace).start() == old(trace).start(),
        final(run)@.faults.len() == 0 ==> all_succeeded(effects(final(trace).calls())),
        observed(final(trace).calls()) == observed(old(trace).calls()),
        acts_once(
            effects(old(trace).calls()),
            effects(final(trace).calls()),
            entered,
            |call: EnduranceCall| call is EnterCustomControl,
        ),
        final(run)@.attempts == old(run)@.attempts,
        keeps_samples(old(run)@, final(run)@),
        final(run)@.faults.len() == 0 ==> entered,
        control_was_entered(
            old(run)@,
            final(run)@,
            old(trace).calls(),
            final(trace).calls(),
            entered,
        ),
{
    let asked_at = trace.timestamp(environment);
    let (requested_at, deadline) = run.request_step(
        asked_at,
        "custom-control-entry",
        "clock regressed before Custom-control entry",
    );
    let deadline: u64 = match deadline {
        Some(deadline) => deadline,
        None => {
            proof {
                reveal(control_was_entered);
                assert(run@ == after_entry_request(
                    old(run)@,
                    asked_at,
                    run@,
                    Ok(()),
                    asked_at,
                ));
            }
            return false;
        },
    };
    let ghost begun_from = trace.calls();
    let observed = record_observer_confirmation(environment, trace, run, deadline);
    let entered = observed.is_ok();
    let ghost asked = run@;
    let ghost watched = trace.calls();
    let result = match observed {
        Ok(()) => trace.enter_custom_control(environment, deadline),
        Err(error) => Err(error),
    };
    let ghost asked_calls = trace.calls();
    let ended_at = trace.timestamp(environment);
    run.record_custom_entry(requested_at, deadline, ended_at, result);
    proof {
        reveal(control_was_entered);
        assert(trace.calls().drop_last() =~= asked_calls);
        assert(entered ==> asked_calls.drop_last() =~= watched);
        assert(step_was_watched(
            old(run)@,
            deadline,
            asked,
            EnduranceCall::EnterCustomControl { deadline, answer: result },
            refusal_of(result),
            entered,
            begun_from,
            asked_calls,
        ));
        assert(run@ == after_entry_request(old(run)@, asked_at, asked, result, ended_at));
    }
    entered
}

/// A run after its first segment was asked for: when that began, what the run was once the observer
/// had been asked, what came back, and when that ended.
pub open spec fn after_first_segment_request(
    m: EnduranceModel,
    asked_at: EvidenceTimestamp,
    asked: EnduranceModel,
    answer: Result<SupervisedEnduranceSegmentConfirmation, String>,
    ended_at: EvidenceTimestamp,
) -> EnduranceModel {
    match step_deadline(m, asked_at) {
        None => after_step_request(
            m,
            asked_at,
            "endurance-segment"@,
            "clock regressed before initial endurance segment"@,
        ),
        Some(deadline) => after_first_segment(
            asked,
            later_of(asked_at, m.not_before),
            deadline,
            ended_at,
            answer,
        ),
    }
}

/// Whether a run is what it must be after its first segment was asked for, whatever came back. A
/// segment that the observer did not confirm is not begun.
#[verifier::opaque]
pub open spec fn first_segment_was_begun(
    before: EnduranceModel,
    after: EnduranceModel,
    earlier: Seq<EnduranceCall>,
    later: Seq<EnduranceCall>,
) -> bool {
    exists|
        asked_at: EvidenceTimestamp,
        asked: EnduranceModel,
        answer: Result<SupervisedEnduranceSegmentConfirmation, String>,
        ended_at: EvidenceTimestamp,
    |
        {
            &&& after == #[trigger] after_first_segment_request(
                before,
                asked_at,
                asked,
                answer,
                ended_at,
            )
            &&& match step_deadline(before, asked_at) {
                Some(deadline) => {
                    &&& later.len() > 0
                    &&& later.last() == (EnduranceCall::Timestamp { answer: ended_at })
                    &&& segment_was_watched(
                        before,
                        0,
                        deadline,
                        asked,
                        answer,
                        earlier.push(EnduranceCall::Timestamp { answer: asked_at }),
                        later.drop_last(),
                    )
                },
                None => later == earlier.push(EnduranceCall::Timestamp { answer: asked_at }),
            }
        }
}

/// Whether the observer was asked before a segment was: a refusal stands in for the answer.
pub open spec fn segment_was_watched(
    before: EnduranceModel,
    next: int,
    deadline: u64,
    asked: EnduranceModel,
    answer: Result<SupervisedEnduranceSegmentConfirmation, String>,
    earlier: Seq<EnduranceCall>,
    later: Seq<EnduranceCall>,
) -> bool {
    ||| {
        &&& later.len() > 0
        &&& later.last() == (EnduranceCall::BeginSegment {
            segment: segment(next),
            deadline,
            answer,
        })
        &&& observer_was_asked(before, deadline, asked, None, earlier, later.drop_last())
    }
    ||| answer is Err && observer_was_asked(
        before,
        deadline,
        asked,
        refusal_of(answer),
        earlier,
        later,
    )
}

/// Begins the first segment.
fn begin_first_segment<E>(
    environment: &mut E,
    trace: &mut Trace<'_, E, EnduranceCall>,
    run: &mut EnduranceRun,
) -> (begun: bool) where
    E: SupervisedEnduranceEnvironment + ?Sized,

    requires
        keeps_watch(*old(trace), &*old(environment)),
        old(run)@.faults.len() == 0 ==> all_succeeded(effects(old(trace).calls())),
        old(run)@.faults.len() == 0,
    ensures
        keeps_watch(*final(trace), &*final(environment)),
        final(trace).start() == old(trace).start(),
        final(run)@.faults.len() == 0 ==> all_succeeded(effects(final(trace).calls())),
        observed(final(trace).calls()) == observed(old(trace).calls()),
        acts_once(
            effects(old(trace).calls()),
            effects(final(trace).calls()),
            begun,
            |call: EnduranceCall| call is BeginSegment,
        ),
        final(run)@.faults.len() == 0 ==> begun,
        final(run)@.attempts == old(run)@.attempts,
        keeps_samples(old(run)@, final(run)@),
        first_segment_was_begun(
            old(run)@,
            final(run)@,
            old(trace).calls(),
            final(trace).calls(),
        ),
{
    let asked_at = trace.timestamp(environment);
    let (requested_at, deadline) = run.request_step(
        asked_at,
        "endurance-segment",
        "clock regressed before initial endurance segment",
    );
    let deadline: u64 = match deadline {
        Some(deadline) => deadline,
        None => {
            proof {
                reveal(first_segment_was_begun);
                let unasked = choose|
                    answer: Result<SupervisedEnduranceSegmentConfirmation, String>,
                | refusal_of(answer) is None;
                assert(run@ == after_first_segment_request(
                    old(run)@,
                    asked_at,
                    run@,
                    unasked,
                    asked_at,
                ));
            }
            return false;
        },
    };
    let ghost begun_from = trace.calls();
    let confirmed = record_observer_confirmation(environment, trace, run, deadline);
    let begun = confirmed.is_ok();
    let ghost asked = run@;
    let ghost watched = trace.calls();
    let result = match confirmed {
        Ok(()) => trace.begin_segment(environment, segment_at_index(0), deadline),
        Err(error) => Err(error),
    };
    let ghost asked_calls = trace.calls();
    let ended_at = trace.timestamp(environment);
    run.record_first_segment(requested_at, deadline, ended_at, result);
    proof {
        reveal(first_segment_was_begun);
        assert(trace.calls().drop_last() =~= asked_calls);
        assert(begun ==> asked_calls.drop_last() =~= watched);
        assert(segment_was_watched(
            old(run)@,
            0,
            deadline,
            asked,
            result,
            begun_from,
            asked_calls,
        ));
        assert(run@ == after_first_segment_request(
            old(run)@,
            asked_at,
            asked,
            result,
            ended_at,
        ));
    }
    begun
}

/// Launches the workload. Tells whether it was launched.
fn launch_workload<E>(
    environment: &mut E,
    trace: &mut Trace<'_, E, EnduranceCall>,
    run: &mut EnduranceRun,
) -> (launched: bool) where
    E: SupervisedEnduranceEnvironment + ?Sized,

    requires
        keeps_watch(*old(trace), &*old(environment)),
        old(run)@.faults.len() == 0 ==> all_succeeded(effects(old(trace).calls())),
        old(run)@.faults.len() == 0,
    ensures
        keeps_watch(*final(trace), &*final(environment)),
        final(trace).start() == old(trace).start(),
        final(run)@.faults.len() == 0 ==> all_succeeded(effects(final(trace).calls())),
        observed(final(trace).calls()) == observed(old(trace).calls()),
        acts_once(
            effects(old(trace).calls()),
            effects(final(trace).calls()),
            launched,
            |call: EnduranceCall|
                call matches EnduranceCall::StartWorkload { workload, .. } && workload@
                    == old(run)@.workload,
        ),
        final(run)@.attempts == old(run)@.attempts,
        final(run)@.samples == old(run)@.samples,
        final(run)@.workload == old(run)@.workload,
        final(run)@.segment == old(run)@.segment,
        final(run)@.faults.len() == 0 ==> launched && final(run)@.workload_started_at is Some,
        workload_was_launched(
            old(run)@,
            final(run)@,
            old(trace).calls(),
            final(trace).calls(),
            launched,
        ),
{
    let ghost workload = run.workload;
    let asked_at = trace.timestamp(environment);
    let (requested_at, deadline) = run.request_step(
        asked_at,
        "workload-start",
        "clock regressed before workload start",
    );
    let deadline: u64 = match deadline {
        Some(deadline) => deadline,
        None => {
            proof {
                reveal(workload_was_launched);
                assert(workload@ == old(run)@.workload);
                assert(run@ == after_launch_request(
                    old(run)@,
                    asked_at,
                    run@,
                    Ok(asked_at),
                    asked_at,
                ));
            }
            return false;
        },
    };
    let ghost begun_from = trace.calls();
    let observed = record_observer_confirmation(environment, trace, run, deadline);
    let launched = observed.is_ok();
    let ghost asked = run@;
    let ghost watched = trace.calls();
    let ghost workload = run.workload;
    let result = match observed {
        Ok(()) => trace.start_workload(environment, &run.workload, deadline),
        Err(error) => Err(error),
    };
    let ghost asked_calls = trace.calls();
    let ended_at = trace.timestamp(environment);
    run.record_launch(requested_at, deadline, ended_at, result);
    proof {
        reveal(workload_was_launched);
        assert(workload@ == old(run)@.workload);
        assert(trace.calls().drop_last() =~= asked_calls);
        assert(launched ==> asked_calls.drop_last() =~= watched);
        assert(step_was_watched(
            old(run)@,
            deadline,
            asked,
            EnduranceCall::StartWorkload { workload, deadline, answer: result },
            refusal_of(result),
            launched,
            begun_from,
            asked_calls,
        ));
        assert(run@ == after_launch_request(old(run)@, asked_at, asked, result, ended_at));
    }
    launched
}

/// A run after another segment was asked for: when that began, what the run was once the observer
/// had been asked, what came back, and when that ended.
pub open spec fn after_segment_request(
    m: EnduranceModel,
    next: int,
    asked_at: EvidenceTimestamp,
    asked: EnduranceModel,
    answer: Result<SupervisedEnduranceSegmentConfirmation, String>,
    ended_at: EvidenceTimestamp,
) -> EnduranceModel {
    let boundary = m.workload_started_at->0.monotonic_millis + segment_start(next);
    if boundary > u64::MAX {
        endurance_fault(
            m,
            m.not_before,
            "endurance-segment"@,
            "scheduled segment boundary overflowed"@,
        )
    } else if boundary + 2_000 > u64::MAX {
        endurance_fault(
            m,
            m.not_before,
            "endurance-segment"@,
            "scheduled segment deadline overflowed"@,
        )
    } else if asked_at.monotonic_millis < m.not_before.monotonic_millis
        || asked_at.monotonic_millis > boundary + 2_000 {
        endurance_fault(
            m,
            later_of(asked_at, m.not_before),
            "endurance-segment"@,
            "endurance segment transition missed its scheduled boundary"@,
        )
    } else {
        after_segment_change(
            asked,
            next,
            boundary as u64,
            (boundary + 2_000) as u64,
            asked_at,
            ended_at,
            answer,
        )
    }
}

/// Whether another segment is asked for in time.
pub open spec fn segment_is_due(m: EnduranceModel, next: int, asked_at: EvidenceTimestamp) -> bool {
    m.not_before.monotonic_millis <= asked_at.monotonic_millis
        <= m.workload_started_at->0.monotonic_millis + segment_start(next) + 2_000 <= u64::MAX
}

/// Whether a run is what it must be after another segment was asked for, whatever came back. A
/// segment that the observer did not confirm is not begun.
#[verifier::opaque]
pub open spec fn segment_was_changed(
    before: EnduranceModel,
    next: int,
    after: EnduranceModel,
    earlier: Seq<EnduranceCall>,
    later: Seq<EnduranceCall>,
) -> bool {
    exists|
        asked_at: EvidenceTimestamp,
        asked: EnduranceModel,
        answer: Result<SupervisedEnduranceSegmentConfirmation, String>,
        ended_at: EvidenceTimestamp,
    |
        {
            &&& after == #[trigger] after_segment_request(
                before,
                next,
                asked_at,
                asked,
                answer,
                ended_at,
            )
            &&& if before.workload_started_at->0.monotonic_millis + segment_start(next) + 2_000
                > u64::MAX {
                later == earlier
            } else if segment_is_due(before, next, asked_at) {
                &&& later.len() > 0
                &&& later.last() == (EnduranceCall::Timestamp { answer: ended_at })
                &&& segment_was_watched(
                    before,
                    next,
                    (before.workload_started_at->0.monotonic_millis + segment_start(next)
                        + 2_000) as u64,
                    asked,
                    answer,
                    earlier.push(EnduranceCall::Timestamp { answer: asked_at }),
                    later.drop_last(),
                )
            } else {
                later == earlier.push(EnduranceCall::Timestamp { answer: asked_at })
            }
        }
}

/// Moves on to another segment.
fn change_segment<E>(
    environment: &mut E,
    trace: &mut Trace<'_, E, EnduranceCall>,
    run: &mut EnduranceRun,
    next: usize,
) where
    E: SupervisedEnduranceEnvironment + ?Sized,

    requires
        keeps_watch(*old(trace), &*old(environment)),
        old(run)@.faults.len() == 0 ==> all_succeeded(effects(old(trace).calls())),
        next < 6,
        old(run)@.segment < 6,
        old(run)@.faults.len() == 0,
        old(run)@.workload_started_at is Some,
    ensures
        keeps_watch(*final(trace), &*final(environment)),
        final(trace).start() == old(trace).start(),
        final(run)@.faults.len() == 0 ==> all_succeeded(effects(final(trace).calls())),
        observed(final(trace).calls()) == observed(old(trace).calls()),
        only_segments(effects(old(trace).calls()), effects(final(trace).calls())),
        final(run)@.attempts == old(run)@.attempts,
        final(run)@.samples == old(run)@.samples,
        final(run)@.workload == old(run)@.workload,
        final(run)@.workload_started_at == old(run)@.workload_started_at,
        final(run)@.segment < 6,
        segment_was_changed(
            old(run)@,
            next as int,
            final(run)@,
            old(trace).calls(),
            final(trace).calls(),
        ),
{
    proof {
        reveal(segment_was_changed);
    }
    let ghost before = run@;
    let ghost unasked = choose|answer: Result<SupervisedEnduranceSegmentConfirmation, String>| refusal_of(
        answer,
    ) is None;
    let started: u64 = run.workload_started_at.unwrap().monotonic_millis;
    let boundary: u64 = match segment_boundary_elapsed(next) {
        Some(elapsed) => match started.checked_add(elapsed) {
            Some(boundary) => boundary,
            None => {
                run.note(
                    run.not_before,
                    "endurance-segment",
                    "scheduled segment boundary overflowed",
                );
                let ghost at = before.not_before;
                assert(run@ == after_segment_request(before, next as int, at, run@, unasked, at));
                return;
            },
        },
        None => {
            run.note(
                run.not_before,
                "endurance-segment",
                "scheduled segment boundary overflowed",
            );
            assert(false);
            return;
        },
    };
    // The sample at the boundary still belongs to the ending segment and may consume its full
    // jitter allowance, so the transition has its own window up to the next scheduled sample.
    let deadline: u64 = match boundary.checked_add(2_000) {
        Some(deadline) => deadline,
        None => {
            run.note(
                run.not_before,
                "endurance-segment",
                "scheduled segment deadline overflowed",
            );
            let ghost at = before.not_before;
            assert(run@ == after_segment_request(before, next as int, at, run@, unasked, at));
            return;
        },
    };
    let requested_at = trace.timestamp(environment);
    if requested_at.monotonic_millis < run.not_before.monotonic_millis
        || requested_at.monotonic_millis > deadline {
        run.note(
            later_timestamp(requested_at, run.not_before),
            "endurance-segment",
            "endurance segment transition missed its scheduled boundary",
        );
        assert(run@ == after_segment_request(
            before,
            next as int,
            requested_at,
            run@,
            unasked,
            requested_at,
        ));
        return;
    }
    let ghost asked_from = trace.calls();
    let confirmed = record_observer_confirmation(environment, trace, run, deadline);
    let ghost asked = run@;
    let ghost begun = confirmed is Ok;
    let ghost watched = trace.calls();
    let result = match confirmed {
        Ok(()) => trace.begin_segment(environment, segment_at_index(next), deadline),
        Err(error) => Err(error),
    };
    let ghost asked_calls = trace.calls();
    let completed_at = trace.timestamp(environment);
    run.record_segment_change(next, boundary, deadline, requested_at, completed_at, result);
    proof {
        assert(trace.calls().drop_last() =~= asked_calls);
        assert(begun ==> asked_calls.drop_last() =~= watched);
        assert(segment_was_watched(
            before,
            next as int,
            deadline,
            asked,
            result,
            asked_from,
            asked_calls,
        ));
        assert(run@ == after_segment_request(
            before,
            next as int,
            requested_at,
            asked,
            result,
            completed_at,
        ));
    }
}

/// Waits until a sample is due. Where its time does not come as it should, a fault is noted.
fn wait_for_sample<E>(
    environment: &mut E,
    trace: &mut Trace<'_, E, EnduranceCall>,
    run: &mut EnduranceRun,
    expected_elapsed: u64,
    Ghost(measured): Ghost<Measured>,
) -> (waited: (Option<EvidenceTimestamp>, Ghost<EnduranceAnswers>)) where
    E: SupervisedEnduranceEnvironment + ?Sized,

    requires
        keeps_watch(*old(trace), &*old(environment)),
        old(run)@.faults.len() == 0,
        old(run)@.workload_started_at is Some,
    ensures
        keeps_watch(*final(trace), &*final(environment)),
        final(trace).start() == old(trace).start(),
        effects(final(trace).calls()) == effects(old(trace).calls()),
        observed(final(trace).calls()) == observed(old(trace).calls()),
        endurance_state(final(run)@, final(trace).calls(), measured) == waited_state(
            endurance_state(old(run)@, old(trace).calls(), measured),
            expected_elapsed as int,
            waited.1@,
        ),
        match waited.0 {
            Some(at) => final(run)@.faults.len() == 0 && at == waited.1@.after_wait,
            None => final(run)@.faults.len() > 0,
        },
        final(run)@ == (EnduranceModel {
            faults: final(run)@.faults,
            not_before: final(run)@.not_before,
            ..old(run)@
        }),
{
    let ghost mut answers: EnduranceAnswers = arbitrary();
    let launched: u64 = run.workload_started_at.unwrap().monotonic_millis;
    let expected_millis: u64 = launched.saturating_add(expected_elapsed);
    let deadline: u64 = expected_millis.saturating_add(100);
    let wait_started_at = trace.timestamp(environment);
    proof {
        answers = EnduranceAnswers { before_wait: wait_started_at, ..answers };
    }
    if wait_started_at.monotonic_millis > deadline {
        run.note(
            wait_started_at,
            "sample-cadence",
            "cannot meet the runner-owned two-second endurance cadence",
        );
        return (None, Ghost(answers));
    }
    let answer = trace.wait_until(environment, expected_millis, deadline);
    proof {
        answers = EnduranceAnswers { waited: answer, ..answers };
    }
    if answer.is_err() {
        run.note(
            wait_started_at,
            "sample-cadence",
            "cannot meet the runner-owned two-second endurance cadence",
        );
        return (None, Ghost(answers));
    }
    let wait_completed_at = trace.timestamp(environment);
    proof {
        answers = EnduranceAnswers { after_wait: wait_completed_at, ..answers };
    }
    if wait_completed_at.monotonic_millis < expected_millis || wait_completed_at.monotonic_millis
        > deadline {
        run.note(
            wait_completed_at,
            "sample-cadence",
            "endurance wait completed outside its sample window",
        );
        return (None, Ghost(answers));
    }
    run.not_before = later_timestamp(wait_completed_at, run.not_before);
    (Some(wait_completed_at), Ghost(answers))
}

/// Captures a sample that the observer has confirmed, and checks that the run stays within its
/// thermal envelope.
fn capture_sample<E, M>(
    environment: &mut E,
    trace: &mut Trace<'_, E, EnduranceCall>,
    meter: &mut M,
    run: &mut EnduranceRun,
    started_at: EvidenceTimestamp,
    expected_elapsed: u64,
    wait_completed_at: EvidenceTimestamp,
    calibrations: MatchedWorkloadTachometerCalibrations<'_>,
    envelope: &EnduranceThermalEnvelopeEvidence,
    Ghost(waited): Ghost<EnduranceAnswers>,
) -> (answers: Ghost<EnduranceAnswers>) where
    E: SupervisedEnduranceEnvironment + ?Sized,
    M: SlopeMeter + ?Sized,

    requires
        keeps_watch(*old(trace), &*old(environment)),
        observer_confirmed(old(trace).calls()),
        old(run)@.segment < 6,
        old(run)@.faults.len() == 0,
        samples_came(old(run)@.samples, observed(old(trace).calls()), true),
        old(run)@.workload_started_at is Some,
        waited.after_wait == wait_completed_at,
    ensures
        keeps_watch(*final(trace), &*final(environment)),
        final(trace).start() == old(trace).start(),
        effects(final(trace).calls()) == effects(old(trace).calls()),
        endurance_state(final(run)@, final(trace).calls(), final(meter).history())
            == captured_state(
            endurance_state(old(run)@, old(trace).calls(), old(meter).history()),
            expected_elapsed as int,
            answers@,
            started_at,
            expectation_of(*calibrations.cpu),
            expectation_of(*calibrations.gpu),
            *envelope,
        ),
        answers@ == (EnduranceAnswers {
            observed: answers@.observed,
            captured_at: answers@.captured_at,
            slopes: answers@.slopes,
            ..waited
        }),
        samples_came(
            final(run)@.samples,
            observed(final(trace).calls()),
            final(run)@.faults.len() == 0,
        ),
        final(run)@.attempts == old(run)@.attempts,
        final(run)@.workload == old(run)@.workload,
        final(run)@.workload_started_at == old(run)@.workload_started_at,
        final(run)@.segment == old(run)@.segment,
        old(run)@.samples.len() <= final(run)@.samples.len() <= old(run)@.samples.len() + 1,
        final(run)@.faults.len() == 0 ==> final(run)@.samples.len() == old(run)@.samples.len() + 1,
{
    let launched: u64 = run.workload_started_at.unwrap().monotonic_millis;
    let expected_millis: u64 = launched.saturating_add(expected_elapsed);
    let deadline: u64 = expected_millis.saturating_add(100);
    let captured = trace.capture_observation(environment, deadline);
    let ghost answer = captured;
    let captured_at = trace.timestamp(environment);
    let ghost mut answers = EnduranceAnswers { observed: answer, captured_at, ..waited };
    let observation = match captured {
        Ok(observation) => observation,
        Err(error) => {
            let detail = join("cannot capture endurance telemetry: ", error.as_str());
            run.note(captured_at, "invalid-telemetry", detail.as_str());
            return Ghost(answers);
        },
    };
    if captured_at.monotonic_millis < wait_completed_at.monotonic_millis
        || captured_at.monotonic_millis > deadline {
        run.note(
            later_timestamp(captured_at, wait_completed_at),
            "sample-cadence",
            "endurance telemetry capture did not follow its completed wait inside the sample deadline",
        );
        return Ghost(answers);
    }
    if !run.fits_segment(&observation.sample) {
        run.note(
            captured_at,
            "endurance-segment",
            "continuous workload utilization did not match the active endurance segment",
        );
        return Ghost(answers);
    }
    let schedule = ObservationSchedule { run_started_at: started_at, captured_at, expected_millis };
    let ghost before = run@;
    proof {
        lemma_clean_observation(
            ControlJudgement {
                control: before.control,
                tachometer: before.tachometer,
                faults: before.faults,
            },
            observation@,
            segment(before.segment).power_profile,
            schedule,
            expectation_of(*calibrations.cpu),
            expectation_of(*calibrations.gpu),
        );
    }
    assert(observed(trace.calls()) == before.samples.push(observation@.sample));
    run.record_observation(schedule, observation, calibrations);
    assert(samples_came(run@.samples, observed(trace.calls()), run@.faults.len() == 0));
    let slopes = meter.measure(&run.samples);
    proof {
        answers = EnduranceAnswers { slopes, ..answers };
    }
    run.check_envelope(captured_at, "qualified-thermal-envelope-abort", slopes, envelope);
    Ghost(answers)
}

/// Waits for one sample and records it.
fn take_sample<E, M>(
    environment: &mut E,
    trace: &mut Trace<'_, E, EnduranceCall>,
    meter: &mut M,
    run: &mut EnduranceRun,
    started_at: EvidenceTimestamp,
    expected_elapsed: u64,
    calibrations: MatchedWorkloadTachometerCalibrations<'_>,
    envelope: &EnduranceThermalEnvelopeEvidence,
) where E: SupervisedEnduranceEnvironment + ?Sized, M: SlopeMeter + ?Sized
    requires
        keeps_watch(*old(trace), &*old(environment)),
        old(run)@.segment < 6,
        old(run)@.faults.len() == 0,
        samples_came(old(run)@.samples, observed(old(trace).calls()), true),
        old(run)@.workload_started_at is Some,
    ensures
        keeps_watch(*final(trace), &*final(environment)),
        final(trace).start() == old(trace).start(),
        effects(final(trace).calls()) == effects(old(trace).calls()),
        sample_was_taken(
            endurance_state(old(run)@, old(trace).calls(), old(meter).history()),
            endurance_state(final(run)@, final(trace).calls(), final(meter).history()),
            expected_elapsed as int,
            started_at,
            expectation_of(*calibrations.cpu),
            expectation_of(*calibrations.gpu),
            *envelope,
        ),
        samples_came(
            final(run)@.samples,
            observed(final(trace).calls()),
            final(run)@.faults.len() == 0,
        ),
        final(run)@.attempts == old(run)@.attempts,
        final(run)@.workload == old(run)@.workload,
        final(run)@.workload_started_at == old(run)@.workload_started_at,
        final(run)@.segment == old(run)@.segment,
        old(run)@.samples.len() <= final(run)@.samples.len() <= old(run)@.samples.len() + 1,
        final(run)@.faults.len() == 0 ==> final(run)@.samples.len() == old(run)@.samples.len() + 1,
{
    proof {
        reveal(sample_was_taken);
    }
    let ghost before = endurance_state(run@, trace.calls(), meter.history());
    let ghost cpu = expectation_of(*calibrations.cpu);
    let ghost gpu = expectation_of(*calibrations.gpu);
    let ghost elapsed = expected_elapsed as int;
    let (due, Ghost(first)) = wait_for_sample(
        environment,
        trace,
        run,
        expected_elapsed,
        Ghost(meter.history()),
    );
    let ghost waited = endurance_state(run@, trace.calls(), meter.history());
    let wait_completed_at = match due {
        Some(at) => at,
        None => {
            assert(waited == waited_state(before, elapsed, first));
            return;
        },
    };
    let launched: u64 = run.workload_started_at.unwrap().monotonic_millis;
    let deadline: u64 = launched.saturating_add(expected_elapsed).saturating_add(100);
    assert(deadline == sample_deadline(waited.run, elapsed));
    let confirmed = record_observer_confirmation(environment, trace, run, deadline);
    let ghost asked = run@;
    let ghost refusal = refusal_of(confirmed);
    let ghost asked_calls = trace.calls();
    match confirmed {
        Ok(()) => {},
        Err(error) => {
            let detail = join(
                "physical safety observer is not continuously present: ",
                error.as_str(),
            );
            run.note(wait_completed_at, "observer-withdrawn", detail.as_str());
            assert(observer_was_asked(
                waited.run,
                sample_deadline(waited.run, elapsed),
                asked,
                refusal,
                waited.calls,
                asked_calls,
            ));
            assert(sample_was_watched(
                waited,
                endurance_state(run@, trace.calls(), meter.history()),
                elapsed,
                first,
                started_at,
                cpu,
                gpu,
                *envelope,
            ));
            return;
        },
    }
    let Ghost(answers) = capture_sample(
        environment,
        trace,
        meter,
        run,
        started_at,
        expected_elapsed,
        wait_completed_at,
        calibrations,
        envelope,
        Ghost(first),
    );
    assert(waited == waited_state(before, elapsed, answers));
    assert(observer_was_asked(
        waited.run,
        sample_deadline(waited.run, elapsed),
        asked,
        None,
        waited.calls,
        asked_calls,
    ));
    assert(sample_was_watched(
        waited,
        endurance_state(run@, trace.calls(), meter.history()),
        elapsed,
        answers,
        started_at,
        cpu,
        gpu,
        *envelope,
    ));
}

/// Samples through the whole schedule, or until a fault comes up.
fn sample_endurance<E, M>(
    environment: &mut E,
    trace: &mut Trace<'_, E, EnduranceCall>,
    meter: &mut M,
    run: &mut EnduranceRun,
    started_at: EvidenceTimestamp,
    calibrations: MatchedWorkloadTachometerCalibrations<'_>,
    envelope: &EnduranceThermalEnvelopeEvidence,
) where E: SupervisedEnduranceEnvironment + ?Sized, M: SlopeMeter + ?Sized
    requires
        keeps_watch(*old(trace), &*old(environment)),
        old(run)@.faults.len() == 0 ==> all_succeeded(effects(old(trace).calls())),
        old(run)@.segment == 0,
        old(run)@.samples.len() == 0,
        observed(old(trace).calls()).len() == 0,
        old(run)@.faults.len() == 0 ==> old(run)@.workload_started_at is Some,
    ensures
        keeps_watch(*final(trace), &*final(environment)),
        final(trace).start() == old(trace).start(),
        final(run)@.faults.len() == 0 ==> all_succeeded(effects(final(trace).calls())),
        samples_came(
            final(run)@.samples,
            observed(final(trace).calls()),
            final(run)@.faults.len() == 0,
        ),
        only_segments(effects(old(trace).calls()), effects(final(trace).calls())),
        old(run)@.faults.len() > 0 ==> effects(final(trace).calls()) == effects(
            old(trace).calls(),
        ),
        final(run)@.attempts == old(run)@.attempts,
        final(run)@.workload == old(run)@.workload,
        final(run)@.samples.len() <= 1_800,
        final(run)@.faults.len() == 0 ==> final(run)@.samples.len() == 1_800,
        old(run)@.faults.len() > 0 ==> final(run)@ == old(run)@,
        samples_were_taken(
            endurance_state(old(run)@, old(trace).calls(), old(meter).history()),
            endurance_state(final(run)@, final(trace).calls(), final(meter).history()),
            started_at,
            expectation_of(*calibrations.cpu),
            expectation_of(*calibrations.gpu),
            *envelope,
        ),
{
    let ghost cpu = expectation_of(*calibrations.cpu);
    let ghost gpu = expectation_of(*calibrations.gpu);
    let ghost mut states: Seq<EnduranceState> = seq![
        endurance_state(run@, trace.calls(), meter.history()),
    ];
    while run.is_clean() && run.samples.len() < 1_800
        invariant
            keeps_watch(*trace, &*environment),
            trace.start() == old(trace).start(),
            only_segments(effects(old(trace).calls()), effects(trace.calls())),
            samples_came(run@.samples, observed(trace.calls()), run@.faults.len() == 0),
            run@.faults.len() == 0 ==> all_succeeded(effects(trace.calls())),
            run@.workload == old(run)@.workload,
            run@.attempts == old(run)@.attempts,
            run@.samples.len() <= 1_800,
            run@.segment < 6,
            run@.faults.len() == 0 ==> run@.workload_started_at is Some,
            old(run)@.faults.len() > 0 ==> run@ == old(run)@ && effects(trace.calls()) == effects(
                old(trace).calls(),
            ),
            cpu == expectation_of(*calibrations.cpu),
            gpu == expectation_of(*calibrations.gpu),
            are_sampled(states, started_at, cpu, gpu, *envelope),
            states[0] == endurance_state(old(run)@, old(trace).calls(), old(meter).history()),
            states.last() == endurance_state(run@, trace.calls(), meter.history()),
        decreases
                (if run@.faults.len() == 0 {
                    1int
                } else {
                    0int
                }),
                1_800 - run@.samples.len(),
    {
        let ghost before = endurance_state(run@, trace.calls(), meter.history());
        let expected_elapsed: u64 = (run.samples.len() as u64 + 1) * 2_000;
        let expected_segment = segment_index_at_elapsed(expected_elapsed);
        if expected_segment != run.active_segment {
            change_segment(environment, trace, run, expected_segment);
        }
        let ghost changed = endurance_state(run@, trace.calls(), meter.history());
        assert(segment_went(before, changed, expected_elapsed as int));
        if run.is_clean() {
            take_sample(
                environment,
                trace,
                meter,
                run,
                started_at,
                expected_elapsed,
                calibrations,
                envelope,
            );
        }
        proof {
            let next = endurance_state(run@, trace.calls(), meter.history());
            let elapsed = (before.run.samples.len() + 1) * 2_000;
            assert(elapsed as int == expected_elapsed as int);
            assert(segment_went(before, changed, elapsed as int));
            assert(run_went_on(before, next, started_at, cpu, gpu, *envelope));
            lemma_one_more_sample(states, next, started_at, cpu, gpu, *envelope);
            states = states.push(next);
        }
    }
    proof {
        reveal(samples_were_taken);
        assert(are_sampled(states, started_at, cpu, gpu, *envelope));
    }
}

/// Tries once to stop a process. Tells whether that is confirmed.
fn try_stop<E>(
    environment: &mut E,
    trace: &mut Trace<'_, E, EnduranceCall>,
    run: &mut EnduranceRun,
    process: StoppedProcess,
    identity: &str,
    code: &str,
    fixed_deadline: Option<u64>,
    effort: StopEffort,
    Ghost(measured): Ghost<Measured>,
) -> (done: (bool, Ghost<StopAttempt>)) where E: SupervisedEnduranceEnvironment + ?Sized
    requires
        keeps_watch(*old(trace), &*old(environment)),
    ensures
        keeps_watch(*final(trace), &*final(environment)),
        final(trace).start() == old(trace).start(),
        observed(final(trace).calls()) == observed(old(trace).calls()),
        effects(final(trace).calls()) == effects(old(trace).calls()).push(done.1@.call()),
        done.1@.process == process,
        done.1@.effort == effort,
        done.1@.confirmed == done.0,
        done.0 ==> (done.1@.answer matches Ok(stopped) && !stopped.running),
        keeps_samples(old(run)@, final(run)@),
        final(run)@.attempts == old(run)@.attempts,
        final(run)@.transitions == old(run)@.transitions,
        !done.0 ==> final(run)@.faults.len() > 0,
        stop_was_tried(
            endurance_state(old(run)@, old(trace).calls(), measured),
            endurance_state(final(run)@, final(trace).calls(), measured),
            process,
            identity@,
            code@,
            fixed_deadline,
            effort,
            done.1@,
        ),
{
    proof {
        reveal(stop_was_tried);
    }
    let ghost before = endurance_state(run@, trace.calls(), measured);
    assert(fault_list(run.faults@).len() == run.faults@.len());
    let expectation = StopExpectation { code, process, identity, fixed_deadline };
    let (evidence, attempt) = perform_stop(
        environment,
        trace,
        &mut run.faults,
        &mut run.not_before,
        expectation,
        effort,
    );
    assert(fault_list(run.faults@).len() == run.faults@.len());
    let ghost outcome = (fault_list(run.faults@), stop_of(evidence), run.not_before);
    assert(stop_was_performed(
        before.run.faults,
        before.run.not_before,
        expectation,
        effort,
        outcome,
        attempt@,
    ));
    let confirmed = match evidence {
        Some(stop) => {
            run.record_stop(stop);
            true
        },
        None => false,
    };
    assert(endurance_state(run@, trace.calls(), measured) == endurance_state(
        after_stop_attempt(before.run, outcome),
        attempt@.after(before.calls),
        measured,
    ));
    (confirmed, attempt)
}

/// Stops a process, with rising effort until that is confirmed or no effort is left.
fn stop_with_escalation<E>(
    environment: &mut E,
    trace: &mut Trace<'_, E, EnduranceCall>,
    run: &mut EnduranceRun,
    process: StoppedProcess,
    identity: &str,
    fixed_deadline: Option<u64>,
    watched: bool,
    Ghost(measured): Ghost<Measured>,
) -> (stops: (bool, Ghost<Seq<StopAttempt>>)) where E: SupervisedEnduranceEnvironment + ?Sized
    requires
        keeps_watch(*old(trace), &*old(environment)),
    ensures
        keeps_watch(*final(trace), &*final(environment)),
        final(trace).start() == old(trace).start(),
        observed(final(trace).calls()) == observed(old(trace).calls()),
        effects(final(trace).calls()) == effects(old(trace).calls()) + stop_effects(stops.1@),
        keeps_samples(old(run)@, final(run)@),
        final(run)@.attempts == old(run)@.attempts,
        final(run)@.transitions == old(run)@.transitions,
        stops_escalate(stops.1@, process),
        stops.0 == is_stopped(stops.1@),
        !stops.0 ==> final(run)@.faults.len() > 0,
        stops_were_made(
            endurance_state(old(run)@, old(trace).calls(), measured),
            endurance_state(final(run)@, final(trace).calls(), measured),
            process,
            identity@,
            fixed_deadline,
            watched,
            stops.1@,
        ),
{
    proof {
        reveal(stops_were_made);
    }
    let ghost before = endurance_state(run@, trace.calls(), measured);
    let (normal, escalated, terminal): (&'static str, &'static str, &'static str) = match process {
        StoppedProcess::Workload => (
            "workload-stop",
            "workload-containment",
            "workload-terminal-containment",
        ),
        StoppedProcess::Service => (
            "service-stop",
            "service-containment",
            "service-terminal-containment",
        ),
    };
    let mut stops: Ghost<Seq<StopAttempt>> = Ghost(Seq::empty());
    let (first, first_attempt) = try_stop(
        environment,
        trace,
        run,
        process,
        identity,
        normal,
        fixed_deadline,
        StopEffort::Normal,
        Ghost(measured),
    );
    let ghost earlier = stops@;
    stops = Ghost(stops@.push(first_attempt@));
    assert(stop_effects(stops@) =~= stop_effects(earlier).push(first_attempt@.call()));
    assert(effects(trace.calls()) =~= effects(old(trace).calls()) + stop_effects(stops@));
    let ghost one = endurance_state(run@, trace.calls(), measured);
    assert(stop_was_tried(
        before,
        one,
        process,
        identity@,
        stop_code(process, StopEffort::Normal),
        fixed_deadline,
        StopEffort::Normal,
        stops@[0],
    ));
    if first {
        assert(third_stop_went(one, one, process, identity@, watched, stops@));
        return (true, stops);
    }
    if watched {
        confirm_shutdown_observer(environment, trace, run);
    }
    let ghost between = endurance_state(run@, trace.calls(), measured);
    assert(watch_went(one, between, watched));
    let (second, second_attempt) = try_stop(
        environment,
        trace,
        run,
        process,
        identity,
        escalated,
        None,
        StopEffort::Escalated,
        Ghost(measured),
    );
    let ghost earlier = stops@;
    stops = Ghost(stops@.push(second_attempt@));
    assert(stop_effects(stops@) =~= stop_effects(earlier).push(second_attempt@.call()));
    assert(effects(trace.calls()) =~= effects(old(trace).calls()) + stop_effects(stops@));
    let ghost two = endurance_state(run@, trace.calls(), measured);
    assert(stop_was_escalated(
        one,
        two,
        process,
        identity@,
        watched,
        StopEffort::Escalated,
        stops@[1],
    ));
    if second {
        assert(third_stop_went(two, two, process, identity@, watched, stops@));
        return (true, stops);
    }
    if watched {
        confirm_shutdown_observer(environment, trace, run);
    }
    let ghost between = endurance_state(run@, trace.calls(), measured);
    assert(watch_went(two, between, watched));
    let (third, third_attempt) = try_stop(
        environment,
        trace,
        run,
        process,
        identity,
        terminal,
        None,
        StopEffort::Terminal,
        Ghost(measured),
    );
    let ghost earlier = stops@;
    stops = Ghost(stops@.push(third_attempt@));
    assert(stop_effects(stops@) =~= stop_effects(earlier).push(third_attempt@.call()));
    assert(effects(trace.calls()) =~= effects(old(trace).calls()) + stop_effects(stops@));
    let ghost three = endurance_state(run@, trace.calls(), measured);
    assert(stop_was_escalated(
        two,
        three,
        process,
        identity@,
        watched,
        StopEffort::Terminal,
        stops@[2],
    ));
    assert(third_stop_went(two, three, process, identity@, watched, stops@));
    (third, stops)
}

/// Stops the workload, watched where Custom control was asked for.
fn stop_workload<E>(
    environment: &mut E,
    trace: &mut Trace<'_, E, EnduranceCall>,
    run: &mut EnduranceRun,
    entered: bool,
    Ghost(measured): Ghost<Measured>,
) -> (stops: (bool, Ghost<Seq<StopAttempt>>)) where E: SupervisedEnduranceEnvironment + ?Sized
    requires
        keeps_watch(*old(trace), &*old(environment)),
        old(run)@.workload.command.len() > 0,
    ensures
        keeps_watch(*final(trace), &*final(environment)),
        final(trace).start() == old(trace).start(),
        observed(final(trace).calls()) == observed(old(trace).calls()),
        effects(final(trace).calls()) == effects(old(trace).calls()) + stop_effects(stops.1@),
        keeps_samples(old(run)@, final(run)@),
        final(run)@.attempts == old(run)@.attempts,
        stops_escalate(stops.1@, StoppedProcess::Workload),
        stops.0 == is_stopped(stops.1@),
        !stops.0 ==> final(run)@.faults.len() > 0,
        workload_stop_went(
            endurance_state(old(run)@, old(trace).calls(), measured),
            endurance_state(final(run)@, final(trace).calls(), measured),
            entered,
            stops.1@,
        ),
{
    let ghost before = endurance_state(run@, trace.calls(), measured);
    if entered {
        confirm_shutdown_observer(environment, trace, run);
    }
    let ghost watched = endurance_state(run@, trace.calls(), measured);
    assert(watch_went(before, watched, entered));
    let fixed_deadline = run.check_stop_schedule();
    assert(run@.workload.command.len() == run.workload.command@.len());
    let identity = run.workload.command[0].clone();
    assert(identity@ == watched.run.workload.command[0]);
    let ghost scheduled = endurance_state(run@, trace.calls(), measured);
    assert(scheduled == watched.holds(after_stop_schedule(watched.run)));
    let (stopped, stops) = stop_with_escalation(
        environment,
        trace,
        run,
        StoppedProcess::Workload,
        identity.as_str(),
        fixed_deadline,
        entered,
        Ghost(measured),
    );
    let ghost after_stops = endurance_state(run@, trace.calls(), measured);
    assert(stops_were_made(
        watched.holds(after_stop_schedule(watched.run)),
        after_stops,
        StoppedProcess::Workload,
        watched.run.workload.command[0],
        scheduled_deadline(watched.run),
        entered,
        stops@,
    ));
    if entered && stopped {
        confirm_shutdown_observer(environment, trace, run);
    }
    assert(watch_went(
        after_stops,
        endurance_state(run@, trace.calls(), measured),
        entered && is_stopped(stops@),
    ));
    (stopped, stops)
}

/// Stops the service under watch, where Custom control was asked for. Tells whether it has stopped.
fn stop_service<E>(
    environment: &mut E,
    trace: &mut Trace<'_, E, EnduranceCall>,
    run: &mut EnduranceRun,
    entered: bool,
    Ghost(measured): Ghost<Measured>,
) -> (stops: (bool, Ghost<Seq<StopAttempt>>)) where E: SupervisedEnduranceEnvironment + ?Sized
    requires
        keeps_watch(*old(trace), &*old(environment)),
    ensures
        keeps_watch(*final(trace), &*final(environment)),
        final(trace).start() == old(trace).start(),
        observed(final(trace).calls()) == observed(old(trace).calls()),
        effects(final(trace).calls()) == effects(old(trace).calls()) + stop_effects(stops.1@),
        keeps_samples(old(run)@, final(run)@),
        final(run)@.attempts == old(run)@.attempts,
        entered ==> stops_escalate(stops.1@, StoppedProcess::Service),
        !entered ==> stops.1@.len() == 0,
        stops.0 == (entered ==> is_stopped(stops.1@)),
        !stops.0 ==> final(run)@.faults.len() > 0,
        service_stop_went(
            endurance_state(old(run)@, old(trace).calls(), measured),
            endurance_state(final(run)@, final(trace).calls(), measured),
            entered,
            stops.1@,
        ),
{
    if !entered {
        let none: Ghost<Seq<StopAttempt>> = Ghost(Seq::empty());
        assert(effects(trace.calls()) =~= effects(old(trace).calls()) + stop_effects(none@));
        return (true, none);
    }
    let ghost before = endurance_state(run@, trace.calls(), measured);
    confirm_shutdown_observer(environment, trace, run);
    let ghost watched = endurance_state(run@, trace.calls(), measured);
    assert(watch_went(before, watched, true));
    let (stopped, stops) = stop_with_escalation(
        environment,
        trace,
        run,
        StoppedProcess::Service,
        "pt31553-fan-control.service",
        None,
        true,
        Ghost(measured),
    );
    let ghost after_stops = endurance_state(run@, trace.calls(), measured);
    assert(stops_were_made(
        watched,
        after_stops,
        StoppedProcess::Service,
        "pt31553-fan-control.service"@,
        None,
        true,
        stops@,
    ));
    if stopped {
        confirm_shutdown_observer(environment, trace, run);
    }
    assert(watch_went(
        after_stops,
        endurance_state(run@, trace.calls(), measured),
        is_stopped(stops@),
    ));
    (stopped, stops)
}

/// Gives both fans back.
fn give_fans_back<E>(
    environment: &mut E,
    trace: &mut Trace<'_, E, EnduranceCall>,
    run: &mut EnduranceRun,
    Ghost(measured): Ghost<Measured>,
) -> (done: (bool, Ghost<Seq<RestorationAttempt>>)) where
    E: SupervisedEnduranceEnvironment + ?Sized,

    requires
        keeps_watch(*old(trace), &*old(environment)),
    ensures
        keeps_watch(*final(trace), &*final(environment)),
        final(trace).start() == old(trace).start(),
        observed(final(trace).calls()) == observed(old(trace).calls()),
        effects(final(trace).calls()) == effects(old(trace).calls()) + restoration_effects(done.1@),
        both_fans_restored(done.1@),
        done.0 == (done.1@[0].confirmed && done.1@[1].confirmed),
        keeps_samples(old(run)@, final(run)@),
        final(run)@.attempts.len() == old(run)@.attempts.len() + 2,
        !done.0 ==> final(run)@.faults.len() > 0,
        restoration_went(
            endurance_state(old(run)@, old(trace).calls(), measured),
            endurance_state(final(run)@, final(trace).calls(), measured),
            done.1@,
        ),
{
    let ghost before = endurance_state(run@, trace.calls(), measured);
    assert(fault_list(run.faults@).len() == run.faults@.len());
    let (done, cpu, gpu) = restore_fans(
        environment,
        trace,
        &mut run.readbacks,
        &mut run.restoration_attempts,
        &mut run.faults,
        &run.control,
        &mut run.not_before,
    );
    assert(fault_list(run.faults@).len() == run.faults@.len());
    let ghost attempts = seq![cpu@, gpu@];
    proof {
        let fans = fans_of(run@);
        assert(both_were_restored(
            fans_of(before.run),
            before.run.control,
            fans,
            attempts[0],
            attempts[1],
        ));
        assert(run@ == with_fans(before.run, fans));
        assert(effects(trace.calls()) =~= effects(before.calls) + restoration_effects(attempts));
    }
    (done, Ghost(attempts))
}

/// Drives both fans to their maximum.
fn drive_fans_to_maximum<E>(
    environment: &mut E,
    trace: &mut Trace<'_, E, EnduranceCall>,
    run: &mut EnduranceRun,
    Ghost(measured): Ghost<Measured>,
) -> (done: (bool, Ghost<Seq<ContainmentAttempt>>)) where
    E: SupervisedEnduranceEnvironment + ?Sized,

    requires
        keeps_watch(*old(trace), &*old(environment)),
    ensures
        keeps_watch(*final(trace), &*final(environment)),
        final(trace).start() == old(trace).start(),
        observed(final(trace).calls()) == observed(old(trace).calls()),
        effects(final(trace).calls()) == effects(old(trace).calls()) + containment_effects(done.1@),
        both_fans_contained(done.1@),
        done.0 == (done.1@[0].confirmed && done.1@[1].confirmed),
        keeps_samples(old(run)@, final(run)@),
        final(run)@.attempts.len() == old(run)@.attempts.len() + 2,
        final(run)@.faults.len() > 0,
        containment_went(
            endurance_state(old(run)@, old(trace).calls(), measured),
            endurance_state(final(run)@, final(trace).calls(), measured),
            done.1@,
        ),
{
    let ghost before = endurance_state(run@, trace.calls(), measured);
    assert(fault_list(run.faults@).len() == run.faults@.len());
    let (done, cpu, gpu) = contain_fans(
        environment,
        trace,
        &mut run.readbacks,
        &mut run.restoration_attempts,
        &mut run.faults,
        &run.control,
        &mut run.not_before,
    );
    assert(fault_list(run.faults@).len() == run.faults@.len());
    let ghost attempts = seq![cpu@, gpu@];
    proof {
        let fans = fans_of(run@);
        assert(both_were_contained(
            fans_of(before.run),
            before.run.control,
            fans,
            attempts[0],
            attempts[1],
        ));
        assert(run@ == with_fans(before.run, fans));
        assert(effects(trace.calls()) =~= effects(before.calls) + containment_effects(attempts));
    }
    (done, Ghost(attempts))
}

/// Stops the workload and the service and gives the fans back, or drives them to their maximum.
/// Tells whether the service has stopped and whether both fans are in Firmware Auto.
fn shut_down<E>(
    environment: &mut E,
    trace: &mut Trace<'_, E, EnduranceCall>,
    run: &mut EnduranceRun,
    entered: bool,
    launched: bool,
    Ghost(measured): Ghost<Measured>,
) -> (done: (
    bool,
    bool,
    Ghost<EnduranceLog>,
)) where E: SupervisedEnduranceEnvironment + ?Sized
    requires
        keeps_watch(*old(trace), &*old(environment)),
        launched ==> entered,
        old(run)@.workload.command.len() > 0,
        old(run)@.attempts.len() == 0,
    ensures
        keeps_watch(*final(trace), &*final(environment)),
        final(trace).start() == old(trace).start(),
        observed(final(trace).calls()) == observed(old(trace).calls()),
        effects(final(trace).calls()) == log_effects(done.2@),
        done.2@.work == effects(old(trace).calls()),
        shut_down_in_order(done.2@),
        done.2@.entered == entered,
        done.2@.launched == launched,
        done.0 == (entered ==> is_stopped(done.2@.service_stops)),
        done.1 == is_restored(done.2@),
        keeps_samples(old(run)@, final(run)@),
        final(run)@.faults.len() == 0 ==> is_stopped(done.2@.workload_stops) && done.0 && done.1,
        final(run)@.attempts.len() == done.2@.restorations.len() + done.2@.containments.len(),
        endurance_was_shut_down(
            endurance_state(old(run)@, old(trace).calls(), measured),
            endurance_state(final(run)@, final(trace).calls(), measured),
            done.2@,
        ),
{
    let ghost work = effects(trace.calls());
    let ghost before = endurance_state(run@, trace.calls(), measured);
    let (workload_stopped, workload_stops) = stop_workload(
        environment,
        trace,
        run,
        entered,
        Ghost(measured),
    );
    let ghost after_workload = endurance_state(run@, trace.calls(), measured);
    let ghost with_workload = work + stop_effects(workload_stops@);
    let (service_stopped, service_stops) = stop_service(
        environment,
        trace,
        run,
        entered,
        Ghost(measured),
    );
    let ghost after_service = endurance_state(run@, trace.calls(), measured);
    let ghost with_service = with_workload + stop_effects(service_stops@);
    let mut restorations: Ghost<Seq<RestorationAttempt>> = Ghost(Seq::empty());
    let mut restored = false;
    assert(with_service + restoration_effects(restorations@) =~= with_service);
    if workload_stopped && service_stopped {
        let (done, attempts) = give_fans_back(environment, trace, run, Ghost(measured));
        restored = done;
        restorations = attempts;
    }
    let ghost given_back = endurance_state(run@, trace.calls(), measured);
    let ghost with_restorations = with_service + restoration_effects(restorations@);
    assert(effects(trace.calls()) == with_restorations);
    let mut containments: Ghost<Seq<ContainmentAttempt>> = Ghost(Seq::empty());
    let mut contained = false;
    assert(with_restorations + containment_effects(containments@) =~= with_restorations);
    if !restored {
        let (done, attempts) = drive_fans_to_maximum(environment, trace, run, Ghost(measured));
        contained = done;
        containments = attempts;
    }
    let ghost after_fans = endurance_state(run@, trace.calls(), measured);
    if entered {
        run.record_end(restored, contained);
    }
    let ghost log = EnduranceLog {
        entered,
        launched,
        work,
        workload_stops: workload_stops@,
        service_stops: service_stops@,
        restorations: restorations@,
        containments: containments@,
    };
    proof {
        assert(log_effects(log) == with_restorations + containment_effects(containments@));
        assert(effects(trace.calls()) == log_effects(log));
        reveal(endurance_was_shut_down);
        assert(is_restored(log) == restored);
        assert(containment_went_if(given_back, after_fans, log));
        assert(fans_went(after_service, after_fans, log));
        assert(endurance_state(run@, trace.calls(), measured) == ended_state(after_fans, log));
    }
    (service_stopped, restored, Ghost(log))
}

/// Whether a run kept to its plan and ended in Firmware Auto.
pub open spec fn endurance_is_accepted(m: EnduranceModel, log: EnduranceLog) -> bool {
    &&& m.faults.len() == 0
    &&& m.samples.len() == 1_800
    &&& is_stopped(log.workload_stops)
    &&& log.entered ==> is_stopped(log.service_stops)
    &&& is_restored(log)
}

/// The observer's attestation of a run without a fault.
pub open spec fn attestation_of(m: EnduranceModel, log: EnduranceLog) -> Option<
    ObserverAttestationModel,
> {
    if log.entered && is_stopped(log.service_stops) && m.faults.len() == 0 && m.checks.len() >= 2 {
        Some(
            ObserverAttestationModel {
                started_at: m.checks[0],
                completed_at: m.checks.last(),
                checks: m.checks,
            },
        )
    } else {
        None
    }
}

/// How an endurance run is put on record.
pub open spec fn is_endurance_record(
    record: RecordModel,
    m: EnduranceModel,
    log: EnduranceLog,
    plan: SupervisedEndurancePlan<'_>,
    started_at: EvidenceTimestamp,
    slopes: FinalSlopes,
) -> bool {
    let accepted = endurance_is_accepted(m, log);
    &&& record.schema_version == 2
    &&& record.envelope == plan.preflight@.record.envelope
    &&& record.stage == "supervised-endurance"@
    &&& record.started_at == started_at
    &&& record.starting_conditions_captured_at == m.starting_conditions_captured_at
    &&& record.workload_started_at == m.workload_started_at
    &&& record.workload == Some(m.workload)
    &&& record.samples == m.samples
    &&& record.commands == m.commands
    &&& readback_list(record.readbacks) == m.readbacks
    &&& transition_list(record.state_transitions) == m.transitions
    &&& fault_list(record.faults) == m.faults
    &&& record.restoration_attempts == m.attempts
    &&& stop_list(record.process_stops) == m.stops
    &&& record.thermal_summary == Some(
        thermal_summary(m.samples, slopes, m.system_stable, m.kernel_faults, m.nvidia_faults),
    )
    &&& record.endurance_thermal_envelope == Some(envelope_of(records_of(plan.baselines@)))
    &&& record.endurance_observer_attestation == attestation_of(m, log)
    &&& record.prerequisite_binding_sha256 == Some(plan.prerequisite_binding_sha256@)
    &&& record.baseline_binding_sha256 is None
    &&& record.fan_endpoint_identities is None
    &&& record.calibration.len() == 0
    &&& record.live_lifecycle_cases is None
    &&& record.outcome == (OutcomeModel {
        status: if accepted {
            RunOutcomeStatus::Passed
        } else {
            RunOutcomeStatus::Failed
        },
        reason: if accepted {
            "supervised endurance completed; unattended authorization may be published"@
        } else {
            first_detail(m.faults, "supervised endurance incomplete"@)
        },
        another_passing_run_required: false,
        final_firmware_auto_confirmed: is_restored(log),
    })
}

/// Puts an endurance run on record.
fn assemble_endurance_record(
    run: EnduranceRun,
    plan: &SupervisedEndurancePlan<'_>,
    envelope: QualificationEnvelopeIdentityV1,
    thermal_envelope: EnduranceThermalEnvelopeEvidence,
    started_at: EvidenceTimestamp,
    completed_at: EvidenceTimestamp,
    service_stopped: bool,
    restored: bool,
    slopes: FinalSlopes,
    log: Ghost<EnduranceLog>,
) -> (record: EvidenceRecord)
    requires
        envelope@ == plan.preflight@.record.envelope,
        thermal_envelope == envelope_of(records_of(plan.baselines@)),
        service_stopped == (log@.entered ==> is_stopped(log@.service_stops)),
        restored == is_restored(log@),
        run@.faults.len() == 0 ==> log@.entered && is_stopped(log@.workload_stops),
    ensures
        is_endurance_record(record@, run@, log@, *plan, started_at, slopes),
        record@.completed_at == completed_at,
{
    let summary = summarize_thermal_evidence(
        &run.samples,
        slopes,
        run.system_stable,
        clone_texts(&run.kernel_faults),
        clone_texts(&run.nvidia_faults),
    );
    let clean = run.is_clean();
    let accepted = clean && run.samples.len() == 1_800 && service_stopped && restored;
    let reason = if accepted {
        "supervised endurance completed; unattended authorization may be published".to_owned()
    } else {
        first_fault_detail(&run.faults, "supervised endurance incomplete")
    };
    let mut record = EvidenceRecord::complete_v2(
        envelope,
        "supervised-endurance",
        started_at,
        completed_at,
        RunOutcomeEvidence {
            status: if accepted {
                RunOutcomeStatus::Passed
            } else {
                RunOutcomeStatus::Failed
            },
            reason,
            another_passing_run_required: false,
            final_firmware_auto_confirmed: restored,
        },
    );
    let count = run.observer_checks.len();
    record.endurance_observer_attestation = if service_stopped && clean && count >= 2 {
        Some(
            EnduranceObserverAttestationEvidence {
                started_at: run.observer_checks[0],
                completed_at: run.observer_checks[count - 1],
                checks: run.observer_checks,
            },
        )
    } else {
        None
    };
    record.starting_conditions_captured_at = run.starting_conditions_captured_at;
    record.workload_started_at = run.workload_started_at;
    record.workload = Some(run.workload);
    record.samples = run.samples;
    record.commands = run.commands;
    record.readbacks = run.readbacks;
    record.state_transitions = run.transitions;
    record.faults = run.faults;
    record.restoration_attempts = run.restoration_attempts;
    record.process_stops = run.process_stops;
    record.thermal_summary = Some(summary);
    record.endurance_thermal_envelope = Some(thermal_envelope);
    record.prerequisite_binding_sha256 = Some(plan.prerequisite_binding_sha256.clone());
    record
}

/// The outcome of a supervised endurance run.
pub struct SupervisedEnduranceReport {
    record: EvidenceRecord,
    log: Ghost<EnduranceLog>,
}

impl SupervisedEnduranceReport {
    /// The contents of the record.
    pub closed spec fn evidence(&self) -> RecordModel {
        self.record@
    }

    /// What the run did to the machine.
    pub closed spec fn log(&self) -> EnduranceLog {
        self.log@
    }

    pub fn record(&self) -> (record: &EvidenceRecord)
        ensures
            record@ == self.evidence(),
    {
        &self.record
    }

    pub fn accepted(&self) -> (yes: bool)
        ensures
            yes == (self.evidence().outcome.status == RunOutcomeStatus::Passed),
    {
        self.record.outcome.status == RunOutcomeStatus::Passed
    }

    pub fn into_record(self) -> (record: EvidenceRecord)
        ensures
            record@ == self.evidence(),
    {
        self.record
    }
}

impl Clone for SupervisedEnduranceReport {
    fn clone(&self) -> (copy: SupervisedEnduranceReport)
        ensures
            copy.evidence() == self.evidence(),
            copy.log() == self.log(),
    {
        SupervisedEnduranceReport { record: self.record.clone(), log: self.log }
    }
}

/// Why a plan cannot run.
pub open spec fn endurance_plan_error(plan: SupervisedEndurancePlan<'_>) -> Option<
    EndurancePlanErrorModel,
> {
    if !lower_hex(plan.prerequisite_binding_sha256@, 64) {
        Some(artifact_error("prerequisite binding"@, "lowercase SHA-256 required"@))
    } else {
        or_else(qualification_error(plan), endurance_workload_error(plan.workload@))
    }
}

/// Whether a run launches no workload but its own.
pub open spec fn launches_only(log: EnduranceLog, workload: WorkloadModel) -> bool {
    log.launched ==> (log.work[2] matches EnduranceCall::StartWorkload { workload: launched, .. }
        && launched@ == workload)
}

/// What holds of the outcome of an endurance run, whatever the machine answered.
pub open spec fn endurance_report_stands(
    record: RecordModel,
    log: EnduranceLog,
    plan: SupervisedEndurancePlan<'_>,
) -> bool {
    let passed = record.outcome.status == RunOutcomeStatus::Passed;
    &&& shut_down_in_order(log)
    &&& record.schema_version == 2
    &&& record.stage == "supervised-endurance"@
    &&& record.envelope == plan.preflight@.record.envelope
    &&& record.prerequisite_binding_sha256 == Some(plan.prerequisite_binding_sha256@)
    &&& record.endurance_thermal_envelope == Some(envelope_of(records_of(plan.baselines@)))
    &&& record.workload matches Some(workload) && is_same_workload(workload, plan.workload@)
        && launches_only(log, workload)
    &&& record.samples.len() <= 1_800
    &&& passed || record.outcome.status == RunOutcomeStatus::Failed
    &&& passed <==> record.faults.len() == 0
    &&& passed ==> all_succeeded(log.work) && log.launched && is_stopped(
        log.workload_stops,
    ) && is_stopped(log.service_stops)
        && is_restored(log) && record.samples.len() == 1_800
    &&& !passed ==> record.outcome.reason == fault_list(record.faults)[0].detail
    &&& !record.outcome.another_passing_run_required
    &&& record.outcome.final_firmware_auto_confirmed == is_restored(log)
    &&& record.restoration_attempts.len() == log.restorations.len() + log.containments.len()
    &&& record.endurance_observer_attestation is Some ==> passed
}

/// Asks for Custom control, begins the first segment and launches the workload, as long as no fault
/// comes up. Tells whether Custom control was asked for and whether the workload was launched.
fn open_endurance<E>(
    environment: &mut E,
    trace: &mut Trace<'_, E, EnduranceCall>,
    run: &mut EnduranceRun,
    started_at: EvidenceTimestamp,
    Ghost(measured): Ghost<Measured>,
) -> (opened: (bool, bool)) where E: SupervisedEnduranceEnvironment + ?Sized
    requires
        keeps_watch(*old(trace), &*old(environment)),
        old(run)@.faults.len() == 0,
        effects(old(trace).calls()).len() == 0,
        old(run)@.samples.len() == 0,
        old(run)@.segment == 0,
    ensures
        keeps_watch(*final(trace), &*final(environment)),
        final(trace).start() == old(trace).start(),
        final(run)@.faults.len() == 0 ==> all_succeeded(effects(final(trace).calls())),
        observed(final(trace).calls()) == observed(old(trace).calls()),
        work_is_ordered(effects(final(trace).calls()), opened.0, opened.1),
        opened.1 ==> opened.0,
        final(run)@.samples == old(run)@.samples,
        final(run)@.segment == 0,
        final(run)@.attempts == old(run)@.attempts,
        is_same_workload(final(run)@.workload, old(run)@.workload),
        opened.1 ==> (effects(final(trace).calls())[2] matches EnduranceCall::StartWorkload {
            workload,
            ..
        } && workload@ == final(run)@.workload),
        final(run)@.faults.len() == 0 ==> opened.0 && opened.1
            && final(run)@.workload_started_at is Some,
        endurance_was_opened(
            endurance_state(old(run)@, old(trace).calls(), measured),
            endurance_state(final(run)@, final(trace).calls(), measured),
            started_at,
            opened.0,
            opened.1,
        ),
{
    let ghost before = endurance_state(run@, trace.calls(), measured);
    match started_at.monotonic_millis.checked_add(10_000) {
        None => {
            run.note(started_at, "starting-conditions", "operation deadline overflowed");
            proof {
                let answer: Result<CapturedMatchedWorkloadStartingConditions, String> = arbitrary();
                assert(endurance_state(run@, trace.calls(), measured) == conditions_state(
                    before,
                    started_at,
                    answer,
                    started_at,
                ));
            }
        },
        Some(deadline) => {
            let result = trace.capture_starting_conditions(environment, deadline);
            let ghost answer = result;
            let completed_at = trace.timestamp(environment);
            run.record_conditions(started_at, deadline, completed_at, result);
            assert(endurance_state(run@, trace.calls(), measured) == conditions_state(
                before,
                started_at,
                answer,
                completed_at,
            ));
        },
    }
    let ghost captured = endurance_state(run@, trace.calls(), measured);
    assert(conditions_were_captured(before, captured, started_at));
    let mut entered = false;
    let mut launched = false;
    if run.is_clean() {
        entered = enter_control(environment, trace, run);
    }
    let ghost in_control = endurance_state(run@, trace.calls(), measured);
    assert(entry_went(captured, in_control, entered));
    if run.is_clean() {
        let _ = begin_first_segment(environment, trace, run);
    }
    let ghost begun = endurance_state(run@, trace.calls(), measured);
    assert(first_segment_went(in_control, begun));
    if run.is_clean() {
        launched = launch_workload(environment, trace, run);
    }
    assert(launch_went(begun, endurance_state(run@, trace.calls(), measured), launched));
    proof {
        reveal(endurance_was_opened);
    }
    (entered, launched)
}

/// Runs a plan that was found to be in order, up to the record that it leaves.
fn run_accepted_endurance<E, M>(
    environment: &mut E,
    trace: &mut Trace<'_, E, EnduranceCall>,
    meter: &mut M,
    plan: &SupervisedEndurancePlan<'_>,
    envelope: QualificationEnvelopeIdentityV1,
    thermal_envelope: EnduranceThermalEnvelopeEvidence,
    calibrations: MatchedWorkloadTachometerCalibrations<'_>,
) -> (left: (EvidenceRecord, FinalSlopes, Ghost<EnduranceLog>)) where
    E: SupervisedEnduranceEnvironment + ?Sized,
    M: SlopeMeter + ?Sized,

    requires
        old(trace).calls() == Seq::<EnduranceCall>::empty(),
        keeps_watch(*old(trace), &*old(environment)),
        envelope@ == plan.preflight@.record.envelope,
        thermal_envelope == envelope_of(records_of(plan.baselines@)),
        plan.workload@.command.len() > 0,
    ensures
        keeps_watch(*final(trace), &*final(environment)),
        final(trace).start() == old(trace).start(),
        calls_are_logged(final(trace).calls(), left.2@),
        endurance_report_stands(left.0@, left.2@, *plan),
        samples_came(
            left.0@.samples,
            observed(final(trace).calls()),
            left.0@.outcome.status == RunOutcomeStatus::Passed,
        ),
        is_record_of_calls(
            left.0@,
            final(trace).calls(),
            old(meter).history(),
            final(meter).history(),
            left.2@,
            *plan,
            expectation_of(*calibrations.cpu),
            expectation_of(*calibrations.gpu),
            left.1,
        ),
{
    let ghost cpu = expectation_of(*calibrations.cpu);
    let ghost gpu = expectation_of(*calibrations.gpu);
    let ghost measured = meter.history();
    let started_at = trace.timestamp(environment);
    let mut run = EnduranceRun::begin(&plan.workload, started_at);
    let ghost begun = endurance_state(run@, trace.calls(), meter.history());
    let (entered, launched) = open_endurance(
        environment,
        trace,
        &mut run,
        started_at,
        Ghost(meter.history()),
    );
    let ghost opened = endurance_state(run@, trace.calls(), meter.history());
    sample_endurance(
        environment,
        trace,
        meter,
        &mut run,
        started_at,
        calibrations,
        &thermal_envelope,
    );
    let ghost sampled = endurance_state(run@, trace.calls(), meter.history());
    if run.is_clean() {
        run.check_pending();
    }
    assert(endurance_state(run@, trace.calls(), meter.history()) == settled_state(sampled));
    let (service_stopped, restored, log) = shut_down(
        environment,
        trace,
        &mut run,
        entered,
        launched,
        Ghost(meter.history()),
    );
    let ghost shut = endurance_state(run@, trace.calls(), meter.history());
    let slopes = meter.measure(&run.samples);
    if run.is_clean() {
        run.check_envelope(run.not_before, "thermal-envelope", slopes, &thermal_envelope);
    }
    let ended_at = trace.timestamp(environment);
    let completed_at = run.record_completion(ended_at);
    let ghost ended = run@;
    assert(endurance_state(ended, trace.calls(), meter.history()) == completed_state(
        shut,
        slopes,
        thermal_envelope,
        ended_at,
    ));
    let record = assemble_endurance_record(
        run,
        plan,
        envelope,
        thermal_envelope,
        started_at,
        completed_at,
        service_stopped,
        restored,
        slopes,
        log,
    );
    proof {
        assert(fault_list(record@.faults).len() == record@.faults.len());
        assert(record@.started_at == started_at);
        let start = endurance_state(
            fresh_endurance(plan.workload@, record@.started_at),
            seq![EnduranceCall::Timestamp { answer: record@.started_at }],
            measured,
        );
        assert(begun.calls =~= start.calls);
        assert(begun == start);
        assert(endurance_was_opened(start, opened, record@.started_at, log@.entered, log@.launched));
        assert(samples_were_taken(opened, sampled, record@.started_at, cpu, gpu, thermal_envelope));
        assert(endurance_was_shut_down(settled_state(sampled), shut, log@));
        assert(is_endurance_record(record@, ended, log@, *plan, record@.started_at, slopes));
        reveal(is_record_of_calls);
    }
    (record, slopes, log)
}

/// Decides whether a plan can run, and gives the qualification and the thermal envelope.
#[verifier::rlimit(40)]
fn validate_endurance_plan(plan: &SupervisedEndurancePlan<'_>) -> (result: Result<
    (QualificationEnvelopeIdentityV1, EnduranceThermalEnvelopeEvidence),
    SupervisedEndurancePlanError,
>)
    ensures
        match result {
            Ok(found) => endurance_plan_error(*plan) is None && found.0@
                == plan.preflight@.record.envelope && found.1 == envelope_of(
                records_of(plan.baselines@),
            ) && plan.workload@.command.len() > 0
                && plan.tachometer_calibrations.cpu@.record.calibration.len() == 1
                && plan.tachometer_calibrations.gpu@.record.calibration.len() == 1,
            Err(error) => endurance_plan_error(*plan) == Some(error@),
        },
{
    if !is_lower_hex(plan.prerequisite_binding_sha256.as_str(), 64) {
        return Err(invalid_artifact("prerequisite binding", "lowercase SHA-256 required"));
    }
    let envelope = match validate_qualification_plan(plan) {
        Ok(envelope) => envelope,
        Err(error) => {
            return Err(error);
        },
    };
    let records = baseline_records(plan.baselines);
    let thermal_envelope = match endurance_thermal_envelope(records.as_slice()) {
        Ok(thermal_envelope) => thermal_envelope,
        Err(error) => {
            return Err(error);
        },
    };
    match validate_endurance_workload(&plan.workload) {
        Ok(()) => {},
        Err(error) => {
            return Err(error);
        },
    }
    Ok((envelope, thermal_envelope))
}

/// Whether an outcome is what the record that a run left must give: the report of it where it is
/// valid evidence, and otherwise why it is not.
pub open spec fn is_endurance_outcome(
    result: Result<SupervisedEnduranceReport, SupervisedEndurancePlanError>,
    record: RecordModel,
    log: EnduranceLog,
    slopes: FinalSlopes,
) -> bool {
    match result {
        Ok(report) => report.evidence() == record && report.log() == log && is_valid(
            record,
            slopes,
        ),
        Err(error) => validation_error(record, slopes) matches Some(reason) && error@
            == EndurancePlanErrorModel::InvalidGeneratedEvidence(reason),
    }
}

/// What a calibration lets expect of a fan.
pub open spec fn calibrated(calibration: FanCalibrationModel) -> TachometerExpectation {
    TachometerExpectation {
        anchors: calibration.anchors,
        response_deadline_millis: calibration.response_deadline_millis,
    }
}

/// Whether a run on the machine led to an outcome: the calls are those of a log that shut down in
/// order, and no others, and the samples and their slopes are those that came back.
pub open spec fn endurance_was_run<
    E: SupervisedEnduranceEnvironment + ?Sized,
    M: SlopeMeter + ?Sized,
>(
    before: &E,
    after: &E,
    meter_before: &M,
    meter_after: &M,
    plan: SupervisedEndurancePlan<'_>,
    result: Result<SupervisedEnduranceReport, SupervisedEndurancePlanError>,
) -> bool {
    exists|calls: Seq<EnduranceCall>, record: RecordModel, log: EnduranceLog, slopes: FinalSlopes|
        {
            &&& ran(before, calls, after)
            &&& #[trigger] calls_are_logged(calls, log)
            &&& endurance_report_stands(record, log, plan)
            &&& samples_came(
                record.samples,
                observed(calls),
                record.outcome.status == RunOutcomeStatus::Passed,
            )
            &&& is_record_of_calls(
                record,
                calls,
                meter_before.history(),
                meter_after.history(),
                log,
                plan,
                calibrated(plan.tachometer_calibrations.cpu@.record.calibration[0]),
                calibrated(plan.tachometer_calibrations.gpu@.record.calibration[0]),
                slopes,
            )
            &&& #[trigger] is_endurance_outcome(result, record, log, slopes)
        }
}

/// Runs a plan that was found to be in order, and checks the record that it leaves.
fn perform_endurance<E, M>(
    environment: &mut E,
    meter: &mut M,
    plan: &SupervisedEndurancePlan<'_>,
    envelope: QualificationEnvelopeIdentityV1,
    thermal_envelope: EnduranceThermalEnvelopeEvidence,
) -> (result: Result<SupervisedEnduranceReport, SupervisedEndurancePlanError>) where
    E: SupervisedEnduranceEnvironment + ?Sized,
    M: SlopeMeter + ?Sized,

    requires
        envelope@ == plan.preflight@.record.envelope,
        thermal_envelope == envelope_of(records_of(plan.baselines@)),
        plan.workload@.command.len() > 0,
        plan.tachometer_calibrations.cpu@.record.calibration.len() == 1,
        plan.tachometer_calibrations.gpu@.record.calibration.len() == 1,
    ensures
        endurance_was_run(
            &*old(environment),
            &*final(environment),
            &*old(meter),
            &*final(meter),
            *plan,
            result,
        ),
{
    let calibrations = MatchedWorkloadTachometerCalibrations {
        cpu: &plan.tachometer_calibrations.cpu.record.calibration[0],
        gpu: &plan.tachometer_calibrations.gpu.record.calibration[0],
    };
    proof {
        let cpu = plan.tachometer_calibrations.cpu;
        let gpu = plan.tachometer_calibrations.gpu;
        assert(cpu@.record.calibration[0] == cpu.record.calibration@[0]@);
        assert(gpu@.record.calibration[0] == gpu.record.calibration@[0]@);
    }
    let mut trace = Trace::begin(environment);
    let (record, slopes, log) = run_accepted_endurance(
        environment,
        &mut trace,
        meter,
        plan,
        envelope,
        thermal_envelope,
        calibrations,
    );
    let ghost left = record@;
    let ghost done = log@;
    assert(calls_are_logged(trace.calls(), done));
    let checked = record.validate(slopes);
    let result = match checked {
        Ok(()) => Ok(SupervisedEnduranceReport { record, log }),
        Err(error) => Err(SupervisedEndurancePlanError::InvalidGeneratedEvidence(error)),
    };
    assert(is_endurance_outcome(result, left, done, slopes));
    result
}

/// Runs the supervised endurance qualification.
///
/// A plan that cannot run leaves the machine and the meter untouched. Whatever the machine answers,
/// a plan that can run shuts down in order. The record that it leaves is handed out where it is valid
/// evidence, and otherwise the outcome says why it is not. A run passes exactly where no fault came
/// up over the whole schedule.
pub fn run_supervised_endurance<E, M>(
    environment: &mut E,
    meter: &mut M,
    plan: &SupervisedEndurancePlan<'_>,
) -> (result: Result<SupervisedEnduranceReport, SupervisedEndurancePlanError>) where
    E: SupervisedEnduranceEnvironment + ?Sized,
    M: SlopeMeter + ?Sized,

    ensures
        match endurance_plan_error(*plan) {
            Some(error) => {
                &&& result matches Err(e) && e@ == error
                &&& &*final(environment) == &*old(environment)
                &&& &*final(meter) == &*old(meter)
            },
            None => endurance_was_run(
                &*old(environment),
                &*final(environment),
                &*old(meter),
                &*final(meter),
                *plan,
                result,
            ),
        },
{
    let (envelope, thermal_envelope) = match validate_endurance_plan(plan) {
        Ok(found) => found,
        Err(error) => {
            return Err(error);
        },
    };
    perform_endurance(environment, meter, plan, envelope, thermal_envelope)
}

} // verus!
