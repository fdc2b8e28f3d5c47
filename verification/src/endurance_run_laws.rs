//! What an endurance run's opening, shutdown and record are held to.

use vstd::prelude::*;
use crate::endurance::{
    endurance_is_accepted, endurance_plan_error, is_endurance_outcome, is_endurance_record,
    is_restored, is_stopped, EnduranceLog, SupervisedEnduranceReport,
};
use crate::endurance_fold::{
    endurance_was_opened, endurance_was_shut_down, entry_went, fans_went, first_segment_went,
    launch_went, service_stop_went, stop_was_escalated, stop_was_tried, stops_were_made,
    third_stop_went, workload_stop_went, EnduranceState,
};
use crate::endurance_matrix::{qualification_error, SupervisedEndurancePlan};
use crate::endurance_plan::SupervisedEndurancePlanError;
use crate::endurance_record::is_canonical_workload;
use crate::endurance_schedule::segment;
use crate::endurance_shutdown::{
    stop_deadline, stop_leaves, StopAttempt, StopEffort, StopExpectation,
    SupervisedEnduranceProcessStopConfirmation, SupervisedEnduranceSegmentConfirmation,
};
use crate::endurance_steps::{
    after_custom_entry, after_endurance_completion, after_endurance_conditions, after_endurance_end,
    after_first_segment, after_pending_check, after_stop_schedule, confirms_segment_state,
    scheduled_deadline, scheduled_endpoint, EnduranceModel,
};
use crate::evidence::{EvidenceTimestamp, RecordModel, StoppedProcess};
use crate::evidence_rules::{is_valid, workload_error};
use crate::lifecycle_gate::later_of;
use crate::matched_workload::{matched_start_is_safe, CapturedMatchedWorkloadStartingConditions};
use crate::run_log::FaultModel;
use crate::thermal::FinalSlopes;

verus! {

/// An endurance plan is accepted exactly where it binds its prerequisites by 64 lower-case hexadecimal
/// characters, its evidence qualifies, and its workload can be run and is the canonical one.
pub proof fn accepted_endurance_plans_are_bound(plan: SupervisedEndurancePlan<'_>)
    ensures
        endurance_plan_error(plan) is None <==> {
            let binding = plan.prerequisite_binding_sha256@;
            &&& binding.len() == 64
            &&& forall|i: int|
                0 <= i < binding.len() ==> ('0' <= #[trigger] binding[i] && binding[i] <= '9') || (
                'a' <= binding[i] && binding[i] <= 'f')
            &&& qualification_error(plan) is None
            &&& workload_error(plan.workload@) is None
            &&& is_canonical_workload(plan.workload@)
        },
{
}

/// An endurance run opens without a fault exactly where its conditions were captured in time, on external
/// power and at safe temperatures. They become the workload's.
pub proof fn endurance_opens_on_external_power(
    m: EnduranceModel,
    started_at: EvidenceTimestamp,
    deadline: u64,
    completed_at: EvidenceTimestamp,
    result: Result<CapturedMatchedWorkloadStartingConditions, String>,
)
    ensures
        ({
            let after = after_endurance_conditions(m, started_at, deadline, completed_at, result);
            let good = result matches Ok(capture) && {
                &&& capture.captured_at.monotonic_millis >= started_at.monotonic_millis
                &&& capture.captured_at.monotonic_millis <= completed_at.monotonic_millis
                &&& capture.conditions.power_profile is Ac
                &&& matched_start_is_safe(capture.conditions)
            };
            let timely = m.not_before.monotonic_millis <= completed_at.monotonic_millis
                <= deadline;
            &&& after.faults.len() == m.faults.len() <==> good && timely
            &&& after.faults.len() >= m.faults.len()
            &&& good ==> {
                &&& after.starting_conditions_captured_at == Some(result->Ok_0.captured_at)
                &&& after.workload.ambient_millicelsius
                    == result->Ok_0.conditions.ambient_millicelsius
                &&& after.workload.starting_cpu_millicelsius
                    == result->Ok_0.conditions.cpu_millicelsius
                &&& after.workload.starting_gpu_millicelsius
                    == result->Ok_0.conditions.gpu_millicelsius
            }
            &&& after.not_before.monotonic_millis >= m.not_before.monotonic_millis
            &&& after.not_before.monotonic_millis >= completed_at.monotonic_millis
        }),
{
}

/// Custom control counts as entered exactly where it was confirmed, no earlier than asked for and by the
/// deadline. Only then is the change from Firmware Auto noted.
pub proof fn custom_control_is_entered_in_time(
    m: EnduranceModel,
    requested_at: EvidenceTimestamp,
    deadline: u64,
    observed_at: EvidenceTimestamp,
    result: Result<(), String>,
)
    requires
        m.faults.len() == 0,
    ensures
        ({
            let after = after_custom_entry(m, requested_at, deadline, observed_at, result);
            let good = result is Ok && requested_at.monotonic_millis
                <= observed_at.monotonic_millis <= deadline;
            &&& after.faults.len() == 0 <==> good
            &&& good ==> {
                &&& after.transitions.len() == m.transitions.len() + 1
                &&& after.transitions.last().from == "firmware-auto"@
                &&& after.transitions.last().to == "custom-control"@
                &&& after.transitions.last().timestamp == observed_at
            }
            &&& !good ==> after.transitions == m.transitions
        }),
{
}

/// The first segment counts as begun exactly where its state was confirmed, between the request and the
/// answer and by the deadline. Only then is the change from Custom control noted.
pub proof fn first_segments_are_confirmed_in_time(
    m: EnduranceModel,
    requested_at: EvidenceTimestamp,
    deadline: u64,
    observed_at: EvidenceTimestamp,
    result: Result<SupervisedEnduranceSegmentConfirmation, String>,
)
    requires
        m.faults.len() == 0,
    ensures
        ({
            let after = after_first_segment(m, requested_at, deadline, observed_at, result);
            let good = result matches Ok(confirmation) && {
                &&& confirms_segment_state(confirmation, segment(0))
                &&& requested_at.monotonic_millis <= confirmation.observed_at.monotonic_millis
                &&& confirmation.observed_at.monotonic_millis <= observed_at.monotonic_millis
                &&& observed_at.monotonic_millis <= deadline
            };
            &&& after.faults.len() == 0 <==> good
            &&& good ==> {
                &&& after.transitions.len() == m.transitions.len() + 1
                &&& after.transitions.last().from == "custom-control"@
                &&& after.transitions.last().to == segment(0).id@
            }
            &&& !good ==> after.transitions == m.transitions
        }),
{
}

/// A run ends in Firmware Auto where both fans were given back, else in containment where that held, else
/// in a failed restoration; and the last change it notes says which.
pub proof fn ends_say_where_the_fans_are_left(m: EnduranceModel, restored: bool, contained: bool)
    ensures
        ({
            let after = after_endurance_end(m, restored, contained);
            &&& after.transitions.len() == m.transitions.len() + 1
            &&& m.transitions.len() > 0 ==> after.transitions.last().from == m.transitions.last().to
            &&& restored ==> after.transitions.last().to == "firmware-auto"@
            &&& !restored && contained ==> after.transitions.last().to
                == "emergency-maximum-containment"@
            &&& !restored && !contained ==> after.transitions.last().to == "restoration-failed"@
            &&& after.faults == m.faults
        }),
{
}

/// A fan whose speed has not settled when the hour ends leaves a fault, one for each fan; a workload that
/// is not stopped within a tenth of a second of its end leaves one; and so does an end before the run's
/// last moment.
pub proof fn unsettled_fans_and_late_stops_leave_faults(
    m: EnduranceModel,
    observed_at: EvidenceTimestamp,
)
    ensures
        after_pending_check(m).faults.len() == m.faults.len() + (if m.tachometer.cpu matches Some(
            state,
        ) && !state.settled {
            1int
        } else {
            0
        }) + (if m.tachometer.gpu matches Some(state) && !state.settled {
            1int
        } else {
            0
        }),
        scheduled_endpoint(m) is None ==> after_stop_schedule(m) == m,
        scheduled_endpoint(m) matches Some(end) ==> (after_stop_schedule(m).faults.len()
            == m.faults.len() <==> scheduled_deadline(m) is Some && m.not_before.monotonic_millis
            <= end + 100 <= u64::MAX),
        after_endurance_completion(m, observed_at).faults.len() == m.faults.len()
            <==> m.not_before.monotonic_millis <= observed_at.monotonic_millis,
{
}

/// A stop has five seconds, and less where its own deadline is earlier.
pub proof fn stops_have_five_seconds(requested_at: EvidenceTimestamp, fixed: Option<u64>)
    requires
        requested_at.monotonic_millis + 10_000 <= u64::MAX,
    ensures
        stop_deadline(requested_at, fixed) <= requested_at.monotonic_millis + 5_000,
        fixed is None ==> stop_deadline(requested_at, fixed) == requested_at.monotonic_millis
            + 5_000,
        fixed matches Some(deadline) ==> stop_deadline(requested_at, fixed) == if deadline
            <= requested_at.monotonic_millis + 5_000 {
            deadline as int
        } else {
            requested_at.monotonic_millis + 5_000
        },
{
}

/// A stop is confirmed exactly where the expected process was seen not to run, after the request and by
/// the answer, in time; it leaves no fault exactly where it was and the clock never went back.
pub proof fn confirmed_stops_saw_the_process_gone(
    faults: Seq<FaultModel>,
    not_before: EvidenceTimestamp,
    expectation: StopExpectation<'_>,
    asked_at: EvidenceTimestamp,
    answer: Result<SupervisedEnduranceProcessStopConfirmation, String>,
    answered_at: EvidenceTimestamp,
)
    requires
        asked_at.monotonic_millis + 10_000 <= u64::MAX,
        not_before.monotonic_millis + 10_000 <= u64::MAX,
    ensures
        ({
            let left = stop_leaves(faults, not_before, expectation, asked_at, answer, answered_at);
            let requested = later_of(asked_at, not_before);
            let deadline = stop_deadline(requested, expectation.fixed_deadline);
            let gone = answer matches Ok(seen) && {
                &&& !seen.running
                &&& seen.process_identity@ == expectation.identity@
                &&& seen.observed_at.monotonic_millis >= requested.monotonic_millis
                &&& seen.observed_at.monotonic_millis <= later_of(
                    answered_at,
                    requested,
                ).monotonic_millis
                &&& later_of(answered_at, requested).monotonic_millis <= deadline
            };
            &&& left.1 is Some <==> gone
            &&& left.1 matches Some(stop) ==> {
                &&& stop.process == expectation.process
                &&& stop.process_identity == expectation.identity@
                &&& !stop.running
                &&& stop.requested_at == requested
                &&& stop.confirmed_at == answer->Ok_0.observed_at
            }
            &&& left.0.len() == faults.len() <==> gone && asked_at.monotonic_millis
                >= not_before.monotonic_millis && answered_at.monotonic_millis
                >= requested.monotonic_millis
            &&& left.0.len() >= faults.len()
            &&& left.2 == later_of(answered_at, requested)
        }),
{
}

proof fn lemma_tried(
    before: EnduranceState,
    after: EnduranceState,
    process: StoppedProcess,
    identity: Seq<char>,
    code: Seq<char>,
    fixed_deadline: Option<u64>,
    effort: StopEffort,
    attempt: StopAttempt,
)
    requires
        stop_was_tried(
            before,
            after,
            process,
            identity,
            code,
            fixed_deadline,
            effort,
            attempt,
        ),
    ensures
        attempt.process == process,
        attempt.effort == effort,
        attempt.confirmed ==> (attempt.answer matches Ok(seen) && !seen.running
            && seen.process_identity@ == identity),
        after.run.stops.len() == before.run.stops.len() + if attempt.confirmed {
            1int
        } else {
            0
        },
{
    reveal(stop_was_tried);
}

/// A process is stopped in at most three attempts: an ordinary one, an escalated one only where that was
/// not confirmed, and a terminal one only where neither was. The first that is confirmed is the last, and
/// saw the process gone.
pub proof fn stops_escalate_until_confirmed(
    before: EnduranceState,
    after: EnduranceState,
    process: StoppedProcess,
    identity: Seq<char>,
    fixed_deadline: Option<u64>,
    watched: bool,
    stops: Seq<StopAttempt>,
)
    requires
        stops_were_made(before, after, process, identity, fixed_deadline, watched, stops),
        stops.len() > 0,
    ensures
        1 <= stops.len() <= 3,
        forall|i: int|
            0 <= i < stops.len() ==> {
                let stop = #[trigger] stops[i];
                &&& stop.process == process
                &&& stop.effort is Normal <==> i == 0
                &&& stop.effort is Escalated <==> i == 1
                &&& stop.effort is Terminal <==> i == 2
                &&& stop.confirmed ==> i == stops.len() - 1
                &&& stop.confirmed ==> (stop.answer matches Ok(seen) && !seen.running
                    && seen.process_identity@ == identity)
            },
        stops.len() < 3 ==> stops.last().confirmed,
{
    reveal(stops_were_made);
    let (first, second) = choose|first: EnduranceState, second: EnduranceState|
        {
            &&& #[trigger] stop_was_tried(
                before,
                first,
                process,
                identity,
                crate::endurance_fold::stop_code(process, StopEffort::Normal),
                fixed_deadline,
                StopEffort::Normal,
                stops[0],
            )
            &&& if stops[0].confirmed {
                stops.len() == 1 && second == first
            } else {
                stops.len() > 1 && stop_was_escalated(
                    first,
                    second,
                    process,
                    identity,
                    watched,
                    StopEffort::Escalated,
                    stops[1],
                )
            }
            &&& #[trigger] third_stop_went(second, after, process, identity, watched, stops)
        };
    lemma_tried(
        before,
        first,
        process,
        identity,
        crate::endurance_fold::stop_code(process, StopEffort::Normal),
        fixed_deadline,
        StopEffort::Normal,
        stops[0],
    );
    if !stops[0].confirmed {
        lemma_escalated(first, second, process, identity, watched, StopEffort::Escalated, stops[1]);
        if !stops[1].confirmed {
            lemma_escalated(
                second,
                after,
                process,
                identity,
                watched,
                StopEffort::Terminal,
                stops[2],
            );
        }
    }
}

proof fn lemma_escalated(
    before: EnduranceState,
    after: EnduranceState,
    process: StoppedProcess,
    identity: Seq<char>,
    watched: bool,
    effort: StopEffort,
    attempt: StopAttempt,
)
    requires
        stop_was_escalated(before, after, process, identity, watched, effort, attempt),
    ensures
        attempt.process == process,
        attempt.effort == effort,
        attempt.confirmed ==> (attempt.answer matches Ok(seen) && !seen.running
            && seen.process_identity@ == identity),
{
    let between = choose|between: EnduranceState|
        {
            &&& #[trigger] crate::endurance_fold::watch_went(before, between, watched)
            &&& stop_was_tried(
                between,
                after,
                process,
                identity,
                crate::endurance_fold::stop_code(process, effort),
                None,
                effort,
                attempt,
            )
        };
    lemma_tried(
        between,
        after,
        process,
        identity,
        crate::endurance_fold::stop_code(process, effort),
        None,
        effort,
        attempt,
    );
}

/// Custom control is asked for only where the conditions left no fault, and the workload is launched only
/// where neither they, nor the entry into Custom control, nor the first segment did.
pub proof fn openings_stop_at_the_first_fault(
    before: EnduranceState,
    after: EnduranceState,
    started_at: EvidenceTimestamp,
    entered: bool,
    launched: bool,
)
    requires
        endurance_was_opened(before, after, started_at, entered, launched),
    ensures
        exists|captured: EnduranceState, in_control: EnduranceState, begun: EnduranceState|
            {
                &&& #[trigger] entry_went(captured, in_control, entered)
                &&& #[trigger] first_segment_went(in_control, begun)
                &&& entered ==> captured.run.faults.len() == 0
                &&& launched ==> begun.run.faults.len() == 0
                &&& captured.run.faults.len() > 0 ==> in_control == captured
                &&& in_control.run.faults.len() > 0 ==> begun == in_control
                &&& begun.run.faults.len() > 0 ==> after == begun
            },
{
    reveal(endurance_was_opened);
    let (captured, in_control, begun) = choose|
        captured: EnduranceState,
        in_control: EnduranceState,
        begun: EnduranceState,
    |
        {
            &&& #[trigger] crate::endurance_fold::conditions_were_captured(
                before,
                captured,
                started_at,
            )
            &&& #[trigger] entry_went(captured, in_control, entered)
            &&& #[trigger] first_segment_went(in_control, begun)
            &&& launch_went(begun, after, launched)
        };
    assert(entry_went(captured, in_control, entered));
    assert(first_segment_went(in_control, begun));
}

/// The workload is stopped in every shutdown, and then the service exactly where Custom control was asked
/// for; each by its own name.
pub proof fn shutdowns_stop_workload_and_service(
    before: EnduranceState,
    after: EnduranceState,
    log: EnduranceLog,
)
    requires
        endurance_was_shut_down(before, after, log),
        log.workload_stops.len() > 0,
        log.entered ==> log.service_stops.len() > 0,
    ensures
        log.workload_stops.len() <= 3,
        log.service_stops.len() <= 3,
        !log.entered ==> log.service_stops.len() == 0,
        forall|i: int|
            0 <= i < log.workload_stops.len() ==> (
            #[trigger] log.workload_stops[i]).process is Workload,
        forall|i: int|
            0 <= i < log.service_stops.len() ==> {
                let stop = #[trigger] log.service_stops[i];
                &&& stop.process is Service
                &&& stop.confirmed ==> (stop.answer matches Ok(seen) && !seen.running
                    && seen.process_identity@ == "pt31553-fan-control.service"@)
            },
{
    reveal(endurance_was_shut_down);
    let (workload, service, fans) = choose|
        workload: EnduranceState,
        service: EnduranceState,
        fans: EnduranceState,
    |
        {
            &&& #[trigger] workload_stop_went(
                before,
                workload,
                log.entered,
                log.workload_stops,
            )
            &&& #[trigger] service_stop_went(
                workload,
                service,
                log.entered,
                log.service_stops,
            )
            &&& #[trigger] fans_went(service, fans, log)
            &&& after == crate::endurance_fold::ended_state(fans, log)
        };
    let (watched, stopped) = choose|watched: EnduranceState, stopped: EnduranceState|
        {
            &&& #[trigger] crate::endurance_fold::watch_went(before, watched, log.entered)
            &&& #[trigger] stops_were_made(
                watched.holds(after_stop_schedule(watched.run)),
                stopped,
                StoppedProcess::Workload,
                watched.run.workload.command[0],
                scheduled_deadline(watched.run),
                log.entered,
                log.workload_stops,
            )
            &&& crate::endurance_fold::watch_went(
                stopped,
                workload,
                log.entered && is_stopped(log.workload_stops),
            )
        };
    stops_escalate_until_confirmed(
        watched.holds(after_stop_schedule(watched.run)),
        stopped,
        StoppedProcess::Workload,
        watched.run.workload.command[0],
        scheduled_deadline(watched.run),
        log.entered,
        log.workload_stops,
    );
    if log.entered {
        let (seen, ended) = choose|seen: EnduranceState, ended: EnduranceState|
            {
                &&& #[trigger] crate::endurance_fold::watch_went(workload, seen, true)
                &&& #[trigger] stops_were_made(
                    seen,
                    ended,
                    StoppedProcess::Service,
                    "pt31553-fan-control.service"@,
                    None,
                    true,
                    log.service_stops,
                )
                &&& crate::endurance_fold::watch_went(
                    ended,
                    service,
                    is_stopped(log.service_stops),
                )
            };
        stops_escalate_until_confirmed(
            seen,
            ended,
            StoppedProcess::Service,
            "pt31553-fan-control.service"@,
            None,
            true,
            log.service_stops,
        );
    }
}

/// An endurance record says that it passed exactly where the run was accepted, and claims Firmware Auto
/// exactly where both fans were restored. What it holds is what the run left. It carries an observer's
/// attestation only of a run without a fault that entered Custom control and stopped the service.
pub proof fn endurance_records_tell_the_run(
    record: RecordModel,
    m: EnduranceModel,
    log: EnduranceLog,
    plan: SupervisedEndurancePlan<'_>,
    started_at: EvidenceTimestamp,
    slopes: FinalSlopes,
)
    requires
        is_endurance_record(record, m, log, plan, started_at, slopes),
    ensures
        record.schema_version == 2,
        record.stage == "supervised-endurance"@,
        record.outcome.status is Passed <==> endurance_is_accepted(m, log),
        record.outcome.status is Passed || record.outcome.status is Failed,
        !record.outcome.another_passing_run_required,
        record.outcome.final_firmware_auto_confirmed <==> is_restored(log),
        record.envelope == plan.preflight@.record.envelope,
        record.prerequisite_binding_sha256 == Some(plan.prerequisite_binding_sha256@),
        record.workload == Some(m.workload),
        record.samples == m.samples,
        record.commands == m.commands,
        record.faults.len() == m.faults.len(),
        record.readbacks.len() == m.readbacks.len(),
        record.state_transitions.len() == m.transitions.len(),
        record.restoration_attempts == m.attempts,
        record.calibration.len() == 0,
        record.endurance_observer_attestation matches Some(attestation) ==> {
            &&& log.entered
            &&& m.faults.len() == 0
            &&& is_stopped(log.service_stops)
            &&& attestation.checks == m.checks
            &&& m.checks.len() >= 2
            &&& attestation.started_at == m.checks[0]
            &&& attestation.completed_at == m.checks[m.checks.len() - 1]
        },
        log.entered && m.faults.len() == 0 && is_stopped(log.service_stops) && m.checks.len() >= 2
            ==> record.endurance_observer_attestation is Some,
{
    assert(crate::run_log::fault_list(record.faults).len() == record.faults.len());
    assert(crate::run_log::readback_list(record.readbacks).len() == record.readbacks.len());
    assert(crate::run_log::transition_list(record.state_transitions).len()
        == record.state_transitions.len());
}

/// An endurance report is given exactly where the record is valid, and holds that record.
pub proof fn endurance_reports_hold_valid_records(
    result: Result<SupervisedEnduranceReport, SupervisedEndurancePlanError>,
    record: RecordModel,
    log: EnduranceLog,
    slopes: FinalSlopes,
)
    requires
        is_endurance_outcome(result, record, log, slopes),
    ensures
        result is Ok <==> is_valid(record, slopes),
        result matches Ok(report) ==> report.evidence() == record && report.log() == log,
{
}

} // verus!
