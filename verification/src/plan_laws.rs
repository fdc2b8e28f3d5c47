//! Which runs may be built on and what a run's opening and end are held to.

use vstd::prelude::*;
use crate::baseline::{
    after_conditions, after_workload_check, baseline_report_stands, conditions_are_safe,
    is_assembled, is_concluded, run_is_accepted, BaselineAction, BaselineRunModel,
    CapturedBaselineStartingConditions, FirmwareAutoBaselinePlan, ModeReading,
};
use crate::baseline_steps::{planned_state, BaselineState};
use crate::evidence::{EvidenceTimestamp, RecordModel, WorkloadModel};
use crate::evidence_rules::{calibration_replays, is_valid, validation_error, workload_error};
use crate::hash::fingerprint;
use crate::matched_control::{expectation_of, TachometerExpectation};
use crate::matched_plan::{
    baseline_is_accepted, class_of, first_prior_error, inputs, matches_baseline,
    matches_calibrations, plan_error, prior_error, runs_required, InputModel, MatchedWorkloadPlan,
    MatchedWorkloadPlanError, ThermalComparison,
};
use crate::matched_record::matched_is_complete;
use crate::matched_steps::{conditions_state, run_came_to, MatchedState};
use crate::matched_workload::{
    after_comparison, after_completion, after_matched_conditions, fresh_run, is_matched_outcome,
    is_matched_record, matched_run_is_accepted, matched_start_is_comparable, matched_start_is_safe,
    CapturedMatchedWorkloadStartingConditions, MatchedAction, MatchedRunModel,
    MatchedWorkloadReport,
};
use crate::thermal::FinalSlopes;

verus! {

/// Whether an earlier run counts for a plan: valid, of a matched workload that passed without a fault,
/// complete, under the baseline's own envelope and fingerprint, and matching its workload and the
/// calibrations.
pub open spec fn counts_for(
    prior: InputModel,
    baseline: InputModel,
    cpu: TachometerExpectation,
    gpu: TachometerExpectation,
) -> bool {
    &&& validation_error(prior.record, prior.slopes) is None
    &&& prior.record.stage == "matched-workload"@
    &&& prior.record.outcome.status is Passed
    &&& prior.record.faults.len() == 0
    &&& prior.record.envelope == baseline.record.envelope
    &&& prior.record.baseline_binding_sha256 == Some(fingerprint(baseline.canonical))
    &&& matched_is_complete(prior.record, prior.slopes)
    &&& matches_baseline(prior.record, baseline.record, prior.slopes)
    &&& matches_calibrations(prior.record, cpu, gpu)
}

proof fn lemma_no_prior_error(
    priors: Seq<InputModel>,
    baseline: InputModel,
    cpu: TachometerExpectation,
    gpu: TachometerExpectation,
    count: nat,
)
    requires
        count <= priors.len(),
    ensures
        first_prior_error(priors, baseline, cpu, gpu, count) is None <==> forall|i: int|
            0 <= i < count ==> #[trigger] prior_error(priors, baseline, cpu, gpu, i) is None,
    decreases count,
{
    if count > 0 {
        lemma_no_prior_error(priors, baseline, cpu, gpu, (count - 1) as nat);
    }
}

/// A plan is accepted exactly where its baseline is valid, accepted and of a known workload, each fan's
/// calibration is its own and replays, every earlier run counts for it, and no two of them are the same.
pub proof fn accepted_plans_build_on_passed_runs(plan: MatchedWorkloadPlan<'_>)
    ensures
        plan_error(plan) is None <==> {
            let baseline = plan.baseline@;
            let priors = inputs(plan.previous_passing_runs@);
            let cpu = plan.tachometer_calibrations.cpu@;
            let gpu = plan.tachometer_calibrations.gpu@;
            &&& validation_error(baseline.record, baseline.slopes) is None
            &&& baseline_is_accepted(baseline.record)
            &&& class_of(baseline.record.workload->0.workload_id) is Some
            &&& cpu.fan is Cpu && calibration_replays(cpu)
            &&& gpu.fan is Gpu && calibration_replays(gpu)
            &&& forall|i: int|
                0 <= i < priors.len() ==> counts_for(
                    #[trigger] priors[i],
                    baseline,
                    expectation_of(*plan.tachometer_calibrations.cpu),
                    expectation_of(*plan.tachometer_calibrations.gpu),
                )
            &&& forall|i: int, j: int|
                0 <= i < j < priors.len() ==> fingerprint((#[trigger] priors[i]).canonical)
                    != fingerprint((#[trigger] priors[j]).canonical)
        },
{
    let baseline = plan.baseline@;
    let priors = inputs(plan.previous_passing_runs@);
    let cpu = expectation_of(*plan.tachometer_calibrations.cpu);
    let gpu = expectation_of(*plan.tachometer_calibrations.gpu);
    lemma_no_prior_error(priors, baseline, cpu, gpu, priors.len());
    let clean = forall|i: int|
        0 <= i < priors.len() ==> #[trigger] prior_error(priors, baseline, cpu, gpu, i) is None;
    let counted = forall|i: int|
        0 <= i < priors.len() ==> counts_for(#[trigger] priors[i], baseline, cpu, gpu);
    let distinct = forall|i: int, j: int|
        0 <= i < j < priors.len() ==> fingerprint((#[trigger] priors[i]).canonical) != fingerprint(
            (#[trigger] priors[j]).canonical,
        );
    if clean {
        assert forall|i: int| 0 <= i < priors.len() implies counts_for(
            #[trigger] priors[i],
            baseline,
            cpu,
            gpu,
        ) by {
            assert(prior_error(priors, baseline, cpu, gpu, i) is None);
        }
        assert forall|i: int, j: int| 0 <= i < j < priors.len() implies fingerprint(
            (#[trigger] priors[i]).canonical,
        ) != fingerprint((#[trigger] priors[j]).canonical) by {
            assert(prior_error(priors, baseline, cpu, gpu, j) is None);
        }
    }
    if counted && distinct {
        assert forall|i: int| 0 <= i < priors.len() implies #[trigger] prior_error(
            priors,
            baseline,
            cpu,
            gpu,
            i,
        ) is None by {
            assert(counts_for(priors[i], baseline, cpu, gpu));
        }
    }
}

/// A matched run opens without a fault exactly where conditions were captured, during their capture, that
/// are safe and comparable with the baseline's. They become the workload's.
pub proof fn matched_runs_open_on_comparable_conditions(
    m: MatchedRunModel,
    baseline: WorkloadModel,
    started_at: EvidenceTimestamp,
    completed_at: EvidenceTimestamp,
    result: Result<CapturedMatchedWorkloadStartingConditions, String>,
)
    ensures
        ({
            let after = after_matched_conditions(m, baseline, started_at, completed_at, result);
            let good = result matches Ok(capture) && {
                &&& capture.captured_at.monotonic_millis >= started_at.monotonic_millis
                &&& capture.captured_at.monotonic_millis <= completed_at.monotonic_millis
                &&& matched_start_is_safe(capture.conditions)
                &&& matched_start_is_comparable(capture.conditions, baseline)
            };
            &&& after.faults.len() == if good {
                m.faults.len()
            } else {
                m.faults.len() + 1
            }
            &&& good ==> {
                &&& after.starting_conditions_captured_at == Some(result->Ok_0.captured_at)
                &&& after.workload.ambient_millicelsius
                    == result->Ok_0.conditions.ambient_millicelsius
                &&& after.workload.starting_cpu_millicelsius
                    == result->Ok_0.conditions.cpu_millicelsius
                &&& after.workload.starting_gpu_millicelsius
                    == result->Ok_0.conditions.gpu_millicelsius
                &&& after.workload.workload_id == m.workload.workload_id
                &&& after.workload.command == m.workload.command
            }
            &&& after.samples == m.samples && after.commands == m.commands
        }),
{
}

/// A comparison leaves one fault for each of its three parts that is not acceptable, and the end of a run
/// one where its clock went back.
pub proof fn comparisons_leave_a_fault_for_each_part(
    m: MatchedRunModel,
    at: EvidenceTimestamp,
    comparison: ThermalComparison,
)
    ensures
        after_comparison(m, at, comparison).faults.len() == m.faults.len() + (
        if comparison.peaks_acceptable {
            0int
        } else {
            1
        }) + (if comparison.percentiles_acceptable {
            0int
        } else {
            1
        }) + (if comparison.slopes_acceptable {
            0int
        } else {
            1
        }),
        after_completion(m, at).faults.len() == m.faults.len() <==> m.not_before.monotonic_millis
            <= at.monotonic_millis,
{
}

/// Nothing is launched on conditions that are not good enough: such a run ends after three calls, the
/// second of which captured the conditions, and is not restored.
pub proof fn bad_conditions_launch_nothing(
    end: MatchedState,
    workload: WorkloadModel,
    started_at: EvidenceTimestamp,
    required: nat,
    cpu: TachometerExpectation,
    gpu: TachometerExpectation,
    restored: bool,
)
    requires
        run_came_to(end, workload, started_at, required, cpu, gpu, restored),
        end.calls.len() > 3 || restored,
    ensures
        exists|
            answer: Result<CapturedMatchedWorkloadStartingConditions, String>,
            completed_at: EvidenceTimestamp,
        |
            {
                &&& (#[trigger] after_matched_conditions(
                    fresh_run(workload, started_at),
                    workload,
                    started_at,
                    completed_at,
                    answer,
                )).faults.len() == 0
                &&& answer matches Ok(capture)
                &&& matched_start_is_safe(capture.conditions)
                &&& matched_start_is_comparable(capture.conditions, workload)
            },
{
    let start = MatchedState {
        run: fresh_run(workload, started_at),
        calls: Seq::empty(),
    }.timed(started_at);
    let (answer, completed_at) = choose|
        answer: Result<CapturedMatchedWorkloadStartingConditions, String>,
        completed_at: EvidenceTimestamp,
    |
        {
            let captured = #[trigger] conditions_state(
                start,
                workload,
                started_at,
                answer,
                completed_at,
            );
            if captured.is_clean() {
                crate::matched_steps::run_was_performed(
                    captured,
                    end,
                    started_at,
                    required,
                    cpu,
                    gpu,
                    restored,
                )
            } else {
                end == captured && !restored
            }
        };
    let captured = conditions_state(start, workload, started_at, answer, completed_at);
    matched_runs_open_on_comparable_conditions(
        fresh_run(workload, started_at),
        workload,
        started_at,
        completed_at,
        answer,
    );
    assert(captured.calls.len() == 3);
    assert(captured.is_clean());
    assert(after_matched_conditions(
        fresh_run(workload, started_at),
        workload,
        started_at,
        completed_at,
        answer,
    ).faults.len() == 0);
}

/// A matched run's record says that it passed exactly where the run was accepted, and asks for another
/// passing run until there are as many as its class needs. What it holds is what the run left.
pub proof fn matched_records_tell_the_run(
    record: RecordModel,
    m: MatchedRunModel,
    plan: MatchedWorkloadPlan<'_>,
    started_at: EvidenceTimestamp,
    completed_at: EvidenceTimestamp,
    restored: bool,
    summary: crate::evidence::ThermalSummaryModel,
)
    requires
        is_matched_record(record, m, plan, started_at, completed_at, restored, summary),
        class_of(plan.baseline@.record.workload->0.workload_id) is Some,
    ensures
        record.schema_version == 2,
        record.stage == "matched-workload"@,
        record.outcome.status is Passed <==> matched_run_is_accepted(
            m,
            plan.baseline@.record.samples.len(),
            restored,
        ),
        record.outcome.status is Passed || record.outcome.status is Failed,
        !record.outcome.another_passing_run_required <==> record.outcome.status is Passed
            && plan.previous_passing_runs@.len() + 1 >= runs_required(
            class_of(plan.baseline@.record.workload->0.workload_id)->0,
        ),
        record.outcome.final_firmware_auto_confirmed == restored,
        record.envelope == plan.baseline@.record.envelope,
        record.baseline_binding_sha256 == Some(fingerprint(plan.baseline@.canonical)),
        record.workload == Some(m.workload),
        record.samples == m.samples,
        record.commands == m.commands,
        record.faults.len() == m.faults.len(),
        record.readbacks.len() == m.readbacks.len(),
        record.state_transitions.len() == m.transitions.len(),
        record.restoration_attempts == m.attempts,
        record.calibration.len() == 2,
        record.calibration[0] == plan.tachometer_calibrations.cpu@,
        record.calibration[1] == plan.tachometer_calibrations.gpu@,
{
    assert(crate::run_log::fault_list(record.faults).len() == record.faults.len());
    assert(crate::run_log::readback_list(record.readbacks).len() == record.readbacks.len());
    assert(crate::run_log::transition_list(record.state_transitions).len()
        == record.state_transitions.len());
}

/// A report is given exactly where the record is valid, and holds that record.
pub proof fn reports_hold_valid_records(
    result: Result<MatchedWorkloadReport, MatchedWorkloadPlanError>,
    record: RecordModel,
    actions: Seq<MatchedAction>,
    slopes: FinalSlopes,
)
    requires
        is_matched_outcome(result, record, actions, slopes),
    ensures
        result is Ok <==> is_valid(record, slopes),
        result matches Ok(report) ==> report.evidence() == record && report.actions() == actions,
{
}

/// A baseline opens without a fault exactly where conditions were captured, between the confirmation of
/// Firmware Auto and the end of the capture, that are safe for its power profile. Only then are they
/// valid and become the workload's.
pub proof fn baselines_open_on_safe_conditions(
    m: BaselineRunModel,
    confirmed_at: EvidenceTimestamp,
    completed_at: EvidenceTimestamp,
    result: Result<CapturedBaselineStartingConditions, String>,
)
    ensures
        ({
            let after = after_conditions(m, confirmed_at, completed_at, result);
            let good = result matches Ok(capture) && {
                &&& capture.captured_at.monotonic_millis >= confirmed_at.monotonic_millis
                &&& capture.captured_at.monotonic_millis <= completed_at.monotonic_millis
                &&& conditions_are_safe(capture.conditions, m.workload.power_profile)
            };
            &&& after.faults.len() == if good {
                m.faults.len()
            } else {
                m.faults.len() + 1
            }
            &&& !m.starting_conditions_valid ==> (after.starting_conditions_valid <==> good)
            &&& good ==> {
                &&& after.starting_conditions_captured_at == Some(result->Ok_0.captured_at)
                &&& after.workload.ambient_millicelsius
                    == result->Ok_0.conditions.ambient_millicelsius
                &&& after.workload.starting_cpu_millicelsius
                    == result->Ok_0.conditions.cpu_millicelsius
                &&& after.workload.starting_gpu_millicelsius
                    == result->Ok_0.conditions.gpu_millicelsius
            }
        }),
{
}

/// A baseline needs at least two samples and, once its conditions are valid, a workload that can be run;
/// else it has a fault.
pub proof fn baselines_need_two_samples_and_a_workload(
    before: BaselineState,
    m: BaselineRunModel,
    started_at: EvidenceTimestamp,
    samples_required: nat,
)
    ensures
        planned_state(before, started_at, samples_required).run.faults.len()
            == before.run.faults.len() <==> samples_required >= 2,
        planned_state(before, started_at, samples_required).calls == before.calls,
        m.faults.len() == 0 && m.starting_conditions_valid ==> (after_workload_check(
            m,
            started_at,
        ).faults.len() == 0 <==> workload_error(m.workload) is None),
        m.faults.len() > 0 ==> after_workload_check(m, started_at) == m,
{
}

/// A baseline that would pass on invalid evidence fails instead, with one more fault. Nothing else about
/// the record changes, and any other record stands as it is.
pub proof fn invalid_passes_become_failures(
    before: RecordModel,
    after: RecordModel,
    completed_at: EvidenceTimestamp,
    slopes: FinalSlopes,
)
    requires
        is_concluded(before, after, completed_at, slopes),
    ensures
        after.outcome.status is Passed ==> before == after && is_valid(after, slopes),
        before.outcome.status is Passed && !is_valid(before, slopes) ==> {
            &&& after.outcome.status is Failed
            &&& after.outcome.another_passing_run_required
            &&& after.faults.len() == before.faults.len() + 1
        },
        before.outcome.status is Passed && is_valid(before, slopes) ==> after == before,
        !(before.outcome.status is Passed) ==> after == before,
        after.samples == before.samples && after.readbacks == before.readbacks,
        after.outcome.final_firmware_auto_confirmed == before.outcome.final_firmware_auto_confirmed,
{
    assert(crate::run_log::fault_list(after.faults).len() == after.faults.len());
    assert(crate::run_log::fault_list(before.faults).len() == before.faults.len());
}

/// A baseline's record says that it passed exactly where the run was accepted, and else asks for another.
/// It records no command, no restoration and no change of state: the firmware kept control.
pub proof fn baseline_records_tell_the_run(
    record: RecordModel,
    m: BaselineRunModel,
    envelope: crate::evidence::EnvelopeModel,
    started_at: EvidenceTimestamp,
    completed_at: EvidenceTimestamp,
    final_auto: bool,
    recordable: bool,
    samples_required: nat,
    slopes: FinalSlopes,
)
    requires
        is_assembled(
            record,
            m,
            envelope,
            started_at,
            completed_at,
            final_auto,
            recordable,
            samples_required,
            slopes,
        ),
    ensures
        record.schema_version == 2,
        record.stage == "firmware-auto-baseline"@,
        record.envelope == envelope,
        record.outcome.status is Passed <==> run_is_accepted(m, samples_required),
        record.outcome.another_passing_run_required <==> !(record.outcome.status is Passed),
        record.outcome.final_firmware_auto_confirmed == final_auto,
        record.samples == m.samples,
        record.faults.len() == m.faults.len(),
        record.readbacks.len() == m.readbacks.len(),
        record.workload is Some <==> recordable,
        record.commands.len() == 0,
        record.state_transitions.len() == 0,
        record.restoration_attempts.len() == 0,
        record.process_stops.len() == 0,
        record.calibration.len() == 0,
{
    assert(crate::run_log::fault_list(record.faults).len() == record.faults.len());
    assert(crate::run_log::readback_list(record.readbacks).len() == record.readbacks.len());
}

/// A baseline report that passed has no fault, every sample that was asked for, and three actions, of
/// which the first launched the workload and the last attests that no fan control was written. Where the
/// first reading did not show Firmware Auto, nothing was launched.
pub proof fn passed_baselines_wrote_nothing(
    record: RecordModel,
    actions: Seq<BaselineAction>,
    plan: FirmwareAutoBaselinePlan<'_>,
    first: ModeReading,
    last: ModeReading,
    slopes: FinalSlopes,
)
    requires
        baseline_report_stands(record, actions, plan, first, last, slopes),
    ensures
        record.outcome.status is Passed <==> record.faults.len() == 0,
        record.outcome.status is Passed ==> {
            &&& is_valid(record, slopes)
            &&& record.samples.len() == plan.samples_required
            &&& actions.len() == 3
            &&& actions[0] matches BaselineAction::Launch { answer: Ok(_), .. }
            &&& actions[2] matches BaselineAction::Cleanup { answer: Ok(attestation) }
                && attestation.fan_control_write_count == 0
        },
        crate::baseline::mode_failure(first) is Some ==> actions.len() == 0
            && record.outcome.status is Failed,
        plan.samples_required < 2 ==> actions.len() == 0,
        record.outcome.final_firmware_auto_confirmed <==> crate::baseline::mode_failure(
            last,
        ) is None,
        record.samples.len() <= plan.samples_required,
        record.commands.len() == 0 && record.restoration_attempts.len() == 0,
{
}

} // verus!
