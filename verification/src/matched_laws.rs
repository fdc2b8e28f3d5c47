//! What a matched workload proves, told by its evidence.

use vstd::prelude::*;
use vstd::string::*;
use crate::baseline::telemetry_is_usable;
use crate::evidence::{
    EvidenceFan, EvidenceProfile, EvidenceTimestamp, FanCommandEvidence, FanReadbackEvidence,
    RecordModel, RpmAnchorEvidence, WorkloadModel,
};
use crate::matched_control::{
    matched_sample_faults, tachometer_is_readable, tachometer_outcome, value_confirms,
    MatchedObservationModel, ObservationSchedule, TachometerCommandState,
};
use crate::matched_plan::{
    baseline_is_accepted, class_of, conditions_are_comparable, matches_baseline, runs_required,
    MatchedWorkloadClass, MatchedWorkloadPlan,
};
use crate::matched_record::{
    confirms_command, control_evidence_is_complete, fan_evidence_is_complete, matched_is_complete,
    sample_is_confirmed, within_sample,
};
use crate::matched_workload::{
    matched_report_stands, matched_run_is_accepted, matched_run_was_undone,
    matched_start_is_comparable, matched_start_is_safe, reads_back_auto, MatchedAction,
    MatchedRunModel, MatchedWorkloadFanRestoration, MatchedWorkloadStartingConditions,
};
use crate::matched_control::ControlModel;
use crate::evidence::FanReadbackField;
use crate::run_log::FaultModel;
use crate::tachometer::expected_rpm;
use crate::thermal::FinalSlopes;

verus! {

broadcast use vstd::string::group_string_axioms;

/// A workload under Custom control starts safely exactly where the ambient temperature lies from 40
/// degrees below freezing to 80 above, and both devices from there to just below their abort limits. It
/// starts comparably exactly where the profile is the baseline's, the ambient temperature lies within
/// two degrees of it and both devices within three.
pub proof fn matched_starts_are_safe_and_comparable(
    conditions: MatchedWorkloadStartingConditions,
    baseline: WorkloadModel,
)
    ensures
        matched_start_is_safe(conditions) <==> {
            &&& -40_000 <= conditions.ambient_millicelsius <= 80_000
            &&& -40_000 <= conditions.cpu_millicelsius <= 94_999
            &&& -40_000 <= conditions.gpu_millicelsius <= 84_999
        },
        matched_start_is_comparable(conditions, baseline) <==> {
            &&& conditions.power_profile == baseline.power_profile
            &&& -2_000 <= conditions.ambient_millicelsius - baseline.ambient_millicelsius <= 2_000
            &&& -3_000 <= conditions.cpu_millicelsius - baseline.starting_cpu_millicelsius <= 3_000
            &&& -3_000 <= conditions.gpu_millicelsius - baseline.starting_gpu_millicelsius <= 3_000
        },
{
}

/// A sample under Custom control adds no fault exactly where it was stamped within the run and within a
/// tenth of a second of when it was due, is usable, shows the profile and its power, no throttling, the
/// CPU below 95 and the GPU below 85 degrees, and the controller reports nothing.
pub proof fn faultless_matched_samples_are_cool_and_punctual(
    faults: Seq<FaultModel>,
    observation: MatchedObservationModel,
    profile: EvidenceProfile,
    schedule: ObservationSchedule,
)
    ensures
        matched_sample_faults(faults, observation, profile, schedule).len() >= faults.len(),
        matched_sample_faults(faults, observation, profile, schedule).len() == faults.len() <==> {
            let sample = observation.sample;
            let at = sample.timestamp.monotonic_millis;
            &&& schedule.run_started_at.monotonic_millis <= at <= schedule.captured_at.monotonic_millis
            &&& at <= schedule.expected_millis + 100
            &&& schedule.expected_millis <= at + 100
            &&& telemetry_is_usable(sample)
            &&& sample.external_power matches Some(power) && (power is Ac <==> profile is Ac)
            &&& sample.selected_profile matches Some(selected) && (selected is Ac <==> profile is Ac)
            &&& !(sample.cpu_thermal_throttling matches Some(throttled) && throttled)
            &&& !(sample.gpu_thermal_throttling matches Some(throttled) && throttled)
            &&& !(sample.cpu_millicelsius matches Some(cpu) && cpu > 94_999)
            &&& !(sample.gpu_millicelsius matches Some(gpu) && gpu > 84_999)
            &&& observation.controller_fault is None
        },
{
}

/// A readback confirms a fan exactly where its mode is Custom, its duty is the commanded one, or its
/// tachometer shows it turning.
pub proof fn readbacks_confirm_the_command(
    value: Option<u32>,
    command: FanCommandEvidence,
    readback: FanReadbackEvidence,
)
    ensures
        value_confirms(FanReadbackField::Enable, value, Some(command)) <==> (value matches Some(mode)
            && mode == 1),
        value_confirms(FanReadbackField::Pwm, value, Some(command)) <==> (value matches Some(duty)
            && duty == command.value),
        value_confirms(FanReadbackField::Rpm, value, Some(command)) <==> (value matches Some(rpm)
            && rpm > 0),
        !value_confirms(FanReadbackField::Pwm, value, None),
        confirms_command(readback, command) ==> readback.outcome is Confirmed,
        confirms_command(readback, command) && readback.field is Enable ==> readback.value == Some(
            1u32,
        ),
        confirms_command(readback, command) && readback.field is Pwm ==> readback.value == Some(
            command.value,
        ),
        confirms_command(readback, command) && readback.field is Rpm ==> readback.value != Some(
            0u32,
        ),
{
}

/// A recorded speed is judged from the moment at which the commanded duty was first confirmed. It is
/// refused exactly where the evidence is not whole, or the speed lies more than 30 percent off the
/// expected one after the response deadline; it counts as settled exactly where it lies within.
pub proof fn recorded_speeds_settle_within_the_band(
    state: Option<TachometerCommandState>,
    command: FanCommandEvidence,
    pwm: FanReadbackEvidence,
    rpm: FanReadbackEvidence,
    anchors: Seq<RpmAnchorEvidence>,
    response_deadline_millis: u64,
)
    requires
        tachometer_is_readable(command, pwm, rpm),
    ensures
        command.value <= 255,
        pwm.value == Some(command.value),
        ({
            let outcome = tachometer_outcome(
                state,
                Some(command),
                Some(pwm),
                Some(rpm),
                anchors,
                response_deadline_millis,
            );
            let unchanged = state matches Some(known) && known.pwm == command.value;
            let since = if unchanged {
                state->0.confirmed_at_millis
            } else {
                pwm.timestamp.monotonic_millis
            };
            let speed = rpm.value->0;
            &&& outcome.0 matches Some(after) && after.pwm == command.value
                && after.confirmed_at_millis == since
            &&& since + response_deadline_millis <= u64::MAX ==> {
                &&& outcome.1 is Ok <==> (expected_rpm(anchors, command.value as u8) matches Some(
                    expected,
                ) && ({
                    ||| 7 * expected <= 10 * speed <= 13 * expected
                    ||| rpm.timestamp.monotonic_millis <= since + response_deadline_millis
                }))
                &&& outcome.1 is Ok ==> (outcome.0->0.settled <==> 7 * expected_rpm(
                    anchors,
                    command.value as u8,
                )->0 <= 10 * speed <= 13 * expected_rpm(anchors, command.value as u8)->0)
            }
        }),
{
}

/// Without a command, a duty readback or a speed, a recorded sample proves nothing of a fan.
pub proof fn missing_control_evidence_is_refused(
    state: Option<TachometerCommandState>,
    command: Option<FanCommandEvidence>,
    pwm: Option<FanReadbackEvidence>,
    rpm: Option<FanReadbackEvidence>,
    anchors: Seq<RpmAnchorEvidence>,
    response_deadline_millis: u64,
)
    requires
        command is None || pwm is None || rpm is None || !(pwm->0.outcome is Confirmed)
            || !(rpm->0.outcome is Confirmed) || pwm->0.value != Some(command->0.value)
            || rpm->0.value is None || rpm->0.value == Some(0u32),
    ensures
        tachometer_outcome(state, command, pwm, rpm, anchors, response_deadline_millis).1 is Err,
{
}

/// A control record that is complete holds two commands and six readbacks per sample and one last
/// readback per fan; each sample confirms each fan, and each fan ends in confirmed Firmware Auto, written
/// and read back at one moment.
pub proof fn complete_control_evidence_covers_every_sample(record: RecordModel, index: int)
    requires
        control_evidence_is_complete(record),
        0 <= index < record.samples.len(),
    ensures
        record.commands.len() == 2 * record.samples.len(),
        record.readbacks.len() == 6 * record.samples.len() + 2,
        sample_is_confirmed(record, EvidenceFan::Cpu, index),
        sample_is_confirmed(record, EvidenceFan::Gpu, index),
        fan_evidence_is_complete(record, EvidenceFan::Cpu),
        fan_evidence_is_complete(record, EvidenceFan::Gpu),
{
}

/// Control evidence belongs to a sample exactly where it came with it or within a tenth of a second.
pub proof fn control_evidence_comes_with_its_sample(
    at: EvidenceTimestamp,
    sample_at: EvidenceTimestamp,
)
    ensures
        within_sample(at, sample_at) <==> {
            &&& sample_at.monotonic_millis <= at.monotonic_millis
            &&& at.monotonic_millis <= sample_at.monotonic_millis + 100
        },
{
}

/// A complete matched workload passed over at least five minutes of samples two seconds apart, with both
/// calibrations, no fault, and Firmware Auto confirmed at its end.
pub proof fn complete_matched_workloads_passed(record: RecordModel, slopes: FinalSlopes, index: int)
    requires
        matched_is_complete(record, slopes),
        0 <= index < record.samples.len(),
    ensures
        record.schema_version == 2,
        record.stage == "matched-workload"@,
        record.samples.len() >= 151,
        record.outcome.status is Passed,
        record.outcome.final_firmware_auto_confirmed,
        record.faults.len() == 0,
        record.calibration.len() == 2,
        control_evidence_is_complete(record),
        record.thermal_summary matches Some(summary) && summary.system_stable == Some(true),
        record.workload matches Some(workload) && {
            let sample = record.samples[index];
            &&& -40_000 <= workload.ambient_millicelsius <= 80_000
            &&& sample.freshness is Fresh
            &&& sample.cpu_millicelsius matches Some(cpu) && -40_000 <= cpu <= 94_999
            &&& sample.gpu_millicelsius matches Some(gpu) && -40_000 <= gpu <= 84_999
            &&& sample.selected_profile == Some(workload.power_profile)
            &&& sample.cpu_thermal_throttling == Some(false)
            &&& sample.gpu_thermal_throttling == Some(false)
        },
        record.workload_started_at matches Some(started) && {
            let earlier = if index == 0 {
                started
            } else {
                record.samples[index - 1].timestamp
            };
            let gap = record.samples[index].timestamp.monotonic_millis - earlier.monotonic_millis;
            1_900 <= gap <= 2_100
        },
        record.state_transitions.len() == 2,
        record.state_transitions[0].to@ == "custom-control"@,
        record.state_transitions[1].to@ == "firmware-auto"@,
{
    if index > 0 {
        assert(record.samples[(index - 1) + 1] == record.samples[index]);
    }
}

/// A passing run matches its baseline exactly where it ran the same workload on the same profile from
/// comparable conditions over as many samples, its temperatures compare well, and the system was stable
/// without a fault report.
pub proof fn matching_runs_ran_the_same_workload(
    custom: RecordModel,
    baseline: RecordModel,
    slopes: FinalSlopes,
)
    requires
        custom.workload is Some && baseline.workload is Some,
        custom.thermal_summary is Some && baseline.thermal_summary is Some,
    ensures
        matches_baseline(custom, baseline, slopes) <==> {
            let run = custom.workload->0;
            let reference = baseline.workload->0;
            let warm = custom.thermal_summary->0;
            let cool = baseline.thermal_summary->0;
            &&& run.workload_id == reference.workload_id
            &&& run.command == reference.command
            &&& run.version == reference.version
            &&& run.power_profile == reference.power_profile
            &&& conditions_are_comparable(run, reference)
            &&& custom.samples.len() == baseline.samples.len()
            &&& warm.cpu_peak_millicelsius <= cool.cpu_peak_millicelsius + 2_000
            &&& warm.gpu_peak_millicelsius <= cool.gpu_peak_millicelsius + 2_000
            &&& warm.cpu_p95_millicelsius <= cool.cpu_p95_millicelsius + 2_000
            &&& warm.gpu_p95_millicelsius <= cool.gpu_p95_millicelsius + 2_000
            &&& !slopes.cpu_exceeds_limit && !slopes.gpu_exceeds_limit
            &&& warm.system_stable == Some(true)
            &&& warm.kernel_faults.len() == 0 && warm.nvidia_faults.len() == 0
        },
{
}

/// Idle workloads need one passing run, every other class two. The class is told by how the workload's
/// name starts.
pub proof fn loads_are_matched_twice(class: MatchedWorkloadClass, workload_id: Seq<char>)
    ensures
        class is Idle ==> runs_required(class) == 1,
        !(class is Idle) ==> runs_required(class) == 2,
        workload_id == "idle"@ ==> class_of(workload_id) == Some(MatchedWorkloadClass::Idle),
        workload_id == "cpu"@ ==> class_of(workload_id) == Some(MatchedWorkloadClass::Cpu),
        workload_id == "gpu"@ ==> class_of(workload_id) == Some(MatchedWorkloadClass::Gpu),
        workload_id == "combined"@ ==> class_of(workload_id) == Some(
            MatchedWorkloadClass::Combined,
        ),
{
    reveal_strlit("idle");
    reveal_strlit("cpu");
    reveal_strlit("gpu");
    reveal_strlit("combined");
    assert(workload_id.take(workload_id.len() as int) =~= workload_id);
    if workload_id == "cpu"@ {
        assert(workload_id.len() == 3);
    }
    if workload_id == "gpu"@ {
        assert(workload_id.take(3)[0] == 'g');
        assert("cpu"@[0] == 'c');
    }
    if workload_id == "combined"@ {
        assert(workload_id.take(4)[0] == 'c');
        assert("idle"@[0] == 'i');
        assert(workload_id.take(3)[1] == 'o');
        assert("cpu"@[1] == 'p');
        assert("gpu"@[0] == 'g');
        assert(workload_id.take(3)[0] == 'c');
    }
}

/// A baseline is accepted exactly where it is a baseline that passed, with a workload and a summary,
/// over at least five minutes.
pub proof fn accepted_baselines_passed_over_five_minutes(record: RecordModel)
    ensures
        baseline_is_accepted(record) <==> {
            &&& record.stage == "firmware-auto-baseline"@
            &&& record.outcome.status is Passed
            &&& record.workload is Some
            &&& record.thermal_summary is Some
            &&& record.samples.len() > 0
            &&& record.samples[record.samples.len() - 1].timestamp.monotonic_millis
                - record.samples[0].timestamp.monotonic_millis >= 300_000
        },
{
}

/// A run is accepted exactly where nothing went wrong, every required sample was taken, and both fans
/// were restored.
pub proof fn accepted_matched_runs_are_restored(m: MatchedRunModel, required: nat, restored: bool)
    ensures
        matched_run_is_accepted(m, required, restored) <==> {
            &&& m.faults.len() == 0
            &&& m.samples.len() == required
            &&& restored
        },
{
}

/// A restoration reads back Firmware Auto exactly where the mode is two, from the endpoint that was
/// known, between the request and its deadline.
pub proof fn restored_modes_are_read_back_in_time(
    control: ControlModel,
    fan: EvidenceFan,
    boundary: EvidenceTimestamp,
    deadline: u64,
    completed_at: EvidenceTimestamp,
    restoration: MatchedWorkloadFanRestoration,
)
    ensures
        reads_back_auto(control, fan, boundary, deadline, completed_at, restoration) <==> {
            &&& restoration.enable_readback matches Some(mode) && mode == 2
            &&& control.get(fan, FanReadbackField::Enable) matches Some(known) && known
                == restoration.endpoint_identity@
            &&& boundary.monotonic_millis <= completed_at.monotonic_millis
            &&& completed_at.monotonic_millis <= deadline
        },
{
}

/// Whatever a run did to the machine, it ended by restoring the CPU fan and then the GPU fan, each within
/// five seconds, and a workload that was launched was asked to stop before.
pub proof fn matched_runs_are_undone(actions: Seq<MatchedAction>, workload: WorkloadModel)
    requires
        matched_run_was_undone(actions, workload),
        actions.len() > 0,
    ensures
        2 <= actions.len() <= 5,
        actions[actions.len() - 2] matches MatchedAction::Restore { fan, from, deadline, .. } && fan
            is Cpu && (from <= u64::MAX - 5_000 ==> deadline == from + 5_000),
        actions[actions.len() - 1] matches MatchedAction::Restore { fan, from, deadline, .. } && fan
            is Gpu && (from <= u64::MAX - 5_000 ==> deadline == from + 5_000),
        actions.len() > 2 ==> actions[0] is Enter,
        actions.len() > 3 ==> actions.len() == 5 && actions[1] is Launch && actions[2] is Stop,
        forall|i: int| 0 <= i < actions.len() - 2 ==> !(#[trigger] actions[i] is Restore),
{
    let earlier = actions.take(actions.len() - 2);
    if earlier.len() > 0 {
        assert(earlier[0] == actions[0]);
    }
    if earlier.len() == 3 {
        assert(earlier.take(2)[0] == actions[0]);
        assert(earlier.take(2)[1] == actions[1]);
        assert(earlier[2] == actions[2]);
    }
}

/// A matched workload that passed took as many samples as its baseline, restored both fans and confirmed
/// that, and stopped what it launched. One that failed tells its first fault.
pub proof fn passed_matched_workloads_restored_both_fans(
    record: RecordModel,
    actions: Seq<MatchedAction>,
    plan: MatchedWorkloadPlan<'_>,
)
    requires
        matched_report_stands(record, actions, plan),
    ensures
        record.outcome.status is Passed || record.outcome.status is Failed,
        record.outcome.status is Passed <==> record.faults.len() == 0,
        record.outcome.status is Passed ==> {
            &&& record.outcome.final_firmware_auto_confirmed
            &&& record.samples.len() == plan.baseline@.record.samples.len()
            &&& actions.len() == 5
        },
        record.outcome.final_firmware_auto_confirmed ==> {
            &&& actions.len() >= 2
            &&& actions[actions.len() - 2] matches MatchedAction::Restore { answer, .. }
                && answer.enable_readback == Some(2u32) && answer.outcome is FirmwareAutoConfirmed
            &&& actions[actions.len() - 1] matches MatchedAction::Restore { answer, .. }
                && answer.enable_readback == Some(2u32) && answer.outcome is FirmwareAutoConfirmed
        },
        record.outcome.status is Failed ==> record.outcome.another_passing_run_required,
        record.envelope == plan.baseline@.record.envelope,
        record.calibration.len() == 2,
{
}

} // verus!
