//! What a baseline tells of the machine, told by its samples.

use vstd::prelude::*;
use vstd::string::*;
use crate::baseline::{
    after_observation, conditions_are_safe, observation_faults, recorded_sample, restamped,
    run_is_accepted, stamped_in_run, telemetry_is_usable, workload_was_stopped, BaselineAction,
    BaselineObservationModel, BaselineRunModel, BaselineStartingConditions,
};
use crate::baseline_calls::BaselineCall;
use crate::baseline_record::{
    baseline_conditions_are_safe, baseline_is_complete, baseline_readback_is_auto,
    baseline_sample_is_complete, on_cadence,
};
use crate::baseline_steps::{wait_calls, wait_defect, BaselineAnswers};
use crate::evidence::{
    EvidenceFan, EvidenceProfile, EvidenceTimestamp, RecordModel, TelemetrySampleEvidence,
    WorkloadModel,
};
use crate::final_state::final_readback_is_auto;
use crate::run_log::FaultModel;
use crate::thermal::FinalSlopes;

verus! {

broadcast use vstd::string::group_string_axioms;

/// A sample proves its part of a baseline exactly where it is fresh, both temperatures lie from 40
/// degrees below freezing to just below the abort limits, power and profile are the workload's, all
/// three demands are known, and neither device throttled.
pub proof fn proving_samples_are_cool_and_whole(
    sample: TelemetrySampleEvidence,
    profile: EvidenceProfile,
)
    ensures
        baseline_sample_is_complete(sample, profile) <==> {
            &&& sample.freshness is Fresh
            &&& sample.cpu_millicelsius matches Some(cpu) && -40_000 <= cpu <= 94_999
            &&& sample.gpu_millicelsius matches Some(gpu) && -40_000 <= gpu <= 84_999
            &&& sample.external_power matches Some(power) && (power is Ac <==> profile is Ac)
            &&& sample.selected_profile matches Some(selected) && (selected is Ac <==> profile is Ac)
            &&& sample.cpu_source_demand_basis_points is Some
            &&& sample.gpu_source_demand_basis_points is Some
            &&& sample.commanded_demand_basis_points is Some
            &&& sample.cpu_thermal_throttling matches Some(throttled) && !throttled
            &&& sample.gpu_thermal_throttling matches Some(throttled) && !throttled
        },
{
}

/// A complete baseline starts in safe conditions, samples every two seconds give or take a tenth of
/// one, proves every sample, reads back nothing but confirmed Firmware Auto, and holds no fault, no
/// command, no transition, no restoration and no calibration.
pub proof fn complete_baselines_are_undisturbed(record: RecordModel, slopes: FinalSlopes, index: int)
    requires
        baseline_is_complete(record, slopes),
        0 <= index < record.samples.len(),
    ensures
        record.samples.len() >= 2,
        record.faults.len() == 0 && record.commands.len() == 0 && record.state_transitions.len()
            == 0 && record.restoration_attempts.len() == 0 && record.calibration.len() == 0,
        record.workload matches Some(workload) && {
            &&& -40_000 <= workload.ambient_millicelsius <= 80_000
            &&& -40_000 <= workload.starting_cpu_millicelsius <= 94_999
            &&& -40_000 <= workload.starting_gpu_millicelsius <= 84_999
            &&& baseline_sample_is_complete(record.samples[index], workload.power_profile)
        },
        record.workload_started_at matches Some(started) && {
            let earlier = if index == 0 {
                started
            } else {
                record.samples[index - 1].timestamp
            };
            let gap = record.samples[index].timestamp.monotonic_millis - earlier.monotonic_millis;
            1_900 <= gap <= 2_100
        },
        record.starting_conditions_captured_at matches Some(captured)
            && captured.monotonic_millis <= record.workload_started_at->0.monotonic_millis,
        forall|i: int|
            0 <= i < record.readbacks.len() ==> {
                &&& (#[trigger] record.readbacks[i]).field is Enable
                &&& record.readbacks[i].value == Some(2u32)
                &&& record.readbacks[i].outcome is Confirmed
            },
        final_readback_is_auto(record, EvidenceFan::Cpu) && final_readback_is_auto(
            record,
            EvidenceFan::Gpu,
        ),
        record.thermal_summary matches Some(summary) && summary.system_stable == Some(true)
            && summary.kernel_faults.len() == 0 && summary.nvidia_faults.len() == 0,
{
    if index > 0 {
        assert(record.samples[(index - 1) + 1] == record.samples[index]);
    }
    assert forall|i: int| 0 <= i < record.readbacks.len() implies {
        &&& (#[trigger] record.readbacks[i]).field is Enable
        &&& record.readbacks[i].value == Some(2u32)
        &&& record.readbacks[i].outcome is Confirmed
    } by {
        assert(baseline_readback_is_auto(record.readbacks[i]));
    }
}

/// Two samples are on cadence exactly where the later one came 1.9 to 2.1 seconds after the earlier.
pub proof fn cadence_is_two_seconds(earlier: EvidenceTimestamp, later: EvidenceTimestamp)
    ensures
        on_cadence(earlier, later) <==> {
            &&& earlier.monotonic_millis + 1_900 <= later.monotonic_millis
            &&& later.monotonic_millis <= earlier.monotonic_millis + 2_100
        },
{
}

/// Starting conditions are safe exactly where they belong to the workload's profile, the ambient
/// temperature lies from 40 degrees below freezing to 80 above, and both devices lie from there to just
/// below their abort limits. A workload is recorded with exactly such conditions.
pub proof fn safe_starts_are_below_the_abort_limits(
    conditions: BaselineStartingConditions,
    profile: EvidenceProfile,
    workload: WorkloadModel,
)
    ensures
        conditions_are_safe(conditions, profile) <==> {
            &&& conditions.power_profile == profile
            &&& -40_000 <= conditions.ambient_millicelsius <= 80_000
            &&& -40_000 <= conditions.cpu_millicelsius <= 94_999
            &&& -40_000 <= conditions.gpu_millicelsius <= 84_999
        },
        baseline_conditions_are_safe(workload) <==> {
            &&& -40_000 <= workload.ambient_millicelsius <= 80_000
            &&& -40_000 <= workload.starting_cpu_millicelsius <= 94_999
            &&& -40_000 <= workload.starting_gpu_millicelsius <= 84_999
        },
{
}

/// Telemetry is usable exactly where it is fresh and whole, both temperatures lie from 40 degrees below
/// freezing to 150 above, and no demand exceeds the whole.
pub proof fn usable_telemetry_is_plausible(sample: TelemetrySampleEvidence)
    ensures
        telemetry_is_usable(sample) <==> {
            &&& sample.freshness is Fresh
            &&& sample.cpu_millicelsius matches Some(cpu) && -40_000 <= cpu <= 150_000
            &&& sample.gpu_millicelsius matches Some(gpu) && -40_000 <= gpu <= 150_000
            &&& sample.external_power is Some
            &&& sample.selected_profile is Some
            &&& sample.cpu_source_demand_basis_points matches Some(demand) && demand <= 10_000
            &&& sample.gpu_source_demand_basis_points matches Some(demand) && demand <= 10_000
            &&& sample.commanded_demand_basis_points matches Some(demand) && demand <= 10_000
            &&& sample.cpu_thermal_throttling is Some
            &&& sample.gpu_thermal_throttling is Some
        },
        telemetry_is_usable(sample) ==> recorded_sample(sample) == sample,
        !telemetry_is_usable(sample) ==> recorded_sample(sample).freshness is Invalid,
        recorded_sample(sample).timestamp == sample.timestamp,
        recorded_sample(sample).cpu_millicelsius == sample.cpu_millicelsius,
        recorded_sample(sample).gpu_millicelsius == sample.gpu_millicelsius,
{
}

/// A sample adds no fault exactly where it is usable, comes within a tenth of a second of when it is
/// due, shows the workload's power and profile, no throttling, the CPU below 95 and the GPU below 85
/// degrees, and a stable system. Faults that were there stay.
pub proof fn faultless_samples_are_cool_and_punctual(
    faults: Seq<FaultModel>,
    sample: TelemetrySampleEvidence,
    profile: EvidenceProfile,
    due: u64,
    stable: bool,
)
    ensures
        observation_faults(faults, sample, profile, due, stable).len() >= faults.len(),
        forall|i: int|
            0 <= i < faults.len() ==> #[trigger] observation_faults(
                faults,
                sample,
                profile,
                due,
                stable,
            )[i] == faults[i],
        observation_faults(faults, sample, profile, due, stable).len() == faults.len() <==> {
            &&& telemetry_is_usable(sample)
            &&& sample.timestamp.monotonic_millis <= due + 100
            &&& due <= sample.timestamp.monotonic_millis + 100
            &&& sample.external_power matches Some(power) && (power is Ac <==> profile is Ac)
            &&& sample.selected_profile matches Some(selected) && (selected is Ac <==> profile is Ac)
            &&& !(sample.cpu_thermal_throttling matches Some(throttled) && throttled)
            &&& !(sample.gpu_thermal_throttling matches Some(throttled) && throttled)
            &&& !(sample.cpu_millicelsius matches Some(cpu) && cpu > 94_999)
            &&& !(sample.gpu_millicelsius matches Some(gpu) && gpu > 84_999)
            &&& stable
        },
{
}

/// An observation is put on record as one more sample, whatever it shows. One that was captured after
/// its deadline, or stamped outside the run up to its capture, or that shows anything wrong, or comes
/// with a fault report, leaves at least one more fault.
pub proof fn every_observation_is_recorded(
    m: BaselineRunModel,
    started_at: EvidenceTimestamp,
    due: u64,
    deadline: u64,
    captured_at: EvidenceTimestamp,
    observation: BaselineObservationModel,
)
    ensures
        ({
            let after = after_observation(m, started_at, due, deadline, captured_at, observation);
            let stamp = observation.sample.timestamp;
            &&& after.samples.len() == m.samples.len() + 1
            &&& after.samples.drop_last() == m.samples
            &&& after.kernel_faults == m.kernel_faults + observation.kernel_faults
            &&& after.nvidia_faults == m.nvidia_faults + observation.nvidia_faults
            &&& after.system_stable <==> m.system_stable && observation.system_stable
            &&& after.workload == m.workload
            &&& stamped_in_run(stamp, started_at, captured_at) ==> after.samples.last().timestamp
                == stamp
            &&& !stamped_in_run(stamp, started_at, captured_at) ==> after.samples.last().timestamp
                == captured_at && after.samples.last().freshness is Invalid
        }),
{
    let after = after_observation(m, started_at, due, deadline, captured_at, observation);
    assert(after.samples.drop_last() =~= m.samples);
    usable_telemetry_is_plausible(restamped(observation.sample, started_at, captured_at));
}

/// The wait for a sample aims at two seconds more for each sample since the workload started, and
/// allows a tenth of a second. It went well exactly where that can be told, the clock had not passed
/// the deadline before it, the wait succeeded, and the clock had not passed the deadline after it.
pub proof fn samples_are_due_every_two_seconds(
    run: BaselineRunModel,
    answers: BaselineAnswers,
    started_at: EvidenceTimestamp,
)
    requires
        run.samples.len() < 1_000_000_000,
    ensures
        ({
            let due = run.workload_started_at->0.monotonic_millis + 2_000 * (run.samples.len() + 1);
            &&& wait_defect(run, answers, started_at) is None <==> {
                &&& due + 100 <= u64::MAX
                &&& answers.before_wait.monotonic_millis <= due + 100
                &&& answers.waited is Ok
                &&& answers.after_wait.monotonic_millis <= due + 100
            }
            &&& forall|i: int|
                0 <= i < wait_calls(run, answers).len() ==> (#[trigger] wait_calls(
                    run,
                    answers,
                )[i] matches BaselineCall::WaitUntil { target, deadline, .. } ==> target == due
                    && deadline == due + 100)
        }),
{
}

/// Where a workload was launched, it was given ten seconds, and it was asked to stop within five
/// seconds; the clean-up follows exactly where it stopped.
pub proof fn launched_workloads_are_stopped(actions: Seq<BaselineAction>)
    requires
        workload_was_stopped(actions),
        actions.len() > 0,
    ensures
        actions[0] is Launch,
        actions[1] is Stop,
        actions.len() == 2 || actions.len() == 3,
        actions[1]->Stop_answer is Ok <==> actions.len() == 3 && actions[2] is Cleanup,
        actions[1]->Stop_from <= u64::MAX - 5_000 ==> actions[1]->Stop_deadline
            == actions[1]->Stop_from + 5_000,
        actions[0]->Launch_from <= u64::MAX - 10_000 ==> actions[0]->Launch_deadline
            == actions[0]->Launch_from + 10_000,
{
}

/// A run is accepted exactly where nothing went wrong and it took every sample that was asked for.
pub proof fn accepted_baselines_have_every_sample(m: BaselineRunModel, required: nat)
    ensures
        run_is_accepted(m, required) ==> m.faults.len() == 0 && m.samples.len() == required,
        m.faults.len() == 0 && m.samples.len() == required ==> run_is_accepted(m, required),
{
}

} // verus!
