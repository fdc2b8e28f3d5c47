//! What an endurance plan, a checkpoint, a taken-over control and a calibration record are made of.

use vstd::prelude::*;
use crate::arming::ArmedModel;
use crate::calibration_build::{is_built_record, CompletedFanCalibrationRun};
use crate::calibration_record::{all_samples, calibration_is_complete};
use crate::control_cycle::{takes_over, ControlModel};
use crate::endurance_matrix::{
    baseline_checks, baseline_error, calibration_qualifies, count_checks, count_error,
    covers_duration, expected_of_record, final_runs_of, matrix_defect, measured_inputs, position_of,
    prerequisite_error, qualification_error, required_error, run_checks, run_error, runs_of,
    MeasuredModel, SupervisedEndurancePlan,
};
use crate::endurance_plan::{
    duration_of, envelope_error, is_required, key_of, required_key, WorkloadKey,
};
use crate::evidence::{EvidenceFan, RecordModel};
use crate::evidence_rules::{expected_commands, validation_error};
use crate::hash::fingerprint;
use crate::lifecycle::{approved_case, shows_something};
use crate::lifecycle_checkpoint::{checkpoint_error, results, LifecycleRun};
use crate::lifecycle_record::lifecycle_is_complete;
use crate::matched_plan::{matches_baseline, matches_calibrations, runs_required, InputModel};
use crate::matched_record::matched_is_complete;
use crate::publication_laws::lemma_none_found;
use crate::text::{identifier, text_option};

verus! {

/// On external power the CPU and GPU loads last twenty minutes and the combined one thirty; every other
/// required load lasts ten. All are required but the combined one on battery.
pub proof fn loads_last_their_time(key: WorkloadKey)
    ensures
        is_required(key) <==> !(key.profile is Battery && key.class is Combined),
        key.profile is Ac && (key.class is Cpu || key.class is Gpu) ==> duration_of(key) == 20 * 60
            * 1_000,
        key.profile is Ac && key.class is Combined ==> duration_of(key) == 30 * 60 * 1_000,
        key.class is Idle ==> duration_of(key) == 10 * 60 * 1_000,
        key.profile is Battery && !(key.class is Combined) ==> duration_of(key) == 10 * 60 * 1_000,
{
}

/// A record has a key exactly where its workload is one of the seven by name, of its own power profile,
/// in the first version, and run by the class's own program with one argument.
pub proof fn keys_name_the_workload(record: RecordModel, key: WorkloadKey)
    ensures
        key_of(record) == Some(key) ==> {
            &&& record.workload matches Some(workload)
            &&& workload.power_profile == key.profile
            &&& workload.version == "1.0.0"@
            &&& workload.command.len() == 2
            &&& workload.command[1] == "--fixed"@
            &&& key.class is Idle ==> workload.command[0]
                == "/usr/lib/pt31553-fan-control/workloads/idle"@
            &&& key.class is Cpu ==> workload.command[0]
                == "/usr/lib/pt31553-fan-control/workloads/cpu"@
            &&& key.class is Gpu ==> workload.command[0]
                == "/usr/lib/pt31553-fan-control/workloads/gpu"@
            &&& key.class is Combined ==> workload.command[0]
                == "/usr/lib/pt31553-fan-control/workloads/combined"@
            &&& key.profile is Ac && key.class is Idle ==> workload.workload_id == "idle-ac-v1"@
            &&& key.profile is Ac && key.class is Cpu ==> workload.workload_id == "cpu-ac-v1"@
            &&& key.profile is Ac && key.class is Gpu ==> workload.workload_id == "gpu-ac-v1"@
            &&& key.profile is Ac && key.class is Combined ==> workload.workload_id
                == "combined-ac-v1"@
            &&& key.profile is Battery && key.class is Idle ==> workload.workload_id
                == "idle-battery-v1"@
            &&& key.profile is Battery && key.class is Cpu ==> workload.workload_id
                == "cpu-battery-v1"@
            &&& key.profile is Battery && key.class is Gpu ==> workload.workload_id
                == "gpu-battery-v1"@
            &&& !(key.profile is Battery && key.class is Combined)
        },
{
}

/// Evidence is accepted for a stage exactly where it is valid, of the second schema and that stage,
/// passed, ends in Firmware Auto, and, but for a matched workload, asks for no further run.
pub proof fn required_evidence_passed_its_stage(
    artifact: Seq<char>,
    input: InputModel,
    stage: Seq<char>,
)
    ensures
        required_error(artifact, input, stage) is None <==> {
            let record = input.record;
            &&& validation_error(record, input.slopes) is None
            &&& record.schema_version == 2
            &&& record.stage == stage
            &&& record.outcome.status is Passed
            &&& record.outcome.final_firmware_auto_confirmed
            &&& stage != "matched-workload"@ ==> !record.outcome.another_passing_run_required
        },
{
}

/// A record covers its load exactly where it has one sample for every two seconds of it, and the last came
/// when the load had run its time.
pub proof fn covering_records_have_every_sample(record: RecordModel, key: WorkloadKey)
    requires
        is_required(key),
    ensures
        covers_duration(record, key) <==> {
            &&& record.samples.len() * 2_000 == duration_of(key)
            &&& record.workload_started_at matches Some(started)
            &&& record.samples[record.samples.len() - 1].timestamp.monotonic_millis
                == started.monotonic_millis + duration_of(key)
        },
{
    loads_last_their_time(key);
    assert(duration_of(key) == 600_000 || duration_of(key) == 1_200_000 || duration_of(key)
        == 1_800_000);
}

/// A baseline is accepted in its place exactly where it passed as one, under the preflight's envelope, is
/// of a required load and covers it, and repeats neither the measurement nor the load of one before it.
pub proof fn accepted_baselines_fill_a_place(
    envelope: crate::evidence::EnvelopeModel,
    baselines: Seq<MeasuredModel>,
    index: int,
)
    ensures
        baseline_error(envelope, baselines, index) is None <==> {
            let input = baselines[index].input;
            &&& required_error(seq![], input, "firmware-auto-baseline"@) is None
            &&& input.record.envelope == envelope
            &&& key_of(input.record) matches Some(key)
            &&& is_required(key)
            &&& covers_duration(input.record, key)
            &&& forall|j: int|
                0 <= j < index ==> {
                    &&& fingerprint((#[trigger] baselines[j]).measurement) != fingerprint(
                        baselines[index].measurement,
                    )
                    &&& key_of(baselines[j].input.record) != Some(key)
                }
        },
{
    let input = baselines[index].input;
    required_evidence_passed_its_stage(seq![], input, "firmware-auto-baseline"@);
}

/// A matched run is accepted in its place exactly where it passed as one, under the preflight's envelope,
/// is bound to the first baseline of its load and matches it and both calibrations, and repeats no
/// measurement before it.
pub proof fn accepted_runs_match_their_baseline(
    envelope: crate::evidence::EnvelopeModel,
    baselines: Seq<MeasuredModel>,
    runs: Seq<MeasuredModel>,
    cpu: crate::matched_control::TachometerExpectation,
    gpu: crate::matched_control::TachometerExpectation,
    index: int,
)
    ensures
        run_error(envelope, baselines, runs, cpu, gpu, index) is None <==> {
            let run = runs[index].input;
            &&& required_error(seq![], run, "matched-workload"@) is None
            &&& run.record.envelope == envelope
            &&& key_of(run.record) matches Some(key)
            &&& position_of(baselines, key, baselines.len()) matches Some(place)
            &&& run.record.baseline_binding_sha256 == Some(
                fingerprint(baselines[place].input.canonical),
            )
            &&& matched_is_complete(run.record, run.slopes)
            &&& matches_baseline(run.record, baselines[place].input.record, run.slopes)
            &&& matches_calibrations(run.record, cpu, gpu)
            &&& forall|j: int|
                0 <= j < index ==> fingerprint((#[trigger] runs[j]).measurement) != fingerprint(
                    runs[index].measurement,
                )
        },
{
    required_evidence_passed_its_stage(seq![], runs[index].input, "matched-workload"@);
}

/// The place of a load is that of the first record with its key, and there is none exactly where no record
/// has it.
pub proof fn places_are_the_first_of_their_load(
    entries: Seq<MeasuredModel>,
    key: WorkloadKey,
    count: nat,
)
    requires
        count <= entries.len(),
    ensures
        position_of(entries, key, count) matches Some(place) ==> {
            &&& 0 <= place < count
            &&& key_of(entries[place].input.record) == Some(key)
            &&& forall|i: int|
                0 <= i < place ==> key_of((#[trigger] entries[i]).input.record) != Some(key)
        },
        position_of(entries, key, count) is None <==> forall|i: int|
            0 <= i < count ==> key_of((#[trigger] entries[i]).input.record) != Some(key),
    decreases count,
{
    if count > 0 {
        places_are_the_first_of_their_load(entries, key, (count - 1) as nat);
    }
}

/// Runs of a load are counted one by one, final runs among them only where they ask for no further one.
pub proof fn runs_are_counted_by_load(runs: Seq<MeasuredModel>, key: WorkloadKey, count: nat)
    requires
        count < runs.len(),
    ensures
        ({
            let next = runs[count as int].input.record;
            let more = runs_of(runs, key, count + 1) - runs_of(runs, key, count);
            let finals = final_runs_of(runs, key, count + 1) - final_runs_of(runs, key, count);
            &&& more == if key_of(next) == Some(key) {
                1int
            } else {
                0
            }
            &&& finals == if key_of(next) == Some(key)
                && !next.outcome.another_passing_run_required {
                1int
            } else {
                0
            }
        }),
        runs_of(runs, key, 0) == 0,
        final_runs_of(runs, key, 0) == 0,
{
}

/// A plan's evidence qualifies only where the preflight passed without a fault, both fans are calibrated,
/// each by its own record, the whole lifecycle passed, all of them are under one envelope, there is one
/// accepted baseline for each of the seven loads, every matched run is accepted, each load has as many
/// runs as it needs and a final one among them, and the thermal envelope stays below its limits.
pub proof fn qualified_plans_fill_the_matrix(plan: SupervisedEndurancePlan<'_>)
    requires
        qualification_error(plan) is None,
    ensures
        ({
            let envelope = plan.preflight@.record.envelope;
            let baselines = measured_inputs(plan.baselines@);
            let runs = measured_inputs(plan.matched_workload_runs@);
            let cpu = plan.tachometer_calibrations.cpu@;
            let gpu = plan.tachometer_calibrations.gpu@;
            &&& required_error("preflight"@, plan.preflight@, "preflight"@) is None
            &&& plan.preflight@.record.faults.len() == 0
            &&& required_error("live lifecycle"@, plan.live_lifecycle@, "live-lifecycle"@) is None
            &&& lifecycle_is_complete(plan.live_lifecycle@.record)
            &&& plan.live_lifecycle@.record.envelope == envelope
            &&& calibration_qualifies(cpu, EvidenceFan::Cpu, baselines[0].input.record)
            &&& calibration_qualifies(gpu, EvidenceFan::Gpu, baselines[0].input.record)
            &&& cpu.record.envelope == envelope && gpu.record.envelope == envelope
            &&& baselines.len() == 7
            &&& forall|i: int|
                0 <= i < 7 ==> #[trigger] baseline_error(envelope, baselines, i) is None
            &&& forall|i: int|
                0 <= i < runs.len() ==> #[trigger] run_error(
                    envelope,
                    baselines,
                    runs,
                    expected_of_record(cpu.record),
                    expected_of_record(gpu.record),
                    i,
                ) is None
            &&& forall|i: int|
                0 <= i < 7 ==> {
                    let key = #[trigger] required_key(i);
                    &&& position_of(baselines, key, 7) is Some
                    &&& runs_of(runs, key, runs.len()) == runs_required(key.class)
                    &&& final_runs_of(runs, key, runs.len()) > 0
                }
            &&& envelope_error(crate::endurance_matrix::records_of(plan.baselines@)) is None
        }),
{
    let envelope = plan.preflight@.record.envelope;
    let baselines = measured_inputs(plan.baselines@);
    let runs = measured_inputs(plan.matched_workload_runs@);
    let cpu = expected_of_record(plan.tachometer_calibrations.cpu@.record);
    let gpu = expected_of_record(plan.tachometer_calibrations.gpu@.record);
    assert(prerequisite_error(plan) is None);
    assert(matrix_defect(plan) is None);
    lemma_none_found(baseline_checks(envelope, baselines), baselines.len());
    lemma_none_found(run_checks(envelope, baselines, runs, cpu, gpu), runs.len());
    lemma_none_found(count_checks(runs), 7);
    assert forall|i: int| 0 <= i < 7 implies #[trigger] baseline_error(
        envelope,
        baselines,
        i,
    ) is None by {
        assert(baseline_checks(envelope, baselines)(i) is None);
    }
    assert forall|i: int| 0 <= i < runs.len() implies #[trigger] run_error(
        envelope,
        baselines,
        runs,
        cpu,
        gpu,
        i,
    ) is None by {
        assert(run_checks(envelope, baselines, runs, cpu, gpu)(i) is None);
    }
    assert forall|i: int| 0 <= i < 7 implies {
        let key = #[trigger] required_key(i);
        &&& position_of(baselines, key, 7) is Some
        &&& runs_of(runs, key, runs.len()) == runs_required(key.class)
        &&& final_runs_of(runs, key, runs.len()) > 0
    } by {
        assert(count_checks(runs)(i) is None);
        assert(count_error(runs, i) is None);
    }
}

/// A checkpoint is accepted only where its seven cases passed in the approved order, and each began after
/// the one before it had ended.
pub proof fn accepted_checkpoints_passed_seven_cases(run: LifecycleRun, index: int)
    requires
        checkpoint_error(run) is None,
        0 <= index < 7,
    ensures
        run.cases@.len() == 7,
        results(run.cases@)[index].case == approved_case(index),
        results(run.cases@)[index].passed,
        index > 0 ==> results(run.cases@)[index - 1].completed_at.monotonic_millis < results(
            run.cases@,
        )[index].started_at.monotonic_millis,
{
    assert(crate::lifecycle_checkpoint::prefix_passed(results(run.cases@)));
    assert(crate::lifecycle_checkpoint::events_are_ordered(run));
    assert(results(run.cases@)[index].passed);
}

/// A checkpoint is accepted only without a fault, in Firmware Auto, under a boot, with two endpoints that
/// differ, and where its last event is its last change of state.
pub proof fn accepted_checkpoints_ended_in_auto(run: LifecycleRun)
    requires
        checkpoint_error(run) is None,
    ensures
        run.faults@.len() == 0,
        run.final_auto_confirmed,
        identifier(run.pre_reboot_boot_id@),
        run.expected_identities matches Some(expected) && shows_something(expected.0@)
            && shows_something(expected.1@) && expected.0@ != expected.1@,
        run.transitions@.len() > 0,
        run.transitions@[run.transitions@.len() - 1].timestamp == run.last_event_at,
        run.started_at.monotonic_millis <= run.last_event_at.monotonic_millis,
{
    assert(crate::lifecycle_checkpoint::events_are_ordered(run));
}

/// A checkpoint is accepted only where its last two readbacks are of the CPU and the GPU fan's expected
/// endpoints, and every readback and change of state is under the boot before the reboot.
pub proof fn accepted_checkpoints_are_bound_to_their_boot(run: LifecycleRun)
    requires
        checkpoint_error(run) is None,
    ensures
        run.expected_identities matches Some(expected) && {
            let readbacks = run.readbacks@;
            let n = readbacks.len() as int;
            &&& n >= 2
            &&& readbacks[n - 2].fan is Cpu && readbacks[n - 1].fan is Gpu
            &&& readbacks[n - 2].endpoint_identity@ == expected.0@
            &&& readbacks[n - 1].endpoint_identity@ == expected.1@
        },
        forall|i: int|
            0 <= i < run.readbacks@.len() ==> text_option((#[trigger] run.readbacks@[i]).boot_id)
                == Some(run.pre_reboot_boot_id@),
        forall|i: int|
            0 <= i < run.transitions@.len() ==> text_option(
                (#[trigger] run.transitions@[i]).boot_id,
            ) == Some(run.pre_reboot_boot_id@),
{
    let expected = crate::lifecycle_gate::expected_of(run.expected_identities);
    assert(crate::lifecycle_checkpoint::last_gate_matches(run.readbacks@, expected->0));
    assert(crate::lifecycle_checkpoint::readbacks_of_boot(
        run.readbacks@,
        run.pre_reboot_boot_id@,
    ));
    assert(crate::lifecycle_checkpoint::transitions_of_boot(
        run.transitions@,
        run.pre_reboot_boot_id@,
    ));
}

/// Control that is taken over from a receipt is the receipt's, with both fans at the full duty since they
/// were confirmed there.
pub proof fn taken_over_controls_start_at_the_full_duty(armed: ArmedModel, control: ControlModel)
    requires
        takes_over(armed, control),
    ensures
        control.ownership_id == armed.ownership_id,
        control.custom_epoch == armed.custom_epoch,
        control.config == armed.config,
        control.device == armed.device,
        !control.invalidated,
        control.last_outputs.cpu.duty() == 255,
        control.last_outputs.gpu.duty() == 255,
        control.cpu.duty.pwm == 255,
        control.gpu.duty.pwm == 255,
        control.cpu.duty.confirmed_at == armed.cpu_custom_confirmed_at,
        control.gpu.duty.confirmed_at == armed.gpu_custom_confirmed_at,
        control.cpu.calibration == armed.cpu_calibration,
        control.gpu.calibration == armed.gpu_calibration,
{
}

/// A complete calibration record holds five readbacks for each sample of its checkpoint, the calibrated
/// fan's mode, duty and speed and the other fan's mode and duty; ends with both fans' modes in Firmware
/// Auto; and records one confirmed restoration of each fan, between a change to Custom control and one
/// back. It records no workload, sample, fault or stopped process.
pub proof fn complete_calibrations_record_every_sample(record: RecordModel, index: int)
    requires
        calibration_is_complete(record),
        0 <= index < all_samples(record.calibration[0].protocol_checkpoint->0.events).len(),
    ensures
        ({
            let calibration = record.calibration[0];
            let samples = all_samples(calibration.protocol_checkpoint->0.events);
            let sample = samples[index];
            let at = sample.monotonic_millis;
            let first = record.readbacks[5 * index];
            let second = record.readbacks[5 * index + 1];
            let third = record.readbacks[5 * index + 2];
            let fourth = record.readbacks[5 * index + 3];
            let fifth = record.readbacks[5 * index + 4];
            let n = record.readbacks.len() as int;
            &&& record.calibration.len() == 1
            &&& n == 5 * samples.len() + 2
            &&& first.fan == calibration.fan && second.fan == calibration.fan && third.fan
                == calibration.fan
            &&& fourth.fan != calibration.fan && fifth.fan != calibration.fan
            &&& first.field is Enable && second.field is Pwm && third.field is Rpm
            &&& fourth.field is Enable && fifth.field is Pwm
            &&& first.value == Some(sample.selected_enable_readback as u32)
            &&& second.value == Some(sample.selected_pwm_readback as u32)
            &&& third.value == sample.selected_rpm
            &&& fourth.value == Some(sample.other_enable_readback as u32)
            &&& fifth.value == Some(sample.other_pwm_readback as u32)
            &&& first.timestamp.monotonic_millis == at && second.timestamp.monotonic_millis == at
            &&& third.timestamp.monotonic_millis == at && fourth.timestamp.monotonic_millis == at
            &&& fifth.timestamp.monotonic_millis == at
            &&& record.readbacks[n - 1].field is Enable && record.readbacks[n - 2].field is Enable
            &&& record.readbacks[n - 1].value == Some(2u32) && record.readbacks[n - 2].value
                == Some(2u32)
            &&& record.readbacks[n - 1].fan != record.readbacks[n - 2].fan
            &&& record.restoration_attempts.len() == 2
            &&& record.restoration_attempts[0].fan != record.restoration_attempts[1].fan
            &&& record.restoration_attempts[0].auto_write_succeeded
                && record.restoration_attempts[1].auto_write_succeeded
            &&& record.restoration_attempts[0].enable_readback == Some(2u32)
            &&& record.restoration_attempts[1].enable_readback == Some(2u32)
            &&& record.restoration_attempts[0].outcome is FirmwareAutoConfirmed
            &&& record.restoration_attempts[1].outcome is FirmwareAutoConfirmed
            &&& record.state_transitions.len() == 2
            &&& record.state_transitions[0].from@ == "firmware-auto"@
            &&& record.state_transitions[0].to@ == "custom-control"@
            &&& record.state_transitions[1].from@ == "custom-control"@
            &&& record.state_transitions[1].to@ == "firmware-auto"@
            &&& record.commands.len() > 0
            &&& record.workload is None && record.samples.len() == 0 && record.faults.len() == 0
                && record.process_stops.len() == 0
        }),
{
    let samples = all_samples(record.calibration[0].protocol_checkpoint->0.events);
    assert(5 * index == index * 5);
    assert(crate::calibration_record::sample_is_recorded(
        record.readbacks,
        index * 5,
        samples[index],
        record.calibration[0].fan,
        record.fan_endpoint_identities->0,
    ));
}

/// A built calibration record passed, holds the run's calibration, one duty command for each level at the
/// level's moment, and the two restorations at the moment they were tried.
pub proof fn built_records_tell_the_run(record: RecordModel, run: CompletedFanCalibrationRun)
    requires
        is_built_record(record, run),
    ensures
        record.schema_version == 2,
        record.stage == "fan-calibration"@,
        record.outcome.status is Passed,
        record.outcome.final_firmware_auto_confirmed,
        !record.outcome.another_passing_run_required,
        record.started_at == run.started_at,
        record.completed_at == run.completed_at,
        record.envelope == run.qualification_envelope@,
        record.calibration.len() == 1,
        record.calibration[0] == run.calibration@,
        ({
            let levels = expected_commands(run.calibration@.protocol_checkpoint->0.events);
            &&& record.commands.len() == levels.len()
            &&& forall|i: int|
                0 <= i < levels.len() ==> {
                    let command = #[trigger] record.commands[i];
                    &&& command.fan == run.calibration.fan
                    &&& command.field is Pwm
                    &&& command.timestamp.monotonic_millis == levels[i].0
                    &&& command.value == levels[i].1
                }
        }),
        record.restoration_attempts.len() == 2,
        record.restoration_attempts[0].fan is Cpu,
        record.restoration_attempts[1].fan is Gpu,
        record.restoration_attempts[0].timestamp == run.restoration_attempted_at,
        record.restoration_attempts[1].timestamp == run.restoration_attempted_at,
        record.restoration_attempts[0].enable_readback == Some(2u32),
        record.restoration_attempts[1].enable_readback == Some(2u32),
        record.state_transitions.len() == 2,
        record.readbacks.len() == 5 * all_samples(
            run.calibration@.protocol_checkpoint->0.events,
        ).len() + 2,
        record.faults.len() == 0,
{
    assert(crate::run_log::transition_list(record.state_transitions).len()
        == record.state_transitions.len());
}

} // verus!
