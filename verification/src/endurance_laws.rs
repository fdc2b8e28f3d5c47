//! The thermal envelope of an endurance run, told by its baselines.

use vstd::prelude::*;
use vstd::string::*;
use crate::endurance::{endurance_is_accepted, endurance_report_stands, EnduranceLog};
use crate::endurance_matrix::{covers_duration, SupervisedEndurancePlan};
use crate::endurance_plan::{
    ceiling_of, envelope_error, envelope_of, highest, highest_bounds_every_summary, measured,
    ThermalMeasure, WorkloadKey,
};
use crate::endurance_record::{
    attestation_is_valid, cleanup_matches, endurance_is_complete, sample_follows_schedule,
    transition_names_match, transition_times_match, within_thermal_envelope,
};
use crate::endurance_schedule::{segment, segment_of};
use crate::endurance_shutdown::{
    containment_is_confirmed, restoration_is_confirmed, stop_deadline, stop_is_confirmed,
    SupervisedEnduranceFanContainment, SupervisedEnduranceProcessStopConfirmation,
    SupervisedEnduranceSegmentConfirmation,
};
use crate::endurance_steps::{
    check_is_accepted, confirms_segment, scheduled_deadline, scheduled_endpoint,
    stays_within_envelope, EnduranceModel,
};
use crate::evidence::{
    EnduranceThermalEnvelopeEvidence, EvidenceFan, EvidenceRecord, EvidenceTimestamp,
    FanReadbackField, ObserverAttestationModel, RecordModel, TelemetrySampleEvidence,
    ThermalSummaryModel,
};
use crate::matched_control::ControlModel;
use crate::matched_workload::MatchedWorkloadFanRestoration;
use crate::thermal::FinalSlopes;

verus! {

broadcast use vstd::string::group_string_axioms;

/// The highest measurement is that of one of the baselines with a thermal summary, and there is one
/// exactly where any baseline has such a summary.
pub proof fn highest_is_one_of_the_measurements(
    records: Seq<&EvidenceRecord>,
    measure: ThermalMeasure,
)
    ensures
        highest(records, measure) matches Some(value) ==> exists|i: int|
            0 <= i < records.len() && ((#[trigger] records[i])@.thermal_summary matches Some(summary)
                && value == match measure {
                ThermalMeasure::CpuPeak => summary.cpu_peak_millicelsius,
                ThermalMeasure::GpuPeak => summary.gpu_peak_millicelsius,
                ThermalMeasure::CpuP95 => summary.cpu_p95_millicelsius,
                ThermalMeasure::GpuP95 => summary.gpu_p95_millicelsius,
            }),
        highest(records, measure) is None <==> forall|i: int|
            0 <= i < records.len() ==> (#[trigger] records[i])@.thermal_summary is None,
    decreases records.len(),
{
    if records.len() > 0 {
        let earlier = records.drop_last();
        highest_is_one_of_the_measurements(earlier, measure);
        if highest(earlier, measure) is Some {
            let value = highest(earlier, measure)->0;
            let i = choose|i: int|
                0 <= i < earlier.len() && ((#[trigger] earlier[i])@.thermal_summary matches Some(
                    summary,
                ) && value == measured(summary, measure));
            assert(records[i] == earlier[i]);
        } else {
            assert forall|i: int| 0 <= i < records.len() - 1 implies (
            #[trigger] records[i])@.thermal_summary is None by {
                assert(records[i] == earlier[i]);
            }
        }
        assert(records[records.len() - 1] == records.last());
        if forall|i: int| 0 <= i < records.len() ==> (#[trigger] records[i])@.thermal_summary
            is None {
            assert forall|i: int| 0 <= i < earlier.len() implies (
            #[trigger] earlier[i])@.thermal_summary is None by {
                assert(records[i] == earlier[i]);
            }
        }
    }
}

/// Baselines give an envelope exactly where at least one has a thermal summary and each highest
/// measurement plus two degrees lies above freezing and below the abort limit: 95 degrees for the CPU,
/// 85 for the GPU.
pub proof fn envelopes_stay_below_the_abort_limits(
    records: Seq<&EvidenceRecord>,
    cpu_peak: int,
    gpu_peak: int,
    cpu_p95: int,
    gpu_p95: int,
)
    requires
        records.len() > 0,
        forall|i: int|
            0 <= i < records.len() ==> ((#[trigger] records[i])@.thermal_summary matches Some(summary)
                && summary.cpu_peak_millicelsius <= cpu_peak && summary.gpu_peak_millicelsius
                <= gpu_peak && summary.cpu_p95_millicelsius <= cpu_p95
                && summary.gpu_p95_millicelsius <= gpu_p95),
        exists|i: int|
            0 <= i < records.len() && (
            #[trigger] records[i])@.thermal_summary->0.cpu_peak_millicelsius == cpu_peak,
        exists|i: int|
            0 <= i < records.len() && (
            #[trigger] records[i])@.thermal_summary->0.gpu_peak_millicelsius == gpu_peak,
        exists|i: int|
            0 <= i < records.len() && (
            #[trigger] records[i])@.thermal_summary->0.cpu_p95_millicelsius == cpu_p95,
        exists|i: int|
            0 <= i < records.len() && (
            #[trigger] records[i])@.thermal_summary->0.gpu_p95_millicelsius == gpu_p95,
    ensures
        envelope_error(records) is None <==> {
            &&& -2_000 < cpu_peak < 93_000
            &&& -2_000 < gpu_peak < 83_000
            &&& -2_000 < cpu_p95 < 93_000
            &&& -2_000 < gpu_p95 < 83_000
        },
        envelope_error(records) is None ==> {
            let envelope = envelope_of(records);
            &&& envelope.cpu_peak_limit_millicelsius == cpu_peak + 2_000
            &&& envelope.gpu_peak_limit_millicelsius == gpu_peak + 2_000
            &&& envelope.cpu_p95_limit_millicelsius == cpu_p95 + 2_000
            &&& envelope.gpu_p95_limit_millicelsius == gpu_p95 + 2_000
        },
{
    lemma_highest_is(records, ThermalMeasure::CpuPeak, cpu_peak);
    lemma_highest_is(records, ThermalMeasure::GpuPeak, gpu_peak);
    lemma_highest_is(records, ThermalMeasure::CpuP95, cpu_p95);
    lemma_highest_is(records, ThermalMeasure::GpuP95, gpu_p95);
}

/// A bound that one of the baselines reaches is their highest measurement.
proof fn lemma_highest_is(records: Seq<&EvidenceRecord>, measure: ThermalMeasure, bound: int)
    requires
        forall|i: int|
            0 <= i < records.len() ==> ((#[trigger] records[i])@.thermal_summary matches Some(summary)
                && measured(summary, measure) <= bound),
        exists|i: int|
            0 <= i < records.len() && measured(
                (#[trigger] records[i])@.thermal_summary->0,
                measure,
            ) == bound,
    ensures
        highest(records, measure) matches Some(value) && value == bound,
{
    let i = choose|i: int|
        0 <= i < records.len() && measured(
            (#[trigger] records[i])@.thermal_summary->0,
            measure,
        ) == bound;
    highest_bounds_every_summary(records, measure, i);
    highest_is_one_of_the_measurements(records, measure);
    assert(ceiling_of(records, measure) == ceiling_of(records, measure));
}

/// One more baseline never lowers a limit, and raises it only to its own measurement plus two degrees.
pub proof fn further_baselines_only_raise_limits(
    records: Seq<&EvidenceRecord>,
    further: &EvidenceRecord,
    measure: ThermalMeasure,
)
    requires
        highest(records, measure) is Some,
    ensures
        ({
            let before = highest(records, measure)->0;
            let after = highest(records.push(further), measure)->0;
            &&& highest(records.push(further), measure) is Some
            &&& after >= before
            &&& after == before || (further@.thermal_summary matches Some(summary) && after
                == measured(summary, measure))
        }),
{
    assert(records.push(further).drop_last() =~= records);
}

/// The hour is spent on AC power but for the fifteen minutes after the twenty-fifth, and under load in
/// its first quarter, in the ten minutes after the twenty-fifth, and in the ten after the fortieth. A
/// boundary belongs to what ends there.
pub proof fn the_hour_is_scheduled(elapsed: int)
    requires
        0 < elapsed <= 3_600_000,
    ensures
        ({
            let active = segment(segment_of(elapsed, 0));
            &&& active.power_profile is Battery <==> 1_500_000 < elapsed <= 2_400_000
            &&& active.load is Load <==> {
                ||| elapsed <= 900_000
                ||| 1_500_000 < elapsed <= 2_100_000
                ||| 2_400_000 < elapsed <= 3_000_000
            }
        }),
{
    reveal_with_fuel(segment_of, 7);
    reveal_with_fuel(crate::endurance_schedule::segment_start, 7);
}

/// A sample of the hour stands exactly where it comes within a tenth of a second of when it is due, is
/// fresh, shows the power, the profile and the load of its part of the schedule, and is cool and
/// unthrottled. Under load both devices are at least half busy; idle, at most a tenth.
pub proof fn scheduled_samples_show_their_part(
    sample: TelemetrySampleEvidence,
    index: int,
    started: EvidenceTimestamp,
)
    requires
        0 <= index < 1_800,
        started.monotonic_millis + 3_600_000 <= u64::MAX,
    ensures
        sample_follows_schedule(sample, index, started) <==> {
            let elapsed = 2_000 * (index + 1);
            let due = started.monotonic_millis + elapsed;
            let battery = 1_500_000 < elapsed <= 2_400_000;
            let loaded = elapsed <= 900_000 || 1_500_000 < elapsed <= 2_100_000 || 2_400_000
                < elapsed <= 3_000_000;
            &&& due <= sample.timestamp.monotonic_millis + 100
            &&& sample.timestamp.monotonic_millis <= due + 100
            &&& sample.freshness is Fresh
            &&& sample.external_power matches Some(power) && (power is Battery <==> battery)
            &&& sample.selected_profile matches Some(profile) && (profile is Battery <==> battery)
            &&& sample.cpu_utilization_basis_points matches Some(cpu) && (if loaded {
                5_000 <= cpu <= 10_000
            } else {
                cpu <= 1_000
            })
            &&& sample.gpu_utilization_basis_points matches Some(gpu) && (if loaded {
                5_000 <= gpu <= 10_000
            } else {
                gpu <= 1_000
            })
            &&& sample.cpu_millicelsius matches Some(cpu) && -40_000 <= cpu <= 94_999
            &&& sample.gpu_millicelsius matches Some(gpu) && -40_000 <= gpu <= 84_999
            &&& sample.cpu_thermal_throttling matches Some(throttled) && !throttled
            &&& sample.gpu_thermal_throttling matches Some(throttled) && !throttled
        },
{
    the_hour_is_scheduled(2_000 * (index + 1));
}

/// A summary stays within an envelope exactly where no peak and no percentile exceeds its limit, no
/// slope exceeds its own, the system was stable without a fault report, and the limits themselves stay
/// below the abort limits, the percentiles' at most at the peaks'.
pub proof fn envelopes_bound_every_measure(
    summary: ThermalSummaryModel,
    slopes: FinalSlopes,
    envelope: EnduranceThermalEnvelopeEvidence,
)
    ensures
        within_thermal_envelope(summary, slopes, envelope) <==> {
            &&& summary.cpu_peak_millicelsius <= envelope.cpu_peak_limit_millicelsius <= 94_999
            &&& summary.gpu_peak_millicelsius <= envelope.gpu_peak_limit_millicelsius <= 84_999
            &&& summary.cpu_p95_millicelsius <= envelope.cpu_p95_limit_millicelsius
                <= envelope.cpu_peak_limit_millicelsius
            &&& summary.gpu_p95_millicelsius <= envelope.gpu_p95_limit_millicelsius
                <= envelope.gpu_peak_limit_millicelsius
            &&& summary.system_stable matches Some(stable) && stable
            &&& summary.kernel_faults.len() == 0 && summary.nvidia_faults.len() == 0
            &&& !(slopes.cpu_exceeds_limit || slopes.gpu_exceeds_limit)
        },
{
}

/// A run stays within its envelope only while the system is stable, without a fault report and without
/// a slope above its limit.
pub proof fn runs_within_the_envelope_are_stable(
    m: EnduranceModel,
    slopes: FinalSlopes,
    envelope: EnduranceThermalEnvelopeEvidence,
)
    requires
        stays_within_envelope(m, slopes, envelope),
    ensures
        m.system_stable,
        m.kernel_faults.len() == 0 && m.nvidia_faults.len() == 0,
        !slopes.cpu_exceeds_limit && !slopes.gpu_exceeds_limit,
        crate::thermal::peak(crate::thermal::cpu_temperatures(m.samples)) as i32
            <= envelope.cpu_peak_limit_millicelsius,
        crate::thermal::peak(crate::thermal::gpu_temperatures(m.samples)) as i32
            <= envelope.gpu_peak_limit_millicelsius,
{
}

/// Complete endurance evidence is that of a passed hour: 1800 scheduled samples, two commands and six
/// readbacks for each and one last readback per fan, both fans restored once, the CPU's first, no fault,
/// a watching observer, an orderly shutdown, and a summary within its envelope.
pub proof fn complete_endurance_is_a_passed_hour(record: RecordModel, slopes: FinalSlopes, index: int)
    requires
        endurance_is_complete(record, slopes),
        0 <= index < record.samples.len(),
    ensures
        record.schema_version == 2,
        record.stage == "supervised-endurance"@,
        record.samples.len() == 1_800,
        record.commands.len() == 2 * record.samples.len(),
        record.readbacks.len() == 6 * record.samples.len() + 2,
        record.restoration_attempts.len() == 2,
        record.restoration_attempts[0].fan is Cpu && record.restoration_attempts[1].fan is Gpu,
        record.faults.len() == 0 && record.calibration.len() == 0,
        record.outcome.status is Passed,
        record.outcome.final_firmware_auto_confirmed,
        !record.outcome.another_passing_run_required,
        record.workload_started_at matches Some(started) && {
            &&& sample_follows_schedule(record.samples[index], index, started)
            &&& cleanup_matches(record, started)
            &&& record.starting_conditions_captured_at matches Some(captured)
                && transition_times_match(record, captured, started)
        },
        transition_names_match(record.state_transitions),
        record.endurance_observer_attestation matches Some(attestation) && attestation_is_valid(
            record,
            attestation,
        ),
        record.thermal_summary matches Some(summary) && record.endurance_thermal_envelope matches Some(
            envelope,
        ) && within_thermal_envelope(summary, slopes, envelope),
        record.workload matches Some(workload) && -40_000 <= workload.ambient_millicelsius <= 80_000,
{
}

/// An orderly shutdown asks the workload to stop within a tenth of a second of the hour's end, has it
/// stopped within ten seconds of asking, then asks the service, has that stopped within ten seconds too,
/// and restores and reads back nothing before.
pub proof fn shutdowns_follow_the_hour(record: RecordModel, started: EvidenceTimestamp)
    requires
        cleanup_matches(record, started),
        started.monotonic_millis + 3_700_000 <= u64::MAX,
    ensures
        record.process_stops.len() == 2,
        ({
            let workload = record.process_stops[0];
            let service = record.process_stops[1];
            let end = started.monotonic_millis + 3_600_000;
            &&& workload.process is Workload && service.process is Service
            &&& !workload.running && !service.running
            &&& end <= workload.requested_at.monotonic_millis <= end + 100
            &&& workload.confirmed_at.monotonic_millis <= workload.requested_at.monotonic_millis
                + 10_000
            &&& workload.confirmed_at.monotonic_millis <= service.requested_at.monotonic_millis
            &&& service.confirmed_at.monotonic_millis <= service.requested_at.monotonic_millis
                + 10_000
            &&& forall|i: int|
                0 <= i < record.restoration_attempts.len() ==> service.confirmed_at.monotonic_millis
                    <= (#[trigger] record.restoration_attempts[i]).timestamp.monotonic_millis
        }),
{
}

/// An observer watched the whole run exactly where there are at least two checks, the first at the start
/// and the last at the end of the watch, within the run, and none more than five seconds after the one
/// before, on either clock.
pub proof fn observers_check_every_five_seconds(
    record: RecordModel,
    attestation: ObserverAttestationModel,
)
    ensures
        attestation_is_valid(record, attestation) <==> {
            let checks = attestation.checks;
            &&& checks.len() >= 2
            &&& checks[0] == attestation.started_at
            &&& checks[checks.len() - 1] == attestation.completed_at
            &&& record.started_at.monotonic_millis <= attestation.started_at.monotonic_millis
            &&& attestation.completed_at.monotonic_millis <= record.completed_at.monotonic_millis
            &&& forall|i: int|
                0 <= i < checks.len() - 1 ==> {
                    let later = #[trigger] checks[i + 1];
                    &&& 1 <= later.monotonic_millis - checks[i].monotonic_millis <= 5_000
                    &&& 1 <= later.wall_unix_millis - checks[i].wall_unix_millis <= 5_000
                }
        },
{
}

/// A check by the observer is accepted exactly where it was asked for, seen and answered in that order
/// on both clocks, by the deadline, and no more than five seconds after the check before it.
pub proof fn observer_checks_are_prompt(
    checks: Seq<EvidenceTimestamp>,
    requested_at: EvidenceTimestamp,
    observed_at: EvidenceTimestamp,
    completed_at: EvidenceTimestamp,
    deadline: u64,
)
    ensures
        check_is_accepted(checks, requested_at, observed_at, completed_at, deadline) <==> {
            &&& requested_at.monotonic_millis <= observed_at.monotonic_millis
                <= completed_at.monotonic_millis <= deadline
            &&& requested_at.wall_unix_millis <= observed_at.wall_unix_millis
                <= completed_at.wall_unix_millis
            &&& checks.len() > 0 ==> {
                let last = checks[checks.len() - 1];
                &&& 1 <= observed_at.monotonic_millis - last.monotonic_millis <= 5_000
                &&& 1 <= observed_at.wall_unix_millis - last.wall_unix_millis <= 5_000
            }
        },
{
}

/// A fan's restoration counts exactly where Firmware Auto was written and read back as confirmed, from
/// an endpoint that has a name and no other name than before, within five seconds of asking.
pub proof fn restorations_are_written_and_read_back(
    control: ControlModel,
    fan: EvidenceFan,
    requested_at: EvidenceTimestamp,
    completed_at: EvidenceTimestamp,
    restoration: MatchedWorkloadFanRestoration,
)
    ensures
        restoration_is_confirmed(control, fan, requested_at, completed_at, restoration) <==> {
            &&& restoration.auto_write_succeeded
            &&& restoration.enable_readback matches Some(mode) && mode == 2
            &&& restoration.outcome is FirmwareAutoConfirmed
            &&& crate::text::trimmed(restoration.endpoint_identity@).len() > 0
            &&& control.get(fan, FanReadbackField::Enable) matches Some(known) ==> known
                == restoration.endpoint_identity@
            &&& requested_at.monotonic_millis + 5_000 <= u64::MAX
            &&& completed_at.monotonic_millis <= requested_at.monotonic_millis + 5_000
        },
{
}

/// A containment that counts reads back Custom mode at the full duty, was written, and came in time.
pub proof fn containments_hold_the_full_duty(
    control: ControlModel,
    fan: EvidenceFan,
    deadline: int,
    completed_at: EvidenceTimestamp,
    containment: SupervisedEnduranceFanContainment,
)
    requires
        containment_is_confirmed(control, fan, deadline, completed_at, containment),
    ensures
        containment.outcome is MaximumContainmentConfirmed,
        containment.enable_readback matches Some(mode) && mode == 1,
        containment.pwm_readback matches Some(duty) && duty == 255,
        containment.pwm_write_succeeded,
        completed_at.monotonic_millis <= deadline,
{
}

/// A stop counts exactly where the process that was meant is seen not running, between the request and
/// its completion, and that completes by the deadline: five seconds after the request, or earlier where
/// a deadline was fixed before.
pub proof fn stops_are_seen_in_time(
    result: Result<SupervisedEnduranceProcessStopConfirmation, String>,
    identity: Seq<char>,
    requested_at: EvidenceTimestamp,
    completed_at: EvidenceTimestamp,
    fixed: Option<u64>,
)
    requires
        requested_at.monotonic_millis + 10_000 <= u64::MAX,
    ensures
        stop_deadline(requested_at, fixed) <= requested_at.monotonic_millis + 5_000,
        fixed matches Some(deadline) ==> stop_deadline(requested_at, fixed) <= deadline,
        stop_deadline(requested_at, fixed) == requested_at.monotonic_millis + 5_000 || (
        fixed matches Some(deadline) && stop_deadline(requested_at, fixed) == deadline),
        stop_is_confirmed(
            result,
            identity,
            requested_at,
            completed_at,
            stop_deadline(requested_at, fixed),
        ) <==> (result matches Ok(seen) && {
            &&& !seen.running
            &&& seen.process_identity@ == identity
            &&& requested_at.monotonic_millis <= seen.observed_at.monotonic_millis
            &&& seen.observed_at.monotonic_millis <= completed_at.monotonic_millis
            &&& completed_at.monotonic_millis <= stop_deadline(requested_at, fixed)
        }),
{
}

/// The workload must stop within ten seconds of the hour's end, once every sample was taken.
pub proof fn the_hour_ends_after_its_samples(m: EnduranceModel)
    ensures
        scheduled_endpoint(m) is Some <==> {
            &&& m.workload_started_at matches Some(started) && started.monotonic_millis + 3_600_000
                <= u64::MAX
            &&& m.samples.len() == 1_800
        },
        scheduled_endpoint(m) matches Some(end) ==> end
            == m.workload_started_at->0.monotonic_millis + 3_600_000,
        scheduled_deadline(m) matches Some(deadline) ==> deadline
            == m.workload_started_at->0.monotonic_millis + 3_610_000,
{
}

/// A segment is confirmed exactly where its load, its profile and its power are seen, and both devices
/// are at least half busy under load, at most a tenth when idle.
pub proof fn segments_are_seen_before_they_count(
    confirmation: SupervisedEnduranceSegmentConfirmation,
    index: int,
)
    ensures
        confirms_segment(confirmation, segment(index)) <==> {
            &&& confirmation.load == segment(index).load
            &&& confirmation.selected_profile == segment(index).power_profile
            &&& confirmation.external_power is Ac <==> segment(index).power_profile is Ac
            &&& confirmation.cpu_utilization_basis_points <= 10_000
            &&& confirmation.gpu_utilization_basis_points <= 10_000
            &&& segment(index).load is Load ==> confirmation.cpu_utilization_basis_points >= 5_000
                && confirmation.gpu_utilization_basis_points >= 5_000
            &&& segment(index).load is Idle ==> confirmation.cpu_utilization_basis_points <= 1_000
                && confirmation.gpu_utilization_basis_points <= 1_000
        },
{
}

/// A run is accepted exactly where nothing went wrong, all 1800 samples were taken, the workload was
/// seen stopped, so was the service where Custom control was asked for, and both fans were restored, the
/// CPU's first.
pub proof fn accepted_endurance_is_shut_down(m: EnduranceModel, log: EnduranceLog)
    ensures
        endurance_is_accepted(m, log) <==> {
            &&& m.faults.len() == 0
            &&& m.samples.len() == 1_800
            &&& log.workload_stops.len() > 0
            &&& log.workload_stops[log.workload_stops.len() - 1].confirmed
            &&& log.entered ==> log.service_stops.len() > 0
                && log.service_stops[log.service_stops.len() - 1].confirmed
            &&& log.restorations.len() == 2
            &&& log.restorations[0].fan is Cpu && log.restorations[0].confirmed
            &&& log.restorations[1].fan is Gpu && log.restorations[1].confirmed
        },
{
}

/// Whatever a run came to, the workload was asked to stop, so was the service where Custom control was
/// asked for, and each at most three times, until it was seen stopped. Where both were, both fans are
/// restored; where they were not, or a restoration was not confirmed, both fans are held at their
/// maximum instead. A run that passed took all samples and restored both fans.
pub proof fn every_run_is_shut_down(
    record: RecordModel,
    log: EnduranceLog,
    plan: SupervisedEndurancePlan<'_>,
)
    requires
        endurance_report_stands(record, log, plan),
    ensures
        1 <= log.workload_stops.len() <= 3,
        forall|i: int|
            0 <= i < log.workload_stops.len() ==> (
            #[trigger] log.workload_stops[i]).process is Workload,
        log.entered ==> 1 <= log.service_stops.len() <= 3,
        !log.entered ==> log.service_stops.len() == 0,
        ({
            let stopped = log.workload_stops.last().confirmed && (log.entered
                ==> log.service_stops.last().confirmed);
            let restored = log.restorations.len() == 2 && log.restorations[0].confirmed
                && log.restorations[1].confirmed;
            &&& stopped <==> log.restorations.len() == 2
            &&& !stopped <==> log.restorations.len() == 0
            &&& restored ==> log.containments.len() == 0
            &&& !restored ==> log.containments.len() == 2 && log.containments[0].fan is Cpu
                && log.containments[1].fan is Gpu
            &&& record.outcome.final_firmware_auto_confirmed == restored
            &&& record.outcome.status is Passed ==> stopped && restored && record.samples.len()
                == 1_800 && record.faults.len() == 0 && log.launched
            &&& record.outcome.status is Passed || record.outcome.status is Failed
            &&& record.outcome.status is Failed ==> record.faults.len() > 0
        }),
{
}

/// A baseline must last twenty minutes on AC power under a CPU or a GPU load, thirty under both, and ten
/// otherwise; it is sampled every two seconds of that.
pub proof fn baselines_last_their_time(record: RecordModel, key: WorkloadKey)
    requires
        covers_duration(record, key),
    ensures
        ({
            let lasted = record.samples.last().timestamp.monotonic_millis
                - record.workload_started_at->0.monotonic_millis;
            &&& 2_000 * record.samples.len() == lasted
            &&& key.profile is Ac && key.class is Combined ==> lasted == 1_800_000
            &&& key.profile is Ac && (key.class is Cpu || key.class is Gpu) ==> lasted == 1_200_000
            &&& key.class is Idle ==> lasted == 600_000
            &&& key.profile is Battery && !(key.class is Combined) ==> lasted == 600_000
        }),
{
}

} // verus!
