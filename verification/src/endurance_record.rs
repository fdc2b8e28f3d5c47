//! The shape of a complete supervised endurance record.

use vstd::prelude::*;
use crate::baseline_record::{
    baseline_conditions_are_safe, below, is_below, is_false, runs_on, workload_conditions_are_safe,
};
use crate::endurance_schedule::{
    schedule_is_sixty_minutes, segment, segment_at_index, segment_boundary_elapsed,
    segment_index_at_elapsed, segment_of, segment_start, SupervisedEnduranceLoad,
    SUPERVISED_ENDURANCE_DURATION_MILLIS, SUPERVISED_ENDURANCE_SAMPLE_COUNT,
};
use crate::evidence::{
    profile_source, EnduranceObserverAttestationEvidence, EnduranceThermalEnvelopeEvidence,
    EvidenceFan, EvidenceProfile, EvidenceRecord, EvidenceTimestamp, FanReadbackPhase,
    ObserverAttestationModel, RecordModel, RunOutcomeStatus, SampleFreshness,
    StateTransitionEvidence, StoppedProcess, TelemetrySampleEvidence, ThermalSummaryEvidence,
    ThermalSummaryModel, WorkloadEvidence, WorkloadModel, EVIDENCE_SCHEMA_VERSION_V2,
};
use crate::baseline_record::phase_is;
use crate::lifecycle::{comes_strictly_after, strictly_follows};
use crate::matched_record::{control_evidence_is_complete, matched_control_evidence_is_complete};
use crate::text::{same_text, texts};
use crate::thermal::{stable_summary, summary_matches, FinalSlopes};

verus! {

broadcast use vstd::string::group_string_axioms;

pub const SUPERVISED_ENDURANCE_WORKLOAD_ID: &'static str = "supervised-mixed-endurance";

/// Whether utilization readings are percentages and fit a load.
pub open spec fn utilization_matches(
    cpu: Option<u16>,
    gpu: Option<u16>,
    load: SupervisedEnduranceLoad,
) -> bool {
    cpu matches Some(cpu) && gpu matches Some(gpu) && cpu <= 10_000 && gpu <= 10_000 && match load {
        SupervisedEnduranceLoad::Load => cpu >= 5_000 && gpu >= 5_000,
        SupervisedEnduranceLoad::Idle => cpu <= 1_000 && gpu <= 1_000,
    }
}

pub(crate) fn sample_utilization_matches(
    sample: &TelemetrySampleEvidence,
    load: SupervisedEnduranceLoad,
) -> (yes: bool)
    ensures
        yes == utilization_matches(
            sample.cpu_utilization_basis_points,
            sample.gpu_utilization_basis_points,
            load,
        ),
{
    match (sample.cpu_utilization_basis_points, sample.gpu_utilization_basis_points) {
        (Some(cpu), Some(gpu)) => cpu <= 10_000 && gpu <= 10_000 && match load {
            SupervisedEnduranceLoad::Load => cpu >= 5_000 && gpu >= 5_000,
            SupervisedEnduranceLoad::Idle => cpu <= 1_000 && gpu <= 1_000,
        },
        _ => false,
    }
}

/// Whether the sample at an index was taken on schedule, in its segment's state and within limits.
pub open spec fn sample_follows_schedule(
    sample: TelemetrySampleEvidence,
    index: int,
    started: EvidenceTimestamp,
) -> bool {
    let elapsed = (index + 1) * 2_000;
    let expected = started.monotonic_millis + elapsed;
    let active = segment(segment_of(elapsed, 0));
    &&& expected <= u64::MAX
    &&& -100 <= sample.timestamp.monotonic_millis - expected <= 100
    &&& sample.freshness == SampleFreshness::Fresh
    &&& sample.external_power == Some(profile_source(active.power_profile))
    &&& sample.selected_profile == Some(active.power_profile)
    &&& utilization_matches(
        sample.cpu_utilization_basis_points,
        sample.gpu_utilization_basis_points,
        active.load,
    )
    &&& below(sample.cpu_millicelsius, 95_000)
    &&& below(sample.gpu_millicelsius, 85_000)
    &&& sample.cpu_thermal_throttling == Some(false)
    &&& sample.gpu_thermal_throttling == Some(false)
}

/// Whether a transition leads from one state to another.
pub open spec fn leads(
    transition: StateTransitionEvidence,
    from: Seq<char>,
    to: Seq<char>,
) -> bool {
    transition.from@ == from && transition.to@ == to
}

/// Whether the eight transitions name the run's states in order.
pub open spec fn transition_names_match(transitions: Seq<StateTransitionEvidence>) -> bool {
    &&& transitions.len() == 8
    &&& leads(transitions[0], "firmware-auto"@, "custom-control"@)
    &&& leads(transitions[1], "custom-control"@, segment(0).id@)
    &&& leads(transitions[2], segment(0).id@, segment(1).id@)
    &&& leads(transitions[3], segment(1).id@, segment(2).id@)
    &&& leads(transitions[4], segment(2).id@, segment(3).id@)
    &&& leads(transitions[5], segment(3).id@, segment(4).id@)
    &&& leads(transitions[6], segment(4).id@, segment(5).id@)
    &&& leads(transitions[7], segment(5).id@, "firmware-auto"@)
}

/// A time a while later, as far as the clock can tell.
pub open spec fn later_by(millis: u64, wait: int) -> int {
    if millis + wait <= u64::MAX {
        millis + wait
    } else {
        u64::MAX as int
    }
}

/// Whether a segment was entered within two seconds of its scheduled start.
pub open spec fn segment_entered_on_time(
    transitions: Seq<StateTransitionEvidence>,
    index: int,
    started: EvidenceTimestamp,
) -> bool {
    let boundary = started.monotonic_millis + segment_start(index);
    let entered = transitions[index + 1].timestamp.monotonic_millis;
    boundary <= u64::MAX && boundary <= entered <= later_by(boundary as u64, 2_000)
}

/// Whether the transitions were made in order and on schedule.
pub open spec fn transition_times_match(
    record: RecordModel,
    captured: EvidenceTimestamp,
    started: EvidenceTimestamp,
) -> bool {
    let transitions = record.state_transitions;
    &&& record.started_at.monotonic_millis <= captured.monotonic_millis
        <= transitions[0].timestamp.monotonic_millis
    &&& transitions[0].timestamp.monotonic_millis <= transitions[1].timestamp.monotonic_millis
        <= started.monotonic_millis
    &&& forall|index: int|
        1 <= index < 6 ==> #[trigger] segment_entered_on_time(transitions, index, started)
    &&& forall|i: int|
        0 <= i < transitions.len() - 1 ==> transitions[i].timestamp.monotonic_millis <= (
        #[trigger] transitions[i + 1]).timestamp.monotonic_millis
    &&& record.samples.len() > 0
    &&& record.samples.last().timestamp.monotonic_millis
        <= transitions.last().timestamp.monotonic_millis <= record.completed_at.monotonic_millis
}

/// Whether the workload and then the service were confirmed stopped, before any fan was restored.
pub open spec fn cleanup_matches(record: RecordModel, started: EvidenceTimestamp) -> bool {
    let stops = record.process_stops;
    let endpoint = started.monotonic_millis + SUPERVISED_ENDURANCE_DURATION_MILLIS;
    &&& stops.len() == 2
    &&& stops[0].process == StoppedProcess::Workload
    &&& stops[0].process_identity@ == "/usr/lib/pt31553-fan-control/workloads/mixed"@
    &&& !stops[0].running
    &&& stops[1].process == StoppedProcess::Service
    &&& stops[1].process_identity@ == "pt31553-fan-control.service"@
    &&& !stops[1].running
    &&& endpoint <= u64::MAX
    &&& endpoint <= stops[0].requested_at.monotonic_millis <= later_by(endpoint as u64, 100)
    &&& stops[0].confirmed_at.monotonic_millis <= later_by(
        stops[0].requested_at.monotonic_millis,
        10_000,
    )
    &&& stops[0].confirmed_at.monotonic_millis <= stops[1].requested_at.monotonic_millis
    &&& stops[1].confirmed_at.monotonic_millis <= later_by(
        stops[1].requested_at.monotonic_millis,
        10_000,
    )
    &&& forall|i: int|
        0 <= i < record.restoration_attempts.len() ==> stops[1].confirmed_at.monotonic_millis <= (
        #[trigger] record.restoration_attempts[i]).timestamp.monotonic_millis
    &&& forall|i: int|
        0 <= i < record.readbacks.len() && (#[trigger] record.readbacks[i]).phase == Some(
            FanReadbackPhase::Final,
        ) ==> stops[1].confirmed_at.monotonic_millis
            <= record.readbacks[i].timestamp.monotonic_millis
    &&& record.state_transitions.len() > 0
    &&& stops[1].confirmed_at.monotonic_millis
        <= record.state_transitions.last().timestamp.monotonic_millis
}

/// Whether a workload is the canonical mixed workload, starting on AC.
pub open spec fn is_canonical_workload(workload: WorkloadModel) -> bool {
    &&& workload.workload_id == "supervised-mixed-endurance"@
    &&& workload.power_profile == EvidenceProfile::Ac
    &&& workload.version == "1.0.0"@
    &&& workload.command.len() == 2
    &&& workload.command[0] == "/usr/lib/pt31553-fan-control/workloads/mixed"@
    &&& workload.command[1] == "--fixed"@
}

/// Whether an observer confirmed its presence at least every five seconds, on both clocks, within
/// the run.
pub open spec fn attestation_is_valid(
    record: RecordModel,
    attestation: ObserverAttestationModel,
) -> bool {
    let checks = attestation.checks;
    &&& checks.len() >= 2
    &&& checks[0] == attestation.started_at
    &&& checks.last() == attestation.completed_at
    &&& record.started_at.monotonic_millis <= attestation.started_at.monotonic_millis
    &&& attestation.completed_at.monotonic_millis <= record.completed_at.monotonic_millis
    &&& forall|i: int|
        0 <= i < checks.len() - 1 ==> strictly_follows(checks[i], #[trigger] checks[i + 1])
            && checks[i + 1].monotonic_millis - checks[i].monotonic_millis <= 5_000 && checks[i
            + 1].wall_unix_millis - checks[i].wall_unix_millis <= 5_000
}

/// Whether a summary stays within an envelope that itself stays below the abort limits.
pub open spec fn within_thermal_envelope(
    summary: ThermalSummaryModel,
    slopes: FinalSlopes,
    envelope: EnduranceThermalEnvelopeEvidence,
) -> bool {
    &&& envelope.cpu_peak_limit_millicelsius < 95_000
    &&& envelope.gpu_peak_limit_millicelsius < 85_000
    &&& envelope.cpu_p95_limit_millicelsius <= envelope.cpu_peak_limit_millicelsius
    &&& envelope.gpu_p95_limit_millicelsius <= envelope.gpu_peak_limit_millicelsius
    &&& summary.system_stable == Some(true)
    &&& summary.kernel_faults.len() == 0
    &&& summary.nvidia_faults.len() == 0
    &&& summary.cpu_peak_millicelsius <= envelope.cpu_peak_limit_millicelsius
    &&& summary.gpu_peak_millicelsius <= envelope.gpu_peak_limit_millicelsius
    &&& summary.cpu_p95_millicelsius <= envelope.cpu_p95_limit_millicelsius
    &&& summary.gpu_p95_millicelsius <= envelope.gpu_p95_limit_millicelsius
    &&& !slopes.cpu_exceeds_limit
    &&& !slopes.gpu_exceeds_limit
}

/// Whether a record proves a complete supervised endurance run.
pub open spec fn endurance_is_complete(record: RecordModel, slopes: FinalSlopes) -> bool {
    &&& record.schema_version == 2
    &&& record.stage == "supervised-endurance"@
    &&& record.samples.len() == 1_800
    &&& record.commands.len() == 3_600
    &&& record.readbacks.len() == 10_802
    &&& record.restoration_attempts.len() == 2
    &&& record.restoration_attempts[0].fan == EvidenceFan::Cpu
    &&& record.restoration_attempts[1].fan == EvidenceFan::Gpu
    &&& record.faults.len() == 0
    &&& record.calibration.len() == 0
    &&& transition_names_match(record.state_transitions)
    &&& record.workload matches Some(workload) && is_canonical_workload(workload)
        && baseline_conditions_are_safe(workload)
    &&& record.workload_started_at matches Some(started)
        && record.starting_conditions_captured_at matches Some(captured) && {
        &&& cleanup_matches(record, started)
        &&& transition_times_match(record, captured, started)
        &&& forall|i: int|
            0 <= i < record.samples.len() ==> sample_follows_schedule(
                #[trigger] record.samples[i],
                i,
                started,
            )
    }
    &&& record.endurance_observer_attestation matches Some(attestation) && attestation_is_valid(
        record,
        attestation,
    )
    &&& control_evidence_is_complete(record)
    &&& record.thermal_summary == Some(stable_summary(record.samples, slopes))
    &&& record.endurance_thermal_envelope matches Some(envelope) && within_thermal_envelope(
        stable_summary(record.samples, slopes),
        slopes,
        envelope,
    )
    &&& record.outcome.status == RunOutcomeStatus::Passed
    &&& !record.outcome.another_passing_run_required
    &&& record.outcome.final_firmware_auto_confirmed
}

fn follows_schedule(
    sample: &TelemetrySampleEvidence,
    index: usize,
    started: EvidenceTimestamp,
) -> (yes: bool)
    requires
        index < 1_800,
    ensures
        yes == sample_follows_schedule(*sample, index as int, started),
{
    let elapsed: u64 = (index as u64 + 1) * 2_000;
    let active = segment_at_index(segment_index_at_elapsed(elapsed));
    let expected: u64 = match started.monotonic_millis.checked_add(elapsed) {
        Some(expected) => expected,
        None => {
            return false;
        },
    };
    let at: u64 = sample.timestamp.monotonic_millis;
    let on_time = if at >= expected {
        at - expected <= 100
    } else {
        expected - at <= 100
    };
    on_time && sample.freshness == SampleFreshness::Fresh && runs_on(sample, active.power_profile)
        && sample_utilization_matches(sample, active.load) && is_below(
        sample.cpu_millicelsius,
        95_000,
    ) && is_below(sample.gpu_millicelsius, 85_000) && is_false(sample.cpu_thermal_throttling)
        && is_false(sample.gpu_thermal_throttling)
}

fn samples_follow_schedule(
    samples: &Vec<TelemetrySampleEvidence>,
    started: EvidenceTimestamp,
) -> (yes: bool)
    requires
        samples@.len() == 1_800,
    ensures
        yes == forall|i: int|
            0 <= i < samples@.len() ==> sample_follows_schedule(#[trigger] samples@[i], i, started),
{
    let mut i: usize = 0;
    while i < samples.len()
        invariant
            i <= samples.len(),
            samples@.len() == 1_800,
            forall|k: int|
                0 <= k < i ==> sample_follows_schedule(#[trigger] samples@[k], k, started),
        decreases samples.len() - i,
    {
        if !follows_schedule(&samples[i], i, started) {
            assert(!sample_follows_schedule(samples@[i as int], i as int, started));
            return false;
        }
        i = i + 1;
    }
    true
}

fn transition_leads(transition: &StateTransitionEvidence, from: &str, to: &str) -> (yes: bool)
    ensures
        yes == leads(*transition, from@, to@),
{
    same_text(transition.from.as_str(), from) && same_text(transition.to.as_str(), to)
}

fn names_match(transitions: &Vec<StateTransitionEvidence>) -> (yes: bool)
    ensures
        yes == transition_names_match(transitions@),
{
    transitions.len() == 8 && transition_leads(&transitions[0], "firmware-auto", "custom-control")
        && transition_leads(&transitions[1], "custom-control", segment_at_index(0).id)
        && transition_leads(&transitions[2], segment_at_index(0).id, segment_at_index(1).id)
        && transition_leads(&transitions[3], segment_at_index(1).id, segment_at_index(2).id)
        && transition_leads(&transitions[4], segment_at_index(2).id, segment_at_index(3).id)
        && transition_leads(&transitions[5], segment_at_index(3).id, segment_at_index(4).id)
        && transition_leads(&transitions[6], segment_at_index(4).id, segment_at_index(5).id)
        && transition_leads(&transitions[7], segment_at_index(5).id, "firmware-auto")
}

fn entered_on_time(
    transitions: &Vec<StateTransitionEvidence>,
    index: usize,
    started: EvidenceTimestamp,
) -> (yes: bool)
    requires
        transitions@.len() == 8,
        1 <= index < 6,
    ensures
        yes == segment_entered_on_time(transitions@, index as int, started),
{
    proof {
        schedule_is_sixty_minutes();
    }
    let elapsed: u64 = match segment_boundary_elapsed(index) {
        Some(elapsed) => elapsed,
        None => {
            return false;
        },
    };
    match started.monotonic_millis.checked_add(elapsed) {
        None => false,
        Some(boundary) => {
            let entered: u64 = transitions[index + 1].timestamp.monotonic_millis;
            boundary <= entered && entered <= boundary.saturating_add(2_000)
        },
    }
}

fn segments_entered_on_time(
    transitions: &Vec<StateTransitionEvidence>,
    started: EvidenceTimestamp,
) -> (yes: bool)
    requires
        transitions@.len() == 8,
    ensures
        yes == forall|index: int|
            1 <= index < 6 ==> #[trigger] segment_entered_on_time(transitions@, index, started),
{
    let mut index: usize = 1;
    while index < 6
        invariant
            1 <= index <= 6,
            transitions@.len() == 8,
            forall|k: int|
                1 <= k < index ==> #[trigger] segment_entered_on_time(transitions@, k, started),
        decreases 6 - index,
    {
        if !entered_on_time(transitions, index, started) {
            return false;
        }
        index = index + 1;
    }
    true
}

fn transitions_are_ordered(transitions: &Vec<StateTransitionEvidence>) -> (yes: bool)
    ensures
        yes == forall|i: int|
            0 <= i < transitions@.len() - 1 ==> transitions@[i].timestamp.monotonic_millis <= (
            #[trigger] transitions@[i + 1]).timestamp.monotonic_millis,
{
    let mut i: usize = 1;
    while i < transitions.len()
        invariant
            1 <= i,
            forall|k: int|
                0 <= k < i - 1 && k < transitions@.len() - 1
                    ==> transitions@[k].timestamp.monotonic_millis <= (#[trigger] transitions@[k
                    + 1]).timestamp.monotonic_millis,
        decreases transitions.len() - i,
    {
        if transitions[i - 1].timestamp.monotonic_millis
            > transitions[i].timestamp.monotonic_millis {
            assert(transitions@[i - 1].timestamp.monotonic_millis > transitions@[(i - 1)
                + 1].timestamp.monotonic_millis);
            return false;
        }
        i = i + 1;
    }
    true
}

fn times_match(
    record: &EvidenceRecord,
    captured: EvidenceTimestamp,
    started: EvidenceTimestamp,
) -> (yes: bool)
    requires
        record@.state_transitions.len() == 8,
        record@.samples.len() > 0,
    ensures
        yes == transition_times_match(record@, captured, started),
{
    let transitions = &record.state_transitions;
    let first: u64 = transitions[0].timestamp.monotonic_millis;
    let second: u64 = transitions[1].timestamp.monotonic_millis;
    let last: u64 = transitions[7].timestamp.monotonic_millis;
    record.started_at.monotonic_millis <= captured.monotonic_millis && captured.monotonic_millis
        <= first && first <= second && second <= started.monotonic_millis
        && segments_entered_on_time(transitions, started) && transitions_are_ordered(transitions)
        && record.samples[record.samples.len() - 1].timestamp.monotonic_millis <= last && last
        <= record.completed_at.monotonic_millis
}

fn attempts_follow(record: &EvidenceRecord, stopped_at: u64) -> (yes: bool)
    ensures
        yes == forall|i: int|
            0 <= i < record@.restoration_attempts.len() ==> stopped_at <= (
            #[trigger] record@.restoration_attempts[i]).timestamp.monotonic_millis,
{
    let mut i: usize = 0;
    while i < record.restoration_attempts.len()
        invariant
            i <= record.restoration_attempts.len(),
            forall|k: int|
                0 <= k < i ==> stopped_at <= (
                #[trigger] record@.restoration_attempts[k]).timestamp.monotonic_millis,
        decreases record.restoration_attempts.len() - i,
    {
        if stopped_at > record.restoration_attempts[i].timestamp.monotonic_millis {
            assert(stopped_at
                > record@.restoration_attempts[i as int].timestamp.monotonic_millis);
            return false;
        }
        i = i + 1;
    }
    true
}

fn final_readbacks_follow(record: &EvidenceRecord, stopped_at: u64) -> (yes: bool)
    ensures
        yes == forall|i: int|
            0 <= i < record@.readbacks.len() && (#[trigger] record@.readbacks[i]).phase == Some(
                FanReadbackPhase::Final,
            ) ==> stopped_at <= record@.readbacks[i].timestamp.monotonic_millis,
{
    let mut i: usize = 0;
    while i < record.readbacks.len()
        invariant
            i <= record.readbacks.len(),
            forall|k: int|
                0 <= k < i && (#[trigger] record@.readbacks[k]).phase == Some(
                    FanReadbackPhase::Final,
                ) ==> stopped_at <= record@.readbacks[k].timestamp.monotonic_millis,
        decreases record.readbacks.len() - i,
    {
        if phase_is(record.readbacks[i].phase, FanReadbackPhase::Final) && stopped_at
            > record.readbacks[i].timestamp.monotonic_millis {
            assert(record@.readbacks[i as int].phase == Some(FanReadbackPhase::Final));
            return false;
        }
        i = i + 1;
    }
    true
}

fn cleanup_is_confirmed(record: &EvidenceRecord, started: EvidenceTimestamp) -> (yes: bool)
    ensures
        yes == cleanup_matches(record@, started),
{
    if record.process_stops.len() != 2 || record.state_transitions.len() == 0 {
        return false;
    }
    let workload = &record.process_stops[0];
    let service = &record.process_stops[1];
    let endpoint: u64 = match started.monotonic_millis.checked_add(
        SUPERVISED_ENDURANCE_DURATION_MILLIS,
    ) {
        Some(endpoint) => endpoint,
        None => {
            return false;
        },
    };
    let requested: u64 = workload.requested_at.monotonic_millis;
    let last: u64 = record.state_transitions[record.state_transitions.len()
        - 1].timestamp.monotonic_millis;
    workload.process == StoppedProcess::Workload && same_text(
        workload.process_identity.as_str(),
        "/usr/lib/pt31553-fan-control/workloads/mixed",
    ) && !workload.running && service.process == StoppedProcess::Service && same_text(
        service.process_identity.as_str(),
        "pt31553-fan-control.service",
    ) && !service.running && endpoint <= requested && requested <= endpoint.saturating_add(100)
        && workload.confirmed_at.monotonic_millis <= requested.saturating_add(10_000)
        && workload.confirmed_at.monotonic_millis <= service.requested_at.monotonic_millis
        && service.confirmed_at.monotonic_millis
        <= service.requested_at.monotonic_millis.saturating_add(10_000) && attempts_follow(
        record,
        service.confirmed_at.monotonic_millis,
    ) && final_readbacks_follow(record, service.confirmed_at.monotonic_millis)
        && service.confirmed_at.monotonic_millis <= last
}

pub(crate) fn canonical_endurance_workload(workload: &WorkloadEvidence) -> (yes: bool)
    ensures
        yes == is_canonical_workload(workload@),
{
    if workload.command.len() != 2 {
        assert(workload@.command.len() != 2);
        return false;
    }
    assert(workload@.command[0] == workload.command@[0]@);
    assert(workload@.command[1] == workload.command@[1]@);
    same_text(workload.workload_id.as_str(), "supervised-mixed-endurance")
        && workload.power_profile == EvidenceProfile::Ac && same_text(
        workload.version.as_str(),
        "1.0.0",
    ) && same_text(
        workload.command[0].as_str(),
        "/usr/lib/pt31553-fan-control/workloads/mixed",
    ) && same_text(workload.command[1].as_str(), "--fixed")
}

/// Decides [`attestation_is_valid`].
pub fn endurance_observer_attestation_is_valid(
    record: &EvidenceRecord,
    attestation: &EnduranceObserverAttestationEvidence,
) -> (yes: bool)
    ensures
        yes == attestation_is_valid(record@, attestation@),
{
    let checks = &attestation.checks;
    if checks.len() < 2 || checks[0] != attestation.started_at || checks[checks.len() - 1]
        != attestation.completed_at || record.started_at.monotonic_millis
        > attestation.started_at.monotonic_millis || attestation.completed_at.monotonic_millis
        > record.completed_at.monotonic_millis {
        return false;
    }
    let mut i: usize = 1;
    while i < checks.len()
        invariant
            1 <= i <= checks.len(),
            checks == &attestation.checks,
            forall|k: int|
                0 <= k < i - 1 ==> strictly_follows(checks@[k], #[trigger] checks@[k + 1])
                    && checks@[k + 1].monotonic_millis - checks@[k].monotonic_millis <= 5_000
                    && checks@[k + 1].wall_unix_millis - checks@[k].wall_unix_millis <= 5_000,
        decreases checks.len() - i,
    {
        if !check_follows(checks[i - 1], checks[i]) {
            assert(!attestation_is_valid(record@, attestation@)) by {
                let k = i - 1;
                assert(!(strictly_follows(checks@[k], checks@[k + 1]) && checks@[k
                    + 1].monotonic_millis - checks@[k].monotonic_millis <= 5_000 && checks@[k
                    + 1].wall_unix_millis - checks@[k].wall_unix_millis <= 5_000));
            }
            return false;
        }
        i = i + 1;
    }
    true
}

/// Whether a check follows the previous one on both clocks, within five seconds.
pub(crate) fn check_follows(previous: EvidenceTimestamp, check: EvidenceTimestamp) -> (yes: bool)
    ensures
        yes == (strictly_follows(previous, check) && check.monotonic_millis
            - previous.monotonic_millis <= 5_000 && check.wall_unix_millis
            - previous.wall_unix_millis <= 5_000),
{
    comes_strictly_after(previous, check) && check.monotonic_millis - previous.monotonic_millis
        <= 5_000 && check.wall_unix_millis as i128 - previous.wall_unix_millis as i128 <= 5_000
}

/// Decides [`within_thermal_envelope`].
pub fn thermal_envelope_holds(
    summary: &ThermalSummaryEvidence,
    slopes: FinalSlopes,
    envelope: &EnduranceThermalEnvelopeEvidence,
) -> (yes: bool)
    ensures
        yes == within_thermal_envelope(summary@, slopes, *envelope),
{
    let stable = match summary.system_stable {
        Some(stable) => stable,
        None => false,
    };
    proof {
        assert(texts(summary.kernel_faults@).len() == summary.kernel_faults@.len());
        assert(texts(summary.nvidia_faults@).len() == summary.nvidia_faults@.len());
    }
    envelope.cpu_peak_limit_millicelsius < 95_000 && envelope.gpu_peak_limit_millicelsius < 85_000
        && envelope.cpu_p95_limit_millicelsius <= envelope.cpu_peak_limit_millicelsius
        && envelope.gpu_p95_limit_millicelsius <= envelope.gpu_peak_limit_millicelsius && stable
        && summary.kernel_faults.len() == 0 && summary.nvidia_faults.len() == 0
        && summary.cpu_peak_millicelsius <= envelope.cpu_peak_limit_millicelsius
        && summary.gpu_peak_millicelsius <= envelope.gpu_peak_limit_millicelsius
        && summary.cpu_p95_millicelsius <= envelope.cpu_p95_limit_millicelsius
        && summary.gpu_p95_millicelsius <= envelope.gpu_p95_limit_millicelsius
        && !slopes.cpu_exceeds_limit && !slopes.gpu_exceeds_limit
}

/// Decides [`endurance_is_complete`].
pub fn supervised_endurance_is_complete(record: &EvidenceRecord, slopes: FinalSlopes) -> (yes: bool)
    ensures
        yes == endurance_is_complete(record@, slopes),
{
    if record.schema_version != EVIDENCE_SCHEMA_VERSION_V2 || !same_text(
        record.stage.as_str(),
        "supervised-endurance",
    ) || record.samples.len() != SUPERVISED_ENDURANCE_SAMPLE_COUNT || record.commands.len()
        != 3_600 || record.readbacks.len() != 10_802 || record.restoration_attempts.len() != 2
        || record.restoration_attempts[0].fan != EvidenceFan::Cpu
        || record.restoration_attempts[1].fan != EvidenceFan::Gpu || record.faults.len() != 0
        || record.calibration.len() != 0 || !names_match(&record.state_transitions) {
        return false;
    }
    let (started, captured) = match (
        record.workload_started_at,
        record.starting_conditions_captured_at,
    ) {
        (Some(started), Some(captured)) => (started, captured),
        _ => {
            return false;
        },
    };
    let workload_is_canonical = match &record.workload {
        Some(workload) => canonical_endurance_workload(workload) && workload_conditions_are_safe(
            workload,
        ),
        None => false,
    };
    let observer_was_present = match &record.endurance_observer_attestation {
        Some(attestation) => endurance_observer_attestation_is_valid(record, attestation),
        None => false,
    };
    let thermally_accepted = match (&record.thermal_summary, &record.endurance_thermal_envelope) {
        (Some(summary), Some(envelope)) => summary_matches(summary, &record.samples, slopes)
            && thermal_envelope_holds(summary, slopes, envelope),
        _ => false,
    };
    workload_is_canonical && observer_was_present && thermally_accepted && cleanup_is_confirmed(
        record,
        started,
    ) && times_match(record, captured, started) && samples_follow_schedule(
        &record.samples,
        started,
    ) && matched_control_evidence_is_complete(record) && record.outcome.status
        == RunOutcomeStatus::Passed && !record.outcome.another_passing_run_required
        && record.outcome.final_firmware_auto_confirmed
}

} // verus!
