//! The shape of a complete Firmware Auto baseline record.

use vstd::prelude::*;
use crate::evidence::{
    profile_power, profile_source, EvidenceFan, EvidenceProfile, EvidenceRecord, EvidenceTimestamp,
    FanReadbackEvidence, FanReadbackField, FanReadbackPhase, ObservationOutcome, RecordModel,
    SampleFreshness, TelemetrySampleEvidence, WorkloadEvidence, WorkloadModel,
};
use crate::final_state::{final_enable_readback_confirms_auto, final_readback_is_auto};
use crate::select::{kept, lemma_kept_ends, lemma_kept_step};
use crate::text::same_text;
use crate::thermal::{stable_summary, summary_matches, FinalSlopes};

verus! {

/// Whether a temperature lies in a range that excludes its upper end.
pub open spec fn below(value: Option<i32>, limit: int) -> bool {
    value matches Some(value) && -40_000 <= value < limit
}

/// Whether a sample is complete, cool enough, unthrottled and on the workload's profile.
pub open spec fn baseline_sample_is_complete(
    sample: TelemetrySampleEvidence,
    profile: EvidenceProfile,
) -> bool {
    &&& sample.freshness == SampleFreshness::Fresh
    &&& below(sample.cpu_millicelsius, 95_000)
    &&& below(sample.gpu_millicelsius, 85_000)
    &&& sample.external_power == Some(profile_source(profile))
    &&& sample.selected_profile == Some(profile)
    &&& sample.cpu_source_demand_basis_points is Some
    &&& sample.gpu_source_demand_basis_points is Some
    &&& sample.commanded_demand_basis_points is Some
    &&& sample.cpu_thermal_throttling == Some(false)
    &&& sample.gpu_thermal_throttling == Some(false)
}

/// Whether two moments are two seconds apart, give or take a tenth.
pub open spec fn on_cadence(earlier: EvidenceTimestamp, later: EvidenceTimestamp) -> bool {
    1_900 <= later.monotonic_millis - earlier.monotonic_millis <= 2_100
}

/// Readbacks of one fan.
pub open spec fn readbacks_of(fan: EvidenceFan) -> spec_fn(FanReadbackEvidence) -> bool {
    |readback: FanReadbackEvidence| readback.fan == fan
}

/// Readbacks of one fan in one phase.
pub open spec fn readbacks_in(fan: EvidenceFan, phase: FanReadbackPhase) -> spec_fn(
    FanReadbackEvidence,
) -> bool {
    |readback: FanReadbackEvidence| readback.fan == fan && readback.phase == Some(phase)
}

/// Readbacks of one fan that belong to a sample: stamped at most a tenth of a second after it.
pub open spec fn readbacks_for(fan: EvidenceFan, sample_at: EvidenceTimestamp) -> spec_fn(
    FanReadbackEvidence,
) -> bool {
    |readback: FanReadbackEvidence|
        readback.fan == fan && readback.phase == Some(FanReadbackPhase::Sample) && 0
            <= readback.timestamp.monotonic_millis - sample_at.monotonic_millis <= 100
}

/// The only readback of a fan in a phase.
pub open spec fn only_readback(
    readbacks: Seq<FanReadbackEvidence>,
    fan: EvidenceFan,
    phase: FanReadbackPhase,
) -> Option<FanReadbackEvidence> {
    let matching = kept(readbacks, readbacks_in(fan, phase));
    if matching.len() == 1 {
        Some(matching[0])
    } else {
        None
    }
}

/// Whether exactly one readback of a fan belongs to a sample.
pub open spec fn sample_is_read_once(
    readbacks: Seq<FanReadbackEvidence>,
    fan: EvidenceFan,
    sample: TelemetrySampleEvidence,
) -> bool {
    kept(readbacks, readbacks_for(fan, sample.timestamp)).len() == 1
}

/// Whether a fan's readbacks cover every phase of a baseline, in order and from one endpoint.
pub open spec fn phases_are_complete(
    record: RecordModel,
    fan: EvidenceFan,
    workload_started_at: EvidenceTimestamp,
) -> bool {
    let readbacks = record.readbacks;
    &&& only_readback(readbacks, fan, FanReadbackPhase::Initial) matches Some(initial)
        && only_readback(readbacks, fan, FanReadbackPhase::StartGate) matches Some(start_gate)
        && only_readback(readbacks, fan, FanReadbackPhase::WorkloadStarted) matches Some(started)
        && only_readback(readbacks, fan, FanReadbackPhase::Final) matches Some(last) && {
        &&& forall|i: int|
            0 <= i < readbacks.len() && (#[trigger] readbacks[i]).fan == fan
                ==> readbacks[i].endpoint_identity@ == initial.endpoint_identity@
        &&& record.started_at.monotonic_millis <= initial.timestamp.monotonic_millis
        &&& record.starting_conditions_captured_at matches Some(captured_at)
            && initial.timestamp.monotonic_millis <= captured_at.monotonic_millis
            <= start_gate.timestamp.monotonic_millis
        &&& start_gate.timestamp.monotonic_millis <= workload_started_at.monotonic_millis
            <= started.timestamp.monotonic_millis
        &&& record.samples.len() > 0
        &&& started.timestamp.monotonic_millis <= record.samples[0].timestamp.monotonic_millis
        &&& forall|i: int|
            0 <= i < record.samples.len() ==> #[trigger] sample_is_read_once(
                readbacks,
                fan,
                record.samples[i],
            )
        &&& last.timestamp == record.completed_at
        &&& kept(readbacks, readbacks_of(fan)).len() == record.samples.len() + 4
    }
}

/// Whether a workload starts at plausible temperatures below the abort limits.
pub open spec fn baseline_conditions_are_safe(workload: WorkloadModel) -> bool {
    &&& -40_000 <= workload.ambient_millicelsius <= 80_000
    &&& -40_000 <= workload.starting_cpu_millicelsius < 95_000
    &&& -40_000 <= workload.starting_gpu_millicelsius < 85_000
}

/// Whether a readback confirms Firmware Auto in a named phase.
pub open spec fn baseline_readback_is_auto(readback: FanReadbackEvidence) -> bool {
    &&& readback.field == FanReadbackField::Enable
    &&& readback.value == Some(2u32)
    &&& readback.outcome == ObservationOutcome::Confirmed
    &&& readback.phase is Some
}

/// Whether a record proves a complete Firmware Auto baseline.
pub open spec fn baseline_is_complete(record: RecordModel, slopes: FinalSlopes) -> bool {
    &&& record.workload matches Some(workload) && record.workload_started_at matches Some(started)
        && record.starting_conditions_captured_at matches Some(captured) && {
        &&& baseline_conditions_are_safe(workload)
        &&& record.samples.len() >= 2
        &&& forall|i: int|
            0 <= i < record.samples.len() ==> baseline_sample_is_complete(
                #[trigger] record.samples[i],
                workload.power_profile,
            )
        &&& captured.monotonic_millis <= started.monotonic_millis
        &&& on_cadence(started, record.samples[0].timestamp)
        &&& forall|i: int|
            0 <= i < record.samples.len() - 1 ==> on_cadence(
                record.samples[i].timestamp,
                (#[trigger] record.samples[i + 1]).timestamp,
            )
        &&& forall|i: int|
            0 <= i < record.readbacks.len() ==> baseline_readback_is_auto(
                #[trigger] record.readbacks[i],
            )
        &&& phases_are_complete(record, EvidenceFan::Cpu, started)
        &&& phases_are_complete(record, EvidenceFan::Gpu, started)
    }
    &&& record.thermal_summary == Some(stable_summary(record.samples, slopes))
    &&& record.faults.len() == 0
    &&& record.commands.len() == 0
    &&& record.state_transitions.len() == 0
    &&& record.restoration_attempts.len() == 0
    &&& record.calibration.len() == 0
    &&& final_readback_is_auto(record, EvidenceFan::Cpu)
    &&& final_readback_is_auto(record, EvidenceFan::Gpu)
}

pub(crate) fn is_below(value: Option<i32>, limit: i32) -> (yes: bool)
    ensures
        yes == below(value, limit as int),
{
    match value {
        Some(value) => -40_000 <= value && value < limit,
        None => false,
    }
}

pub(crate) fn is_false(value: Option<bool>) -> (yes: bool)
    ensures
        yes == (value == Some(false)),
{
    match value {
        Some(value) => !value,
        None => false,
    }
}

/// Whether a sample ran on a profile's power source and under that profile.
pub(crate) fn runs_on(sample: &TelemetrySampleEvidence, profile: EvidenceProfile) -> (yes: bool)
    ensures
        yes == (sample.external_power == Some(profile_source(profile)) && sample.selected_profile
            == Some(profile)),
{
    let powered = match sample.external_power {
        Some(power) => power == profile_power(profile),
        None => false,
    };
    let selected = match sample.selected_profile {
        Some(selected) => selected == profile,
        None => false,
    };
    powered && selected
}

fn sample_is_complete(sample: &TelemetrySampleEvidence, profile: EvidenceProfile) -> (yes: bool)
    ensures
        yes == baseline_sample_is_complete(*sample, profile),
{
    sample.freshness == SampleFreshness::Fresh && is_below(sample.cpu_millicelsius, 95_000)
        && is_below(sample.gpu_millicelsius, 85_000) && runs_on(sample, profile)
        && sample.cpu_source_demand_basis_points.is_some()
        && sample.gpu_source_demand_basis_points.is_some()
        && sample.commanded_demand_basis_points.is_some() && is_false(sample.cpu_thermal_throttling)
        && is_false(sample.gpu_thermal_throttling)
}

fn is_on_cadence(earlier: EvidenceTimestamp, later: EvidenceTimestamp) -> (yes: bool)
    ensures
        yes == on_cadence(earlier, later),
{
    later.monotonic_millis >= earlier.monotonic_millis && 1_900 <= later.monotonic_millis
        - earlier.monotonic_millis && later.monotonic_millis - earlier.monotonic_millis <= 2_100
}

pub(crate) fn samples_follow_cadence(
    samples: &Vec<TelemetrySampleEvidence>,
    profile: EvidenceProfile,
    started: EvidenceTimestamp,
) -> (yes: bool)
    ensures
        yes == {
            &&& samples@.len() >= 2
            &&& forall|i: int|
                0 <= i < samples@.len() ==> baseline_sample_is_complete(
                    #[trigger] samples@[i],
                    profile,
                )
            &&& on_cadence(started, samples@[0].timestamp)
            &&& forall|i: int|
                0 <= i < samples@.len() - 1 ==> on_cadence(
                    samples@[i].timestamp,
                    (#[trigger] samples@[i + 1]).timestamp,
                )
        },
{
    if samples.len() < 2 || !is_on_cadence(started, samples[0].timestamp) {
        return false;
    }
    let mut i: usize = 0;
    while i < samples.len()
        invariant
            i <= samples.len(),
            forall|k: int|
                0 <= k < i ==> baseline_sample_is_complete(#[trigger] samples@[k], profile),
            forall|k: int|
                0 <= k < i - 1 ==> on_cadence(
                    samples@[k].timestamp,
                    (#[trigger] samples@[k + 1]).timestamp,
                ),
        decreases samples.len() - i,
    {
        if !sample_is_complete(&samples[i], profile) {
            return false;
        }
        if i > 0 && !is_on_cadence(samples[i - 1].timestamp, samples[i].timestamp) {
            assert(!on_cadence(samples@[i - 1].timestamp, samples@[(i - 1) + 1].timestamp));
            return false;
        }
        i = i + 1;
    }
    true
}

pub(crate) fn phase_is(phase: Option<FanReadbackPhase>, expected: FanReadbackPhase) -> (yes: bool)
    ensures
        yes == (phase == Some(expected)),
{
    match phase {
        Some(phase) => phase == expected,
        None => false,
    }
}

/// The index of the only readback of a fan in a phase.
fn unique_phase(
    readbacks: &Vec<FanReadbackEvidence>,
    fan: EvidenceFan,
    phase: FanReadbackPhase,
) -> (found: Option<usize>)
    ensures
        found matches Some(b) ==> b < readbacks@.len(),
        only_readback(readbacks@, fan, phase) == match found {
            Some(b) => Some(readbacks@[b as int]),
            None => None,
        },
{
    let ghost keep = readbacks_in(fan, phase);
    let mut found: Option<usize> = None;
    let mut i: usize = 0;
    proof {
        lemma_kept_ends(readbacks@, keep);
    }
    while i < readbacks.len()
        invariant
            i <= readbacks.len(),
            keep == readbacks_in(fan, phase),
            found matches Some(b) ==> b < i && kept(readbacks@.take(i as int), keep)
                == seq![readbacks@[b as int]],
            found is None ==> kept(readbacks@.take(i as int), keep).len() == 0,
        decreases readbacks.len() - i,
    {
        proof {
            lemma_kept_step(readbacks@, keep, i as int);
        }
        if readbacks[i].fan == fan && phase_is(readbacks[i].phase, phase) {
            assert(keep(readbacks@[i as int]));
            if found.is_some() {
                proof {
                    lemma_kept_grows(readbacks@, keep, i + 1);
                }
                return None;
            }
            found = Some(i);
            assert(kept(readbacks@.take(i + 1), keep) =~= seq![readbacks@[i as int]]);
        } else {
            assert(!keep(readbacks@[i as int]));
        }
        i = i + 1;
    }
    proof {
        lemma_kept_ends(readbacks@, keep);
    }
    found
}

/// More entries keep at least as many.
pub(crate) proof fn lemma_kept_grows<T>(entries: Seq<T>, keep: spec_fn(T) -> bool, prefix: int)
    requires
        0 <= prefix <= entries.len(),
    ensures
        kept(entries.take(prefix), keep).len() <= kept(entries, keep).len(),
    decreases entries.len() - prefix,
{
    if prefix == entries.len() {
        assert(entries.take(prefix) =~= entries);
    } else {
        lemma_kept_step(entries, keep, prefix);
        lemma_kept_grows(entries, keep, prefix + 1);
    }
}

fn count_for_fan(readbacks: &Vec<FanReadbackEvidence>, fan: EvidenceFan) -> (count: usize)
    ensures
        count == kept(readbacks@, readbacks_of(fan)).len(),
{
    let ghost keep = readbacks_of(fan);
    let mut count: usize = 0;
    let mut i: usize = 0;
    proof {
        lemma_kept_ends(readbacks@, keep);
    }
    while i < readbacks.len()
        invariant
            i <= readbacks.len(),
            keep == readbacks_of(fan),
            count <= i,
            count == kept(readbacks@.take(i as int), keep).len(),
        decreases readbacks.len() - i,
    {
        proof {
            lemma_kept_step(readbacks@, keep, i as int);
        }
        if readbacks[i].fan == fan {
            assert(keep(readbacks@[i as int]));
            count = count + 1;
        } else {
            assert(!keep(readbacks@[i as int]));
        }
        i = i + 1;
    }
    proof {
        lemma_kept_ends(readbacks@, keep);
    }
    count
}

fn reads_sample_once(
    readbacks: &Vec<FanReadbackEvidence>,
    fan: EvidenceFan,
    sample: &TelemetrySampleEvidence,
) -> (yes: bool)
    ensures
        yes == sample_is_read_once(readbacks@, fan, *sample),
{
    let at: u64 = sample.timestamp.monotonic_millis;
    let ghost keep = readbacks_for(fan, sample.timestamp);
    let mut count: usize = 0;
    let mut i: usize = 0;
    proof {
        lemma_kept_ends(readbacks@, keep);
    }
    while i < readbacks.len()
        invariant
            i <= readbacks.len(),
            at == sample.timestamp.monotonic_millis,
            keep == readbacks_for(fan, sample.timestamp),
            count <= i,
            count == kept(readbacks@.take(i as int), keep).len(),
        decreases readbacks.len() - i,
    {
        proof {
            lemma_kept_step(readbacks@, keep, i as int);
        }
        let read_at: u64 = readbacks[i].timestamp.monotonic_millis;
        if readbacks[i].fan == fan && phase_is(readbacks[i].phase, FanReadbackPhase::Sample)
            && read_at >= at && read_at - at <= 100 {
            assert(keep(readbacks@[i as int]));
            count = count + 1;
        } else {
            assert(!keep(readbacks@[i as int]));
        }
        i = i + 1;
    }
    proof {
        lemma_kept_ends(readbacks@, keep);
    }
    count == 1
}

fn every_sample_is_read_once(record: &EvidenceRecord, fan: EvidenceFan) -> (yes: bool)
    ensures
        yes == forall|i: int|
            0 <= i < record@.samples.len() ==> #[trigger] sample_is_read_once(
                record@.readbacks,
                fan,
                record@.samples[i],
            ),
{
    let mut i: usize = 0;
    while i < record.samples.len()
        invariant
            i <= record.samples.len(),
            forall|k: int|
                0 <= k < i ==> #[trigger] sample_is_read_once(
                    record@.readbacks,
                    fan,
                    record@.samples[k],
                ),
        decreases record.samples.len() - i,
    {
        if !reads_sample_once(&record.readbacks, fan, &record.samples[i]) {
            assert(!sample_is_read_once(record@.readbacks, fan, record@.samples[i as int]));
            return false;
        }
        i = i + 1;
    }
    true
}

fn reads_one_endpoint(
    readbacks: &Vec<FanReadbackEvidence>,
    fan: EvidenceFan,
    identity: &str,
) -> (yes: bool)
    ensures
        yes == forall|i: int|
            0 <= i < readbacks@.len() && (#[trigger] readbacks@[i]).fan == fan
                ==> readbacks@[i].endpoint_identity@ == identity@,
{
    let mut i: usize = 0;
    while i < readbacks.len()
        invariant
            i <= readbacks.len(),
            forall|k: int|
                0 <= k < i && (#[trigger] readbacks@[k]).fan == fan
                    ==> readbacks@[k].endpoint_identity@ == identity@,
        decreases readbacks.len() - i,
    {
        if readbacks[i].fan == fan && !same_text(
            readbacks[i].endpoint_identity.as_str(),
            identity,
        ) {
            assert(readbacks@[i as int].fan == fan);
            return false;
        }
        i = i + 1;
    }
    true
}

fn baseline_readback_phases_are_complete(
    record: &EvidenceRecord,
    fan: EvidenceFan,
    workload_started_at: EvidenceTimestamp,
) -> (yes: bool)
    ensures
        yes == phases_are_complete(record@, fan, workload_started_at),
{
    let readbacks = &record.readbacks;
    let (initial, start_gate, started, last) = match (
        unique_phase(readbacks, fan, FanReadbackPhase::Initial),
        unique_phase(readbacks, fan, FanReadbackPhase::StartGate),
        unique_phase(readbacks, fan, FanReadbackPhase::WorkloadStarted),
        unique_phase(readbacks, fan, FanReadbackPhase::Final),
    ) {
        (Some(initial), Some(start_gate), Some(started), Some(last)) => (
            initial,
            start_gate,
            started,
            last,
        ),
        _ => {
            return false;
        },
    };
    if !reads_one_endpoint(readbacks, fan, readbacks[initial].endpoint_identity.as_str()) {
        return false;
    }
    let captured_at: u64 = match record.starting_conditions_captured_at {
        Some(captured_at) => captured_at.monotonic_millis,
        None => {
            return false;
        },
    };
    let initial_at: u64 = readbacks[initial].timestamp.monotonic_millis;
    let start_gate_at: u64 = readbacks[start_gate].timestamp.monotonic_millis;
    let started_at: u64 = readbacks[started].timestamp.monotonic_millis;
    if !(record.started_at.monotonic_millis <= initial_at && initial_at <= captured_at
        && captured_at <= start_gate_at && start_gate_at <= workload_started_at.monotonic_millis
        && workload_started_at.monotonic_millis <= started_at) {
        return false;
    }
    if record.samples.len() == 0 || started_at > record.samples[0].timestamp.monotonic_millis {
        return false;
    }
    let count = count_for_fan(readbacks, fan);
    every_sample_is_read_once(record, fan) && readbacks[last].timestamp == record.completed_at
        && count >= 4 && count - 4 == record.samples.len()
}

fn readbacks_are_auto(readbacks: &Vec<FanReadbackEvidence>) -> (yes: bool)
    ensures
        yes == forall|i: int|
            0 <= i < readbacks@.len() ==> baseline_readback_is_auto(#[trigger] readbacks@[i]),
{
    let mut i: usize = 0;
    while i < readbacks.len()
        invariant
            i <= readbacks.len(),
            forall|k: int| 0 <= k < i ==> baseline_readback_is_auto(#[trigger] readbacks@[k]),
        decreases readbacks.len() - i,
    {
        let value_is_auto = match readbacks[i].value {
            Some(value) => value == 2,
            None => false,
        };
        if !(readbacks[i].field == FanReadbackField::Enable && value_is_auto
            && readbacks[i].outcome == ObservationOutcome::Confirmed
            && readbacks[i].phase.is_some()) {
            assert(!baseline_readback_is_auto(readbacks@[i as int]));
            return false;
        }
        i = i + 1;
    }
    true
}

/// Decides [`baseline_conditions_are_safe`].
pub(crate) fn workload_conditions_are_safe(workload: &WorkloadEvidence) -> (yes: bool)
    ensures
        yes == baseline_conditions_are_safe(workload@),
{
    -40_000 <= workload.ambient_millicelsius && workload.ambient_millicelsius <= 80_000 && is_below(
        Some(workload.starting_cpu_millicelsius),
        95_000,
    ) && is_below(Some(workload.starting_gpu_millicelsius), 85_000)
}

/// Decides [`baseline_is_complete`].
pub fn firmware_auto_baseline_is_complete(
    record: &EvidenceRecord,
    slopes: FinalSlopes,
) -> (yes: bool)
    ensures
        yes == baseline_is_complete(record@, slopes),
{
    let workload = match &record.workload {
        Some(workload) => workload,
        None => {
            return false;
        },
    };
    let started = match record.workload_started_at {
        Some(started) => started,
        None => {
            return false;
        },
    };
    let captured = match record.starting_conditions_captured_at {
        Some(captured) => captured,
        None => {
            return false;
        },
    };
    let summary_is_derived = match &record.thermal_summary {
        Some(summary) => summary_matches(summary, &record.samples, slopes),
        None => false,
    };
    workload_conditions_are_safe(workload) && summary_is_derived && samples_follow_cadence(
        &record.samples,
        workload.power_profile,
        started,
    ) && captured.monotonic_millis <= started.monotonic_millis && readbacks_are_auto(
        &record.readbacks,
    ) && baseline_readback_phases_are_complete(record, EvidenceFan::Cpu, started)
        && baseline_readback_phases_are_complete(record, EvidenceFan::Gpu, started)
        && record.faults.len() == 0 && record.commands.len() == 0 && record.state_transitions.len()
        == 0 && record.restoration_attempts.len() == 0 && record.calibration.len() == 0
        && final_enable_readback_confirms_auto(record, EvidenceFan::Cpu)
        && final_enable_readback_confirms_auto(record, EvidenceFan::Gpu)
}

} // verus!
