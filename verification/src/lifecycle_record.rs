//! The shape of a live-lifecycle evidence record.

use vstd::prelude::*;
use vstd::string::*;
use crate::evidence::{
    EvidenceFan, EvidenceRecord, EvidenceTimestamp, FanReadbackEvidence, FanReadbackField,
    ObservationOutcome, RecordModel, StateTransitionEvidence, EVIDENCE_SCHEMA_VERSION_V2,
};
use crate::lifecycle::{
    approved_case, boot_change, case_at, case_of, comes_after, follows, not_before,
    observation_case, reaches, reboot_boot_ids_are_valid, CaseResultModel, LiveLifecycleCase,
    LiveLifecycleCaseObservation, LiveLifecycleCaseResult,
};
use crate::lifecycle_rules::{
    both_are_auto, case_error, coverage_error, distinct_identities, identities,
    identities_are_distinct, observation_fits_schema, observation_values_fit_schema,
    pair_identities, pair_is_auto, pair_rebinds, rebinds, rebound_identities,
    validate_case_observation, validate_observer_attestations, FanIdentities,
};
use crate::text::{is_blank, is_text, same_text, text_option, trimmed};

verus! {

broadcast use vstd::string::group_string_axioms;

/// Whether a readback was taken from its source before it was stamped.
pub open spec fn source_precedes(readback: FanReadbackEvidence) -> bool {
    readback.source_timestamp matches Some(source) && reaches(source, readback.timestamp)
}

/// Whether a readback is of one fan's enable endpoint.
pub open spec fn reads_enable(readback: FanReadbackEvidence, fan: EvidenceFan) -> bool {
    readback.fan == fan && readback.field == FanReadbackField::Enable
}

/// Whether a readback freshly confirms Firmware Auto.
pub open spec fn confirms_auto(readback: FanReadbackEvidence, identity: Seq<char>) -> bool {
    &&& readback.value == Some(2u32)
    &&& readback.outcome == ObservationOutcome::Confirmed
    &&& readback.fresh == Some(true)
    &&& source_precedes(readback)
    &&& readback.endpoint_identity@ == identity
}

/// Whether a gate's two readbacks confirm Firmware Auto on the expected endpoints.
pub open spec fn gate_confirms_auto(
    cpu: FanReadbackEvidence,
    gpu: FanReadbackEvidence,
    expected: FanIdentities,
) -> bool {
    &&& reads_enable(cpu, EvidenceFan::Cpu)
    &&& reads_enable(gpu, EvidenceFan::Gpu)
    &&& confirms_auto(cpu, expected.0)
    &&& confirms_auto(gpu, expected.1)
}

/// The same, within one boot.
pub open spec fn gate_confirms_auto_in(
    cpu: FanReadbackEvidence,
    gpu: FanReadbackEvidence,
    expected: FanIdentities,
    boot_id: Seq<char>,
) -> bool {
    &&& gate_confirms_auto(cpu, gpu, expected)
    &&& text_option(cpu.boot_id) == Some(boot_id)
    &&& text_option(gpu.boot_id) == Some(boot_id)
}

/// Whether a gate's two readbacks were attempted in order.
pub open spec fn gate_is_ordered(cpu: FanReadbackEvidence, gpu: FanReadbackEvidence) -> bool {
    &&& reads_enable(cpu, EvidenceFan::Cpu)
    &&& reads_enable(gpu, EvidenceFan::Gpu)
    &&& cpu.source_timestamp is Some
    &&& gpu.source_timestamp is Some
    &&& follows(cpu.timestamp, gpu.timestamp)
}

/// Whether a readback's source lies in a window and its stamp before the window's end.
pub open spec fn source_fits(
    readback: FanReadbackEvidence,
    from: EvidenceTimestamp,
    until: EvidenceTimestamp,
    strictly_after_start: bool,
) -> bool {
    readback.source_timestamp matches Some(source) && {
        &&& if strictly_after_start {
            source.monotonic_millis > from.monotonic_millis
        } else {
            source.monotonic_millis >= from.monotonic_millis
        }
        &&& source.wall_unix_millis >= from.wall_unix_millis
        &&& reaches(source, readback.timestamp)
        &&& follows(readback.timestamp, until)
    }
}

/// Whether a gate's two readbacks were read in order within a window.
pub open spec fn gate_fits_window(
    cpu: FanReadbackEvidence,
    gpu: FanReadbackEvidence,
    from: EvidenceTimestamp,
    until: EvidenceTimestamp,
    strictly_after_start: bool,
) -> bool {
    &&& reads_enable(cpu, EvidenceFan::Cpu)
    &&& reads_enable(gpu, EvidenceFan::Gpu)
    &&& source_fits(cpu, from, until, strictly_after_start)
    &&& source_fits(gpu, from, until, strictly_after_start)
    &&& follows(cpu.source_timestamp->0, gpu.source_timestamp->0)
}

/// Whether a case's clock fits between the transitions into and out of it.
pub open spec fn result_fits_transitions(
    case: LiveLifecycleCase,
    result: CaseResultModel,
    entered: StateTransitionEvidence,
    restored: StateTransitionEvidence,
    record: RecordModel,
) -> bool {
    &&& result.started_at.wall_unix_millis < result.completed_at.wall_unix_millis
    &&& case == LiveLifecycleCase::Reboot || !result.passed || result.started_at.monotonic_millis
        < result.completed_at.monotonic_millis
    &&& case == LiveLifecycleCase::Reboot || (record.started_at.monotonic_millis
        <= result.started_at.monotonic_millis && record.started_at.monotonic_millis
        <= result.completed_at.monotonic_millis && result.completed_at.monotonic_millis
        <= record.completed_at.monotonic_millis)
    &&& follows(entered.timestamp, result.started_at)
    &&& result.completed_at.wall_unix_millis <= restored.timestamp.wall_unix_millis
}

/// The identities of the first gate.
pub open spec fn first_gate_identities(record: RecordModel) -> FanIdentities {
    (record.readbacks[0].endpoint_identity@, record.readbacks[1].endpoint_identity@)
}

/// Whether the first gate reads both fans under distinct identities.
pub open spec fn first_gate_is_distinct(record: RecordModel) -> bool {
    &&& record.readbacks[0].fan == EvidenceFan::Cpu
    &&& record.readbacks[1].fan == EvidenceFan::Gpu
    &&& distinct_identities(first_gate_identities(record))
}

/// When the Auto readbacks after a case may begin.
pub open spec fn gate_start(result: CaseResultModel) -> EvidenceTimestamp {
    match result.observation {
        Some(LiveLifecycleCaseObservation::Reboot { post_boot_at, .. }) => post_boot_at,
        _ => result.completed_at,
    }
}

/// Whether the Auto readbacks after a passed case confirm the identities that the case ends with.
pub open spec fn following_gate_confirms(
    cpu: FanReadbackEvidence,
    gpu: FanReadbackEvidence,
    observation: LiveLifecycleCaseObservation,
    expected: FanIdentities,
) -> bool {
    match observation {
        LiveLifecycleCaseObservation::Reboot { auto_before_arm: Some(pair), .. } => rebinds(
            pair,
            Some(expected),
        ) && gate_confirms_auto(cpu, gpu, pair_identities(pair)),
        _ => gate_confirms_auto(cpu, gpu, expected),
    }
}

/// Whether the case at an index is recorded as the stage prescribes.
pub open spec fn case_is_well_formed(record: RecordModel, index: int) -> bool {
    let cases = record.live_lifecycle_cases->0;
    let result = cases[index];
    let case = approved_case(index);
    let entered = record.state_transitions[index * 2];
    let restored = record.state_transitions[index * 2 + 1];
    let before_cpu = record.readbacks[index * 2];
    let before_gpu = record.readbacks[index * 2 + 1];
    let after_cpu = record.readbacks[index * 2 + 2];
    let after_gpu = record.readbacks[index * 2 + 3];
    let expected = first_gate_identities(record);
    &&& result.case == case
    &&& trimmed(result.detail).len() > 0
    &&& result.observation matches Some(observation) ==> case_of(observation) == case
        && observation_fits_schema(observation)
    &&& result.passed ==> result.observation is Some
    &&& index + 1 != cases.len() ==> result.passed
    &&& entered.from@ == "firmware-auto"@
    &&& entered.to@ == case.name()
    &&& restored.from@ == case.name()
    &&& restored.to@ == "firmware-auto"@ || (restored.to@ == "lifecycle-blocked"@ && !result.passed)
    &&& result.passed ==> coverage_error(
        case,
        result.observer_attestations,
        result.observation->0,
        result.started_at,
        result.completed_at,
    ) is None
    &&& result_fits_transitions(case, result, entered, restored, record)
    &&& first_gate_is_distinct(record)
    &&& gate_confirms_auto(before_cpu, before_gpu, expected)
    &&& gate_is_ordered(after_cpu, after_gpu)
    &&& case == LiveLifecycleCase::Reboot && result.passed ==> after_gpu.timestamp.monotonic_millis
        < result.completed_at.monotonic_millis
    &&& case != LiveLifecycleCase::Reboot ==> result.completed_at.monotonic_millis
        < after_cpu.timestamp.monotonic_millis
    &&& after_gpu.timestamp.monotonic_millis < restored.timestamp.monotonic_millis
    &&& result.passed ==> gate_fits_window(
        after_cpu,
        after_gpu,
        gate_start(result),
        restored.timestamp,
        true,
    )
    &&& result.passed ==> case_error(
        case,
        result.observation->0,
        result.started_at,
        result.completed_at,
        expected,
    ) is None
    &&& result.passed ==> following_gate_confirms(
        after_cpu,
        after_gpu,
        result.observation->0,
        expected,
    )
}

/// Whether the record ends with the additional gate after a reboot case.
pub open spec fn has_terminal_gate(record: RecordModel) -> bool {
    let cases = record.live_lifecycle_cases->0;
    &&& cases.len() > 0
    &&& cases.last().case == LiveLifecycleCase::Reboot
    &&& record.readbacks.len() == 2 * cases.len() + 4
}

/// Whether the additional gate after a reboot case is recorded as the stage prescribes.
pub open spec fn terminal_gate_is_well_formed(record: RecordModel) -> bool {
    let result = record.live_lifecycle_cases->0.last();
    let restored = record.state_transitions.last();
    let cpu = record.readbacks[record.readbacks.len() - 2];
    let gpu = record.readbacks[record.readbacks.len() - 1];
    &&& gate_is_ordered(cpu, gpu)
    &&& gpu.timestamp.monotonic_millis < restored.timestamp.monotonic_millis
    &&& result.passed ==> match result.observation {
        Some(
            LiveLifecycleCaseObservation::Reboot {
                auto_after_arm: Some(pair),
                restored_at: Some(restored_at),
                ..
            },
        ) => gate_confirms_auto(cpu, gpu, pair_identities(pair)) && gate_fits_window(
            cpu,
            gpu,
            restored_at,
            restored.timestamp,
            true,
        ),
        _ => false,
    }
}

/// Whether a record's lifecycle cases, gates and transitions fit together.
pub open spec fn lifecycle_cases_are_well_formed(record: RecordModel) -> bool {
    record.live_lifecycle_cases matches Some(cases) && {
        let recovery = cases.len() == 0 && record.readbacks.len() == 4;
        &&& cases.len() <= 8
        &&& record.state_transitions.len() == 2 * cases.len()
        &&& record.readbacks.len() == 2 * cases.len() + 2 || has_terminal_gate(record) || recovery
        &&& if cases.len() == 0 {
            &&& gate_fits_window(
                record.readbacks[0],
                record.readbacks[1],
                record.started_at,
                record.completed_at,
                false,
            )
            &&& recovery ==> gate_is_ordered(record.readbacks[2], record.readbacks[3])
                && gate_fits_window(
                record.readbacks[2],
                record.readbacks[3],
                record.readbacks[1].timestamp,
                record.completed_at,
                false,
            )
        } else {
            &&& gate_fits_window(
                record.readbacks[0],
                record.readbacks[1],
                record.started_at,
                record.state_transitions[0].timestamp,
                false,
            )
            &&& forall|index: int|
                0 <= index < cases.len() ==> #[trigger] case_is_well_formed(record, index)
            &&& has_terminal_gate(record) ==> terminal_gate_is_well_formed(record)
        }
    }
}

fn value_is(value: Option<u32>, expected: u32) -> (yes: bool)
    ensures
        yes == (value == Some(expected)),
{
    match value {
        Some(value) => value == expected,
        None => false,
    }
}

fn enable_is_read(readback: &FanReadbackEvidence, fan: EvidenceFan) -> (yes: bool)
    ensures
        yes == reads_enable(*readback, fan),
{
    readback.fan == fan && readback.field == FanReadbackField::Enable
}

fn auto_is_confirmed(readback: &FanReadbackEvidence, identity: &str) -> (yes: bool)
    ensures
        yes == confirms_auto(*readback, identity@),
{
    let fresh = match readback.fresh {
        Some(fresh) => fresh,
        None => false,
    };
    let sourced = match readback.source_timestamp {
        Some(source) => not_before(source, readback.timestamp),
        None => false,
    };
    value_is(readback.value, 2) && readback.outcome == ObservationOutcome::Confirmed && fresh
        && sourced && same_text(readback.endpoint_identity.as_str(), identity)
}

fn readback_pair_confirms_auto_unscoped(
    cpu: &FanReadbackEvidence,
    gpu: &FanReadbackEvidence,
    expected: &(String, String),
) -> (yes: bool)
    ensures
        yes == gate_confirms_auto(*cpu, *gpu, identities(*expected)),
{
    enable_is_read(cpu, EvidenceFan::Cpu) && enable_is_read(gpu, EvidenceFan::Gpu)
        && auto_is_confirmed(
            cpu,
            expected.0.as_str(),
        ) && auto_is_confirmed(gpu, expected.1.as_str())
}

fn readback_pair_confirms_auto(
    cpu: &FanReadbackEvidence,
    gpu: &FanReadbackEvidence,
    expected: &(String, String),
    boot_id: &str,
) -> (yes: bool)
    ensures
        yes == gate_confirms_auto_in(*cpu, *gpu, identities(*expected), boot_id@),
{
    readback_pair_confirms_auto_unscoped(cpu, gpu, expected) && is_text(&cpu.boot_id, boot_id)
        && is_text(&gpu.boot_id, boot_id)
}

fn readback_pair_is_ordered_attempt(cpu: &FanReadbackEvidence, gpu: &FanReadbackEvidence) -> (yes:
    bool)
    ensures
        yes == gate_is_ordered(*cpu, *gpu),
{
    enable_is_read(cpu, EvidenceFan::Cpu) && enable_is_read(gpu, EvidenceFan::Gpu)
        && cpu.source_timestamp.is_some() && gpu.source_timestamp.is_some() && comes_after(
        cpu.timestamp,
        gpu.timestamp,
    )
}

fn source_is_in_window(
    readback: &FanReadbackEvidence,
    from: EvidenceTimestamp,
    until: EvidenceTimestamp,
    strictly_after_start: bool,
) -> (yes: bool)
    ensures
        yes == source_fits(*readback, from, until, strictly_after_start),
{
    match readback.source_timestamp {
        None => false,
        Some(source) => {
            let starts = if strictly_after_start {
                source.monotonic_millis > from.monotonic_millis
            } else {
                source.monotonic_millis >= from.monotonic_millis
            };
            starts && source.wall_unix_millis >= from.wall_unix_millis && not_before(
                source,
                readback.timestamp,
            ) && comes_after(readback.timestamp, until)
        },
    }
}

fn readback_pair_sources_fit_gate_window(
    cpu: &FanReadbackEvidence,
    gpu: &FanReadbackEvidence,
    from: EvidenceTimestamp,
    until: EvidenceTimestamp,
    strictly_after_start: bool,
) -> (yes: bool)
    ensures
        yes == gate_fits_window(*cpu, *gpu, from, until, strictly_after_start),
{
    if !(enable_is_read(cpu, EvidenceFan::Cpu) && enable_is_read(gpu, EvidenceFan::Gpu)
        && source_is_in_window(cpu, from, until, strictly_after_start) && source_is_in_window(
        gpu,
        from,
        until,
        strictly_after_start,
    )) {
        return false;
    }
    match (cpu.source_timestamp, gpu.source_timestamp) {
        (Some(cpu_source), Some(gpu_source)) => comes_after(cpu_source, gpu_source),
        _ => false,
    }
}

fn case_result_fits_transition_window(
    case: LiveLifecycleCase,
    result: &LiveLifecycleCaseResult,
    entered: &StateTransitionEvidence,
    restored: &StateTransitionEvidence,
    record: &EvidenceRecord,
) -> (yes: bool)
    ensures
        yes == result_fits_transitions(case, result@, *entered, *restored, record@),
{
    let started_at = result.started_at();
    let completed_at = result.completed_at();
    let reboot = case == LiveLifecycleCase::Reboot;
    started_at.wall_unix_millis < completed_at.wall_unix_millis && (reboot || !result.passed()
        || started_at.monotonic_millis < completed_at.monotonic_millis) && (reboot || (
    record.started_at.monotonic_millis <= started_at.monotonic_millis
        && record.started_at.monotonic_millis <= completed_at.monotonic_millis
        && completed_at.monotonic_millis <= record.completed_at.monotonic_millis)) && comes_after(
        entered.timestamp,
        started_at,
    ) && completed_at.wall_unix_millis <= restored.timestamp.wall_unix_millis
}

fn well_formed_case(
    record: &EvidenceRecord,
    cases: &Vec<LiveLifecycleCaseResult>,
    index: usize,
    expected: &(String, String),
) -> (yes: bool)
    requires
        record.live_lifecycle_cases == Some(*cases),
        index < cases@.len() <= 8,
        record.state_transitions@.len() == 2 * cases@.len(),
        record.readbacks@.len() >= 2 * cases@.len() + 2,
        identities(*expected) == first_gate_identities(record@),
        first_gate_is_distinct(record@),
    ensures
        yes == case_is_well_formed(record@, index as int),
{
    let result = &cases[index];
    let case = case_at(index);
    let entered = &record.state_transitions[index * 2];
    let restored = &record.state_transitions[index * 2 + 1];
    let before_cpu = &record.readbacks[index * 2];
    let before_gpu = &record.readbacks[index * 2 + 1];
    let after_cpu = &record.readbacks[index * 2 + 2];
    let after_gpu = &record.readbacks[index * 2 + 3];
    assert(record@.live_lifecycle_cases->0[index as int] == result@);
    let passed = result.passed();
    let returned = same_text(restored.to.as_str(), "firmware-auto");
    let blocked = same_text(restored.to.as_str(), "lifecycle-blocked");
    if result.case() != case || is_blank(result.detail()) || (index + 1 != cases.len() && !passed)
        || !same_text(entered.from.as_str(), "firmware-auto") || !same_text(
        entered.to.as_str(),
        case.id(),
    ) || !same_text(restored.from.as_str(), case.id()) || !(returned || (blocked && !passed))
        || !case_result_fits_transition_window(case, result, entered, restored, record)
        || !readback_pair_confirms_auto_unscoped(before_cpu, before_gpu, expected)
        || !readback_pair_is_ordered_attempt(after_cpu, after_gpu)
        || after_gpu.timestamp.monotonic_millis >= restored.timestamp.monotonic_millis {
        return false;
    }
    if case == LiveLifecycleCase::Reboot {
        if passed && after_gpu.timestamp.monotonic_millis
            >= result.completed_at().monotonic_millis {
            return false;
        }
    } else if result.completed_at().monotonic_millis >= after_cpu.timestamp.monotonic_millis {
        return false;
    }
    match result.observation() {
        None => !passed,
        Some(observation) => {
            if observation_case(observation) != case || !observation_values_fit_schema(
                observation,
            ) {
                return false;
            }
            if !passed {
                return true;
            }
            match validate_observer_attestations(
                case,
                result.observer_attestations(),
                observation,
                result.started_at(),
                result.completed_at(),
            ) {
                Ok(()) => {},
                Err(_) => {
                    return false;
                },
            }
            let gate_start_at = match observation {
                LiveLifecycleCaseObservation::Reboot { post_boot_at, .. } => *post_boot_at,
                _ => result.completed_at(),
            };
            if !readback_pair_sources_fit_gate_window(
                after_cpu,
                after_gpu,
                gate_start_at,
                restored.timestamp,
                true,
            ) {
                return false;
            }
            match validate_case_observation(
                case,
                observation,
                result.started_at(),
                result.completed_at(),
                expected,
            ) {
                Ok(()) => {},
                Err(_) => {
                    return false;
                },
            }
            match observation {
                LiveLifecycleCaseObservation::Reboot { auto_before_arm: Some(pair), .. } => {
                    match rebound_identities(pair, Some(expected)) {
                        Some(rebound) => readback_pair_confirms_auto_unscoped(
                            after_cpu,
                            after_gpu,
                            &rebound,
                        ),
                        None => false,
                    }
                },
                _ => readback_pair_confirms_auto_unscoped(after_cpu, after_gpu, expected),
            }
        },
    }
}

fn well_formed_terminal_gate(
    record: &EvidenceRecord,
    cases: &Vec<LiveLifecycleCaseResult>,
) -> (yes: bool)
    requires
        record.live_lifecycle_cases == Some(*cases),
        0 < cases@.len() <= 8,
        record.state_transitions@.len() == 2 * cases@.len(),
        record.readbacks@.len() == 2 * cases@.len() + 4,
    ensures
        yes == terminal_gate_is_well_formed(record@),
{
    let result = &cases[cases.len() - 1];
    assert(record@.live_lifecycle_cases->0.last() == result@);
    let restored = &record.state_transitions[record.state_transitions.len() - 1];
    let cpu = &record.readbacks[record.readbacks.len() - 2];
    let gpu = &record.readbacks[record.readbacks.len() - 1];
    if !readback_pair_is_ordered_attempt(cpu, gpu) || gpu.timestamp.monotonic_millis
        >= restored.timestamp.monotonic_millis {
        return false;
    }
    if !result.passed() {
        return true;
    }
    match result.observation() {
        Some(
            LiveLifecycleCaseObservation::Reboot {
                auto_after_arm: Some(pair),
                restored_at: Some(restored_at),
                ..
            },
        ) => {
            let terminal = (
                pair.cpu.endpoint_identity.clone(),
                pair.gpu.endpoint_identity.clone(),
            );
            readback_pair_confirms_auto_unscoped(cpu, gpu, &terminal)
                && readback_pair_sources_fit_gate_window(
                cpu,
                gpu,
                *restored_at,
                restored.timestamp,
                true,
            )
        },
        _ => false,
    }
}

/// Decides [`lifecycle_cases_are_well_formed`].
pub fn live_lifecycle_cases_are_well_formed(record: &EvidenceRecord) -> (yes: bool)
    ensures
        yes == lifecycle_cases_are_well_formed(record@),
{
    let cases = match &record.live_lifecycle_cases {
        Some(cases) => cases,
        None => {
            return false;
        },
    };
    if cases.len() > 8 {
        return false;
    }
    let base: usize = 2 + cases.len() * 2;
    let recovery = cases.len() == 0 && record.readbacks.len() == 4;
    assert(cases@.len() > 0 ==> record@.live_lifecycle_cases->0.last() == cases@.last()@);
    let terminal = cases.len() > 0 && cases[cases.len() - 1].case() == LiveLifecycleCase::Reboot
        && record.readbacks.len() == base + 2;
    assert(terminal == has_terminal_gate(record@));
    if record.state_transitions.len() != cases.len() * 2 || !(record.readbacks.len() == base
        || terminal || recovery) {
        return false;
    }
    let first_cpu = &record.readbacks[0];
    let first_gpu = &record.readbacks[1];
    if cases.len() == 0 {
        return readback_pair_sources_fit_gate_window(
            first_cpu,
            first_gpu,
            record.started_at,
            record.completed_at,
            false,
        ) && (!recovery || (readback_pair_is_ordered_attempt(
            &record.readbacks[2],
            &record.readbacks[3],
        ) && readback_pair_sources_fit_gate_window(
            &record.readbacks[2],
            &record.readbacks[3],
            first_gpu.timestamp,
            record.completed_at,
            false,
        )));
    }
    if !readback_pair_sources_fit_gate_window(
        first_cpu,
        first_gpu,
        record.started_at,
        record.state_transitions[0].timestamp,
        false,
    ) {
        return false;
    }
    if !(first_cpu.fan == EvidenceFan::Cpu && first_gpu.fan == EvidenceFan::Gpu
        && identities_are_distinct(
        first_cpu.endpoint_identity.as_str(),
        first_gpu.endpoint_identity.as_str(),
    )) {
        assert(!case_is_well_formed(record@, 0));
        return false;
    }
    let expected = (first_cpu.endpoint_identity.clone(), first_gpu.endpoint_identity.clone());
    let mut index: usize = 0;
    while index < cases.len()
        invariant
            index <= cases@.len() <= 8,
            record.live_lifecycle_cases == Some(*cases),
            record.state_transitions@.len() == 2 * cases@.len(),
            record.readbacks@.len() >= 2 * cases@.len() + 2,
            identities(expected) == first_gate_identities(record@),
            first_gate_is_distinct(record@),
            forall|k: int| 0 <= k < index ==> #[trigger] case_is_well_formed(record@, k),
        decreases cases.len() - index,
    {
        if !well_formed_case(record, cases, index, &expected) {
            return false;
        }
        index = index + 1;
    }
    !terminal || well_formed_terminal_gate(record, cases)
}

/// The first reboot result among a record's cases.
pub open spec fn first_reboot(cases: Seq<CaseResultModel>) -> Option<CaseResultModel>
    decreases cases.len(),
{
    if cases.len() == 0 {
        None
    } else if cases[0].case == LiveLifecycleCase::Reboot {
        Some(cases[0])
    } else {
        first_reboot(cases.drop_first())
    }
}

/// The boot identity that a record's post-reboot events carry.
pub open spec fn post_reboot_boot(record: RecordModel) -> Option<Seq<char>> {
    match record.live_lifecycle_cases {
        None => None,
        Some(cases) => match first_reboot(cases) {
            None => None,
            Some(result) => match result.observation {
                Some(
                    LiveLifecycleCaseObservation::Reboot { boot_id_before, boot_id_after, .. },
                ) if boot_change(boot_id_before@, boot_id_after@) => Some(boot_id_after@),
                _ => if result.passed {
                    None
                } else {
                    Some("unverified-post-reboot"@)
                },
            },
        },
    }
}

/// Finds [`post_reboot_boot`].
pub fn post_reboot_boot_id(record: &EvidenceRecord) -> (boot_id: Option<&str>)
    ensures
        match boot_id {
            Some(boot_id) => post_reboot_boot(record@) == Some(boot_id@),
            None => post_reboot_boot(record@) is None,
        },
{
    let cases = match &record.live_lifecycle_cases {
        Some(cases) => cases,
        None => {
            return None;
        },
    };
    let ghost models = record@.live_lifecycle_cases->0;
    let mut i: usize = 0;
    assert(models.skip(0) =~= models);
    while i < cases.len()
        invariant
            i <= cases.len(),
            record.live_lifecycle_cases == Some(*cases),
            models == record@.live_lifecycle_cases->0,
            models.len() == cases@.len(),
            first_reboot(models) == first_reboot(models.skip(i as int)),
        decreases cases.len() - i,
    {
        proof {
            let rest = models.skip(i as int);
            assert(rest[0] == cases@[i as int]@);
            assert(rest.drop_first() =~= models.skip(i + 1));
        }
        if cases[i].case() == LiveLifecycleCase::Reboot {
            return match cases[i].observation() {
                Some(
                    LiveLifecycleCaseObservation::Reboot { boot_id_before, boot_id_after, .. },
                ) if reboot_boot_ids_are_valid(
                    boot_id_before.as_str(),
                    boot_id_after.as_str(),
                ) => Some(boot_id_after.as_str()),
                _ => if cases[i].passed() {
                    None
                } else {
                    Some("unverified-post-reboot")
                },
            };
        }
        i = i + 1;
    }
    None
}

/// The first readback of a fan.
pub open spec fn first_readback_of(
    readbacks: Seq<FanReadbackEvidence>,
    fan: EvidenceFan,
) -> Option<FanReadbackEvidence>
    decreases readbacks.len(),
{
    if readbacks.len() == 0 {
        None
    } else if readbacks[0].fan == fan {
        Some(readbacks[0])
    } else {
        first_readback_of(readbacks.drop_first(), fan)
    }
}

/// Whether the case at an index was recorded, gated and proved in its own boot.
pub open spec fn case_is_complete(
    record: RecordModel,
    index: int,
    expected: FanIdentities,
    boot_before: Seq<char>,
    boot_after: Seq<char>,
) -> bool {
    let case = approved_case(index);
    let entered = record.state_transitions[index * 2];
    let restored = record.state_transitions[index * 2 + 1];
    let cpu = record.readbacks[index * 2 + 2];
    let gpu = record.readbacks[index * 2 + 3];
    let result = record.live_lifecycle_cases->0[index];
    &&& entered.from@ == "firmware-auto"@
    &&& entered.to@ == case.name()
    &&& restored.from@ == case.name()
    &&& restored.to@ == "firmware-auto"@
    &&& text_option(entered.boot_id) == Some(boot_before)
    &&& cpu.timestamp.monotonic_millis < gpu.timestamp.monotonic_millis
    &&& if case == LiveLifecycleCase::Reboot {
        &&& text_option(restored.boot_id) == Some(boot_after)
        &&& gpu.timestamp.monotonic_millis < result.completed_at.monotonic_millis
        &&& result.completed_at.monotonic_millis < restored.timestamp.monotonic_millis
    } else {
        &&& text_option(restored.boot_id) == Some(boot_before)
        &&& result.completed_at.monotonic_millis < cpu.timestamp.monotonic_millis
        &&& gpu.timestamp.monotonic_millis < restored.timestamp.monotonic_millis
        &&& index * 2 + 2 < record.state_transitions.len()
            ==> restored.timestamp.monotonic_millis < record.state_transitions[index * 2
            + 2].timestamp.monotonic_millis
    }
    &&& result_fits_transitions(case, result, entered, restored, record)
    &&& result.observation matches Some(observation) && case_error(
        case,
        observation,
        result.started_at,
        result.completed_at,
        expected,
    ) is None
}

/// Whether the Auto readbacks before the case at an index confirm Firmware Auto in the first boot.
pub open spec fn early_gate_confirms(
    record: RecordModel,
    index: int,
    expected: FanIdentities,
    boot_id: Seq<char>,
) -> bool {
    gate_confirms_auto_in(
        record.readbacks[index * 2],
        record.readbacks[index * 2 + 1],
        expected,
        boot_id,
    )
}

/// Whether a record holds nothing that does not belong to the stage, and every approved case as
/// passed.
pub open spec fn lifecycle_shape_is_complete(record: RecordModel) -> bool {
    &&& record.schema_version == 2
    &&& record.stage == "live-lifecycle"@
    &&& record.workload is None
    &&& record.samples.len() == 0
    &&& record.commands.len() == 0
    &&& record.faults.len() == 0
    &&& record.restoration_attempts.len() == 0
    &&& record.calibration.len() == 0
    &&& record.thermal_summary is None
    &&& record.live_lifecycle_cases matches Some(cases) && cases.len() == 8 && forall|i: int|
        0 <= i < 8 ==> (#[trigger] cases[i]).case == approved_case(i) && cases[i].passed
            && cases[i].observation is Some
    &&& record.readbacks.len() == 20
    &&& record.state_transitions.len() == 16
}

/// Whether a record proves the complete live lifecycle.
pub open spec fn lifecycle_is_complete(record: RecordModel) -> bool {
    &&& lifecycle_shape_is_complete(record)
    &&& first_readback_of(record.readbacks, EvidenceFan::Cpu) matches Some(first_cpu)
        && first_readback_of(record.readbacks, EvidenceFan::Gpu) matches Some(first_gpu) && {
        let expected = (first_cpu.endpoint_identity@, first_gpu.endpoint_identity@);
        &&& distinct_identities(expected)
        &&& match record.live_lifecycle_cases->0[7].observation->0 {
            LiveLifecycleCaseObservation::Reboot {
                boot_id_before,
                boot_id_after,
                auto_before_arm: Some(arm),
                auto_after_arm: Some(terminal),
                ..
            } => {
                &&& forall|index: int|
                    0 <= index < 8 ==> #[trigger] early_gate_confirms(
                        record,
                        index,
                        expected,
                        boot_id_before@,
                    )
                &&& rebinds(arm, Some(expected))
                &&& pair_is_auto(arm)
                &&& gate_confirms_auto_in(
                    record.readbacks[16],
                    record.readbacks[17],
                    pair_identities(arm),
                    boot_id_after@,
                )
                &&& pair_identities(terminal) == pair_identities(arm)
                &&& gate_confirms_auto_in(
                    record.readbacks[18],
                    record.readbacks[19],
                    pair_identities(terminal),
                    boot_id_after@,
                )
                &&& record.readbacks[0].timestamp.monotonic_millis
                    < record.state_transitions[0].timestamp.monotonic_millis
                &&& record.readbacks[1].timestamp.monotonic_millis
                    < record.state_transitions[0].timestamp.monotonic_millis
                &&& forall|index: int|
                    0 <= index < 8 ==> #[trigger] case_is_complete(
                        record,
                        index,
                        expected,
                        boot_id_before@,
                        boot_id_after@,
                    )
            },
            _ => false,
        }
    }
}

fn first_identity<'a>(readbacks: &'a Vec<FanReadbackEvidence>, fan: EvidenceFan) -> (identity:
    Option<&'a str>)
    ensures
        match identity {
            Some(identity) => first_readback_of(readbacks@, fan) matches Some(first)
                && first.endpoint_identity@ == identity@,
            None => first_readback_of(readbacks@, fan) is None,
        },
{
    let mut i: usize = 0;
    assert(readbacks@.skip(0) =~= readbacks@);
    while i < readbacks.len()
        invariant
            i <= readbacks.len(),
            first_readback_of(readbacks@, fan) == first_readback_of(
                readbacks@.skip(i as int),
                fan,
            ),
        decreases readbacks.len() - i,
    {
        proof {
            let rest = readbacks@.skip(i as int);
            assert(rest[0] == readbacks@[i as int]);
            assert(rest.drop_first() =~= readbacks@.skip(i + 1));
        }
        if readbacks[i].fan == fan {
            return Some(readbacks[i].endpoint_identity.as_str());
        }
        i = i + 1;
    }
    None
}

fn complete_case(
    record: &EvidenceRecord,
    cases: &Vec<LiveLifecycleCaseResult>,
    index: usize,
    expected: &(String, String),
    boot_before: &str,
    boot_after: &str,
) -> (yes: bool)
    requires
        record.live_lifecycle_cases == Some(*cases),
        cases@.len() == 8,
        index < 8,
        record.readbacks@.len() == 20,
        record.state_transitions@.len() == 16,
    ensures
        yes == case_is_complete(
            record@,
            index as int,
            identities(*expected),
            boot_before@,
            boot_after@,
        ),
{
    let case = case_at(index);
    let entered = &record.state_transitions[index * 2];
    let restored = &record.state_transitions[index * 2 + 1];
    let cpu = &record.readbacks[index * 2 + 2];
    let gpu = &record.readbacks[index * 2 + 3];
    let result = &cases[index];
    assert(record@.live_lifecycle_cases->0[index as int] == result@);
    if !(same_text(entered.from.as_str(), "firmware-auto") && same_text(
        entered.to.as_str(),
        case.id(),
    ) && same_text(restored.from.as_str(), case.id()) && same_text(
        restored.to.as_str(),
        "firmware-auto",
    ) && is_text(&entered.boot_id, boot_before) && cpu.timestamp.monotonic_millis
        < gpu.timestamp.monotonic_millis) {
        return false;
    }
    if case == LiveLifecycleCase::Reboot {
        if !(is_text(&restored.boot_id, boot_after) && gpu.timestamp.monotonic_millis
            < result.completed_at().monotonic_millis && result.completed_at().monotonic_millis
            < restored.timestamp.monotonic_millis) {
            return false;
        }
    } else {
        if !(is_text(&restored.boot_id, boot_before) && result.completed_at().monotonic_millis
            < cpu.timestamp.monotonic_millis && gpu.timestamp.monotonic_millis
            < restored.timestamp.monotonic_millis) {
            return false;
        }
        if index * 2 + 2 < record.state_transitions.len() && restored.timestamp.monotonic_millis
            >= record.state_transitions[index * 2 + 2].timestamp.monotonic_millis {
            return false;
        }
    }
    if !case_result_fits_transition_window(case, result, entered, restored, record) {
        return false;
    }
    match result.observation() {
        None => false,
        Some(observation) => validate_case_observation(
            case,
            observation,
            result.started_at(),
            result.completed_at(),
            expected,
        ).is_ok(),
    }
}

fn lifecycle_shape_fits(record: &EvidenceRecord) -> (yes: bool)
    ensures
        yes == lifecycle_shape_is_complete(record@),
{
    if record.schema_version != EVIDENCE_SCHEMA_VERSION_V2 || !same_text(
        record.stage.as_str(),
        "live-lifecycle",
    ) || record.workload.is_some() || record.samples.len() != 0 || record.commands.len() != 0
        || record.faults.len() != 0 || record.restoration_attempts.len() != 0
        || record.calibration.len() != 0 || record.thermal_summary.is_some()
        || record.readbacks.len() != 20 || record.state_transitions.len() != 16 {
        return false;
    }
    match &record.live_lifecycle_cases {
        None => false,
        Some(cases) => {
            if cases.len() != 8 {
                return false;
            }
            let ghost models = record@.live_lifecycle_cases->0;
            let mut i: usize = 0;
            while i < 8
                invariant
                    i <= 8,
                    cases@.len() == 8,
                    models.len() == 8,
                    record.live_lifecycle_cases == Some(*cases),
                    models == record@.live_lifecycle_cases->0,
                    forall|k: int|
                        0 <= k < i ==> (#[trigger] models[k]).case == approved_case(k)
                            && models[k].passed && models[k].observation is Some,
                decreases 8 - i,
            {
                assert(models[i as int] == cases@[i as int]@);
                if cases[i].case() != case_at(i) || !cases[i].passed()
                    || cases[i].observation().is_none() {
                    return false;
                }
                i = i + 1;
            }
            true
        },
    }
}

fn early_gates_confirm(
    record: &EvidenceRecord,
    expected: &(String, String),
    boot_id: &str,
) -> (yes: bool)
    requires
        record.readbacks@.len() == 20,
    ensures
        yes == forall|index: int|
            0 <= index < 8 ==> #[trigger] early_gate_confirms(
                record@,
                index,
                identities(*expected),
                boot_id@,
            ),
{
    let mut index: usize = 0;
    while index < 8
        invariant
            index <= 8,
            record.readbacks@.len() == 20,
            forall|k: int|
                0 <= k < index ==> #[trigger] early_gate_confirms(
                    record@,
                    k,
                    identities(*expected),
                    boot_id@,
                ),
        decreases 8 - index,
    {
        if !readback_pair_confirms_auto(
            &record.readbacks[index * 2],
            &record.readbacks[index * 2 + 1],
            expected,
            boot_id,
        ) {
            assert(!early_gate_confirms(record@, index as int, identities(*expected), boot_id@));
            return false;
        }
        index = index + 1;
    }
    true
}

fn every_case_is_complete(
    record: &EvidenceRecord,
    cases: &Vec<LiveLifecycleCaseResult>,
    expected: &(String, String),
    boot_before: &str,
    boot_after: &str,
) -> (yes: bool)
    requires
        record.live_lifecycle_cases == Some(*cases),
        cases@.len() == 8,
        record.readbacks@.len() == 20,
        record.state_transitions@.len() == 16,
    ensures
        yes == forall|index: int|
            0 <= index < 8 ==> #[trigger] case_is_complete(
                record@,
                index,
                identities(*expected),
                boot_before@,
                boot_after@,
            ),
{
    let mut index: usize = 0;
    while index < 8
        invariant
            index <= 8,
            record.live_lifecycle_cases == Some(*cases),
            cases@.len() == 8,
            record.readbacks@.len() == 20,
            record.state_transitions@.len() == 16,
            forall|k: int|
                0 <= k < index ==> #[trigger] case_is_complete(
                    record@,
                    k,
                    identities(*expected),
                    boot_before@,
                    boot_after@,
                ),
        decreases 8 - index,
    {
        if !complete_case(record, cases, index, expected, boot_before, boot_after) {
            return false;
        }
        index = index + 1;
    }
    true
}

/// Decides [`lifecycle_is_complete`].
pub fn live_lifecycle_is_complete(record: &EvidenceRecord) -> (yes: bool)
    ensures
        yes == lifecycle_is_complete(record@),
{
    if !lifecycle_shape_fits(record) {
        return false;
    }
    let cases = match &record.live_lifecycle_cases {
        Some(cases) => cases,
        None => {
            return false;
        },
    };
    let (cpu_identity, gpu_identity) = match (
        first_identity(&record.readbacks, EvidenceFan::Cpu),
        first_identity(&record.readbacks, EvidenceFan::Gpu),
    ) {
        (Some(cpu), Some(gpu)) => (cpu, gpu),
        _ => {
            return false;
        },
    };
    if !identities_are_distinct(cpu_identity, gpu_identity) {
        return false;
    }
    let expected = (cpu_identity.to_owned(), gpu_identity.to_owned());
    assert(record@.live_lifecycle_cases->0[7] == cases@[7]@);
    match cases[7].observation() {
        Some(
            LiveLifecycleCaseObservation::Reboot {
                boot_id_before,
                boot_id_after,
                auto_before_arm: Some(arm),
                auto_after_arm: Some(terminal),
                ..
            },
        ) => {
            if !early_gates_confirm(record, &expected, boot_id_before.as_str()) {
                return false;
            }
            if !pair_rebinds(arm, Some(&expected)) || !both_are_auto(arm) {
                return false;
            }
            let rebound = (arm.cpu.endpoint_identity.clone(), arm.gpu.endpoint_identity.clone());
            if !readback_pair_confirms_auto(
                &record.readbacks[16],
                &record.readbacks[17],
                &rebound,
                boot_id_after.as_str(),
            ) || !same_text(terminal.cpu.endpoint_identity.as_str(), rebound.0.as_str())
                || !same_text(terminal.gpu.endpoint_identity.as_str(), rebound.1.as_str())
                || !readback_pair_confirms_auto(
                &record.readbacks[18],
                &record.readbacks[19],
                &rebound,
                boot_id_after.as_str(),
            ) {
                return false;
            }
            let entered: u64 = record.state_transitions[0].timestamp.monotonic_millis;
            if record.readbacks[0].timestamp.monotonic_millis >= entered
                || record.readbacks[1].timestamp.monotonic_millis >= entered {
                return false;
            }
            every_case_is_complete(
                record,
                cases,
                &expected,
                boot_id_before.as_str(),
                boot_id_after.as_str(),
            )
        },
        _ => false,
    }
}

} // verus!
