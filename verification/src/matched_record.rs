//! The shape of a complete matched Custom-control workload record.

use vstd::prelude::*;
use crate::baseline_record::{
    baseline_conditions_are_safe, baseline_sample_is_complete, lemma_kept_grows, on_cadence,
    phase_is, samples_follow_cadence, workload_conditions_are_safe,
};
use crate::evidence::{
    EvidenceFan, EvidenceRecord, EvidenceTimestamp, FanCommandEvidence, FanControlField,
    FanReadbackEvidence, FanReadbackField, FanReadbackPhase, ObservationOutcome, RecordModel,
    RestorationAttemptEvidence, RestorationOutcome, RunOutcomeStatus, StateTransitionEvidence,
    EVIDENCE_SCHEMA_VERSION_V2,
};
use crate::final_state::attempts_on;
use crate::select::{kept, lemma_kept_ends, lemma_kept_step};
use crate::text::same_text;
use crate::thermal::{stable_summary, summary_matches, FinalSlopes};

verus! {

broadcast use vstd::string::group_string_axioms;

pub const MINIMUM_MATCHED_WORKLOAD_SAMPLES: usize = 151;

/// Whether a moment belongs to a sample: at most a tenth of a second after it.
pub open spec fn within_sample(at: EvidenceTimestamp, sample_at: EvidenceTimestamp) -> bool {
    0 <= at.monotonic_millis - sample_at.monotonic_millis <= 100
}

/// Duty commands to a fan that belong to a sample.
pub open spec fn sample_commands(fan: EvidenceFan, sample_at: EvidenceTimestamp) -> spec_fn(
    FanCommandEvidence,
) -> bool {
    |command: FanCommandEvidence|
        command.fan == fan && command.field == FanControlField::Pwm && within_sample(
            command.timestamp,
            sample_at,
        )
}

/// Readbacks of a fan's field that belong to a sample.
pub open spec fn sample_readbacks(
    fan: EvidenceFan,
    field: FanReadbackField,
    sample_at: EvidenceTimestamp,
) -> spec_fn(FanReadbackEvidence) -> bool {
    |readback: FanReadbackEvidence|
        readback.fan == fan && readback.field == field && readback.phase == Some(
            FanReadbackPhase::Sample,
        ) && within_sample(readback.timestamp, sample_at)
}

/// Final readbacks of a fan's enable endpoint.
pub open spec fn final_readbacks(fan: EvidenceFan) -> spec_fn(FanReadbackEvidence) -> bool {
    |readback: FanReadbackEvidence|
        readback.fan == fan && readback.field == FanReadbackField::Enable && readback.phase == Some(
            FanReadbackPhase::Final,
        )
}

/// The only entry that a condition keeps.
pub open spec fn only<T>(entries: Seq<T>, keep: spec_fn(T) -> bool) -> Option<T> {
    let matching = kept(entries, keep);
    if matching.len() == 1 {
        Some(matching[0])
    } else {
        None
    }
}

/// The only duty command of a fan in a sample.
pub open spec fn command_at(record: RecordModel, fan: EvidenceFan, index: int) -> Option<
    FanCommandEvidence,
> {
    only(record.commands, sample_commands(fan, record.samples[index].timestamp))
}

/// The only readback of a fan's field in a sample.
pub open spec fn readback_at(
    record: RecordModel,
    fan: EvidenceFan,
    field: FanReadbackField,
    index: int,
) -> Option<FanReadbackEvidence> {
    only(record.readbacks, sample_readbacks(fan, field, record.samples[index].timestamp))
}

/// Whether a readback confirms what its field must show under a command.
pub open spec fn confirms_command(readback: FanReadbackEvidence, command: FanCommandEvidence) -> bool {
    &&& readback.outcome == ObservationOutcome::Confirmed
    &&& match readback.field {
        FanReadbackField::Enable => readback.value == Some(1u32),
        FanReadbackField::Pwm => readback.value == Some(command.value),
        FanReadbackField::Rpm => readback.value != Some(0u32),
    }
}

/// Whether a field's only readback in a sample confirms the command, from the endpoint that the
/// first sample was read from.
pub open spec fn field_is_confirmed(
    record: RecordModel,
    fan: EvidenceFan,
    field: FanReadbackField,
    index: int,
) -> bool {
    readback_at(record, fan, field, index) matches Some(readback) && readback_at(
        record,
        fan,
        field,
        0,
    ) matches Some(first) && command_at(record, fan, index) matches Some(command)
        && confirms_command(readback, command) && readback.endpoint_identity@
        == first.endpoint_identity@
}

/// Whether a sample's command and readbacks of a fan are complete.
pub open spec fn sample_is_confirmed(record: RecordModel, fan: EvidenceFan, index: int) -> bool {
    &&& field_is_confirmed(record, fan, FanReadbackField::Enable, index)
    &&& field_is_confirmed(record, fan, FanReadbackField::Pwm, index)
    &&& field_is_confirmed(record, fan, FanReadbackField::Rpm, index)
}

/// Whether a fan's command and readback evidence is complete, down to its restoration.
pub open spec fn fan_evidence_is_complete(record: RecordModel, fan: EvidenceFan) -> bool {
    &&& record.samples.len() > 0
    &&& forall|i: int|
        0 <= i < record.samples.len() ==> #[trigger] sample_is_confirmed(record, fan, i)
    &&& only(record.readbacks, final_readbacks(fan)) matches Some(readback) && only(
        record.restoration_attempts,
        attempts_on(fan),
    ) matches Some(attempt) && readback_at(record, fan, FanReadbackField::Enable, 0) matches Some(
        first,
    ) && {
        &&& readback.value == Some(2u32)
        &&& readback.outcome == ObservationOutcome::Confirmed
        &&& readback.endpoint_identity@ == first.endpoint_identity@
        &&& attempt.timestamp == readback.timestamp
        &&& attempt.auto_write_succeeded
        &&& attempt.enable_readback == Some(2u32)
        &&& attempt.outcome == RestorationOutcome::FirmwareAutoConfirmed
    }
}

/// Whether a record holds one command and three readbacks per fan and sample, and one final
/// readback per fan.
pub open spec fn control_evidence_is_complete(record: RecordModel) -> bool {
    &&& record.commands.len() == record.samples.len() * 2
    &&& record.readbacks.len() == record.samples.len() * 6 + 2
    &&& fan_evidence_is_complete(record, EvidenceFan::Cpu)
    &&& fan_evidence_is_complete(record, EvidenceFan::Gpu)
}

/// Whether a record's two transitions lead into Custom control and back.
pub open spec fn transitions_are_complete(
    transitions: Seq<StateTransitionEvidence>,
    captured: EvidenceTimestamp,
    started: EvidenceTimestamp,
) -> bool {
    &&& transitions.len() == 2
    &&& transitions[0].from@ == "firmware-auto"@
    &&& transitions[0].to@ == "custom-control"@
    &&& transitions[1].from@ == "custom-control"@
    &&& transitions[1].to@ == "firmware-auto"@
    &&& captured.monotonic_millis <= transitions[0].timestamp.monotonic_millis
    &&& transitions[0].timestamp.monotonic_millis <= started.monotonic_millis
    &&& transitions[1].timestamp.monotonic_millis >= started.monotonic_millis
}

/// Whether a record proves a complete matched workload.
///
/// Such a record holds two calibrations, one for each fan, as the rules on valid evidence ask: the
/// speeds it reports were judged by them. A record of this stage without calibrations is neither
/// valid nor complete.
pub open spec fn matched_is_complete(record: RecordModel, slopes: FinalSlopes) -> bool {
    &&& record.workload matches Some(workload) && record.workload_started_at matches Some(started)
        && record.starting_conditions_captured_at matches Some(captured) && {
        &&& baseline_conditions_are_safe(workload)
        &&& record.samples.len() >= 151
        &&& forall|i: int|
            0 <= i < record.samples.len() ==> baseline_sample_is_complete(
                #[trigger] record.samples[i],
                workload.power_profile,
            )
        &&& on_cadence(started, record.samples[0].timestamp)
        &&& forall|i: int|
            0 <= i < record.samples.len() - 1 ==> on_cadence(
                record.samples[i].timestamp,
                (#[trigger] record.samples[i + 1]).timestamp,
            )
        &&& record.started_at.monotonic_millis <= captured.monotonic_millis
            <= started.monotonic_millis
        &&& transitions_are_complete(record.state_transitions, captured, started)
    }
    &&& record.schema_version == 2
    &&& record.stage == "matched-workload"@
    &&& record.outcome.status == RunOutcomeStatus::Passed
    &&& record.outcome.final_firmware_auto_confirmed
    &&& control_evidence_is_complete(record)
    &&& record.thermal_summary == Some(stable_summary(record.samples, slopes))
    &&& record.faults.len() == 0
    &&& record.calibration.len() == 2
}

pub(crate) fn timestamp_within_sample(at: EvidenceTimestamp, sample_at: EvidenceTimestamp) -> (yes:
    bool)
    ensures
        yes == within_sample(at, sample_at),
{
    at.monotonic_millis >= sample_at.monotonic_millis && at.monotonic_millis
        - sample_at.monotonic_millis <= 100
}

/// The index of the only duty command of a fan in a sample.
pub(crate) fn unique_command(
    commands: &Vec<FanCommandEvidence>,
    fan: EvidenceFan,
    sample_at: EvidenceTimestamp,
) -> (found: Option<usize>)
    ensures
        found matches Some(b) ==> b < commands@.len(),
        only(commands@, sample_commands(fan, sample_at)) == match found {
            Some(b) => Some(commands@[b as int]),
            None => None,
        },
{
    let ghost keep = sample_commands(fan, sample_at);
    let mut found: Option<usize> = None;
    let mut i: usize = 0;
    proof {
        lemma_kept_ends(commands@, keep);
    }
    while i < commands.len()
        invariant
            i <= commands.len(),
            keep == sample_commands(fan, sample_at),
            found matches Some(b) ==> b < i && kept(commands@.take(i as int), keep)
                == seq![commands@[b as int]],
            found is None ==> kept(commands@.take(i as int), keep).len() == 0,
        decreases commands.len() - i,
    {
        proof {
            lemma_kept_step(commands@, keep, i as int);
        }
        if commands[i].fan == fan && commands[i].field == FanControlField::Pwm
            && timestamp_within_sample(commands[i].timestamp, sample_at) {
            assert(keep(commands@[i as int]));
            if found.is_some() {
                proof {
                    lemma_kept_grows(commands@, keep, i + 1);
                }
                return None;
            }
            found = Some(i);
            assert(kept(commands@.take(i + 1), keep) =~= seq![commands@[i as int]]);
        } else {
            assert(!keep(commands@[i as int]));
        }
        i = i + 1;
    }
    proof {
        lemma_kept_ends(commands@, keep);
    }
    found
}

/// The index of the only readback of a fan's field in a sample.
pub(crate) fn unique_readback(
    readbacks: &Vec<FanReadbackEvidence>,
    fan: EvidenceFan,
    field: FanReadbackField,
    sample_at: EvidenceTimestamp,
) -> (found: Option<usize>)
    ensures
        found matches Some(b) ==> b < readbacks@.len() && readbacks@[b as int].field == field,
        only(readbacks@, sample_readbacks(fan, field, sample_at)) == match found {
            Some(b) => Some(readbacks@[b as int]),
            None => None,
        },
{
    let ghost keep = sample_readbacks(fan, field, sample_at);
    let mut found: Option<usize> = None;
    let mut i: usize = 0;
    proof {
        lemma_kept_ends(readbacks@, keep);
    }
    while i < readbacks.len()
        invariant
            i <= readbacks.len(),
            keep == sample_readbacks(fan, field, sample_at),
            found matches Some(b) ==> b < i && readbacks@[b as int].field == field && kept(
                readbacks@.take(i as int),
                keep,
            ) == seq![readbacks@[b as int]],
            found is None ==> kept(readbacks@.take(i as int), keep).len() == 0,
        decreases readbacks.len() - i,
    {
        proof {
            lemma_kept_step(readbacks@, keep, i as int);
        }
        if readbacks[i].fan == fan && readbacks[i].field == field && phase_is(
            readbacks[i].phase,
            FanReadbackPhase::Sample,
        ) && timestamp_within_sample(readbacks[i].timestamp, sample_at) {
            assert(keep(readbacks@[i as int]));
            if found.is_some() {
                proof {
                    lemma_kept_grows(readbacks@, keep, i + 1);
                }
                return None;
            }
            found = Some(i);
            assert(kept(readbacks@.take(i + 1), keep) =~= seq![readbacks@[i as int]]);
        } else {
            assert(!keep(readbacks@[i as int]));
        }
        i = i + 1;
    }
    proof {
        lemma_kept_ends(readbacks@, keep);
    }
    found
}

fn unique_final_readback(readbacks: &Vec<FanReadbackEvidence>, fan: EvidenceFan) -> (found: Option<
    usize,
>)
    ensures
        found matches Some(b) ==> b < readbacks@.len(),
        only(readbacks@, final_readbacks(fan)) == match found {
            Some(b) => Some(readbacks@[b as int]),
            None => None,
        },
{
    let ghost keep = final_readbacks(fan);
    let mut found: Option<usize> = None;
    let mut i: usize = 0;
    proof {
        lemma_kept_ends(readbacks@, keep);
    }
    while i < readbacks.len()
        invariant
            i <= readbacks.len(),
            keep == final_readbacks(fan),
            found matches Some(b) ==> b < i && kept(readbacks@.take(i as int), keep)
                == seq![readbacks@[b as int]],
            found is None ==> kept(readbacks@.take(i as int), keep).len() == 0,
        decreases readbacks.len() - i,
    {
        proof {
            lemma_kept_step(readbacks@, keep, i as int);
        }
        if readbacks[i].fan == fan && readbacks[i].field == FanReadbackField::Enable && phase_is(
            readbacks[i].phase,
            FanReadbackPhase::Final,
        ) {
            assert(keep(readbacks@[i as int]));
            if found.is_some() {
                proof {
                    lemma_kept_grows(readbacks@, keep, i + 1);
                }
                return None;
            }
            found = Some(i);
            assert(kept(readbacks@.take(i + 1), keep) =~= seq![readbacks@[i as int]]);
        } else {
            assert(!keep(readbacks@[i as int]));
        }
        i = i + 1;
    }
    proof {
        lemma_kept_ends(readbacks@, keep);
    }
    found
}

fn unique_attempt(attempts: &Vec<RestorationAttemptEvidence>, fan: EvidenceFan) -> (found: Option<
    usize,
>)
    ensures
        found matches Some(b) ==> b < attempts@.len(),
        only(attempts@, attempts_on(fan)) == match found {
            Some(b) => Some(attempts@[b as int]),
            None => None,
        },
{
    let ghost keep = attempts_on(fan);
    let mut found: Option<usize> = None;
    let mut i: usize = 0;
    proof {
        lemma_kept_ends(attempts@, keep);
    }
    while i < attempts.len()
        invariant
            i <= attempts.len(),
            keep == attempts_on(fan),
            found matches Some(b) ==> b < i && kept(attempts@.take(i as int), keep)
                == seq![attempts@[b as int]],
            found is None ==> kept(attempts@.take(i as int), keep).len() == 0,
        decreases attempts.len() - i,
    {
        proof {
            lemma_kept_step(attempts@, keep, i as int);
        }
        if attempts[i].fan == fan {
            assert(keep(attempts@[i as int]));
            if found.is_some() {
                proof {
                    lemma_kept_grows(attempts@, keep, i + 1);
                }
                return None;
            }
            found = Some(i);
            assert(kept(attempts@.take(i + 1), keep) =~= seq![attempts@[i as int]]);
        } else {
            assert(!keep(attempts@[i as int]));
        }
        i = i + 1;
    }
    proof {
        lemma_kept_ends(attempts@, keep);
    }
    found
}

pub(crate) fn option_is(value: Option<u32>, expected: u32) -> (yes: bool)
    ensures
        yes == (value == Some(expected)),
{
    match value {
        Some(value) => value == expected,
        None => false,
    }
}

fn confirms_field(
    record: &EvidenceRecord,
    fan: EvidenceFan,
    field: FanReadbackField,
    index: usize,
) -> (yes: bool)
    requires
        index < record@.samples.len(),
    ensures
        yes == field_is_confirmed(record@, fan, field, index as int),
{
    let at = record.samples[index].timestamp;
    let (readback, first, command) = match (
        unique_readback(&record.readbacks, fan, field, at),
        unique_readback(&record.readbacks, fan, field, record.samples[0].timestamp),
        unique_command(&record.commands, fan, at),
    ) {
        (Some(readback), Some(first), Some(command)) => (
            &record.readbacks[readback],
            &record.readbacks[first],
            &record.commands[command],
        ),
        _ => {
            return false;
        },
    };
    let value_is_expected = match field {
        FanReadbackField::Enable => option_is(readback.value, 1),
        FanReadbackField::Pwm => option_is(readback.value, command.value),
        FanReadbackField::Rpm => !option_is(readback.value, 0),
    };
    readback.outcome == ObservationOutcome::Confirmed && value_is_expected && same_text(
        readback.endpoint_identity.as_str(),
        first.endpoint_identity.as_str(),
    )
}

fn every_sample_is_confirmed(record: &EvidenceRecord, fan: EvidenceFan) -> (yes: bool)
    ensures
        yes == forall|i: int|
            0 <= i < record@.samples.len() ==> #[trigger] sample_is_confirmed(record@, fan, i),
{
    let mut i: usize = 0;
    while i < record.samples.len()
        invariant
            i <= record.samples.len(),
            forall|k: int| 0 <= k < i ==> #[trigger] sample_is_confirmed(record@, fan, k),
        decreases record.samples.len() - i,
    {
        if !(confirms_field(record, fan, FanReadbackField::Enable, i) && confirms_field(
            record,
            fan,
            FanReadbackField::Pwm,
            i,
        ) && confirms_field(record, fan, FanReadbackField::Rpm, i)) {
            assert(!sample_is_confirmed(record@, fan, i as int));
            return false;
        }
        i = i + 1;
    }
    true
}

/// Decides [`fan_evidence_is_complete`].
fn matched_fan_evidence_is_complete(record: &EvidenceRecord, fan: EvidenceFan) -> (yes: bool)
    ensures
        yes == fan_evidence_is_complete(record@, fan),
{
    if record.samples.len() == 0 || !every_sample_is_confirmed(record, fan) {
        return false;
    }
    let (readback, attempt, first) = match (
        unique_final_readback(&record.readbacks, fan),
        unique_attempt(&record.restoration_attempts, fan),
        unique_readback(
            &record.readbacks,
            fan,
            FanReadbackField::Enable,
            record.samples[0].timestamp,
        ),
    ) {
        (Some(readback), Some(attempt), Some(first)) => (
            &record.readbacks[readback],
            &record.restoration_attempts[attempt],
            &record.readbacks[first],
        ),
        _ => {
            return false;
        },
    };
    option_is(readback.value, 2) && readback.outcome == ObservationOutcome::Confirmed && same_text(
        readback.endpoint_identity.as_str(),
        first.endpoint_identity.as_str(),
    ) && attempt.timestamp == readback.timestamp && attempt.auto_write_succeeded && option_is(
        attempt.enable_readback,
        2,
    ) && attempt.outcome == RestorationOutcome::FirmwareAutoConfirmed
}

/// Decides [`control_evidence_is_complete`].
pub fn matched_control_evidence_is_complete(record: &EvidenceRecord) -> (yes: bool)
    ensures
        yes == control_evidence_is_complete(record@),
{
    let count: u128 = record.samples.len() as u128;
    record.commands.len() as u128 == count * 2 && record.readbacks.len() as u128 == count * 6 + 2
        && matched_fan_evidence_is_complete(record, EvidenceFan::Cpu)
        && matched_fan_evidence_is_complete(record, EvidenceFan::Gpu)
}

fn transitions_fit(
    transitions: &Vec<StateTransitionEvidence>,
    captured: EvidenceTimestamp,
    started: EvidenceTimestamp,
) -> (yes: bool)
    ensures
        yes == transitions_are_complete(transitions@, captured, started),
{
    transitions.len() == 2 && same_text(transitions[0].from.as_str(), "firmware-auto") && same_text(
        transitions[0].to.as_str(),
        "custom-control",
    ) && same_text(transitions[1].from.as_str(), "custom-control") && same_text(
        transitions[1].to.as_str(),
        "firmware-auto",
    ) && captured.monotonic_millis <= transitions[0].timestamp.monotonic_millis
        && transitions[0].timestamp.monotonic_millis <= started.monotonic_millis
        && transitions[1].timestamp.monotonic_millis >= started.monotonic_millis
}

/// Decides [`matched_is_complete`].
pub fn matched_workload_is_complete(record: &EvidenceRecord, slopes: FinalSlopes) -> (yes: bool)
    ensures
        yes == matched_is_complete(record@, slopes),
{
    let workload = match &record.workload {
        Some(workload) => workload,
        None => {
            return false;
        },
    };
    let started = match record.workload_started_at {
        Some(started) => started,
        None => {
            return false;
        },
    };
    let captured = match record.starting_conditions_captured_at {
        Some(captured) => captured,
        None => {
            return false;
        },
    };
    let summary_is_derived = match &record.thermal_summary {
        Some(summary) => summary_matches(summary, &record.samples, slopes),
        None => false,
    };
    summary_is_derived && record.schema_version == EVIDENCE_SCHEMA_VERSION_V2 && same_text(
        record.stage.as_str(),
        "matched-workload",
    ) && record.outcome.status == RunOutcomeStatus::Passed
        && record.outcome.final_firmware_auto_confirmed && record.started_at.monotonic_millis
        <= captured.monotonic_millis && captured.monotonic_millis <= started.monotonic_millis
        && workload_conditions_are_safe(workload) && record.samples.len()
        >= MINIMUM_MATCHED_WORKLOAD_SAMPLES && samples_follow_cadence(
        &record.samples,
        workload.power_profile,
        started,
    ) && matched_control_evidence_is_complete(record) && transitions_fit(
        &record.state_transitions,
        captured,
        started,
    ) && record.faults.len() == 0 && record.calibration.len() == 2
}

} // verus!
