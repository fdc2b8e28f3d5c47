//! The rules that make a record valid evidence.

use vstd::prelude::*;
use vstd::string::*;
use crate::baseline_record::{baseline_is_complete, firmware_auto_baseline_is_complete};
use crate::calibration::{
    allowed_floor, anchor_duties, calibration_response_deadline,
    canonical_calibration_anchor_duties, is_allowed_calibration_floor, response_deadline,
    CalibrationCheckpoint, CalibrationCheckpointEvent, CheckpointModel, EventModel,
};
use crate::calibration_record::{calibration_is_complete, fan_calibration_is_complete};
use crate::calibration_session::{replay, resumed};
use crate::compatibility::{declaration_error, validate_declaration};
use crate::endurance_record::{endurance_is_complete, supervised_endurance_is_complete};
use crate::evidence::{
    EnvelopeModel, EvidenceFan, EvidenceRecord, EvidenceTimestamp, EvidenceValidationError,
    FanCalibrationEvidence, FanCalibrationModel, FanCommandEvidence, FanControlField,
    FanReadbackEvidence, FanReadbackField, ObservationOutcome, QualificationEnvelopeIdentityV1,
    RecordModel, RestorationOutcome, RunOutcomeStatus, SampleFreshness, WorkloadEvidence,
    WorkloadModel, EVIDENCE_SCHEMA_VERSION, EVIDENCE_SCHEMA_VERSION_V2,
};
use crate::final_state::{
    fan_has_commands, fan_is_commanded, final_attempt, final_attempt_is_auto,
    final_enable_readback_confirms_auto, final_readback_is_auto,
    final_restoration_attempt_after_command, final_restoration_confirms_auto,
    final_state_confirms_auto, final_state_follows, final_state_follows_restoration,
    final_state_is_auto,
};
use crate::lifecycle::{identity_has_nonblank_character, shows_something};
use crate::lifecycle_record::{
    lifecycle_cases_are_well_formed, lifecycle_is_complete, live_lifecycle_cases_are_well_formed,
    live_lifecycle_is_complete, post_reboot_boot, post_reboot_boot_id,
};
use crate::matched_record::{matched_is_complete, matched_workload_is_complete};
use crate::tachometer::{plausible_rpm, rpm_is_plausible, Fan};
use crate::text::{
    identifier, is_blank, is_identifier, is_lower_hex, lower_hex, same_text, text_option, trimmed,
};
use crate::thermal::FinalSlopes;

verus! {

broadcast use vstd::string::group_string_axioms;

/// The first of two errors.
pub open spec fn otherwise(
    first: Option<EvidenceValidationError>,
    second: Option<EvidenceValidationError>,
) -> Option<EvidenceValidationError> {
    match first {
        Some(error) => Some(error),
        None => second,
    }
}

/// An error as a result.
pub open spec fn verdict(error: Option<EvidenceValidationError>) -> Result<
    (),
    EvidenceValidationError,
> {
    match error {
        Some(error) => Err(error),
        None => Ok(()),
    }
}

/// An invalid value.
pub open spec fn invalid_value(field: &'static str, index: int) -> Option<EvidenceValidationError> {
    Some(EvidenceValidationError::InvalidValue { field, index: index as usize })
}

/// The error of the first entry that has one, among the first `count`.
pub open spec fn first_error(
    check: spec_fn(int) -> Option<EvidenceValidationError>,
    count: nat,
) -> Option<EvidenceValidationError>
    decreases count,
{
    if count == 0 {
        None
    } else {
        otherwise(first_error(check, (count - 1) as nat), check(count - 1))
    }
}

/// The first error stays the first however many entries follow.
pub(crate) proof fn lemma_first_error_stays(
    check: spec_fn(int) -> Option<EvidenceValidationError>,
    count: nat,
    total: nat,
)
    requires
        count <= total,
        first_error(check, count) is Some,
    ensures
        first_error(check, total) == first_error(check, count),
    decreases total,
{
    if count < total {
        lemma_first_error_stays(check, count, (total - 1) as nat);
    }
}

/// What is wrong with a qualification identity.
pub open spec fn identity_error(envelope: EnvelopeModel) -> Option<EvidenceValidationError> {
    if envelope.schema_version != 1 {
        Some(
            EvidenceValidationError::InvalidIdentity {
                field: "qualification_record_schema_version",
            },
        )
    } else if !identifier(envelope.qualification_id) {
        Some(EvidenceValidationError::InvalidIdentity { field: "qualification_id" })
    } else if !identifier(envelope.policy_version) {
        Some(EvidenceValidationError::InvalidIdentity { field: "policy_version" })
    } else if !lower_hex(envelope.protected_policy_sha256, 64) {
        Some(EvidenceValidationError::InvalidIdentity { field: "protected_policy_sha256" })
    } else if declaration_error(envelope.compatibility) is Some {
        Some(EvidenceValidationError::InvalidIdentity { field: "compatibility" })
    } else {
        None
    }
}

/// Finds what is wrong with a qualification identity.
pub fn validate_identity(identity: &QualificationEnvelopeIdentityV1) -> (result: Result<
    (),
    EvidenceValidationError,
>)
    ensures
        result == verdict(identity_error(identity@)),
{
    if identity.qualification_record_schema_version != 1 {
        return Err(
            EvidenceValidationError::InvalidIdentity {
                field: "qualification_record_schema_version",
            },
        );
    }
    if !is_identifier(identity.qualification_id.as_str()) {
        return Err(EvidenceValidationError::InvalidIdentity { field: "qualification_id" });
    }
    if !is_identifier(identity.policy_version.as_str()) {
        return Err(EvidenceValidationError::InvalidIdentity { field: "policy_version" });
    }
    if !is_lower_hex(identity.protected_policy_sha256.as_str(), 64) {
        return Err(EvidenceValidationError::InvalidIdentity { field: "protected_policy_sha256" });
    }
    match validate_declaration(&identity.compatibility) {
        Ok(()) => Ok(()),
        Err(_) => Err(EvidenceValidationError::InvalidIdentity { field: "compatibility" }),
    }
}

/// What is wrong with a workload description.
pub open spec fn workload_error(workload: WorkloadModel) -> Option<EvidenceValidationError> {
    if !identifier(workload.workload_id) {
        Some(EvidenceValidationError::InvalidWorkload { field: "workload_id" })
    } else if workload.command.len() == 0 || exists|i: int|
        0 <= i < workload.command.len() && (#[trigger] workload.command[i]).len() == 0 {
        Some(EvidenceValidationError::InvalidWorkload { field: "command" })
    } else if !identifier(workload.version) {
        Some(EvidenceValidationError::InvalidWorkload { field: "version" })
    } else {
        None
    }
}

/// Finds what is wrong with a workload description.
pub fn validate_workload(workload: &WorkloadEvidence) -> (result: Result<
    (),
    EvidenceValidationError,
>)
    ensures
        result == verdict(workload_error(workload@)),
{
    if !is_identifier(workload.workload_id.as_str()) {
        return Err(EvidenceValidationError::InvalidWorkload { field: "workload_id" });
    }
    assert(workload@.command.len() == workload.command@.len());
    if workload.command.len() == 0 {
        return Err(EvidenceValidationError::InvalidWorkload { field: "command" });
    }
    let mut i: usize = 0;
    while i < workload.command.len()
        invariant
            i <= workload.command.len(),
            identifier(workload@.workload_id),
            workload@.command.len() == workload.command@.len(),
            forall|k: int| 0 <= k < i ==> (#[trigger] workload@.command[k]).len() != 0,
        decreases workload.command.len() - i,
    {
        assert(workload@.command[i as int] == workload.command@[i as int]@);
        if workload.command[i].as_str().is_empty() {
            assert(workload@.command[i as int].len() == 0);
            return Err(EvidenceValidationError::InvalidWorkload { field: "command" });
        }
        i = i + 1;
    }
    if !is_identifier(workload.version.as_str()) {
        return Err(EvidenceValidationError::InvalidWorkload { field: "version" });
    }
    Ok(())
}

/// Whether a readback uses a field that the first schema does not have.
pub open spec fn readback_is_extended(readback: FanReadbackEvidence) -> bool {
    readback.phase is Some || readback.source_timestamp is Some || readback.fresh is Some
        || readback.boot_id is Some
}

/// A field that the first schema does not have.
pub open spec fn incompatible(field: &'static str) -> Option<EvidenceValidationError> {
    Some(EvidenceValidationError::IncompatibleSchemaField { field })
}

/// The first field of a record that the first schema does not have.
pub open spec fn first_schema_error(record: RecordModel) -> Option<EvidenceValidationError> {
    if record.starting_conditions_captured_at is Some {
        incompatible("starting_conditions_captured_at")
    } else if record.workload_started_at is Some {
        incompatible("workload_started_at")
    } else if record.baseline_binding_sha256 is Some {
        incompatible("baseline_binding_sha256")
    } else if record.live_lifecycle_cases is Some {
        incompatible("live_lifecycle_cases")
    } else if exists|i: int|
        0 <= i < record.readbacks.len() && readback_is_extended(#[trigger] record.readbacks[i]) {
        incompatible("readbacks.v2_fields")
    } else if exists|i: int|
        0 <= i < record.state_transitions.len() && (
        #[trigger] record.state_transitions[i]).boot_id is Some {
        incompatible("state_transitions.boot_id")
    } else if exists|i: int|
        0 <= i < record.faults.len() && (#[trigger] record.faults[i]).boot_id is Some {
        incompatible("faults.boot_id")
    } else if record.thermal_summary matches Some(summary) && summary.system_stable is Some {
        incompatible("thermal_summary.system_stable")
    } else {
        None
    }
}

/// What is wrong with a record's schema version.
pub open spec fn schema_error(record: RecordModel) -> Option<EvidenceValidationError> {
    if record.schema_version == 1 {
        first_schema_error(record)
    } else if record.schema_version == 2 {
        None
    } else {
        Some(EvidenceValidationError::UnsupportedSchemaVersion)
    }
}

fn any_readback_is_extended(record: &EvidenceRecord) -> (yes: bool)
    ensures
        yes == exists|i: int|
            0 <= i < record@.readbacks.len() && readback_is_extended(
                #[trigger] record@.readbacks[i],
            ),
{
    let mut i: usize = 0;
    while i < record.readbacks.len()
        invariant
            i <= record.readbacks.len(),
            forall|k: int| 0 <= k < i ==> !readback_is_extended(#[trigger] record@.readbacks[k]),
        decreases record.readbacks.len() - i,
    {
        let readback = &record.readbacks[i];
        if readback.phase.is_some() || readback.source_timestamp.is_some()
            || readback.fresh.is_some() || readback.boot_id.is_some() {
            assert(readback_is_extended(record@.readbacks[i as int]));
            return true;
        }
        i = i + 1;
    }
    false
}

fn any_transition_has_boot(record: &EvidenceRecord) -> (yes: bool)
    ensures
        yes == exists|i: int|
            0 <= i < record@.state_transitions.len() && (
            #[trigger] record@.state_transitions[i]).boot_id is Some,
{
    let mut i: usize = 0;
    while i < record.state_transitions.len()
        invariant
            i <= record.state_transitions.len(),
            forall|k: int|
                0 <= k < i ==> (#[trigger] record@.state_transitions[k]).boot_id is None,
        decreases record.state_transitions.len() - i,
    {
        if record.state_transitions[i].boot_id.is_some() {
            assert(record@.state_transitions[i as int].boot_id is Some);
            return true;
        }
        i = i + 1;
    }
    false
}

fn any_fault_has_boot(record: &EvidenceRecord) -> (yes: bool)
    ensures
        yes == exists|i: int|
            0 <= i < record@.faults.len() && (#[trigger] record@.faults[i]).boot_id is Some,
{
    let mut i: usize = 0;
    while i < record.faults.len()
        invariant
            i <= record.faults.len(),
            forall|k: int| 0 <= k < i ==> (#[trigger] record@.faults[k]).boot_id is None,
        decreases record.faults.len() - i,
    {
        if record.faults[i].boot_id.is_some() {
            assert(record@.faults[i as int].boot_id is Some);
            return true;
        }
        i = i + 1;
    }
    false
}

fn validate_schema(record: &EvidenceRecord) -> (result: Result<(), EvidenceValidationError>)
    ensures
        result == verdict(schema_error(record@)),
{
    if record.schema_version == EVIDENCE_SCHEMA_VERSION_V2 {
        return Ok(());
    }
    if record.schema_version != EVIDENCE_SCHEMA_VERSION {
        return Err(EvidenceValidationError::UnsupportedSchemaVersion);
    }
    if record.starting_conditions_captured_at.is_some() {
        return Err(
            EvidenceValidationError::IncompatibleSchemaField {
                field: "starting_conditions_captured_at",
            },
        );
    }
    if record.workload_started_at.is_some() {
        return Err(
            EvidenceValidationError::IncompatibleSchemaField { field: "workload_started_at" },
        );
    }
    if record.baseline_binding_sha256.is_some() {
        return Err(
            EvidenceValidationError::IncompatibleSchemaField { field: "baseline_binding_sha256" },
        );
    }
    if record.live_lifecycle_cases.is_some() {
        return Err(
            EvidenceValidationError::IncompatibleSchemaField { field: "live_lifecycle_cases" },
        );
    }
    if any_readback_is_extended(record) {
        return Err(
            EvidenceValidationError::IncompatibleSchemaField { field: "readbacks.v2_fields" },
        );
    }
    if any_transition_has_boot(record) {
        return Err(
            EvidenceValidationError::IncompatibleSchemaField { field: "state_transitions.boot_id" },
        );
    }
    if any_fault_has_boot(record) {
        return Err(EvidenceValidationError::IncompatibleSchemaField { field: "faults.boot_id" });
    }
    match &record.thermal_summary {
        Some(summary) => {
            if summary.system_stable.is_some() {
                return Err(
                    EvidenceValidationError::IncompatibleSchemaField {
                        field: "thermal_summary.system_stable",
                    },
                );
            }
        },
        None => {},
    }
    Ok(())
}

/// Whether a record is bound to a baseline exactly where its stage asks for it.
pub open spec fn binding_is_valid(record: RecordModel) -> bool {
    if record.schema_version == 2 && record.stage == "matched-workload"@ {
        record.baseline_binding_sha256 matches Some(binding) && lower_hex(binding, 64)
    } else {
        record.baseline_binding_sha256 is None
    }
}

/// Whether a record carries a thermal envelope exactly where its stage asks for it.
pub open spec fn thermal_envelope_is_valid(record: RecordModel) -> bool {
    if record.stage == "supervised-endurance"@ {
        record.endurance_thermal_envelope is Some && record.schema_version == 2
    } else {
        record.endurance_thermal_envelope is None
    }
}

/// Whether a record carries well-formed lifecycle cases exactly where its stage asks for them.
pub open spec fn lifecycle_is_valid(record: RecordModel) -> bool {
    if record.stage == "live-lifecycle"@ {
        record.schema_version == 2 && lifecycle_cases_are_well_formed(record)
    } else {
        record.live_lifecycle_cases is None
    }
}

/// Whether a lifecycle record carries something that does not belong to its stage.
pub open spec fn lifecycle_is_overloaded(record: RecordModel) -> bool {
    record.stage == "live-lifecycle"@ && (record.starting_conditions_captured_at is Some
        || record.workload_started_at is Some || record.workload is Some || record.samples.len() > 0
        || record.commands.len() > 0 || record.restoration_attempts.len() > 0
        || record.calibration.len() > 0 || record.thermal_summary is Some)
}

/// Whether a moment lies within a run.
pub open spec fn in_run(record: RecordModel, at: EvidenceTimestamp) -> bool {
    record.started_at.monotonic_millis <= at.monotonic_millis
        <= record.completed_at.monotonic_millis
}

/// The error for a moment outside the run.
pub open spec fn run_error(
    record: RecordModel,
    at: EvidenceTimestamp,
    field: &'static str,
    index: int,
) -> Option<EvidenceValidationError> {
    if in_run(record, at) {
        None
    } else {
        Some(EvidenceValidationError::EventOutsideRun { field, index: index as usize })
    }
}

/// The same for a moment that may lie in the boot after a reboot, where only the wall clock is
/// shared with the run.
pub open spec fn scoped_run_error(
    record: RecordModel,
    at: EvidenceTimestamp,
    boot_id: Option<Seq<char>>,
    field: &'static str,
    index: int,
) -> Option<EvidenceValidationError> {
    if record.stage == "live-lifecycle"@ && boot_id is Some && boot_id == post_reboot_boot(record) {
        if record.started_at.wall_unix_millis <= at.wall_unix_millis
            <= record.completed_at.wall_unix_millis {
            None
        } else {
            Some(EvidenceValidationError::EventOutsideRun { field, index: index as usize })
        }
    } else {
        run_error(record, at, field, index)
    }
}

/// What is wrong with the parts of a record that are not lists.
pub open spec fn header_error(record: RecordModel) -> Option<EvidenceValidationError> {
    if identity_error(record.envelope) is Some {
        identity_error(record.envelope)
    } else if !identifier(record.stage) {
        Some(EvidenceValidationError::InvalidStage)
    } else if !binding_is_valid(record) {
        invalid_value("baseline_binding_sha256", 0)
    } else if !thermal_envelope_is_valid(record) {
        invalid_value("endurance_thermal_envelope", 0)
    } else if !lifecycle_is_valid(record) {
        invalid_value("live_lifecycle_cases", 0)
    } else if lifecycle_is_overloaded(record) {
        invalid_value("live_lifecycle_shape", 0)
    } else if record.started_at.monotonic_millis > record.completed_at.monotonic_millis {
        Some(EvidenceValidationError::InvalidTimeRange)
    } else if record.starting_conditions_captured_at matches Some(at) && !in_run(record, at) {
        run_error(
            record,
            record.starting_conditions_captured_at->0,
            "starting_conditions_captured_at",
            0,
        )
    } else if record.workload_started_at matches Some(at) && !in_run(record, at) {
        run_error(record, record.workload_started_at->0, "workload_started_at", 0)
    } else {
        match record.workload {
            Some(workload) => workload_error(workload),
            None => None,
        }
    }
}

fn is_in_run(record: &EvidenceRecord, at: EvidenceTimestamp) -> (yes: bool)
    ensures
        yes == in_run(record@, at),
{
    record.started_at.monotonic_millis <= at.monotonic_millis && at.monotonic_millis
        <= record.completed_at.monotonic_millis
}

fn validate_timestamp(
    record: &EvidenceRecord,
    at: EvidenceTimestamp,
    field: &'static str,
    index: usize,
) -> (result: Result<(), EvidenceValidationError>)
    ensures
        result == verdict(run_error(record@, at, field, index as int)),
{
    if is_in_run(record, at) {
        Ok(())
    } else {
        Err(EvidenceValidationError::EventOutsideRun { field, index })
    }
}

fn is_post_reboot(record: &EvidenceRecord, boot_id: &Option<String>) -> (yes: bool)
    ensures
        yes == (record@.stage == "live-lifecycle"@ && text_option(*boot_id) is Some && text_option(
            *boot_id,
        ) == post_reboot_boot(record@)),
{
    if !same_text(record.stage.as_str(), "live-lifecycle") {
        return false;
    }
    match boot_id {
        None => false,
        Some(boot_id) => match post_reboot_boot_id(record) {
            Some(expected) => same_text(boot_id.as_str(), expected),
            None => false,
        },
    }
}

fn validate_scoped_timestamp(
    record: &EvidenceRecord,
    at: EvidenceTimestamp,
    boot_id: &Option<String>,
    field: &'static str,
    index: usize,
) -> (result: Result<(), EvidenceValidationError>)
    ensures
        result == verdict(
            scoped_run_error(record@, at, text_option(*boot_id), field, index as int),
        ),
{
    if is_post_reboot(record, boot_id) {
        if record.started_at.wall_unix_millis <= at.wall_unix_millis && at.wall_unix_millis
            <= record.completed_at.wall_unix_millis {
            Ok(())
        } else {
            Err(EvidenceValidationError::EventOutsideRun { field, index })
        }
    } else {
        validate_timestamp(record, at, field, index)
    }
}

fn invalid(field: &'static str, index: usize) -> (result: Result<(), EvidenceValidationError>)
    ensures
        result == verdict(invalid_value(field, index as int)),
{
    Err(EvidenceValidationError::InvalidValue { field, index })
}

fn validate_header(record: &EvidenceRecord) -> (result: Result<(), EvidenceValidationError>)
    ensures
        result == verdict(header_error(record@)),
{
    match validate_identity(&record.qualification_envelope) {
        Ok(()) => {},
        Err(error) => {
            return Err(error);
        },
    }
    let stage = record.stage.as_str();
    if !is_identifier(stage) {
        return Err(EvidenceValidationError::InvalidStage);
    }
    let second_schema = record.schema_version == EVIDENCE_SCHEMA_VERSION_V2;
    let binding_is_right = match &record.baseline_binding_sha256 {
        Some(binding) => second_schema && same_text(stage, "matched-workload") && is_lower_hex(
            binding.as_str(),
            64,
        ),
        None => !(second_schema && same_text(stage, "matched-workload")),
    };
    if !binding_is_right {
        return invalid("baseline_binding_sha256", 0);
    }
    let envelope_is_right = if same_text(stage, "supervised-endurance") {
        record.endurance_thermal_envelope.is_some() && second_schema
    } else {
        record.endurance_thermal_envelope.is_none()
    };
    if !envelope_is_right {
        return invalid("endurance_thermal_envelope", 0);
    }
    let lifecycle = same_text(stage, "live-lifecycle");
    let cases_are_right = if lifecycle {
        second_schema && live_lifecycle_cases_are_well_formed(record)
    } else {
        record.live_lifecycle_cases.is_none()
    };
    if !cases_are_right {
        return invalid("live_lifecycle_cases", 0);
    }
    if lifecycle && (record.starting_conditions_captured_at.is_some()
        || record.workload_started_at.is_some() || record.workload.is_some() || record.samples.len()
        > 0 || record.commands.len() > 0 || record.restoration_attempts.len() > 0
        || record.calibration.len() > 0 || record.thermal_summary.is_some()) {
        return invalid("live_lifecycle_shape", 0);
    }
    if record.started_at.monotonic_millis > record.completed_at.monotonic_millis {
        return Err(EvidenceValidationError::InvalidTimeRange);
    }
    match record.starting_conditions_captured_at {
        Some(at) => {
            if !is_in_run(record, at) {
                return validate_timestamp(record, at, "starting_conditions_captured_at", 0);
            }
        },
        None => {},
    }
    match record.workload_started_at {
        Some(at) => {
            if !is_in_run(record, at) {
                return validate_timestamp(record, at, "workload_started_at", 0);
            }
        },
        None => {},
    }
    match &record.workload {
        Some(workload) => validate_workload(workload),
        None => Ok(()),
    }
}

/// Whether a demand or a utilization is at most 100 percent.
pub open spec fn within_full_scale(value: Option<u16>) -> bool {
    value matches Some(value) ==> value <= 10_000
}

/// Whether a sample that claims to be fresh carries every reading.
pub open spec fn fresh_sample_is_complete(
    sample: crate::evidence::TelemetrySampleEvidence,
) -> bool {
    sample.freshness == SampleFreshness::Fresh ==> sample.cpu_millicelsius is Some
        && sample.gpu_millicelsius is Some && sample.external_power is Some
        && sample.selected_profile is Some && sample.cpu_source_demand_basis_points is Some
        && sample.gpu_source_demand_basis_points is Some
        && sample.commanded_demand_basis_points is Some && sample.cpu_thermal_throttling is Some
        && sample.gpu_thermal_throttling is Some
}

/// What is wrong with a sample.
pub open spec fn sample_error(record: RecordModel, index: int) -> Option<EvidenceValidationError> {
    let sample = record.samples[index];
    if !in_run(record, sample.timestamp) {
        run_error(record, sample.timestamp, "samples", index)
    } else if !fresh_sample_is_complete(sample) {
        invalid_value("samples.fresh", index)
    } else if !within_full_scale(sample.cpu_source_demand_basis_points) {
        invalid_value("samples.cpu_source_demand_basis_points", index)
    } else if !within_full_scale(sample.gpu_source_demand_basis_points) {
        invalid_value("samples.gpu_source_demand_basis_points", index)
    } else if !within_full_scale(sample.cpu_utilization_basis_points) {
        invalid_value("samples.cpu_utilization_basis_points", index)
    } else if !within_full_scale(sample.gpu_utilization_basis_points) {
        invalid_value("samples.gpu_utilization_basis_points", index)
    } else if !within_full_scale(sample.commanded_demand_basis_points) {
        invalid_value("samples.commanded_demand_basis_points", index)
    } else {
        None
    }
}

/// The check of each sample.
pub open spec fn sample_checks(record: RecordModel) -> spec_fn(int) -> Option<
    EvidenceValidationError,
> {
    |index: int| sample_error(record, index)
}

/// Whether a control value is one that its endpoint can hold.
pub open spec fn command_value_is_valid(command: FanCommandEvidence) -> bool {
    match command.field {
        FanControlField::Pwm => command.value <= 255,
        FanControlField::Enable => command.value <= 2,
    }
}

/// What is wrong with a command.
pub open spec fn command_error(record: RecordModel, index: int) -> Option<EvidenceValidationError> {
    let command = record.commands[index];
    if !in_run(record, command.timestamp) {
        run_error(record, command.timestamp, "commands", index)
    } else if !command_value_is_valid(command) {
        invalid_value("commands.value", index)
    } else {
        None
    }
}

/// The check of each command.
pub open spec fn command_checks(record: RecordModel) -> spec_fn(int) -> Option<
    EvidenceValidationError,
> {
    |index: int| command_error(record, index)
}

/// Whether a boot identity, where there is one, is an identifier.
pub open spec fn boot_is_valid(boot_id: Option<String>) -> bool {
    boot_id matches Some(boot_id) ==> identifier(boot_id@)
}

/// Whether a readback's value agrees with its outcome and its endpoint's range.
pub open spec fn readback_value_is_valid(readback: FanReadbackEvidence) -> bool {
    &&& match readback.outcome {
        ObservationOutcome::Confirmed => readback.value is Some,
        ObservationOutcome::Unexpected => readback.value is Some,
        ObservationOutcome::Unreadable => readback.value is None,
    }
    &&& readback.field == FanReadbackField::Pwm ==> (readback.value matches Some(value) ==> value
        <= 255)
    &&& readback.field == FanReadbackField::Enable ==> (readback.value matches Some(value) ==> value
        <= 2)
}

/// Whether a readback carries what its stage asks for.
pub open spec fn readback_shape_is_valid(record: RecordModel, readback: FanReadbackEvidence) -> bool {
    &&& readback.endpoint_identity@.len() > 0
    &&& boot_is_valid(readback.boot_id)
    &&& if record.stage == "live-lifecycle"@ {
        &&& shows_something(readback.endpoint_identity@)
        &&& readback.source_timestamp is Some
        &&& readback.fresh is Some
        &&& readback.phase is None
    } else {
        &&& readback.source_timestamp is None
        &&& readback.fresh is None
        &&& readback.boot_id is None
    }
}

/// What is wrong with a readback.
pub open spec fn readback_error(record: RecordModel, index: int) -> Option<
    EvidenceValidationError,
> {
    let readback = record.readbacks[index];
    let boot_id = text_option(readback.boot_id);
    otherwise(
        scoped_run_error(record, readback.timestamp, boot_id, "readbacks", index),
        otherwise(
            match readback.source_timestamp {
                Some(source) => scoped_run_error(
                    record,
                    source,
                    boot_id,
                    "readbacks.source_timestamp",
                    index,
                ),
                None => None,
            },
            if readback_value_is_valid(readback) && readback_shape_is_valid(record, readback) {
                None
            } else {
                invalid_value("readbacks", index)
            },
        ),
    )
}

/// The check of each readback.
pub open spec fn readback_checks(record: RecordModel) -> spec_fn(int) -> Option<
    EvidenceValidationError,
> {
    |index: int| readback_error(record, index)
}

/// What is wrong with a state transition.
pub open spec fn transition_error(record: RecordModel, index: int) -> Option<
    EvidenceValidationError,
> {
    let transition = record.state_transitions[index];
    otherwise(
        scoped_run_error(
            record,
            transition.timestamp,
            text_option(transition.boot_id),
            "state_transitions",
            index,
        ),
        if identifier(transition.from@) && identifier(transition.to@) && boot_is_valid(
            transition.boot_id,
        ) && (record.stage == "live-lifecycle"@ || transition.boot_id is None) {
            None
        } else {
            Some(
                EvidenceValidationError::InvalidState {
                    field: "state_transitions",
                    index: index as usize,
                },
            )
        },
    )
}

/// The check of each state transition.
pub open spec fn transition_checks(record: RecordModel) -> spec_fn(int) -> Option<
    EvidenceValidationError,
> {
    |index: int| transition_error(record, index)
}

/// What is wrong with a fault.
pub open spec fn fault_error(record: RecordModel, index: int) -> Option<EvidenceValidationError> {
    let fault = record.faults[index];
    otherwise(
        scoped_run_error(record, fault.timestamp, text_option(fault.boot_id), "faults", index),
        if identifier(fault.code@) && fault.detail@.len() > 0 && boot_is_valid(fault.boot_id) && (
        record.stage == "live-lifecycle"@ || fault.boot_id is None) {
            None
        } else {
            Some(
                EvidenceValidationError::InvalidFault { field: "faults", index: index as usize },
            )
        },
    )
}

/// The check of each fault.
pub open spec fn fault_checks(record: RecordModel) -> spec_fn(int) -> Option<
    EvidenceValidationError,
> {
    |index: int| fault_error(record, index)
}

/// What is wrong with a restoration attempt.
pub open spec fn attempt_error(record: RecordModel, index: int) -> Option<EvidenceValidationError> {
    let attempt = record.restoration_attempts[index];
    if !in_run(record, attempt.timestamp) {
        run_error(record, attempt.timestamp, "restoration_attempts", index)
    } else if (attempt.enable_readback matches Some(value) && value > 2) || (attempt.outcome
        == RestorationOutcome::FirmwareAutoConfirmed && (attempt.enable_readback != Some(2u32)
        || !attempt.auto_write_succeeded)) {
        invalid_value("restoration_attempts.enable_readback", index)
    } else {
        None
    }
}

/// The check of each restoration attempt.
pub open spec fn attempt_checks(record: RecordModel) -> spec_fn(int) -> Option<
    EvidenceValidationError,
> {
    |index: int| attempt_error(record, index)
}

/// What is wrong with a process stop.
pub open spec fn stop_error(record: RecordModel, index: int) -> Option<EvidenceValidationError> {
    let stop = record.process_stops[index];
    if !in_run(record, stop.requested_at) {
        run_error(record, stop.requested_at, "process_stops", index)
    } else if !in_run(record, stop.confirmed_at) {
        run_error(record, stop.confirmed_at, "process_stops", index)
    } else if trimmed(stop.process_identity@).len() == 0 || stop.requested_at.monotonic_millis
        > stop.confirmed_at.monotonic_millis {
        invalid_value("process_stops", index)
    } else {
        None
    }
}

/// The check of each process stop.
pub open spec fn stop_checks(record: RecordModel) -> spec_fn(int) -> Option<
    EvidenceValidationError,
> {
    |index: int| stop_error(record, index)
}

fn is_within_full_scale(value: Option<u16>) -> (yes: bool)
    ensures
        yes == within_full_scale(value),
{
    match value {
        Some(value) => value <= 10_000,
        None => true,
    }
}

fn validate_sample(record: &EvidenceRecord, index: usize) -> (result: Result<
    (),
    EvidenceValidationError,
>)
    requires
        index < record@.samples.len(),
    ensures
        result == verdict(sample_error(record@, index as int)),
{
    let sample = &record.samples[index];
    if !is_in_run(record, sample.timestamp) {
        return validate_timestamp(record, sample.timestamp, "samples", index);
    }
    if sample.freshness == SampleFreshness::Fresh && (sample.cpu_millicelsius.is_none()
        || sample.gpu_millicelsius.is_none() || sample.external_power.is_none()
        || sample.selected_profile.is_none() || sample.cpu_source_demand_basis_points.is_none()
        || sample.gpu_source_demand_basis_points.is_none()
        || sample.commanded_demand_basis_points.is_none() || sample.cpu_thermal_throttling.is_none()
        || sample.gpu_thermal_throttling.is_none()) {
        return invalid("samples.fresh", index);
    }
    if !is_within_full_scale(sample.cpu_source_demand_basis_points) {
        return invalid("samples.cpu_source_demand_basis_points", index);
    }
    if !is_within_full_scale(sample.gpu_source_demand_basis_points) {
        return invalid("samples.gpu_source_demand_basis_points", index);
    }
    if !is_within_full_scale(sample.cpu_utilization_basis_points) {
        return invalid("samples.cpu_utilization_basis_points", index);
    }
    if !is_within_full_scale(sample.gpu_utilization_basis_points) {
        return invalid("samples.gpu_utilization_basis_points", index);
    }
    if !is_within_full_scale(sample.commanded_demand_basis_points) {
        return invalid("samples.commanded_demand_basis_points", index);
    }
    Ok(())
}

fn validate_command(record: &EvidenceRecord, index: usize) -> (result: Result<
    (),
    EvidenceValidationError,
>)
    requires
        index < record@.commands.len(),
    ensures
        result == verdict(command_error(record@, index as int)),
{
    let command = &record.commands[index];
    if !is_in_run(record, command.timestamp) {
        return validate_timestamp(record, command.timestamp, "commands", index);
    }
    let valid = match command.field {
        FanControlField::Pwm => command.value <= 255,
        FanControlField::Enable => command.value <= 2,
    };
    if !valid {
        return invalid("commands.value", index);
    }
    Ok(())
}

fn is_boot_valid(boot_id: &Option<String>) -> (yes: bool)
    ensures
        yes == boot_is_valid(*boot_id),
{
    match boot_id {
        Some(boot_id) => is_identifier(boot_id.as_str()),
        None => true,
    }
}

pub(crate) fn readback_value_fits(readback: &FanReadbackEvidence) -> (yes: bool)
    ensures
        yes == readback_value_is_valid(*readback),
{
    let outcome_matches = match readback.outcome {
        ObservationOutcome::Confirmed => readback.value.is_some(),
        ObservationOutcome::Unexpected => readback.value.is_some(),
        ObservationOutcome::Unreadable => readback.value.is_none(),
    };
    let value_fits = match readback.value {
        None => true,
        Some(value) => match readback.field {
            FanReadbackField::Pwm => value <= 255,
            FanReadbackField::Enable => value <= 2,
            FanReadbackField::Rpm => true,
        },
    };
    outcome_matches && value_fits
}

fn validate_readback(record: &EvidenceRecord, index: usize) -> (result: Result<
    (),
    EvidenceValidationError,
>)
    requires
        index < record@.readbacks.len(),
    ensures
        result == verdict(readback_error(record@, index as int)),
{
    let readback = &record.readbacks[index];
    match validate_scoped_timestamp(
        record,
        readback.timestamp,
        &readback.boot_id,
        "readbacks",
        index,
    ) {
        Ok(()) => {},
        Err(error) => {
            return Err(error);
        },
    }
    match readback.source_timestamp {
        Some(source) => {
            match validate_scoped_timestamp(
                record,
                source,
                &readback.boot_id,
                "readbacks.source_timestamp",
                index,
            ) {
                Ok(()) => {},
                Err(error) => {
                    return Err(error);
                },
            }
        },
        None => {},
    }
    let staged = if same_text(record.stage.as_str(), "live-lifecycle") {
        identity_has_nonblank_character(readback.endpoint_identity.as_str())
            && readback.source_timestamp.is_some() && readback.fresh.is_some()
            && readback.phase.is_none()
    } else {
        readback.source_timestamp.is_none() && readback.fresh.is_none()
            && readback.boot_id.is_none()
    };
    if !(readback_value_fits(readback) && !readback.endpoint_identity.as_str().is_empty()
        && is_boot_valid(&readback.boot_id) && staged) {
        return invalid("readbacks", index);
    }
    Ok(())
}

fn validate_transition(record: &EvidenceRecord, index: usize) -> (result: Result<
    (),
    EvidenceValidationError,
>)
    requires
        index < record@.state_transitions.len(),
    ensures
        result == verdict(transition_error(record@, index as int)),
{
    let transition = &record.state_transitions[index];
    match validate_scoped_timestamp(
        record,
        transition.timestamp,
        &transition.boot_id,
        "state_transitions",
        index,
    ) {
        Ok(()) => {},
        Err(error) => {
            return Err(error);
        },
    }
    if !(is_identifier(transition.from.as_str()) && is_identifier(transition.to.as_str())
        && is_boot_valid(&transition.boot_id) && (same_text(record.stage.as_str(), "live-lifecycle")
        || transition.boot_id.is_none())) {
        return Err(EvidenceValidationError::InvalidState { field: "state_transitions", index });
    }
    Ok(())
}

fn validate_fault(record: &EvidenceRecord, index: usize) -> (result: Result<
    (),
    EvidenceValidationError,
>)
    requires
        index < record@.faults.len(),
    ensures
        result == verdict(fault_error(record@, index as int)),
{
    let fault = &record.faults[index];
    match validate_scoped_timestamp(record, fault.timestamp, &fault.boot_id, "faults", index) {
        Ok(()) => {},
        Err(error) => {
            return Err(error);
        },
    }
    if !(is_identifier(fault.code.as_str()) && !fault.detail.as_str().is_empty() && is_boot_valid(
        &fault.boot_id,
    ) && (same_text(record.stage.as_str(), "live-lifecycle") || fault.boot_id.is_none())) {
        return Err(EvidenceValidationError::InvalidFault { field: "faults", index });
    }
    Ok(())
}

fn validate_attempt(record: &EvidenceRecord, index: usize) -> (result: Result<
    (),
    EvidenceValidationError,
>)
    requires
        index < record@.restoration_attempts.len(),
    ensures
        result == verdict(attempt_error(record@, index as int)),
{
    let attempt = &record.restoration_attempts[index];
    if !is_in_run(record, attempt.timestamp) {
        return validate_timestamp(record, attempt.timestamp, "restoration_attempts", index);
    }
    let (out_of_range, auto) = match attempt.enable_readback {
        Some(value) => (value > 2, value == 2),
        None => (false, false),
    };
    if out_of_range || (attempt.outcome == RestorationOutcome::FirmwareAutoConfirmed && (!auto
        || !attempt.auto_write_succeeded)) {
        return invalid("restoration_attempts.enable_readback", index);
    }
    Ok(())
}

fn validate_stop(record: &EvidenceRecord, index: usize) -> (result: Result<
    (),
    EvidenceValidationError,
>)
    requires
        index < record@.process_stops.len(),
    ensures
        result == verdict(stop_error(record@, index as int)),
{
    let stop = &record.process_stops[index];
    if !is_in_run(record, stop.requested_at) {
        return validate_timestamp(record, stop.requested_at, "process_stops", index);
    }
    if !is_in_run(record, stop.confirmed_at) {
        return validate_timestamp(record, stop.confirmed_at, "process_stops", index);
    }
    if is_blank(stop.process_identity.as_str()) || stop.requested_at.monotonic_millis
        > stop.confirmed_at.monotonic_millis {
        return invalid("process_stops", index);
    }
    Ok(())
}

fn validate_samples(record: &EvidenceRecord) -> (result: Result<(), EvidenceValidationError>)
    ensures
        result == verdict(first_error(sample_checks(record@), record@.samples.len())),
{
    let mut i: usize = 0;
    while i < record.samples.len()
        invariant
            i <= record.samples.len(),
            first_error(sample_checks(record@), i as nat) is None,
        decreases record.samples.len() - i,
    {
        match validate_sample(record, i) {
            Ok(()) => {},
            Err(error) => {
                proof {
                    assert(sample_checks(record@)(i as int) == sample_error(record@, i as int));
                    assert(first_error(sample_checks(record@), (i + 1) as nat) == Some(error));
                    lemma_first_error_stays(
                        sample_checks(record@),
                        (i + 1) as nat,
                        record@.samples.len(),
                    );
                }
                return Err(error);
            },
        }
        proof {
            assert(sample_checks(record@)(i as int) == sample_error(record@, i as int));
        }
        i = i + 1;
    }
    Ok(())
}

fn validate_commands(record: &EvidenceRecord) -> (result: Result<(), EvidenceValidationError>)
    ensures
        result == verdict(first_error(command_checks(record@), record@.commands.len())),
{
    let mut i: usize = 0;
    while i < record.commands.len()
        invariant
            i <= record.commands.len(),
            first_error(command_checks(record@), i as nat) is None,
        decreases record.commands.len() - i,
    {
        match validate_command(record, i) {
            Ok(()) => {},
            Err(error) => {
                proof {
                    assert(command_checks(record@)(i as int) == command_error(record@, i as int));
                    assert(first_error(command_checks(record@), (i + 1) as nat) == Some(error));
                    lemma_first_error_stays(
                        command_checks(record@),
                        (i + 1) as nat,
                        record@.commands.len(),
                    );
                }
                return Err(error);
            },
        }
        proof {
            assert(command_checks(record@)(i as int) == command_error(record@, i as int));
        }
        i = i + 1;
    }
    Ok(())
}

fn validate_readbacks(record: &EvidenceRecord) -> (result: Result<(), EvidenceValidationError>)
    ensures
        result == verdict(first_error(readback_checks(record@), record@.readbacks.len())),
{
    let mut i: usize = 0;
    while i < record.readbacks.len()
        invariant
            i <= record.readbacks.len(),
            first_error(readback_checks(record@), i as nat) is None,
        decreases record.readbacks.len() - i,
    {
        match validate_readback(record, i) {
            Ok(()) => {},
            Err(error) => {
                proof {
                    assert(readback_checks(record@)(i as int) == readback_error(record@, i as int));
                    assert(first_error(readback_checks(record@), (i + 1) as nat) == Some(error));
                    lemma_first_error_stays(
                        readback_checks(record@),
                        (i + 1) as nat,
                        record@.readbacks.len(),
                    );
                }
                return Err(error);
            },
        }
        proof {
            assert(readback_checks(record@)(i as int) == readback_error(record@, i as int));
        }
        i = i + 1;
    }
    Ok(())
}

fn validate_transitions(record: &EvidenceRecord) -> (result: Result<(), EvidenceValidationError>)
    ensures
        result == verdict(first_error(transition_checks(record@), record@.state_transitions.len())),
{
    let mut i: usize = 0;
    while i < record.state_transitions.len()
        invariant
            i <= record.state_transitions.len(),
            first_error(transition_checks(record@), i as nat) is None,
        decreases record.state_transitions.len() - i,
    {
        match validate_transition(record, i) {
            Ok(()) => {},
            Err(error) => {
                proof {
                    assert(transition_checks(record@)(i as int) == transition_error(record@, i as int));
                    assert(first_error(transition_checks(record@), (i + 1) as nat) == Some(error));
                    lemma_first_error_stays(
                        transition_checks(record@),
                        (i + 1) as nat,
                        record@.state_transitions.len(),
                    );
                }
                return Err(error);
            },
        }
        proof {
            assert(transition_checks(record@)(i as int) == transition_error(record@, i as int));
        }
        i = i + 1;
    }
    Ok(())
}

fn validate_faults(record: &EvidenceRecord) -> (result: Result<(), EvidenceValidationError>)
    ensures
        result == verdict(first_error(fault_checks(record@), record@.faults.len())),
{
    let mut i: usize = 0;
    while i < record.faults.len()
        invariant
            i <= record.faults.len(),
            first_error(fault_checks(record@), i as nat) is None,
        decreases record.faults.len() - i,
    {
        match validate_fault(record, i) {
            Ok(()) => {},
            Err(error) => {
                proof {
                    assert(fault_checks(record@)(i as int) == fault_error(record@, i as int));
                    assert(first_error(fault_checks(record@), (i + 1) as nat) == Some(error));
                    lemma_first_error_stays(
                        fault_checks(record@),
                        (i + 1) as nat,
                        record@.faults.len(),
                    );
                }
                return Err(error);
            },
        }
        proof {
            assert(fault_checks(record@)(i as int) == fault_error(record@, i as int));
        }
        i = i + 1;
    }
    Ok(())
}

fn validate_attempts(record: &EvidenceRecord) -> (result: Result<(), EvidenceValidationError>)
    ensures
        result == verdict(first_error(attempt_checks(record@), record@.restoration_attempts.len())),
{
    let mut i: usize = 0;
    while i < record.restoration_attempts.len()
        invariant
            i <= record.restoration_attempts.len(),
            first_error(attempt_checks(record@), i as nat) is None,
        decreases record.restoration_attempts.len() - i,
    {
        match validate_attempt(record, i) {
            Ok(()) => {},
            Err(error) => {
                proof {
                    assert(attempt_checks(record@)(i as int) == attempt_error(record@, i as int));
                    assert(first_error(attempt_checks(record@), (i + 1) as nat) == Some(error));
                    lemma_first_error_stays(
                        attempt_checks(record@),
                        (i + 1) as nat,
                        record@.restoration_attempts.len(),
                    );
                }
                return Err(error);
            },
        }
        proof {
            assert(attempt_checks(record@)(i as int) == attempt_error(record@, i as int));
        }
        i = i + 1;
    }
    Ok(())
}

fn validate_stops(record: &EvidenceRecord) -> (result: Result<(), EvidenceValidationError>)
    ensures
        result == verdict(first_error(stop_checks(record@), record@.process_stops.len())),
{
    let mut i: usize = 0;
    while i < record.process_stops.len()
        invariant
            i <= record.process_stops.len(),
            first_error(stop_checks(record@), i as nat) is None,
        decreases record.process_stops.len() - i,
    {
        match validate_stop(record, i) {
            Ok(()) => {},
            Err(error) => {
                proof {
                    assert(stop_checks(record@)(i as int) == stop_error(record@, i as int));
                    assert(first_error(stop_checks(record@), (i + 1) as nat) == Some(error));
                    lemma_first_error_stays(
                        stop_checks(record@),
                        (i + 1) as nat,
                        record@.process_stops.len(),
                    );
                }
                return Err(error);
            },
        }
        proof {
            assert(stop_checks(record@)(i as int) == stop_error(record@, i as int));
        }
        i = i + 1;
    }
    Ok(())
}

/// Whether a record carries as many calibrations as its stage asks for: one where a fan was
/// calibrated, one for each fan where a matched workload's speeds were judged by them, and none
/// elsewhere.
pub open spec fn calibration_count_is_valid(record: RecordModel) -> bool {
    let calibration = record.calibration;
    if record.stage == "fan-calibration"@ {
        calibration.len() == 1
    } else if record.stage == "matched-workload"@ {
        calibration.len() == 2 && calibration[0].fan != calibration[1].fan
    } else {
        calibration.len() == 0
    }
}

/// The times of an event: its command and its samples.
pub open spec fn event_times(event: EventModel) -> Seq<u64> {
    match event {
        EventModel::Level { step, observation } => seq![observation.commanded_at]
            + observation.samples.map_values(
            |s: crate::calibration::CalibrationReadbackSample| s.monotonic_millis,
        ),
        EventModel::Hold { step, hold } => hold.samples.map_values(
            |s: crate::calibration::CalibrationReadbackSample| s.monotonic_millis,
        ),
    }
}

/// The times of a list of events, in order.
pub open spec fn observed_times(events: Seq<EventModel>) -> Seq<u64>
    decreases events.len(),
{
    if events.len() == 0 {
        Seq::empty()
    } else {
        observed_times(events.drop_last()) + event_times(events.last())
    }
}

/// Whether two times are the least and the greatest of a list.
pub open spec fn bounds_times(times: Seq<u64>, first: u64, last: u64) -> bool {
    &&& times.contains(first)
    &&& times.contains(last)
    &&& forall|i: int| 0 <= i < times.len() ==> first <= #[trigger] times[i] <= last
}

/// The duty commands that a list of events stands for: when, and which PWM value.
pub open spec fn expected_commands(events: Seq<EventModel>) -> Seq<(u64, u32)>
    decreases events.len(),
{
    if events.len() == 0 {
        Seq::empty()
    } else {
        let before = expected_commands(events.drop_last());
        match events.last() {
            EventModel::Level { step, observation } => match step.pwm() {
                Some(pwm) => before.push((observation.commanded_at, pwm as u32)),
                None => before,
            },
            EventModel::Hold { step, hold } => before,
        }
    }
}

/// The duty commands to a fan that a record holds between two times.
pub open spec fn recorded_commands(
    commands: Seq<FanCommandEvidence>,
    fan: EvidenceFan,
    first: u64,
    last: u64,
) -> Seq<(u64, u32)>
    decreases commands.len(),
{
    if commands.len() == 0 {
        Seq::empty()
    } else {
        let before = recorded_commands(commands.drop_last(), fan, first, last);
        let command = commands.last();
        if command.fan == fan && command.field == FanControlField::Pwm && first
            <= command.timestamp.monotonic_millis <= last {
            before.push((command.timestamp.monotonic_millis, command.value))
        } else {
            before
        }
    }
}

/// Whether a command is one that the calibration of a fan allows at its time: before the
/// protocol, custom control at maximum; within it, the other fan at maximum; after it, Firmware
/// Auto or maximum.
pub open spec fn command_fits_calibration(
    command: FanCommandEvidence,
    fan: EvidenceFan,
    first: u64,
    last: u64,
) -> bool {
    match command.field {
        FanControlField::Pwm => command.value == 255 || (command.fan == fan && first
            <= command.timestamp.monotonic_millis <= last),
        FanControlField::Enable => command.value == if command.timestamp.monotonic_millis > last {
            2u32
        } else {
            1u32
        },
    }
}

/// Whether a checkpoint's events lie within a record's run and the record's commands are exactly
/// those of the protocol.
pub open spec fn checkpoint_is_bound(
    record: RecordModel,
    fan: EvidenceFan,
    checkpoint: CheckpointModel,
) -> bool {
    let times = observed_times(checkpoint.events);
    exists|first: u64, last: u64| #[trigger]
        bounds_times(times, first, last) && {
            &&& record.started_at.monotonic_millis <= first
            &&& last <= record.completed_at.monotonic_millis
            &&& recorded_commands(record.commands, fan, first, last) == expected_commands(
                checkpoint.events,
            )
            &&& forall|i: int|
                0 <= i < record.commands.len() ==> command_fits_calibration(
                    #[trigger] record.commands[i],
                    fan,
                    first,
                    last,
                )
        }
}

/// The fan of an evidence name.
pub open spec fn evidence_to_fan(fan: EvidenceFan) -> Fan {
    match fan {
        EvidenceFan::Cpu => Fan::Cpu,
        EvidenceFan::Gpu => Fan::Gpu,
    }
}

/// Whether replaying a calibration's checkpoint derives exactly that calibration.
pub open spec fn calibration_replays(calibration: FanCalibrationModel) -> bool {
    calibration.protocol_checkpoint matches Some(checkpoint) && resumed(
        evidence_to_fan(calibration.fan),
        checkpoint,
    ) matches Some(session) && session.evidence == Some(calibration)
}

/// Whether the anchors stand at the canonical duties, plausible and never falling.
pub open spec fn anchors_are_canonical(calibration: FanCalibrationModel) -> bool {
    let anchors = calibration.anchors;
    let duties = anchor_duties(calibration.floor_basis_points);
    &&& anchors.len() == duties.len()
    &&& forall|i: int|
        0 <= i < anchors.len() ==> (#[trigger] anchors[i]).duty_basis_points == duties[i]
            && plausible_rpm(anchors[i].median_rpm)
    &&& forall|i: int|
        0 <= i < anchors.len() - 1 ==> anchors[i].duty_basis_points < (#[trigger] anchors[i
            + 1]).duty_basis_points && anchors[i].median_rpm <= anchors[i + 1].median_rpm
}

/// Whether a calibration's response deadline is the one that its slowest response gives.
pub open spec fn deadline_is_derived(calibration: FanCalibrationModel) -> bool {
    calibration.slowest_response_millis matches Some(slowest) && 1_000 <= slowest <= 10_000
        && calibration.response_deadline_millis == response_deadline(slowest)
}

/// Whether a calibration is qualified and bound to its record.
pub open spec fn calibration_is_qualified_in(record: RecordModel, index: int) -> bool {
    let calibration = record.calibration[index];
    &&& allowed_floor(calibration.floor_basis_points)
    &&& deadline_is_derived(calibration)
    &&& calibration_replays(calibration)
    &&& record.stage == "matched-workload"@ || checkpoint_is_bound(
        record,
        calibration.fan,
        calibration.protocol_checkpoint->0,
    )
    &&& record.stage == "fan-calibration"@ ==> fan_is_commanded(record.commands, calibration.fan)
    &&& anchors_are_canonical(calibration)
}

/// Whether a calibration's duties are at most full duty, with at least one anchor.
pub open spec fn calibration_is_in_range(calibration: FanCalibrationModel) -> bool {
    &&& calibration.floor_basis_points <= 10_000
    &&& calibration.anchors.len() > 0
    &&& forall|i: int|
        0 <= i < calibration.anchors.len() ==> (
        #[trigger] calibration.anchors[i]).duty_basis_points <= 10_000
}

/// What is wrong with a calibration.
pub open spec fn calibration_error(record: RecordModel, index: int) -> Option<
    EvidenceValidationError,
> {
    let calibration = record.calibration[index];
    if !calibration_is_in_range(calibration) {
        invalid_value("calibration", index)
    } else if record.schema_version != 2 {
        if calibration.slowest_response_millis is Some
            || calibration.protocol_checkpoint is Some {
            invalid_value("calibration", index)
        } else {
            None
        }
    } else if !calibration_is_qualified_in(record, index) {
        invalid_value("calibration", index)
    } else {
        None
    }
}

/// The check of each calibration.
pub open spec fn calibration_checks(record: RecordModel) -> spec_fn(int) -> Option<
    EvidenceValidationError,
> {
    |index: int| calibration_error(record, index)
}

/// The times of a checkpoint's events.
fn collect_times(checkpoint: &CalibrationCheckpoint) -> (times: Vec<u64>)
    ensures
        times@ == observed_times(checkpoint@.events),
{
    let ghost models = checkpoint@.events;
    let mut times: Vec<u64> = Vec::new();
    let mut i: usize = 0;
    assert(models.take(0) =~= Seq::<EventModel>::empty());
    while i < checkpoint.events.len()
        invariant
            i <= checkpoint.events.len(),
            models == checkpoint@.events,
            models.len() == checkpoint.events@.len(),
            times@ == observed_times(models.take(i as int)),
        decreases checkpoint.events.len() - i,
    {
        let ghost before = times@;
        let ghost own_times = event_times(models[i as int]);
        proof {
            let longer = models.take(i + 1);
            assert(longer.drop_last() =~= models.take(i as int));
            assert(longer.last() == models[i as int]);
            assert(models[i as int] == checkpoint.events@[i as int]@);
        }
        let samples = match &checkpoint.events[i] {
            CalibrationCheckpointEvent::Level { step: _, observation } => {
                times.push(observation.commanded_at_monotonic_millis);
                &observation.samples
            },
            CalibrationCheckpointEvent::Hold { step: _, hold } => &hold.samples,
        };
        let ghost start = own_times.len() - samples@.len();
        assert(times@ =~= before + own_times.take(start));
        let mut k: usize = 0;
        while k < samples.len()
            invariant
                k <= samples.len(),
                start == own_times.len() - samples@.len(),
                0 <= start <= 1,
                forall|j: int|
                    0 <= j < samples@.len() ==> own_times[start + j]
                        == samples@[j].monotonic_millis,
                times@ == before + own_times.take(start + k),
            decreases samples.len() - k,
        {
            times.push(samples[k].monotonic_millis);
            k = k + 1;
            assert(own_times.take(start + k) =~= own_times.take(start + k - 1).push(
                own_times[start + k - 1],
            ));
            assert(times@ =~= before + own_times.take(start + k));
        }
        assert(own_times.take(own_times.len() as int) =~= own_times);
        i = i + 1;
    }
    assert(models.take(models.len() as int) =~= models);
    times
}

/// The least and the greatest time of a checkpoint's events.
pub(crate) fn observed_time_bounds(
    checkpoint: &CalibrationCheckpoint,
) -> (bounds: Option<(u64, u64)>)
    ensures
        match bounds {
            Some((first, last)) => bounds_times(observed_times(checkpoint@.events), first, last),
            None => observed_times(checkpoint@.events).len() == 0,
        },
{
    let times = collect_times(checkpoint);
    if times.len() == 0 {
        return None;
    }
    let mut first: u64 = times[0];
    let mut last: u64 = times[0];
    let ghost mut first_at: int = 0;
    let ghost mut last_at: int = 0;
    let mut i: usize = 1;
    while i < times.len()
        invariant
            1 <= i <= times.len(),
            0 <= first_at < i,
            0 <= last_at < i,
            times@[first_at] == first,
            times@[last_at] == last,
            forall|k: int| 0 <= k < i ==> first <= #[trigger] times@[k] <= last,
        decreases times.len() - i,
    {
        if times[i] < first {
            first = times[i];
            proof {
                first_at = i as int;
            }
        }
        if times[i] > last {
            last = times[i];
            proof {
                last_at = i as int;
            }
        }
        i = i + 1;
    }
    Some((first, last))
}

/// A list has only one pair of bounds.
proof fn lemma_bounds_are_unique(times: Seq<u64>, a: u64, b: u64, c: u64, d: u64)
    requires
        bounds_times(times, a, b),
        bounds_times(times, c, d),
    ensures
        a == c,
        b == d,
{
    let i = choose|i: int| 0 <= i < times.len() && times[i] == a;
    let j = choose|j: int| 0 <= j < times.len() && times[j] == b;
    let k = choose|k: int| 0 <= k < times.len() && times[k] == c;
    let l = choose|l: int| 0 <= l < times.len() && times[l] == d;
    assert(c <= times[i] && a <= times[k] && times[j] <= d && times[l] <= b);
}

/// The duty commands that a checkpoint stands for.
pub(crate) fn command_expectations(
    checkpoint: &CalibrationCheckpoint,
) -> (expected: Vec<(u64, u32)>)
    ensures
        expected@ == expected_commands(checkpoint@.events),
{
    let ghost models = checkpoint@.events;
    let mut expected: Vec<(u64, u32)> = Vec::new();
    let mut i: usize = 0;
    assert(models.take(0) =~= Seq::<EventModel>::empty());
    while i < checkpoint.events.len()
        invariant
            i <= checkpoint.events.len(),
            models == checkpoint@.events,
            models.len() == checkpoint.events@.len(),
            expected@ == expected_commands(models.take(i as int)),
        decreases checkpoint.events.len() - i,
    {
        proof {
            let longer = models.take(i + 1);
            assert(longer.drop_last() =~= models.take(i as int));
            assert(longer.last() == checkpoint.events@[i as int]@);
        }
        match &checkpoint.events[i] {
            CalibrationCheckpointEvent::Level { step, observation } => {
                match step.pwm_value() {
                    Some(pwm) => {
                        expected.push((observation.commanded_at_monotonic_millis, pwm as u32));
                    },
                    None => {},
                }
            },
            CalibrationCheckpointEvent::Hold { .. } => {},
        }
        i = i + 1;
    }
    assert(models.take(models.len() as int) =~= models);
    expected
}

fn collect_commands(
    commands: &Vec<FanCommandEvidence>,
    fan: EvidenceFan,
    first: u64,
    last: u64,
) -> (recorded: Vec<(u64, u32)>)
    ensures
        recorded@ == recorded_commands(commands@, fan, first, last),
{
    let mut recorded: Vec<(u64, u32)> = Vec::new();
    let mut i: usize = 0;
    assert(commands@.take(0) =~= Seq::<FanCommandEvidence>::empty());
    while i < commands.len()
        invariant
            i <= commands.len(),
            recorded@ == recorded_commands(commands@.take(i as int), fan, first, last),
        decreases commands.len() - i,
    {
        proof {
            let longer = commands@.take(i + 1);
            assert(longer.drop_last() =~= commands@.take(i as int));
            assert(longer.last() == commands@[i as int]);
        }
        let at: u64 = commands[i].timestamp.monotonic_millis;
        if commands[i].fan == fan && commands[i].field == FanControlField::Pwm && first <= at && at
            <= last {
            recorded.push((at, commands[i].value));
        }
        i = i + 1;
    }
    assert(commands@.take(commands.len() as int) =~= commands@);
    recorded
}

fn same_commands(left: &Vec<(u64, u32)>, right: &Vec<(u64, u32)>) -> (same: bool)
    ensures
        same == (left@ == right@),
{
    if left.len() != right.len() {
        return false;
    }
    let mut i: usize = 0;
    while i < left.len()
        invariant
            i <= left.len(),
            left.len() == right.len(),
            forall|k: int| 0 <= k < i ==> left@[k] == right@[k],
        decreases left.len() - i,
    {
        if left[i].0 != right[i].0 || left[i].1 != right[i].1 {
            assert(left@[i as int] != right@[i as int]);
            return false;
        }
        i = i + 1;
    }
    assert(left@ =~= right@);
    true
}

fn commands_fit(
    commands: &Vec<FanCommandEvidence>,
    fan: EvidenceFan,
    first: u64,
    last: u64,
) -> (yes: bool)
    ensures
        yes == forall|i: int|
            0 <= i < commands@.len() ==> command_fits_calibration(
                #[trigger] commands@[i],
                fan,
                first,
                last,
            ),
{
    let mut i: usize = 0;
    while i < commands.len()
        invariant
            i <= commands.len(),
            forall|k: int|
                0 <= k < i ==> command_fits_calibration(#[trigger] commands@[k], fan, first, last),
        decreases commands.len() - i,
    {
        let command = &commands[i];
        let at: u64 = command.timestamp.monotonic_millis;
        let fits = match command.field {
            FanControlField::Pwm => command.value == 255 || (command.fan == fan && first <= at && at
                <= last),
            FanControlField::Enable => command.value == if at > last {
                2
            } else {
                1
            },
        };
        if !fits {
            assert(!command_fits_calibration(commands@[i as int], fan, first, last));
            return false;
        }
        i = i + 1;
    }
    true
}

/// Decides [`checkpoint_is_bound`].
fn calibration_checkpoint_is_bound_to_record(
    record: &EvidenceRecord,
    fan: EvidenceFan,
    checkpoint: &CalibrationCheckpoint,
) -> (yes: bool)
    ensures
        yes == checkpoint_is_bound(record@, fan, checkpoint@),
{
    let ghost times = observed_times(checkpoint@.events);
    match observed_time_bounds(checkpoint) {
        None => {
            assert forall|a: u64, b: u64| !bounds_times(times, a, b) by {}
            false
        },
        Some((first, last)) => {
            let expected = command_expectations(checkpoint);
            let recorded = collect_commands(&record.commands, fan, first, last);
            let yes = record.started_at.monotonic_millis <= first && last
                <= record.completed_at.monotonic_millis && same_commands(&recorded, &expected)
                && commands_fit(&record.commands, fan, first, last);
            proof {
                if !yes {
                    assert forall|a: u64, b: u64| #[trigger] bounds_times(times, a, b) implies a
                        == first && b == last by {
                        lemma_bounds_are_unique(times, a, b, first, last);
                    }
                }
            }
            yes
        },
    }
}

fn same_checkpoint(left: &CalibrationCheckpoint, right: &CalibrationCheckpoint) -> (same: bool)
    ensures
        same == (left@ == right@),
{
    if left.schema_version != right.schema_version || left.fan != right.fan || left.failed
        != right.failed || left.events.len() != right.events.len() {
        assert(left@.events.len() == left.events@.len());
        assert(right@.events.len() == right.events@.len());
        return false;
    }
    let mut i: usize = 0;
    while i < left.events.len()
        invariant
            i <= left.events.len(),
            left.events@.len() == right.events@.len(),
            forall|k: int| 0 <= k < i ==> left.events@[k]@ == right.events@[k]@,
        decreases left.events.len() - i,
    {
        if !same_event(&left.events[i], &right.events[i]) {
            assert(left@.events[i as int] == left.events@[i as int]@);
            assert(right@.events[i as int] == right.events@[i as int]@);
            return false;
        }
        i = i + 1;
    }
    assert(left@.events =~= right@.events);
    true
}

fn same_event(left: &CalibrationCheckpointEvent, right: &CalibrationCheckpointEvent) -> (same: bool)
    ensures
        same == (left@ == right@),
{
    match (left, right) {
        (
            CalibrationCheckpointEvent::Level { step: left_step, observation: left },
            CalibrationCheckpointEvent::Level { step: right_step, observation: right },
        ) => *left_step == *right_step && left.commanded_at_monotonic_millis
            == right.commanded_at_monotonic_millis && left.stall_observed == right.stall_observed
            && left.unexplained_rpm_collapse_observed == right.unexplained_rpm_collapse_observed
            && same_samples(&left.samples, &right.samples),
        (
            CalibrationCheckpointEvent::Hold { step: left_step, hold: left },
            CalibrationCheckpointEvent::Hold { step: right_step, hold: right },
        ) => *left_step == *right_step && left.stall_observed == right.stall_observed
            && left.unexplained_rpm_collapse_observed == right.unexplained_rpm_collapse_observed
            && same_samples(&left.samples, &right.samples),
        _ => false,
    }
}

fn same_samples(
    left: &Vec<crate::calibration::CalibrationReadbackSample>,
    right: &Vec<crate::calibration::CalibrationReadbackSample>,
) -> (same: bool)
    ensures
        same == (left@ == right@),
{
    if left.len() != right.len() {
        return false;
    }
    let mut i: usize = 0;
    while i < left.len()
        invariant
            i <= left.len(),
            left.len() == right.len(),
            forall|k: int| 0 <= k < i ==> left@[k] == right@[k],
        decreases left.len() - i,
    {
        let a = &left[i];
        let b = &right[i];
        let same_rpm = match (a.selected_rpm, b.selected_rpm) {
            (Some(a), Some(b)) => a == b,
            (None, None) => true,
            _ => false,
        };
        if !(a.monotonic_millis == b.monotonic_millis && a.selected_enable_readback
            == b.selected_enable_readback && a.selected_pwm_readback == b.selected_pwm_readback
            && a.other_enable_readback == b.other_enable_readback && a.other_pwm_readback
            == b.other_pwm_readback && same_rpm) {
            assert(left@[i as int] != right@[i as int]);
            return false;
        }
        i = i + 1;
    }
    assert(left@ =~= right@);
    true
}

/// Whether two calibrations hold the same contents.
pub(crate) fn same_calibration(
    left: &FanCalibrationEvidence,
    right: &FanCalibrationEvidence,
) -> (same:
    bool)
    ensures
        same == (left@ == right@),
{
    let same_slowest = match (left.slowest_response_millis, right.slowest_response_millis) {
        (Some(a), Some(b)) => a == b,
        (None, None) => true,
        _ => false,
    };
    let same_protocol = match (&left.protocol_checkpoint, &right.protocol_checkpoint) {
        (Some(a), Some(b)) => same_checkpoint(a, b),
        (None, None) => true,
        _ => false,
    };
    if !(left.fan == right.fan && left.floor_basis_points == right.floor_basis_points
        && same_slowest && same_protocol && left.response_deadline_millis
        == right.response_deadline_millis && left.anchors.len() == right.anchors.len()) {
        return false;
    }
    let mut i: usize = 0;
    while i < left.anchors.len()
        invariant
            i <= left.anchors.len(),
            left.anchors@.len() == right.anchors@.len(),
            forall|k: int| 0 <= k < i ==> left.anchors@[k] == right.anchors@[k],
        decreases left.anchors.len() - i,
    {
        if left.anchors[i] != right.anchors[i] {
            assert(left@.anchors[i as int] != right@.anchors[i as int]);
            return false;
        }
        i = i + 1;
    }
    assert(left@.anchors =~= right@.anchors);
    true
}

pub(crate) fn fan_of(fan: EvidenceFan) -> (named: Fan)
    ensures
        named == evidence_to_fan(fan),
{
    match fan {
        EvidenceFan::Cpu => Fan::Cpu,
        EvidenceFan::Gpu => Fan::Gpu,
    }
}

/// Decides [`calibration_replays`].
pub fn calibration_replay_matches(calibration: &FanCalibrationEvidence) -> (yes: bool)
    ensures
        yes == calibration_replays(calibration@),
{
    match &calibration.protocol_checkpoint {
        None => false,
        Some(checkpoint) => match replay(fan_of(calibration.fan), checkpoint) {
            Err(_) => false,
            Ok(session) => match session.evidence() {
                None => false,
                Some(derived) => same_calibration(derived, calibration),
            },
        },
    }
}

fn anchors_match(calibration: &FanCalibrationEvidence) -> (yes: bool)
    ensures
        yes == anchors_are_canonical(calibration@),
{
    let anchors = &calibration.anchors;
    let duties = canonical_calibration_anchor_duties(calibration.floor_basis_points);
    if anchors.len() != duties.len() {
        return false;
    }
    let mut i: usize = 0;
    while i < anchors.len()
        invariant
            i <= anchors.len(),
            anchors == &calibration.anchors,
            anchors@.len() == duties@.len(),
            duties@ == anchor_duties(calibration@.floor_basis_points),
            forall|k: int|
                0 <= k < i ==> (#[trigger] anchors@[k]).duty_basis_points == duties@[k]
                    && plausible_rpm(anchors@[k].median_rpm),
            forall|k: int|
                0 <= k < i - 1 ==> anchors@[k].duty_basis_points < (#[trigger] anchors@[k
                    + 1]).duty_basis_points && anchors@[k].median_rpm <= anchors@[k + 1].median_rpm,
        decreases anchors.len() - i,
    {
        if anchors[i].duty_basis_points != duties[i] || !rpm_is_plausible(anchors[i].median_rpm) {
            assert(!anchors_are_canonical(calibration@)) by {
                assert(calibration@.anchors[i as int] == anchors@[i as int]);
            }
            return false;
        }
        if i > 0 && (anchors[i - 1].duty_basis_points >= anchors[i].duty_basis_points
            || anchors[i - 1].median_rpm > anchors[i].median_rpm) {
            assert(!anchors_are_canonical(calibration@)) by {
                let k = i - 1;
                assert(calibration@.anchors[k + 1] == anchors@[k + 1]);
            }
            return false;
        }
        i = i + 1;
    }
    true
}

fn calibration_fits_range(calibration: &FanCalibrationEvidence) -> (yes: bool)
    ensures
        yes == calibration_is_in_range(calibration@),
{
    if calibration.floor_basis_points > 10_000 || calibration.anchors.len() == 0 {
        return false;
    }
    let mut i: usize = 0;
    while i < calibration.anchors.len()
        invariant
            i <= calibration.anchors.len(),
            forall|k: int|
                0 <= k < i ==> (#[trigger] calibration@.anchors[k]).duty_basis_points <= 10_000,
        decreases calibration.anchors.len() - i,
    {
        if calibration.anchors[i].duty_basis_points > 10_000 {
            assert(calibration@.anchors[i as int].duty_basis_points > 10_000);
            return false;
        }
        i = i + 1;
    }
    true
}

fn calibration_is_qualified(record: &EvidenceRecord, index: usize) -> (yes: bool)
    requires
        index < record@.calibration.len(),
    ensures
        yes == calibration_is_qualified_in(record@, index as int),
{
    let calibration = &record.calibration[index];
    assert(record@.calibration[index as int] == calibration@);
    let deadline_fits = match calibration.slowest_response_millis {
        Some(slowest) => 1_000 <= slowest && slowest <= 10_000
            && calibration.response_deadline_millis == calibration_response_deadline(slowest),
        None => false,
    };
    if !(is_allowed_calibration_floor(calibration.floor_basis_points) && deadline_fits
        && calibration_replay_matches(calibration)) {
        return false;
    }
    let bound = same_text(record.stage.as_str(), "matched-workload")
        || match &calibration.protocol_checkpoint {
        Some(checkpoint) => calibration_checkpoint_is_bound_to_record(
            record,
            calibration.fan,
            checkpoint,
        ),
        None => false,
    };
    bound && (!same_text(record.stage.as_str(), "fan-calibration") || fan_has_commands(
        &record.commands,
        calibration.fan,
    )) && anchors_match(calibration)
}

fn validate_calibration(record: &EvidenceRecord, index: usize) -> (result: Result<
    (),
    EvidenceValidationError,
>)
    requires
        index < record@.calibration.len(),
    ensures
        result == verdict(calibration_error(record@, index as int)),
{
    let calibration = &record.calibration[index];
    assert(record@.calibration[index as int] == calibration@);
    if !calibration_fits_range(calibration) {
        return invalid("calibration", index);
    }
    if record.schema_version != EVIDENCE_SCHEMA_VERSION_V2 {
        if calibration.slowest_response_millis.is_some()
            || calibration.protocol_checkpoint.is_some() {
            return invalid("calibration", index);
        }
        return Ok(());
    }
    if !calibration_is_qualified(record, index) {
        return invalid("calibration", index);
    }
    Ok(())
}

fn validate_calibrations(record: &EvidenceRecord) -> (result: Result<(), EvidenceValidationError>)
    ensures
        result == verdict(first_error(calibration_checks(record@), record@.calibration.len())),
{
    assert(record@.calibration.len() == record.calibration@.len());
    let mut i: usize = 0;
    while i < record.calibration.len()
        invariant
            i <= record.calibration.len(),
            record@.calibration.len() == record.calibration@.len(),
            first_error(calibration_checks(record@), i as nat) is None,
        decreases record.calibration.len() - i,
    {
        match validate_calibration(record, i) {
            Ok(()) => {},
            Err(error) => {
                proof {
                    assert(calibration_checks(record@)(i as int) == calibration_error(record@, i as int));
                    assert(first_error(calibration_checks(record@), (i + 1) as nat) == Some(error));
                    lemma_first_error_stays(
                        calibration_checks(record@),
                        (i + 1) as nat,
                        record@.calibration.len(),
                    );
                }
                return Err(error);
            },
        }
        proof {
            assert(calibration_checks(record@)(i as int) == calibration_error(record@, i as int));
        }
        i = i + 1;
    }
    Ok(())
}

fn calibration_count_fits(record: &EvidenceRecord) -> (yes: bool)
    ensures
        yes == calibration_count_is_valid(record@),
{
    let count = record.calibration.len();
    assert(record@.calibration.len() == count);
    if same_text(record.stage.as_str(), "fan-calibration") {
        count == 1
    } else if same_text(record.stage.as_str(), "matched-workload") {
        if count != 2 {
            return false;
        }
        assert(record@.calibration[0] == record.calibration@[0]@);
        assert(record@.calibration[1] == record.calibration@[1]@);
        record.calibration[0].fan != record.calibration[1].fan
    } else {
        count == 0
    }
}

/// Whether every fan that was commanded has a later restoration attempt, and the last state
/// follows them.
pub open spec fn restoration_is_recorded(record: RecordModel) -> bool {
    &&& fan_is_commanded(record.commands, EvidenceFan::Cpu) ==> final_attempt(
        record,
        EvidenceFan::Cpu,
    ) is Some
    &&& fan_is_commanded(record.commands, EvidenceFan::Gpu) ==> final_attempt(
        record,
        EvidenceFan::Gpu,
    ) is Some
    &&& final_state_follows(record)
}

/// Whether a record proves that the run ended in Firmware Auto: by the mode readbacks where
/// nothing was commanded, and by the restoration of every commanded fan otherwise.
pub open spec fn ends_in_firmware_auto(record: RecordModel) -> bool {
    if record.commands.len() == 0 {
        final_readback_is_auto(record, EvidenceFan::Cpu) && final_readback_is_auto(
            record,
            EvidenceFan::Gpu,
        )
    } else {
        &&& restoration_is_recorded(record)
        &&& fan_is_commanded(record.commands, EvidenceFan::Cpu) ==> final_attempt_is_auto(
            record,
            EvidenceFan::Cpu,
        )
        &&& fan_is_commanded(record.commands, EvidenceFan::Gpu) ==> final_attempt_is_auto(
            record,
            EvidenceFan::Gpu,
        )
        &&& final_state_is_auto(record)
    }
}

/// Whether a stage is proved without telemetry samples.
pub open spec fn needs_no_samples(record: RecordModel) -> bool {
    ||| record.stage == "preflight"@
    ||| record.stage == "live-lifecycle"@
    ||| record.stage == "fan-calibration"@ && record.schema_version == 2 && calibration_is_complete(
        record,
    )
}

/// Whether a record holds a fresh sample.
pub open spec fn has_fresh_sample(record: RecordModel) -> bool {
    exists|i: int|
        0 <= i < record.samples.len() && (#[trigger] record.samples[i]).freshness
            == SampleFreshness::Fresh
}

/// Whether a passed preflight record shows Firmware Auto and nothing else.
pub open spec fn preflight_is_complete(record: RecordModel) -> bool {
    &&& record.workload is None
    &&& record.thermal_summary is None
    &&& record.commands.len() == 0
    &&& record.state_transitions.len() == 0
    &&& record.restoration_attempts.len() == 0
    &&& record.calibration.len() == 0
    &&& final_readback_is_auto(record, EvidenceFan::Cpu)
    &&& final_readback_is_auto(record, EvidenceFan::Gpu)
}

/// Whether a passed record of any other stage shows a workload under Custom control that ended in
/// Firmware Auto.
pub open spec fn custom_run_is_complete(record: RecordModel) -> bool {
    &&& record.workload is Some
    &&& record.thermal_summary is Some
    &&& record.commands.len() > 0
    &&& record.state_transitions.len() > 0
    &&& record.restoration_attempts.len() > 0
    &&& final_attempt_is_auto(record, EvidenceFan::Cpu)
    &&& final_attempt_is_auto(record, EvidenceFan::Gpu)
    &&& final_state_is_auto(record)
}

/// Whether a passed record proves what its stage asks for.
pub open spec fn stage_is_complete(record: RecordModel, slopes: FinalSlopes) -> bool {
    let second = record.schema_version == 2;
    if record.stage == "preflight"@ {
        preflight_is_complete(record)
    } else if record.stage == "firmware-auto-baseline"@ {
        baseline_is_complete(record, slopes)
    } else if record.stage == "matched-workload"@ && second {
        matched_is_complete(record, slopes)
    } else if record.stage == "live-lifecycle"@ && second {
        lifecycle_is_complete(record)
    } else if record.stage == "supervised-endurance"@ && second {
        endurance_is_complete(record, slopes)
    } else if record.stage == "fan-calibration"@ && second {
        calibration_is_complete(record) || custom_run_is_complete(record)
    } else {
        custom_run_is_complete(record)
    }
}

/// What is wrong with the number of calibrations or process stops, or with a calibration's
/// outcome.
pub open spec fn stage_count_error(record: RecordModel) -> Option<EvidenceValidationError> {
    if record.schema_version == 2 && !calibration_count_is_valid(record) {
        invalid_value("calibration", record.calibration.len() as int)
    } else if record.schema_version == 2 && record.stage == "fan-calibration"@
        && record.outcome.status != RunOutcomeStatus::Passed {
        invalid_value("outcome.status", 0)
    } else {
        None
    }
}

/// Process stops belong to the endurance stage alone.
pub open spec fn stops_error(record: RecordModel) -> Option<EvidenceValidationError> {
    if record.stage != "supervised-endurance"@ && record.process_stops.len() > 0 {
        invalid_value("process_stops", 0)
    } else {
        None
    }
}

/// What is wrong with a record's outcome.
pub open spec fn outcome_error(record: RecordModel, slopes: FinalSlopes) -> Option<
    EvidenceValidationError,
> {
    let passed = record.outcome.status == RunOutcomeStatus::Passed;
    if record.commands.len() > 0 && !restoration_is_recorded(record) && passed {
        invalid_value("outcome.restoration_evidence", 0)
    } else if record.outcome.final_firmware_auto_confirmed != ends_in_firmware_auto(record) {
        invalid_value("outcome.final_firmware_auto_confirmed", 0)
    } else if passed && ((!needs_no_samples(record) && !has_fresh_sample(record))
        || record.readbacks.len() == 0 || !record.outcome.final_firmware_auto_confirmed) {
        invalid_value("outcome.passed_evidence", 0)
    } else if passed && !stage_is_complete(record, slopes) {
        invalid_value("outcome.stage_evidence", 0)
    } else if record.outcome.reason.len() == 0 {
        invalid_value("outcome.reason", 0)
    } else {
        None
    }
}

/// The first rule that a record breaks, in the order in which the rules are stated.
pub open spec fn validation_error(record: RecordModel, slopes: FinalSlopes) -> Option<
    EvidenceValidationError,
> {
    otherwise(
        schema_error(record),
        otherwise(
            header_error(record),
            otherwise(
                first_error(sample_checks(record), record.samples.len()),
                otherwise(
                    first_error(command_checks(record), record.commands.len()),
                    otherwise(
                        first_error(readback_checks(record), record.readbacks.len()),
                        otherwise(
                            first_error(transition_checks(record), record.state_transitions.len()),
                            otherwise(
                                first_error(fault_checks(record), record.faults.len()),
                                otherwise(
                                    first_error(
                                        attempt_checks(record),
                                        record.restoration_attempts.len(),
                                    ),
                                    otherwise(
                                        stops_error(record),
                                        otherwise(
                                            first_error(
                                                stop_checks(record),
                                                record.process_stops.len(),
                                            ),
                                            otherwise(
                                                stage_count_error(record),
                                                otherwise(
                                                    first_error(
                                                        calibration_checks(record),
                                                        record.calibration.len(),
                                                    ),
                                                    outcome_error(record, slopes),
                                                ),
                                            ),
                                        ),
                                    ),
                                ),
                            ),
                        ),
                    ),
                ),
            ),
        ),
    )
}

/// Whether a record is valid evidence.
pub open spec fn is_valid(record: RecordModel, slopes: FinalSlopes) -> bool {
    validation_error(record, slopes) is None
}

/// Valid evidence claims a final Firmware Auto exactly where it proves one, and a run that passed
/// always does.
pub proof fn valid_evidence_is_honest_about_firmware_auto(record: RecordModel, slopes: FinalSlopes)
    requires
        is_valid(record, slopes),
    ensures
        record.outcome.final_firmware_auto_confirmed == ends_in_firmware_auto(record),
        record.outcome.status == RunOutcomeStatus::Passed ==> ends_in_firmware_auto(record)
            && stage_is_complete(record, slopes),
{
    assert(outcome_error(record, slopes) is None);
}

fn restoration_fits(record: &EvidenceRecord) -> (yes: bool)
    ensures
        yes == restoration_is_recorded(record@),
{
    (!fan_has_commands(&record.commands, EvidenceFan::Cpu)
        || final_restoration_attempt_after_command(record, EvidenceFan::Cpu).is_some()) && (
    !fan_has_commands(&record.commands, EvidenceFan::Gpu)
        || final_restoration_attempt_after_command(record, EvidenceFan::Gpu).is_some())
        && final_state_follows_restoration(record)
}

fn firmware_auto_is_final(record: &EvidenceRecord) -> (yes: bool)
    ensures
        yes == ends_in_firmware_auto(record@),
{
    if record.commands.len() == 0 {
        final_enable_readback_confirms_auto(record, EvidenceFan::Cpu)
            && final_enable_readback_confirms_auto(record, EvidenceFan::Gpu)
    } else {
        restoration_fits(record) && (!fan_has_commands(&record.commands, EvidenceFan::Cpu)
            || final_restoration_confirms_auto(record, EvidenceFan::Cpu)) && (!fan_has_commands(
            &record.commands,
            EvidenceFan::Gpu,
        ) || final_restoration_confirms_auto(record, EvidenceFan::Gpu))
            && final_state_confirms_auto(record)
    }
}

fn holds_fresh_sample(record: &EvidenceRecord) -> (yes: bool)
    ensures
        yes == has_fresh_sample(record@),
{
    let mut i: usize = 0;
    while i < record.samples.len()
        invariant
            i <= record.samples.len(),
            forall|k: int|
                0 <= k < i ==> (#[trigger] record@.samples[k]).freshness != SampleFreshness::Fresh,
        decreases record.samples.len() - i,
    {
        if record.samples[i].freshness == SampleFreshness::Fresh {
            assert(record@.samples[i as int].freshness == SampleFreshness::Fresh);
            return true;
        }
        i = i + 1;
    }
    false
}

fn custom_run_fits(record: &EvidenceRecord) -> (yes: bool)
    ensures
        yes == custom_run_is_complete(record@),
{
    record.workload.is_some() && record.thermal_summary.is_some() && record.commands.len() > 0
        && record.state_transitions.len() > 0 && record.restoration_attempts.len() > 0
        && final_restoration_confirms_auto(record, EvidenceFan::Cpu)
        && final_restoration_confirms_auto(record, EvidenceFan::Gpu) && final_state_confirms_auto(
        record,
    )
}

fn stage_fits(record: &EvidenceRecord, slopes: FinalSlopes) -> (yes: bool)
    ensures
        yes == stage_is_complete(record@, slopes),
{
    let stage = record.stage.as_str();
    let second = record.schema_version == EVIDENCE_SCHEMA_VERSION_V2;
    if same_text(stage, "preflight") {
        record.workload.is_none() && record.thermal_summary.is_none() && record.commands.len() == 0
            && record.state_transitions.len() == 0 && record.restoration_attempts.len() == 0
            && record.calibration.len() == 0 && final_enable_readback_confirms_auto(
            record,
            EvidenceFan::Cpu,
        ) && final_enable_readback_confirms_auto(record, EvidenceFan::Gpu)
    } else if same_text(stage, "firmware-auto-baseline") {
        firmware_auto_baseline_is_complete(record, slopes)
    } else if same_text(stage, "matched-workload") && second {
        matched_workload_is_complete(record, slopes)
    } else if same_text(stage, "live-lifecycle") && second {
        live_lifecycle_is_complete(record)
    } else if same_text(stage, "supervised-endurance") && second {
        supervised_endurance_is_complete(record, slopes)
    } else if same_text(stage, "fan-calibration") && second {
        fan_calibration_is_complete(record) || custom_run_fits(record)
    } else {
        custom_run_fits(record)
    }
}

fn validate_outcome(record: &EvidenceRecord, slopes: FinalSlopes) -> (result: Result<
    (),
    EvidenceValidationError,
>)
    ensures
        result == verdict(outcome_error(record@, slopes)),
{
    let passed = record.outcome.status == RunOutcomeStatus::Passed;
    if record.commands.len() > 0 && passed && !restoration_fits(record) {
        return invalid("outcome.restoration_evidence", 0);
    }
    if record.outcome.final_firmware_auto_confirmed != firmware_auto_is_final(record) {
        return invalid("outcome.final_firmware_auto_confirmed", 0);
    }
    if passed {
        let stage = record.stage.as_str();
        let sampleless = same_text(stage, "preflight") || same_text(stage, "live-lifecycle") || (
        same_text(stage, "fan-calibration") && record.schema_version == EVIDENCE_SCHEMA_VERSION_V2
            && fan_calibration_is_complete(record));
        if (!sampleless && !holds_fresh_sample(record)) || record.readbacks.len() == 0
            || !record.outcome.final_firmware_auto_confirmed {
            return invalid("outcome.passed_evidence", 0);
        }
        if !stage_fits(record, slopes) {
            return invalid("outcome.stage_evidence", 0);
        }
    }
    if record.outcome.reason.as_str().is_empty() {
        return invalid("outcome.reason", 0);
    }
    Ok(())
}

fn validate_stage_counts(record: &EvidenceRecord) -> (result: Result<(), EvidenceValidationError>)
    ensures
        result == verdict(stage_count_error(record@)),
{
    assert(record@.calibration.len() == record.calibration@.len());
    if record.schema_version == EVIDENCE_SCHEMA_VERSION_V2 && !calibration_count_fits(record) {
        return invalid("calibration", record.calibration.len());
    }
    if record.schema_version == EVIDENCE_SCHEMA_VERSION_V2 && same_text(
        record.stage.as_str(),
        "fan-calibration",
    ) && record.outcome.status != RunOutcomeStatus::Passed {
        return invalid("outcome.status", 0);
    }
    Ok(())
}

impl EvidenceRecord {
    /// Finds the first rule that the record breaks. `slopes` are those of the record's samples.
    pub fn validate(&self, slopes: FinalSlopes) -> (result: Result<(), EvidenceValidationError>)
        ensures
            result == verdict(validation_error(self@, slopes)),
    {
        match validate_schema(self) {
            Ok(()) => {},
            Err(error) => {
                return Err(error);
            },
        }
        match validate_header(self) {
            Ok(()) => {},
            Err(error) => {
                return Err(error);
            },
        }
        match validate_samples(self) {
            Ok(()) => {},
            Err(error) => {
                return Err(error);
            },
        }
        match validate_commands(self) {
            Ok(()) => {},
            Err(error) => {
                return Err(error);
            },
        }
        match validate_readbacks(self) {
            Ok(()) => {},
            Err(error) => {
                return Err(error);
            },
        }
        match validate_transitions(self) {
            Ok(()) => {},
            Err(error) => {
                return Err(error);
            },
        }
        match validate_faults(self) {
            Ok(()) => {},
            Err(error) => {
                return Err(error);
            },
        }
        match validate_attempts(self) {
            Ok(()) => {},
            Err(error) => {
                return Err(error);
            },
        }
        if !same_text(self.stage.as_str(), "supervised-endurance") && self.process_stops.len() > 0 {
            return invalid("process_stops", 0);
        }
        match validate_stops(self) {
            Ok(()) => {},
            Err(error) => {
                return Err(error);
            },
        }
        match validate_stage_counts(self) {
            Ok(()) => {},
            Err(error) => {
                return Err(error);
            },
        }
        match validate_calibrations(self) {
            Ok(()) => {},
            Err(error) => {
                return Err(error);
            },
        }
        validate_outcome(self, slopes)
    }
}

} // verus!
