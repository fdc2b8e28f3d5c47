//! The completeness of the evidence matrix that a supervised endurance run rests on.

use vstd::prelude::*;
use vstd::string::*;
use crate::calibration_record::{calibration_is_complete, fan_calibration_is_complete};
use crate::endurance_plan::{
    artifact_error, duration_of, endurance_thermal_envelope, envelope_error, invalid_artifact,
    is_required, key_name, key_of, key_text, matrix_error, matrix_gap, plan_verdict, required_key,
    workload_key, EndurancePlanErrorModel, SupervisedEndurancePlanError, WorkloadKey,
};
use crate::endurance_record::{canonical_endurance_workload, is_canonical_workload};
use crate::evidence::{
    EnvelopeModel, EvidenceFan, EvidenceRecord, QualificationEnvelopeIdentityV1, RecordModel,
    RunOutcomeStatus, WorkloadEvidence, WorkloadModel, EVIDENCE_SCHEMA_VERSION_V2,
};
use crate::evidence_rules::{is_valid, validate_workload, validation_error, workload_error};
use crate::hash::{fingerprint, sha256_hex};
use crate::lifecycle_record::{lifecycle_is_complete, live_lifecycle_is_complete};
use crate::matched_control::{
    expectation_of, fan_name, fan_text, MatchedWorkloadTachometerCalibrations,
    TachometerExpectation,
};
use crate::matched_plan::{
    baseline_fingerprint, matched_workload_matches_baseline, matched_workload_matches_calibrations,
    matches_baseline, matches_calibrations, runs_required, EvidenceInput, InputModel,
    MatchedWorkloadClass,
};
use crate::matched_record::{matched_is_complete, matched_workload_is_complete};
use crate::select::{first_some, lemma_first_some_stays};
use crate::text::{decimal, decimal_text, is_text, join, join3, same_text};

verus! {

broadcast use vstd::string::group_string_axioms;

/// A record of the matrix, with the canonical JSON of its measurements alone.
pub struct MeasuredInput<'a> {
    pub input: EvidenceInput<'a>,
    pub measurement_json: &'a [u8],
}

/// The contents of a record of the matrix.
pub struct MeasuredModel {
    pub input: InputModel,
    pub measurement: Seq<u8>,
}

impl View for MeasuredInput<'_> {
    type V = MeasuredModel;

    open spec fn view(&self) -> MeasuredModel {
        MeasuredModel { input: self.input@, measurement: self.measurement_json@ }
    }
}

/// The contents of a list of records of the matrix.
pub open spec fn measured_inputs(entries: Seq<MeasuredInput<'_>>) -> Seq<MeasuredModel> {
    entries.map_values(|entry: MeasuredInput<'_>| entry@)
}

/// The records of a list.
pub open spec fn records_of(entries: Seq<MeasuredInput<'_>>) -> Seq<&EvidenceRecord> {
    entries.map_values(|entry: MeasuredInput<'_>| entry.input.record)
}

/// The calibration records of both fans.
pub struct SupervisedEnduranceCalibrations<'a> {
    pub cpu: EvidenceInput<'a>,
    pub gpu: EvidenceInput<'a>,
}

/// What a supervised endurance run is planned on.
pub struct SupervisedEndurancePlan<'a> {
    pub prerequisite_binding_sha256: String,
    pub preflight: EvidenceInput<'a>,
    pub baselines: &'a [MeasuredInput<'a>],
    pub matched_workload_runs: &'a [MeasuredInput<'a>],
    pub tachometer_calibrations: SupervisedEnduranceCalibrations<'a>,
    pub live_lifecycle: EvidenceInput<'a>,
    pub workload: WorkloadEvidence,
}

/// Why a record is not the complete passing evidence of a stage.
pub open spec fn required_error(
    artifact: Seq<char>,
    input: InputModel,
    stage: Seq<char>,
) -> Option<EndurancePlanErrorModel> {
    match validation_error(input.record, input.slopes) {
        Some(error) => Some(artifact_error(artifact, error.text())),
        None => if input.record.schema_version == 2 && input.record.stage == stage
            && input.record.outcome.status == RunOutcomeStatus::Passed && (stage
            == "matched-workload"@ || !input.record.outcome.another_passing_run_required)
            && input.record.outcome.final_firmware_auto_confirmed {
            None
        } else {
            Some(
                artifact_error(
                    artifact,
                    "complete passing V2 evidence ending in Firmware Auto is required"@,
                ),
            )
        },
    }
}

fn validate_required_record(
    artifact: &str,
    input: &EvidenceInput<'_>,
    stage: &str,
) -> (result: Result<(), SupervisedEndurancePlanError>)
    ensures
        plan_verdict(result, required_error(artifact@, input@, stage@)),
{
    let record = input.record;
    match record.validate(input.slopes) {
        Ok(()) => {},
        Err(error) => {
            return Err(invalid_artifact(artifact, error.message().as_str()));
        },
    }
    if record.schema_version != EVIDENCE_SCHEMA_VERSION_V2 || !same_text(
        record.stage.as_str(),
        stage,
    ) || record.outcome.status != RunOutcomeStatus::Passed || (!same_text(stage, "matched-workload")
        && record.outcome.another_passing_run_required)
        || !record.outcome.final_firmware_auto_confirmed {
        return Err(
            invalid_artifact(
                artifact,
                "complete passing V2 evidence ending in Firmware Auto is required",
            ),
        );
    }
    Ok(())
}

/// Why a record does not belong to a qualification.
pub open spec fn membership_error(
    envelope: EnvelopeModel,
    record: RecordModel,
    artifact: Seq<char>,
) -> Option<EndurancePlanErrorModel> {
    if record.envelope == envelope {
        None
    } else {
        Some(artifact_error(artifact, "qualification envelope does not match preflight"@))
    }
}

fn require_envelope(
    envelope: &QualificationEnvelopeIdentityV1,
    record: &EvidenceRecord,
    artifact: &str,
) -> (result: Result<(), SupervisedEndurancePlanError>)
    ensures
        plan_verdict(result, membership_error(envelope@, record@, artifact@)),
{
    if record.qualification_envelope.same_as(envelope) {
        Ok(())
    } else {
        Err(invalid_artifact(artifact, "qualification envelope does not match preflight"))
    }
}

/// The first of two errors.
pub open spec fn or_else(
    first: Option<EndurancePlanErrorModel>,
    second: Option<EndurancePlanErrorModel>,
) -> Option<EndurancePlanErrorModel> {
    if first is Some {
        first
    } else {
        second
    }
}

/// Whether a record is the complete passing calibration of one fan, for the qualification that a
/// baseline belongs to.
pub open spec fn calibration_qualifies(
    calibration: InputModel,
    fan: EvidenceFan,
    baseline: RecordModel,
) -> bool {
    &&& is_valid(calibration.record, calibration.slopes)
    &&& calibration.record.schema_version == 2
    &&& calibration.record.stage == "fan-calibration"@
    &&& calibration.record.outcome.status == RunOutcomeStatus::Passed
    &&& calibration_is_complete(calibration.record)
    &&& calibration.record.calibration[0].fan == fan
    &&& calibration.record.envelope == baseline.envelope
}

/// Decides [`calibration_qualifies`].
pub fn calibration_record_is_qualified(
    calibration: &EvidenceInput<'_>,
    fan: EvidenceFan,
    baseline: &EvidenceRecord,
) -> (yes: bool)
    ensures
        yes == calibration_qualifies(calibration@, fan, baseline@),
{
    let record = calibration.record;
    record.validate(calibration.slopes).is_ok() && record.schema_version
        == EVIDENCE_SCHEMA_VERSION_V2 && same_text(record.stage.as_str(), "fan-calibration")
        && record.outcome.status == RunOutcomeStatus::Passed && fan_calibration_is_complete(record)
        && record.calibration[0].fan == fan && record.qualification_envelope.same_as(
        &baseline.qualification_envelope,
    )
}

/// The text of a numbered artifact.
pub open spec fn numbered(name: Seq<char>, index: int) -> Seq<char> {
    name + decimal_text(index as nat)
}

/// An error about a numbered artifact.
pub open spec fn numbered_gap(name: Seq<char>, index: int, rest: Seq<char>) -> Option<
    EndurancePlanErrorModel,
> {
    Some(matrix_gap(numbered(name, index) + rest))
}

fn numbered_error(name: &str, index: usize, rest: &str) -> (result: Result<
    (),
    SupervisedEndurancePlanError,
>)
    ensures
        result is Err && Some(result->Err_0@) == numbered_gap(name@, index as int, rest@),
{
    Err(matrix_error(join3(name, decimal(index as u64).as_str(), rest).as_str()))
}

/// Whether a baseline covers exactly the duration that its place requires.
pub open spec fn covers_duration(record: RecordModel, key: WorkloadKey) -> bool {
    &&& record.samples.len() == duration_of(key) / 2_000
    &&& record.samples.len() > 0
    &&& record.workload_started_at matches Some(started)
        && record.samples.last().timestamp.monotonic_millis - started.monotonic_millis
        == duration_of(key)
}

fn duration_is_covered(record: &EvidenceRecord, key: WorkloadKey) -> (yes: bool)
    requires
        is_required(key),
    ensures
        yes == covers_duration(record@, key),
{
    let required: u64 = key.required_duration_millis();
    let count = record.samples.len();
    if count as u64 != required / 2_000 || count == 0 {
        return false;
    }
    match record.workload_started_at {
        Some(started) => {
            let last: u64 = record.samples[count - 1].timestamp.monotonic_millis;
            last >= started.monotonic_millis && last - started.monotonic_millis == required
        },
        None => false,
    }
}

/// Whether an earlier record has the same measurements.
pub open spec fn repeats_measurement(entries: Seq<MeasuredModel>, index: int) -> bool {
    exists|j: int|
        0 <= j < index && fingerprint(#[trigger] entries[j].measurement) == fingerprint(
            entries[index].measurement,
        )
}

/// Whether an earlier record fills the same place.
pub open spec fn repeats_key(entries: Seq<MeasuredModel>, index: int) -> bool {
    exists|j: int|
        0 <= j < index && key_of(#[trigger] entries[j].input.record) == key_of(
            entries[index].input.record,
        )
}

/// What is wrong with a baseline of the matrix.
pub open spec fn baseline_error(
    envelope: EnvelopeModel,
    baselines: Seq<MeasuredModel>,
    index: int,
) -> Option<EndurancePlanErrorModel> {
    let entry = baselines[index].input;
    let name = numbered("baseline "@, index);
    or_else(
        or_else(
            required_error(name, entry, "firmware-auto-baseline"@),
            membership_error(envelope, entry.record, name),
        ),
        match key_of(entry.record) {
            None => numbered_gap("baseline "@, index, " has an unsupported workload/profile"@),
            Some(key) => if !is_required(key) {
                numbered_gap("baseline "@, index, " is outside the required matrix"@)
            } else if repeats_measurement(baselines, index) {
                numbered_gap("baseline "@, index, " reuses an earlier measurement transcript"@)
            } else if !covers_duration(entry.record, key) {
                numbered_gap("baseline "@, index, " does not cover the exact required duration"@)
            } else if repeats_key(baselines, index) {
                Some(matrix_gap("duplicate "@ + key_text(key) + " baseline"@))
            } else {
                None
            },
        },
    )
}

/// The checks on the baselines, by place.
pub open spec fn baseline_checks(
    envelope: EnvelopeModel,
    baselines: Seq<MeasuredModel>,
) -> spec_fn(int) -> Option<EndurancePlanErrorModel> {
    |i: int| baseline_error(envelope, baselines, i)
}

/// The place of the first record that fills a key.
pub open spec fn position_of(
    entries: Seq<MeasuredModel>,
    key: WorkloadKey,
    count: nat,
) -> Option<int>
    decreases count,
{
    if count == 0 {
        None
    } else {
        match position_of(entries, key, (count - 1) as nat) {
            Some(i) => Some(i),
            None => if key_of(entries[count - 1].input.record) == Some(key) {
                Some(count - 1)
            } else {
                None
            },
        }
    }
}

proof fn lemma_position_stays(entries: Seq<MeasuredModel>, key: WorkloadKey, count: nat, total: nat)
    requires
        count <= total,
        position_of(entries, key, count) is Some,
    ensures
        position_of(entries, key, total) == position_of(entries, key, count),
    decreases total - count,
{
    if count < total {
        lemma_position_stays(entries, key, count + 1, total);
    }
}

/// Whether every place of the matrix has a baseline.
pub open spec fn matrix_is_filled(baselines: Seq<MeasuredModel>) -> bool {
    &&& baselines.len() == 7
    &&& forall|i: int|
        0 <= i < 7 ==> position_of(baselines, #[trigger] required_key(i), baselines.len()) is Some
}

/// Whether a run is a complete match for its calibrations and for a baseline with a given
/// fingerprint.
pub open spec fn run_matches_place(
    run: InputModel,
    baseline: InputModel,
    binding: Seq<char>,
    cpu: TachometerExpectation,
    gpu: TachometerExpectation,
) -> bool {
    &&& matched_is_complete(run.record, run.slopes)
    &&& run.record.baseline_binding_sha256 == Some(binding)
    &&& matches_baseline(run.record, baseline.record, run.slopes)
    &&& matches_calibrations(run.record, cpu, gpu)
}

/// Decides [`run_matches_place`].
pub fn run_fits_place(
    run: &EvidenceInput<'_>,
    baseline: &EvidenceInput<'_>,
    binding: &str,
    calibrations: MatchedWorkloadTachometerCalibrations<'_>,
) -> (yes: bool)
    ensures
        yes == run_matches_place(
            run@,
            baseline@,
            binding@,
            expectation_of(*calibrations.cpu),
            expectation_of(*calibrations.gpu),
        ),
{
    matched_workload_is_complete(run.record, run.slopes) && is_text(
        &run.record.baseline_binding_sha256,
        binding,
    ) && matched_workload_matches_baseline(run.record, baseline.record, run.slopes)
        && matched_workload_matches_calibrations(run.record, calibrations)
}

/// What is wrong with a matched run of the matrix.
pub open spec fn run_error(
    envelope: EnvelopeModel,
    baselines: Seq<MeasuredModel>,
    runs: Seq<MeasuredModel>,
    cpu: TachometerExpectation,
    gpu: TachometerExpectation,
    index: int,
) -> Option<EndurancePlanErrorModel> {
    let entry = runs[index].input;
    let name = numbered("matched run "@, index);
    or_else(
        or_else(
            required_error(name, entry, "matched-workload"@),
            membership_error(envelope, entry.record, name),
        ),
        match key_of(entry.record) {
            None => numbered_gap("matched run "@, index, " has an unsupported workload/profile"@),
            Some(key) => match position_of(baselines, key, baselines.len()) {
                None => numbered_gap("matched run "@, index, " has no required baseline"@),
                Some(place) => {
                    let baseline = baselines[place].input;
                    if !run_matches_place(
                        entry,
                        baseline,
                        fingerprint(baseline.canonical),
                        cpu,
                        gpu,
                    ) {
                        Some(
                            artifact_error(
                                name,
                                "run is not a complete match for its baseline and calibrations"@,
                            ),
                        )
                    } else if repeats_measurement(runs, index) {
                        numbered_gap("matched run "@, index, " duplicates an earlier artifact"@)
                    } else {
                        None
                    }
                },
            },
        },
    )
}

/// The checks on the matched runs, by place.
pub open spec fn run_checks(
    envelope: EnvelopeModel,
    baselines: Seq<MeasuredModel>,
    runs: Seq<MeasuredModel>,
    cpu: TachometerExpectation,
    gpu: TachometerExpectation,
) -> spec_fn(int) -> Option<EndurancePlanErrorModel> {
    |i: int| run_error(envelope, baselines, runs, cpu, gpu, i)
}

/// How many of the first runs fill a place.
pub open spec fn runs_of(runs: Seq<MeasuredModel>, key: WorkloadKey, count: nat) -> nat
    decreases count,
{
    if count == 0 {
        0
    } else {
        runs_of(runs, key, (count - 1) as nat) + if key_of(runs[count - 1].input.record) == Some(
            key,
        ) {
            1nat
        } else {
            0
        }
    }
}

/// How many of the first runs fill a place and ask for no further run.
pub open spec fn final_runs_of(runs: Seq<MeasuredModel>, key: WorkloadKey, count: nat) -> nat
    decreases count,
{
    if count == 0 {
        0
    } else {
        final_runs_of(runs, key, (count - 1) as nat) + if key_of(runs[count - 1].input.record)
            == Some(key) && !runs[count - 1].input.record.outcome.another_passing_run_required {
            1nat
        } else {
            0
        }
    }
}

/// What is missing of the runs of one place.
pub open spec fn count_error(runs: Seq<MeasuredModel>, index: int) -> Option<
    EndurancePlanErrorModel,
> {
    let key = required_key(index);
    let required = runs_required(key.class);
    if runs_of(runs, key, runs.len()) != required || final_runs_of(runs, key, runs.len()) == 0 {
        Some(
            matrix_gap(
                key_text(key) + " requires exactly "@ + decimal_text(required)
                    + " passing Custom runs ending in a final run"@,
            ),
        )
    } else {
        None
    }
}

/// The checks on the number of runs, by place.
pub open spec fn count_checks(runs: Seq<MeasuredModel>) -> spec_fn(int) -> Option<
    EndurancePlanErrorModel,
> {
    |i: int| count_error(runs, i)
}

/// What is wrong with a fan's calibration.
pub open spec fn fan_calibration_error(
    calibration: InputModel,
    fan: EvidenceFan,
    baselines: Seq<MeasuredModel>,
) -> Option<EndurancePlanErrorModel> {
    if baselines.len() == 0 {
        Some(matrix_gap("seven Firmware Auto baselines are required"@))
    } else if !calibration_qualifies(calibration, fan, baselines[0].input.record) {
        Some(
            artifact_error(
                fan_text(fan) + " calibration"@,
                "complete passing calibration for the qualification envelope is required"@,
            ),
        )
    } else {
        None
    }
}

/// What a calibration record expects of its fan.
pub open spec fn expected_of_record(record: RecordModel) -> TachometerExpectation {
    TachometerExpectation {
        anchors: record.calibration[0].anchors,
        response_deadline_millis: record.calibration[0].response_deadline_millis,
    }
}

/// What is wrong with the preflight, the calibrations and the lifecycle qualification.
pub open spec fn prerequisite_error(plan: SupervisedEndurancePlan<'_>) -> Option<
    EndurancePlanErrorModel,
> {
    let baselines = measured_inputs(plan.baselines@);
    let preflight = or_else(
        required_error("preflight"@, plan.preflight@, "preflight"@),
        if plan.preflight@.record.faults.len() > 0 {
            Some(artifact_error("preflight"@, "fault-free preflight evidence is required"@))
        } else {
            None
        },
    );
    let calibrations = or_else(
        fan_calibration_error(plan.tachometer_calibrations.cpu@, EvidenceFan::Cpu, baselines),
        fan_calibration_error(plan.tachometer_calibrations.gpu@, EvidenceFan::Gpu, baselines),
    );
    let lifecycle = or_else(
        required_error("live lifecycle"@, plan.live_lifecycle@, "live-lifecycle"@),
        if lifecycle_is_complete(plan.live_lifecycle@.record) {
            None
        } else {
            Some(artifact_error("live lifecycle"@, "all lifecycle cases must pass"@))
        },
    );
    or_else(or_else(preflight, calibrations), lifecycle)
}

/// What is wrong with the workload matrix.
pub open spec fn matrix_defect(plan: SupervisedEndurancePlan<'_>) -> Option<
    EndurancePlanErrorModel,
> {
    let envelope = plan.preflight@.record.envelope;
    let baselines = measured_inputs(plan.baselines@);
    let runs = measured_inputs(plan.matched_workload_runs@);
    let cpu = expected_of_record(plan.tachometer_calibrations.cpu@.record);
    let gpu = expected_of_record(plan.tachometer_calibrations.gpu@.record);
    let complete = or_else(
        first_some(baseline_checks(envelope, baselines), baselines.len()),
        if matrix_is_filled(baselines) {
            None
        } else {
            Some(matrix_gap("the seven required Firmware Auto baselines are not complete"@))
        },
    );
    or_else(
        or_else(
            complete,
            first_some(run_checks(envelope, baselines, runs, cpu, gpu), runs.len()),
        ),
        first_some(count_checks(runs), 7),
    )
}

/// What is wrong with a plan.
pub open spec fn qualification_error(plan: SupervisedEndurancePlan<'_>) -> Option<
    EndurancePlanErrorModel,
> {
    let envelope = plan.preflight@.record.envelope;
    let members = or_else(
        or_else(
            membership_error(envelope, plan.live_lifecycle@.record, "live lifecycle"@),
            membership_error(
                envelope,
                plan.tachometer_calibrations.cpu@.record,
                "CPU calibration"@,
            ),
        ),
        membership_error(envelope, plan.tachometer_calibrations.gpu@.record, "GPU calibration"@),
    );
    or_else(
        or_else(or_else(prerequisite_error(plan), matrix_defect(plan)), members),
        envelope_error(records_of(plan.baselines@)),
    )
}

fn is_repeated(known: &Vec<String>, text: &str) -> (yes: bool)
    ensures
        yes == exists|j: int| 0 <= j < known@.len() && (#[trigger] known@[j])@ == text@,
{
    let mut i: usize = 0;
    while i < known.len()
        invariant
            i <= known.len(),
            forall|j: int| 0 <= j < i ==> (#[trigger] known@[j])@ != text@,
        decreases known.len() - i,
    {
        if same_text(known[i].as_str(), text) {
            return true;
        }
        i = i + 1;
    }
    false
}

/// Whether a list holds the measurement fingerprints of the first records.
spec fn knows_measurements(known: Seq<String>, entries: Seq<MeasuredModel>, count: int) -> bool {
    &&& known.len() == count
    &&& forall|j: int|
        0 <= j < count ==> (#[trigger] known[j])@ == fingerprint(entries[j].measurement)
}

fn measurement_is_repeated(
    known: &Vec<String>,
    text: &str,
    entries: Ghost<Seq<MeasuredModel>>,
) -> (yes:
    bool)
    requires
        knows_measurements(known@, entries@, known@.len() as int),
        known@.len() < entries@.len(),
        text@ == fingerprint(entries@[known@.len() as int].measurement),
    ensures
        yes == repeats_measurement(entries@, known@.len() as int),
{
    let yes = is_repeated(known, text);
    proof {
        let index = known@.len() as int;
        if yes {
            let j = choose|j: int| 0 <= j < known@.len() && (#[trigger] known@[j])@ == text@;
            assert(fingerprint(entries@[j].measurement) == fingerprint(entries@[index].measurement));
        } else {
            assert forall|j: int| 0 <= j < index implies fingerprint(
                #[trigger] entries@[j].measurement,
            ) != fingerprint(entries@[index].measurement) by {
                assert(known@[j]@ != text@);
            }
        }
    }
    yes
}

fn key_is_repeated(baselines: &[MeasuredInput<'_>], index: usize, key: WorkloadKey) -> (yes: bool)
    requires
        index < baselines@.len(),
        key_of(baselines@[index as int].input@.record) == Some(key),
    ensures
        yes == repeats_key(measured_inputs(baselines@), index as int),
{
    let ghost models = measured_inputs(baselines@);
    let mut i: usize = 0;
    while i < index
        invariant
            i <= index < baselines@.len(),
            models == measured_inputs(baselines@),
            key_of(models[index as int].input.record) == Some(key),
            forall|j: int|
                0 <= j < i ==> key_of(#[trigger] models[j].input.record) != key_of(
                    models[index as int].input.record,
                ),
        decreases index - i,
    {
        assert(models[i as int] == baselines@[i as int]@);
        match workload_key(baselines[i].input.record) {
            Some(other) => {
                if other == key {
                    assert(key_of(models[i as int].input.record) == key_of(
                        models[index as int].input.record,
                    ));
                    return true;
                }
            },
            None => {},
        }
        i = i + 1;
    }
    false
}

fn validate_baseline(
    envelope: &QualificationEnvelopeIdentityV1,
    baselines: &[MeasuredInput<'_>],
    index: usize,
    known: &Vec<String>,
    text: &str,
) -> (result: Result<(), SupervisedEndurancePlanError>)
    requires
        index < baselines@.len(),
        knows_measurements(known@, measured_inputs(baselines@), index as int),
        text@ == fingerprint(baselines@[index as int]@.measurement),
    ensures
        plan_verdict(
            result,
            baseline_error(envelope@, measured_inputs(baselines@), index as int),
        ),
{
    let ghost models = measured_inputs(baselines@);
    assert(models[index as int] == baselines@[index as int]@);
    let input = &baselines[index].input;
    let name = join("baseline ", decimal(index as u64).as_str());
    match validate_required_record(name.as_str(), input, "firmware-auto-baseline") {
        Ok(()) => {},
        Err(error) => {
            return Err(error);
        },
    }
    match require_envelope(envelope, input.record, name.as_str()) {
        Ok(()) => {},
        Err(error) => {
            return Err(error);
        },
    }
    let key = match workload_key(input.record) {
        Some(key) => key,
        None => {
            return numbered_error("baseline ", index, " has an unsupported workload/profile");
        },
    };
    if key.profile == crate::evidence::EvidenceProfile::Battery && key.class
        == MatchedWorkloadClass::Combined {
        return numbered_error("baseline ", index, " is outside the required matrix");
    }
    if measurement_is_repeated(known, text, Ghost(models)) {
        return numbered_error("baseline ", index, " reuses an earlier measurement transcript");
    }
    if !duration_is_covered(input.record, key) {
        return numbered_error("baseline ", index, " does not cover the exact required duration");
    }
    if key_is_repeated(baselines, index, key) {
        return Err(
            matrix_error(join3("duplicate ", key_name(key).as_str(), " baseline").as_str()),
        );
    }
    Ok(())
}

fn validate_baselines(
    envelope: &QualificationEnvelopeIdentityV1,
    baselines: &[MeasuredInput<'_>],
) -> (result: Result<(), SupervisedEndurancePlanError>)
    ensures
        plan_verdict(
            result,
            first_some(
                baseline_checks(envelope@, measured_inputs(baselines@)),
                measured_inputs(baselines@).len(),
            ),
        ),
{
    let ghost models = measured_inputs(baselines@);
    let ghost checks = baseline_checks(envelope@, models);
    let mut known: Vec<String> = Vec::new();
    let mut i: usize = 0;
    while i < baselines.len()
        invariant
            i <= baselines@.len(),
            models == measured_inputs(baselines@),
            checks == baseline_checks(envelope@, models),
            knows_measurements(known@, models, i as int),
            first_some(checks, i as nat) is None,
        decreases baselines@.len() - i,
    {
        assert(models[i as int] == baselines@[i as int]@);
        let text = sha256_hex(baselines[i].measurement_json);
        match validate_baseline(envelope, baselines, i, &known, text.as_str()) {
            Ok(()) => {},
            Err(error) => {
                proof {
                    assert(checks(i as int) == Some(error@));
                    lemma_first_some_stays(checks, (i + 1) as nat, models.len());
                }
                return Err(error);
            },
        }
        known.push(text);
        i = i + 1;
    }
    Ok(())
}

/// Finds the first baseline that fills a place.
fn find_position(baselines: &[MeasuredInput<'_>], key: WorkloadKey) -> (found: Option<usize>)
    ensures
        position_of(measured_inputs(baselines@), key, baselines@.len()) == match found {
            Some(i) => Some(i as int),
            None => None,
        },
        found matches Some(i) ==> i < baselines@.len(),
{
    let ghost models = measured_inputs(baselines@);
    let mut i: usize = 0;
    while i < baselines.len()
        invariant
            i <= baselines@.len(),
            models == measured_inputs(baselines@),
            position_of(models, key, i as nat) is None,
        decreases baselines@.len() - i,
    {
        assert(models[i as int] == baselines@[i as int]@);
        match workload_key(baselines[i].input.record) {
            Some(other) => {
                if other == key {
                    proof {
                        lemma_position_stays(models, key, (i + 1) as nat, models.len());
                    }
                    return Some(i);
                }
            },
            None => {},
        }
        i = i + 1;
    }
    None
}

fn every_place_is_filled(baselines: &[MeasuredInput<'_>]) -> (yes: bool)
    ensures
        yes == matrix_is_filled(measured_inputs(baselines@)),
{
    let ghost models = measured_inputs(baselines@);
    if baselines.len() != 7 {
        return false;
    }
    let mut i: usize = 0;
    while i < 7
        invariant
            i <= 7,
            models == measured_inputs(baselines@),
            forall|k: int|
                0 <= k < i ==> position_of(
                    models,
                    #[trigger] required_key(k),
                    models.len(),
                ) is Some,
        decreases 7 - i,
    {
        if find_position(baselines, WorkloadKey::expected(i)).is_none() {
            assert(position_of(models, required_key(i as int), models.len()) is None);
            return false;
        }
        i = i + 1;
    }
    true
}

fn validate_run(
    envelope: &QualificationEnvelopeIdentityV1,
    baselines: &[MeasuredInput<'_>],
    runs: &[MeasuredInput<'_>],
    calibrations: MatchedWorkloadTachometerCalibrations<'_>,
    index: usize,
    known: &Vec<String>,
    text: &str,
) -> (result: Result<(), SupervisedEndurancePlanError>)
    requires
        index < runs@.len(),
        knows_measurements(known@, measured_inputs(runs@), index as int),
        text@ == fingerprint(runs@[index as int]@.measurement),
    ensures
        plan_verdict(
            result,
            run_error(
                envelope@,
                measured_inputs(baselines@),
                measured_inputs(runs@),
                expectation_of(*calibrations.cpu),
                expectation_of(*calibrations.gpu),
                index as int,
            ),
        ),
{
    let ghost models = measured_inputs(runs@);
    assert(models[index as int] == runs@[index as int]@);
    let input = &runs[index].input;
    let name = join("matched run ", decimal(index as u64).as_str());
    match validate_required_record(name.as_str(), input, "matched-workload") {
        Ok(()) => {},
        Err(error) => {
            return Err(error);
        },
    }
    match require_envelope(envelope, input.record, name.as_str()) {
        Ok(()) => {},
        Err(error) => {
            return Err(error);
        },
    }
    let key = match workload_key(input.record) {
        Some(key) => key,
        None => {
            return numbered_error("matched run ", index, " has an unsupported workload/profile");
        },
    };
    let place = match find_position(baselines, key) {
        Some(place) => place,
        None => {
            return numbered_error("matched run ", index, " has no required baseline");
        },
    };
    let baseline = &baselines[place].input;
    assert(measured_inputs(baselines@)[place as int] == baselines@[place as int]@);
    if !run_fits_place(input, baseline, baseline_fingerprint(baseline).as_str(), calibrations) {
        return Err(
            invalid_artifact(
                name.as_str(),
                "run is not a complete match for its baseline and calibrations",
            ),
        );
    }
    if measurement_is_repeated(known, text, Ghost(models)) {
        return numbered_error("matched run ", index, " duplicates an earlier artifact");
    }
    Ok(())
}

fn validate_runs(
    envelope: &QualificationEnvelopeIdentityV1,
    baselines: &[MeasuredInput<'_>],
    runs: &[MeasuredInput<'_>],
    calibrations: MatchedWorkloadTachometerCalibrations<'_>,
) -> (result: Result<(), SupervisedEndurancePlanError>)
    ensures
        plan_verdict(
            result,
            first_some(
                run_checks(
                    envelope@,
                    measured_inputs(baselines@),
                    measured_inputs(runs@),
                    expectation_of(*calibrations.cpu),
                    expectation_of(*calibrations.gpu),
                ),
                measured_inputs(runs@).len(),
            ),
        ),
{
    let ghost references = measured_inputs(baselines@);
    let ghost models = measured_inputs(runs@);
    let ghost checks = run_checks(
        envelope@,
        references,
        models,
        expectation_of(*calibrations.cpu),
        expectation_of(*calibrations.gpu),
    );
    let mut known: Vec<String> = Vec::new();
    let mut i: usize = 0;
    while i < runs.len()
        invariant
            i <= runs@.len(),
            references == measured_inputs(baselines@),
            models == measured_inputs(runs@),
            checks == run_checks(
                envelope@,
                references,
                models,
                expectation_of(*calibrations.cpu),
                expectation_of(*calibrations.gpu),
            ),
            knows_measurements(known@, models, i as int),
            first_some(checks, i as nat) is None,
        decreases runs@.len() - i,
    {
        assert(models[i as int] == runs@[i as int]@);
        let text = sha256_hex(runs[i].measurement_json);
        match validate_run(envelope, baselines, runs, calibrations, i, &known, text.as_str()) {
            Ok(()) => {},
            Err(error) => {
                proof {
                    assert(checks(i as int) == Some(error@));
                    lemma_first_some_stays(checks, (i + 1) as nat, models.len());
                }
                return Err(error);
            },
        }
        known.push(text);
        i = i + 1;
    }
    Ok(())
}

fn count_runs(runs: &[MeasuredInput<'_>], key: WorkloadKey) -> (counts: (usize, usize))
    ensures
        counts.0 == runs_of(measured_inputs(runs@), key, measured_inputs(runs@).len()),
        counts.1 == final_runs_of(measured_inputs(runs@), key, measured_inputs(runs@).len()),
{
    let ghost models = measured_inputs(runs@);
    let mut all: usize = 0;
    let mut last: usize = 0;
    let mut i: usize = 0;
    while i < runs.len()
        invariant
            i <= runs@.len(),
            models == measured_inputs(runs@),
            all == runs_of(models, key, i as nat),
            last == final_runs_of(models, key, i as nat),
            last <= all <= i,
        decreases runs@.len() - i,
    {
        assert(models[i as int] == runs@[i as int]@);
        match workload_key(runs[i].input.record) {
            Some(other) => {
                if other == key {
                    all = all + 1;
                    if !runs[i].input.record.outcome.another_passing_run_required {
                        last = last + 1;
                    }
                }
            },
            None => {},
        }
        i = i + 1;
    }
    (all, last)
}

fn validate_counts(runs: &[MeasuredInput<'_>]) -> (result: Result<(), SupervisedEndurancePlanError>)
    ensures
        plan_verdict(result, first_some(count_checks(measured_inputs(runs@)), 7)),
{
    let ghost models = measured_inputs(runs@);
    let ghost checks = count_checks(models);
    let mut i: usize = 0;
    while i < 7
        invariant
            i <= 7,
            models == measured_inputs(runs@),
            checks == count_checks(models),
            first_some(checks, i as nat) is None,
        decreases 7 - i,
    {
        let key = WorkloadKey::expected(i);
        let required = key.class.required_passing_runs();
        let (all, last) = count_runs(runs, key);
        if all != required as usize || last == 0 {
            let mut text = join3(
                key_name(key).as_str(),
                " requires exactly ",
                decimal(required as u64).as_str(),
            );
            text.append(" passing Custom runs ending in a final run");
            let error = matrix_error(text.as_str());
            proof {
                assert(checks(i as int) == Some(error@));
                lemma_first_some_stays(checks, (i + 1) as nat, 7);
            }
            return Err(error);
        }
        assert(checks(i as int) is None);
        i = i + 1;
    }
    Ok(())
}

fn validate_fan_calibration(
    calibration: &EvidenceInput<'_>,
    fan: EvidenceFan,
    baselines: &[MeasuredInput<'_>],
) -> (result: Result<(), SupervisedEndurancePlanError>)
    ensures
        plan_verdict(
            result,
            fan_calibration_error(calibration@, fan, measured_inputs(baselines@)),
        ),
        result is Ok ==> calibration@.record.calibration.len() == 1,
{
    if baselines.len() == 0 {
        return Err(matrix_error("seven Firmware Auto baselines are required"));
    }
    assert(measured_inputs(baselines@)[0] == baselines@[0]@);
    if !calibration_record_is_qualified(calibration, fan, baselines[0].input.record) {
        return Err(
            invalid_artifact(
                join(fan_name(fan), " calibration").as_str(),
                "complete passing calibration for the qualification envelope is required",
            ),
        );
    }
    Ok(())
}

fn validate_prerequisites(plan: &SupervisedEndurancePlan<'_>) -> (result: Result<
    (),
    SupervisedEndurancePlanError,
>)
    ensures
        plan_verdict(result, prerequisite_error(*plan)),
        result is Ok ==> plan.tachometer_calibrations.cpu@.record.calibration.len() == 1
            && plan.tachometer_calibrations.gpu@.record.calibration.len() == 1,
{
    match validate_required_record("preflight", &plan.preflight, "preflight") {
        Ok(()) => {},
        Err(error) => {
            return Err(error);
        },
    }
    if plan.preflight.record.faults.len() > 0 {
        return Err(invalid_artifact("preflight", "fault-free preflight evidence is required"));
    }
    match validate_fan_calibration(
        &plan.tachometer_calibrations.cpu,
        EvidenceFan::Cpu,
        plan.baselines,
    ) {
        Ok(()) => {},
        Err(error) => {
            return Err(error);
        },
    }
    match validate_fan_calibration(
        &plan.tachometer_calibrations.gpu,
        EvidenceFan::Gpu,
        plan.baselines,
    ) {
        Ok(()) => {},
        Err(error) => {
            return Err(error);
        },
    }
    match validate_required_record("live lifecycle", &plan.live_lifecycle, "live-lifecycle") {
        Ok(()) => {},
        Err(error) => {
            return Err(error);
        },
    }
    if !live_lifecycle_is_complete(plan.live_lifecycle.record) {
        return Err(invalid_artifact("live lifecycle", "all lifecycle cases must pass"));
    }
    Ok(())
}

fn validate_matrix(
    plan: &SupervisedEndurancePlan<'_>,
    calibrations: MatchedWorkloadTachometerCalibrations<'_>,
) -> (result: Result<(), SupervisedEndurancePlanError>)
    requires
        expectation_of(*calibrations.cpu) == expected_of_record(
            plan.tachometer_calibrations.cpu@.record,
        ),
        expectation_of(*calibrations.gpu) == expected_of_record(
            plan.tachometer_calibrations.gpu@.record,
        ),
    ensures
        plan_verdict(result, matrix_defect(*plan)),
{
    let envelope = &plan.preflight.record.qualification_envelope;
    match validate_baselines(envelope, plan.baselines) {
        Ok(()) => {},
        Err(error) => {
            return Err(error);
        },
    }
    if !every_place_is_filled(plan.baselines) {
        return Err(matrix_error("the seven required Firmware Auto baselines are not complete"));
    }
    match validate_runs(envelope, plan.baselines, plan.matched_workload_runs, calibrations) {
        Ok(()) => {},
        Err(error) => {
            return Err(error);
        },
    }
    validate_counts(plan.matched_workload_runs)
}

/// Lists the records of the baselines.
pub(crate) fn baseline_records<'a>(baselines: &[MeasuredInput<'a>]) -> (records: Vec<
    &'a EvidenceRecord,
>)
    ensures
        records@ == records_of(baselines@),
{
    let mut records: Vec<&'a EvidenceRecord> = Vec::new();
    let mut i: usize = 0;
    while i < baselines.len()
        invariant
            i <= baselines@.len(),
            records@.len() == i,
            forall|k: int| 0 <= k < i ==> #[trigger] records@[k] == baselines@[k].input.record,
        decreases baselines@.len() - i,
    {
        records.push(baselines[i].input.record);
        i = i + 1;
    }
    assert(records@ =~= records_of(baselines@));
    records
}

fn validate_members(plan: &SupervisedEndurancePlan<'_>) -> (result: Result<
    (),
    SupervisedEndurancePlanError,
>)
    ensures
        plan_verdict(
            result,
            or_else(
                or_else(
                    membership_error(
                        plan.preflight@.record.envelope,
                        plan.live_lifecycle@.record,
                        "live lifecycle"@,
                    ),
                    membership_error(
                        plan.preflight@.record.envelope,
                        plan.tachometer_calibrations.cpu@.record,
                        "CPU calibration"@,
                    ),
                ),
                membership_error(
                    plan.preflight@.record.envelope,
                    plan.tachometer_calibrations.gpu@.record,
                    "GPU calibration"@,
                ),
            ),
        ),
{
    let envelope = &plan.preflight.record.qualification_envelope;
    match require_envelope(envelope, plan.live_lifecycle.record, "live lifecycle") {
        Ok(()) => {},
        Err(error) => {
            return Err(error);
        },
    }
    match require_envelope(envelope, plan.tachometer_calibrations.cpu.record, "CPU calibration") {
        Ok(()) => {},
        Err(error) => {
            return Err(error);
        },
    }
    require_envelope(envelope, plan.tachometer_calibrations.gpu.record, "GPU calibration")
}

/// Decides whether the evidence that an endurance run rests on is complete, and gives the
/// qualification that it belongs to.
pub fn validate_qualification_plan(plan: &SupervisedEndurancePlan<'_>) -> (result: Result<
    QualificationEnvelopeIdentityV1,
    SupervisedEndurancePlanError,
>)
    ensures
        match result {
            Ok(envelope) => qualification_error(*plan) is None && envelope@
                == plan.preflight@.record.envelope,
            Err(error) => qualification_error(*plan) == Some(error@),
        },
        result is Ok ==> plan.tachometer_calibrations.cpu@.record.calibration.len() == 1
            && plan.tachometer_calibrations.gpu@.record.calibration.len() == 1 && envelope_error(
            records_of(plan.baselines@),
        ) is None,
{
    match validate_prerequisites(plan) {
        Ok(()) => {},
        Err(error) => {
            return Err(error);
        },
    }
    let calibrations = MatchedWorkloadTachometerCalibrations {
        cpu: &plan.tachometer_calibrations.cpu.record.calibration[0],
        gpu: &plan.tachometer_calibrations.gpu.record.calibration[0],
    };
    match validate_matrix(plan, calibrations) {
        Ok(()) => {},
        Err(error) => {
            return Err(error);
        },
    }
    match validate_members(plan) {
        Ok(()) => {},
        Err(error) => {
            return Err(error);
        },
    }
    let records = baseline_records(plan.baselines);
    match endurance_thermal_envelope(records.as_slice()) {
        Ok(_) => Ok(plan.preflight.record.qualification_envelope.clone()),
        Err(error) => Err(error),
    }
}

/// Why a workload is not the one that an endurance run performs.
pub open spec fn endurance_workload_error(workload: WorkloadModel) -> Option<
    EndurancePlanErrorModel,
> {
    match workload_error(workload) {
        Some(error) => Some(EndurancePlanErrorModel::InvalidWorkload { reason: error.text() }),
        None => if is_canonical_workload(workload) {
            None
        } else {
            Some(
                EndurancePlanErrorModel::InvalidWorkload {
                    reason: "the canonical supervised mixed workload must start on AC"@,
                },
            )
        },
    }
}

/// Decides whether a workload is the one that an endurance run performs.
pub fn validate_endurance_workload(workload: &WorkloadEvidence) -> (result: Result<
    (),
    SupervisedEndurancePlanError,
>)
    ensures
        plan_verdict(result, endurance_workload_error(workload@)),
{
    match validate_workload(workload) {
        Ok(()) => {},
        Err(error) => {
            return Err(SupervisedEndurancePlanError::InvalidWorkload { reason: error.message() });
        },
    }
    if canonical_endurance_workload(workload) {
        Ok(())
    } else {
        Err(
            SupervisedEndurancePlanError::InvalidWorkload {
                reason: "the canonical supervised mixed workload must start on AC".to_owned(),
            },
        )
    }
}

/// A plan whose evidence is complete has exactly one baseline per place of the matrix, each over
/// exactly the required duration.
pub proof fn accepted_plan_fills_the_matrix(plan: SupervisedEndurancePlan<'_>, index: int)
    requires
        qualification_error(plan) is None,
        0 <= index < 7,
    ensures
        plan.baselines@.len() == 7,
        position_of(
            measured_inputs(plan.baselines@),
            required_key(index),
            plan.baselines@.len(),
        ) is Some,
        runs_of(
            measured_inputs(plan.matched_workload_runs@),
            required_key(index),
            plan.matched_workload_runs@.len(),
        ) == runs_required(required_key(index).class),
{
    let runs = measured_inputs(plan.matched_workload_runs@);
    lemma_none_before(count_checks(runs), index, 7);
}

proof fn lemma_none_before<T>(check: spec_fn(int) -> Option<T>, index: int, count: nat)
    requires
        first_some(check, count) is None,
        0 <= index < count,
    ensures
        check(index) is None,
    decreases count,
{
    if index < count - 1 {
        lemma_none_before(check, index, (count - 1) as nat);
    }
}

} // verus!
