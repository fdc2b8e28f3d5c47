//! What a matched Custom-control workload is held against, and when it may run.

use vstd::prelude::*;
use vstd::string::*;
use crate::evidence::{
    EvidenceFan, EvidenceRecord, EvidenceValidationError, RecordModel, RunOutcomeStatus,
    TelemetrySampleEvidence, ThermalSummaryEvidence, ThermalSummaryModel, WorkloadEvidence,
    WorkloadModel,
};
use crate::evidence_rules::{calibration_replay_matches, calibration_replays, validation_error};
use crate::hash::{fingerprint, sha256_hex};
use crate::matched_control::{
    evaluate_tachometer_sample, expectation_of, fan_name, fan_text, tachometer_sample,
    MatchedWorkloadTachometerCalibrations, TachometerEvidenceState, TachometerExpectation,
};
use crate::matched_record::{matched_is_complete, matched_workload_is_complete};
use crate::text::{
    begins_with, decimal, decimal_text, is_text, join, join3, same_text, same_texts,
    starts_with_text,
};
use crate::thermal::FinalSlopes;

verus! {

broadcast use vstd::string::group_string_axioms;

pub const AMBIENT_COMPARABILITY_MILLICELSIUS: i32 = 2_000;

pub const STARTING_TEMPERATURE_COMPARABILITY_MILLICELSIUS: i32 = 3_000;

pub const THERMAL_COMPARISON_MARGIN_MILLICELSIUS: i32 = 2_000;

pub const THERMAL_SLOPE_LIMIT_MILLICELSIUS_PER_MINUTE: i32 = 1_000;

/// The component that a workload loads.
#[derive(Debug, Clone, Copy, PartialEq, Eq, Structural)]
pub enum MatchedWorkloadClass {
    Idle,
    Cpu,
    Gpu,
    Combined,
}

/// Whether the part of a text before its first dash is the given dashless one.
pub open spec fn is_headed(text: Seq<char>, head: Seq<char>) -> bool {
    begins_with(text, head) && (text.len() == head.len() || text[head.len() as int] == '-')
}

/// The class that a workload's name begins with.
pub open spec fn class_of(workload_id: Seq<char>) -> Option<MatchedWorkloadClass> {
    if is_headed(workload_id, "idle"@) {
        Some(MatchedWorkloadClass::Idle)
    } else if is_headed(workload_id, "cpu"@) {
        Some(MatchedWorkloadClass::Cpu)
    } else if is_headed(workload_id, "gpu"@) {
        Some(MatchedWorkloadClass::Gpu)
    } else if is_headed(workload_id, "combined"@) {
        Some(MatchedWorkloadClass::Combined)
    } else {
        None
    }
}

/// How many runs of a class must pass.
pub open spec fn runs_required(class: MatchedWorkloadClass) -> nat {
    match class {
        MatchedWorkloadClass::Idle => 1,
        _ => 2,
    }
}

fn has_head(text: &str, head: &str) -> (yes: bool)
    ensures
        yes == is_headed(text@, head@),
{
    if !starts_with_text(text, head) {
        return false;
    }
    let length = head.unicode_len();
    text.unicode_len() == length || text.get_char(length) == '-'
}

impl MatchedWorkloadClass {
    pub fn required_passing_runs(self) -> (count: u8)
        ensures
            count == runs_required(self),
    {
        match self {
            MatchedWorkloadClass::Idle => 1,
            MatchedWorkloadClass::Cpu | MatchedWorkloadClass::Gpu
            | MatchedWorkloadClass::Combined => 2,
        }
    }

    pub fn from_workload_id(workload_id: &str) -> (class: Option<MatchedWorkloadClass>)
        ensures
            class == class_of(workload_id@),
    {
        if has_head(workload_id, "idle") {
            Some(MatchedWorkloadClass::Idle)
        } else if has_head(workload_id, "cpu") {
            Some(MatchedWorkloadClass::Cpu)
        } else if has_head(workload_id, "gpu") {
            Some(MatchedWorkloadClass::Gpu)
        } else if has_head(workload_id, "combined") {
            Some(MatchedWorkloadClass::Combined)
        } else {
            None
        }
    }
}

/// A record as later stages take it in: with the slopes measured on its samples, and spelled out
/// in canonical JSON, by which it is fingerprinted.
pub struct EvidenceInput<'a> {
    pub record: &'a EvidenceRecord,
    pub slopes: FinalSlopes,
    pub canonical_json: &'a [u8],
}

/// The contents of an input.
pub struct InputModel {
    pub record: RecordModel,
    pub slopes: FinalSlopes,
    pub canonical: Seq<u8>,
}

impl View for EvidenceInput<'_> {
    type V = InputModel;

    open spec fn view(&self) -> InputModel {
        InputModel {
            record: self.record@,
            slopes: self.slopes,
            canonical: self.canonical_json@,
        }
    }
}

/// The contents of a list of inputs.
pub open spec fn inputs(entries: Seq<EvidenceInput<'_>>) -> Seq<InputModel> {
    entries.map_values(|entry: EvidenceInput<'_>| entry@)
}

/// Fingerprints a record by its canonical JSON.
pub fn baseline_fingerprint(input: &EvidenceInput<'_>) -> (text: String)
    ensures
        text@ == fingerprint(input@.canonical),
{
    sha256_hex(input.canonical_json)
}

/// What the comparison of two thermal summaries found acceptable.
#[derive(Debug, Clone, Copy, PartialEq, Eq, Structural)]
pub struct ThermalComparison {
    pub peaks_acceptable: bool,
    pub percentiles_acceptable: bool,
    pub slopes_acceptable: bool,
}

/// Whether every part of a comparison is acceptable.
pub open spec fn is_acceptable(comparison: ThermalComparison) -> bool {
    comparison.peaks_acceptable && comparison.percentiles_acceptable && comparison.slopes_acceptable
}

/// How a Custom run compares with its baseline: at most two degrees hotter, and no final slope
/// above one degree per minute.
pub open spec fn comparison_of(
    baseline: ThermalSummaryModel,
    custom: ThermalSummaryModel,
    slopes: FinalSlopes,
) -> ThermalComparison {
    ThermalComparison {
        peaks_acceptable: custom.cpu_peak_millicelsius <= baseline.cpu_peak_millicelsius + 2_000
            && custom.gpu_peak_millicelsius <= baseline.gpu_peak_millicelsius + 2_000,
        percentiles_acceptable: custom.cpu_p95_millicelsius <= baseline.cpu_p95_millicelsius + 2_000
            && custom.gpu_p95_millicelsius <= baseline.gpu_p95_millicelsius + 2_000,
        slopes_acceptable: !slopes.cpu_exceeds_limit && !slopes.gpu_exceeds_limit,
    }
}

impl ThermalComparison {
    pub fn accepted(self) -> (yes: bool)
        ensures
            yes == is_acceptable(self),
    {
        self.peaks_acceptable && self.percentiles_acceptable && self.slopes_acceptable
    }
}

fn within_margin(custom: i32, baseline: i32) -> (yes: bool)
    ensures
        yes == (custom <= baseline + 2_000),
{
    custom as i64 <= baseline as i64 + THERMAL_COMPARISON_MARGIN_MILLICELSIUS as i64
}

/// Compares a Custom run's summary with its baseline's.
pub fn evaluate_thermal_comparison(
    baseline: &ThermalSummaryEvidence,
    custom: &ThermalSummaryEvidence,
    slopes: FinalSlopes,
) -> (comparison: ThermalComparison)
    ensures
        comparison == comparison_of(baseline@, custom@, slopes),
{
    ThermalComparison {
        peaks_acceptable: within_margin(
            custom.cpu_peak_millicelsius,
            baseline.cpu_peak_millicelsius,
        ) && within_margin(custom.gpu_peak_millicelsius, baseline.gpu_peak_millicelsius),
        percentiles_acceptable: within_margin(
            custom.cpu_p95_millicelsius,
            baseline.cpu_p95_millicelsius,
        ) && within_margin(custom.gpu_p95_millicelsius, baseline.gpu_p95_millicelsius),
        slopes_acceptable: !slopes.cpu_exceeds_limit && !slopes.gpu_exceeds_limit,
    }
}

/// Whether two temperatures are at most so far apart.
pub open spec fn is_near(value: i32, reference: i32, margin: int) -> bool {
    -margin <= value - reference <= margin
}

pub(crate) fn lies_near(value: i32, reference: i32, margin: i32) -> (yes: bool)
    requires
        margin >= 0,
    ensures
        yes == is_near(value, reference, margin as int),
{
    let distance: i64 = value as i64 - reference as i64;
    -(margin as i64) <= distance && distance <= margin as i64
}

/// Whether starting temperatures are close enough to those of a baseline to be compared.
pub open spec fn conditions_are_comparable(custom: WorkloadModel, baseline: WorkloadModel) -> bool {
    &&& is_near(custom.ambient_millicelsius, baseline.ambient_millicelsius, 2_000)
    &&& is_near(custom.starting_cpu_millicelsius, baseline.starting_cpu_millicelsius, 3_000)
    &&& is_near(custom.starting_gpu_millicelsius, baseline.starting_gpu_millicelsius, 3_000)
}

fn are_comparable(custom: &WorkloadEvidence, baseline: &WorkloadEvidence) -> (yes: bool)
    ensures
        yes == conditions_are_comparable(custom@, baseline@),
{
    lies_near(
        custom.ambient_millicelsius,
        baseline.ambient_millicelsius,
        AMBIENT_COMPARABILITY_MILLICELSIUS,
    ) && lies_near(
        custom.starting_cpu_millicelsius,
        baseline.starting_cpu_millicelsius,
        STARTING_TEMPERATURE_COMPARABILITY_MILLICELSIUS,
    ) && lies_near(
        custom.starting_gpu_millicelsius,
        baseline.starting_gpu_millicelsius,
        STARTING_TEMPERATURE_COMPARABILITY_MILLICELSIUS,
    )
}

/// Whether a Custom run matches a baseline: the same workload under comparable conditions, as many
/// samples, an acceptable thermal comparison and a stable system.
pub open spec fn matches_baseline(
    custom: RecordModel,
    baseline: RecordModel,
    slopes: FinalSlopes,
) -> bool {
    custom.workload matches Some(run) && baseline.workload matches Some(reference)
        && custom.thermal_summary matches Some(summary)
        && baseline.thermal_summary matches Some(reference_summary) && {
        &&& run.workload_id == reference.workload_id
        &&& run.command == reference.command
        &&& run.version == reference.version
        &&& run.power_profile == reference.power_profile
        &&& conditions_are_comparable(run, reference)
        &&& custom.samples.len() == baseline.samples.len()
        &&& is_acceptable(comparison_of(reference_summary, summary, slopes))
        &&& summary.system_stable == Some(true)
        &&& summary.kernel_faults.len() == 0
        &&& summary.nvidia_faults.len() == 0
    }
}

/// Decides [`matches_baseline`].
pub fn matched_workload_matches_baseline(
    custom: &EvidenceRecord,
    baseline: &EvidenceRecord,
    slopes: FinalSlopes,
) -> (yes: bool)
    ensures
        yes == matches_baseline(custom@, baseline@, slopes),
{
    let (run, reference, summary, reference_summary) = match (
        &custom.workload,
        &baseline.workload,
        &custom.thermal_summary,
        &baseline.thermal_summary,
    ) {
        (Some(run), Some(reference), Some(summary), Some(reference_summary)) => (
            run,
            reference,
            summary,
            reference_summary,
        ),
        _ => {
            return false;
        },
    };
    let stable = match summary.system_stable {
        Some(stable) => stable,
        None => false,
    };
    same_text(run.workload_id.as_str(), reference.workload_id.as_str()) && same_texts(
        &run.command,
        &reference.command,
    ) && same_text(run.version.as_str(), reference.version.as_str()) && run.power_profile
        == reference.power_profile && are_comparable(run, reference) && custom.samples.len()
        == baseline.samples.len() && evaluate_thermal_comparison(
        reference_summary,
        summary,
        slopes,
    ).accepted() && stable && summary.kernel_faults.len() == 0 && summary.nvidia_faults.len() == 0
}

/// The tachometer state after the first samples of a record, as long as each of them agrees with
/// both calibrations.
pub open spec fn tachometers_after(
    record: RecordModel,
    cpu: TachometerExpectation,
    gpu: TachometerExpectation,
    count: nat,
) -> Option<TachometerEvidenceState>
    decreases count,
{
    if count == 0 {
        Some(TachometerEvidenceState { cpu: None, gpu: None })
    } else {
        match tachometers_after(record, cpu, gpu, (count - 1) as nat) {
            None => None,
            Some(state) => {
                let at = record.samples[count - 1].timestamp;
                let cpu_outcome = tachometer_sample(
                    state.cpu,
                    at,
                    record.commands,
                    record.readbacks,
                    EvidenceFan::Cpu,
                    cpu.anchors,
                    cpu.response_deadline_millis,
                );
                let gpu_outcome = tachometer_sample(
                    state.gpu,
                    at,
                    record.commands,
                    record.readbacks,
                    EvidenceFan::Gpu,
                    gpu.anchors,
                    gpu.response_deadline_millis,
                );
                if cpu_outcome.1 is Ok && gpu_outcome.1 is Ok {
                    Some(TachometerEvidenceState { cpu: cpu_outcome.0, gpu: gpu_outcome.0 })
                } else {
                    None
                }
            },
        }
    }
}

/// Whether every sample of a record agrees with both calibrations.
pub open spec fn matches_calibrations(
    record: RecordModel,
    cpu: TachometerExpectation,
    gpu: TachometerExpectation,
) -> bool {
    tachometers_after(record, cpu, gpu, record.samples.len()) is Some
}

proof fn lemma_tachometers_stay_lost(
    record: RecordModel,
    cpu: TachometerExpectation,
    gpu: TachometerExpectation,
    count: nat,
    total: nat,
)
    requires
        count <= total,
        tachometers_after(record, cpu, gpu, count) is None,
    ensures
        tachometers_after(record, cpu, gpu, total) is None,
    decreases total - count,
{
    if count < total {
        lemma_tachometers_stay_lost(record, cpu, gpu, count + 1, total);
    }
}

/// Decides [`matches_calibrations`].
pub fn matched_workload_matches_calibrations(
    record: &EvidenceRecord,
    calibrations: MatchedWorkloadTachometerCalibrations<'_>,
) -> (yes: bool)
    ensures
        yes == matches_calibrations(
            record@,
            expectation_of(*calibrations.cpu),
            expectation_of(*calibrations.gpu),
        ),
{
    let ghost cpu_expected = expectation_of(*calibrations.cpu);
    let ghost gpu_expected = expectation_of(*calibrations.gpu);
    let mut state = TachometerEvidenceState { cpu: None, gpu: None };
    let mut i: usize = 0;
    while i < record.samples.len()
        invariant
            i <= record.samples.len(),
            cpu_expected == expectation_of(*calibrations.cpu),
            gpu_expected == expectation_of(*calibrations.gpu),
            tachometers_after(record@, cpu_expected, gpu_expected, i as nat) == Some(state),
        decreases record.samples.len() - i,
    {
        let at = record.samples[i].timestamp;
        let (cpu, cpu_result) = evaluate_tachometer_sample(
            at,
            &record.commands,
            &record.readbacks,
            EvidenceFan::Cpu,
            calibrations.cpu,
            state.cpu,
        );
        let (gpu, gpu_result) = evaluate_tachometer_sample(
            at,
            &record.commands,
            &record.readbacks,
            EvidenceFan::Gpu,
            calibrations.gpu,
            state.gpu,
        );
        i = i + 1;
        if cpu_result.is_err() || gpu_result.is_err() {
            proof {
                lemma_tachometers_stay_lost(
                    record@,
                    cpu_expected,
                    gpu_expected,
                    i as nat,
                    record@.samples.len(),
                );
            }
            return false;
        }
        state = TachometerEvidenceState { cpu, gpu };
    }
    true
}

/// What a matched workload is planned on.
pub struct MatchedWorkloadPlan<'a> {
    pub baseline: EvidenceInput<'a>,
    pub previous_passing_runs: &'a [EvidenceInput<'a>],
    pub tachometer_calibrations: MatchedWorkloadTachometerCalibrations<'a>,
}

/// Why a matched workload cannot run, or its record cannot stand.
#[derive(Debug, PartialEq, Eq)]
pub enum MatchedWorkloadPlanError {
    InvalidBaseline(EvidenceValidationError),
    InvalidPriorRun { index: usize, reason: String },
    BaselineNotAccepted,
    InvalidCalibration { fan: EvidenceFan },
    UnknownWorkloadClass,
    InvalidGeneratedEvidence(EvidenceValidationError),
}

/// The contents of a plan error.
pub enum MatchedPlanErrorModel {
    InvalidBaseline(EvidenceValidationError),
    InvalidPriorRun { index: int, reason: Seq<char> },
    BaselineNotAccepted,
    InvalidCalibration { fan: EvidenceFan },
    UnknownWorkloadClass,
    InvalidGeneratedEvidence(EvidenceValidationError),
}

impl View for MatchedWorkloadPlanError {
    type V = MatchedPlanErrorModel;

    open spec fn view(&self) -> MatchedPlanErrorModel {
        match *self {
            MatchedWorkloadPlanError::InvalidBaseline(error) =>
                MatchedPlanErrorModel::InvalidBaseline(error),
            MatchedWorkloadPlanError::InvalidPriorRun { index, reason } =>
                MatchedPlanErrorModel::InvalidPriorRun { index: index as int, reason: reason@ },
            MatchedWorkloadPlanError::BaselineNotAccepted =>
                MatchedPlanErrorModel::BaselineNotAccepted,
            MatchedWorkloadPlanError::InvalidCalibration { fan } =>
                MatchedPlanErrorModel::InvalidCalibration { fan },
            MatchedWorkloadPlanError::UnknownWorkloadClass =>
                MatchedPlanErrorModel::UnknownWorkloadClass,
            MatchedWorkloadPlanError::InvalidGeneratedEvidence(error) =>
                MatchedPlanErrorModel::InvalidGeneratedEvidence(error),
        }
    }
}

impl Clone for MatchedWorkloadPlanError {
    fn clone(&self) -> (copy: MatchedWorkloadPlanError)
        ensures
            copy@ == self@,
    {
        match self {
            MatchedWorkloadPlanError::InvalidBaseline(error) =>
                MatchedWorkloadPlanError::InvalidBaseline(*error),
            MatchedWorkloadPlanError::InvalidPriorRun { index, reason } =>
                MatchedWorkloadPlanError::InvalidPriorRun { index: *index, reason: reason.clone() },
            MatchedWorkloadPlanError::BaselineNotAccepted =>
                MatchedWorkloadPlanError::BaselineNotAccepted,
            MatchedWorkloadPlanError::InvalidCalibration { fan } =>
                MatchedWorkloadPlanError::InvalidCalibration { fan: *fan },
            MatchedWorkloadPlanError::UnknownWorkloadClass =>
                MatchedWorkloadPlanError::UnknownWorkloadClass,
            MatchedWorkloadPlanError::InvalidGeneratedEvidence(error) =>
                MatchedWorkloadPlanError::InvalidGeneratedEvidence(*error),
        }
    }
}

impl MatchedPlanErrorModel {
    /// The message shown to an operator.
    pub open spec fn text(self) -> Seq<char> {
        match self {
            MatchedPlanErrorModel::InvalidBaseline(error) => "invalid baseline: "@ + error.text(),
            MatchedPlanErrorModel::InvalidPriorRun { index, reason } =>
                "invalid previous passing run "@ + decimal_text(index as nat) + ": "@ + reason,
            MatchedPlanErrorModel::BaselineNotAccepted =>
                "baseline must be an accepted Firmware Auto baseline"@,
            MatchedPlanErrorModel::InvalidCalibration { fan } => fan_text(fan)
                + " tachometer calibration is not qualified"@,
            MatchedPlanErrorModel::UnknownWorkloadClass =>
                "baseline workload id must begin with idle-, cpu-, gpu-, or combined-"@,
            MatchedPlanErrorModel::InvalidGeneratedEvidence(error) =>
                "generated matched-workload evidence is invalid: "@ + error.text(),
        }
    }
}

impl MatchedWorkloadPlanError {
    /// The message shown to an operator.
    pub fn message(&self) -> (text: String)
        ensures
            text@ == self@.text(),
    {
        match self {
            MatchedWorkloadPlanError::InvalidBaseline(error) => join(
                "invalid baseline: ",
                error.message().as_str(),
            ),
            MatchedWorkloadPlanError::InvalidPriorRun { index, reason } => {
                let mut text = join3(
                    "invalid previous passing run ",
                    decimal(*index as u64).as_str(),
                    ": ",
                );
                text.append(reason.as_str());
                text
            },
            MatchedWorkloadPlanError::BaselineNotAccepted =>
                "baseline must be an accepted Firmware Auto baseline".to_owned(),
            MatchedWorkloadPlanError::InvalidCalibration { fan } => join(
                fan_name(*fan),
                " tachometer calibration is not qualified",
            ),
            MatchedWorkloadPlanError::UnknownWorkloadClass =>
                "baseline workload id must begin with idle-, cpu-, gpu-, or combined-".to_owned(),
            MatchedWorkloadPlanError::InvalidGeneratedEvidence(error) => join(
                "generated matched-workload evidence is invalid: ",
                error.message().as_str(),
            ),
        }
    }
}

/// Whether the samples span five minutes.
pub open spec fn spans_five_minutes(samples: Seq<TelemetrySampleEvidence>) -> bool {
    samples.len() > 0 && samples.last().timestamp.monotonic_millis
        - samples[0].timestamp.monotonic_millis >= 300_000
}

/// Decides [`spans_five_minutes`].
pub fn covers_final_five_minutes(record: &EvidenceRecord) -> (yes: bool)
    ensures
        yes == spans_five_minutes(record@.samples),
{
    let count = record.samples.len();
    if count == 0 {
        return false;
    }
    let first: u64 = record.samples[0].timestamp.monotonic_millis;
    let last: u64 = record.samples[count - 1].timestamp.monotonic_millis;
    last >= first && last - first >= 300_000
}

/// Whether a record is a passed Firmware Auto baseline that a run can be held against.
pub open spec fn baseline_is_accepted(record: RecordModel) -> bool {
    &&& record.stage == "firmware-auto-baseline"@
    &&& record.outcome.status == RunOutcomeStatus::Passed
    &&& record.workload is Some
    &&& record.thermal_summary is Some
    &&& spans_five_minutes(record.samples)
}

/// Whether a previous run is a complete passing match for a baseline with a given fingerprint.
pub open spec fn prior_run_matches(
    prior: InputModel,
    baseline: InputModel,
    binding: Seq<char>,
    cpu: TachometerExpectation,
    gpu: TachometerExpectation,
) -> bool {
    &&& prior.record.stage == "matched-workload"@
    &&& prior.record.outcome.status == RunOutcomeStatus::Passed
    &&& prior.record.faults.len() == 0
    &&& prior.record.envelope == baseline.record.envelope
    &&& prior.record.baseline_binding_sha256 == Some(binding)
    &&& matched_is_complete(prior.record, prior.slopes)
    &&& matches_baseline(prior.record, baseline.record, prior.slopes)
    &&& matches_calibrations(prior.record, cpu, gpu)
}

/// What is wrong with a previous run.
pub open spec fn prior_error(
    priors: Seq<InputModel>,
    baseline: InputModel,
    cpu: TachometerExpectation,
    gpu: TachometerExpectation,
    index: int,
) -> Option<Seq<char>> {
    let prior = priors[index];
    match validation_error(prior.record, prior.slopes) {
        Some(error) => Some(error.text()),
        None => if exists|j: int|
            0 <= j < index && fingerprint(#[trigger] priors[j].canonical) == fingerprint(
                prior.canonical,
            ) {
            Some("duplicate previous passing run"@)
        } else if !prior_run_matches(
            prior,
            baseline,
            fingerprint(baseline.canonical),
            cpu,
            gpu,
        ) {
            Some("run must be a complete passing match for this baseline envelope and workload"@)
        } else {
            None
        },
    }
}

/// The first error among the first previous runs.
pub open spec fn first_prior_error(
    priors: Seq<InputModel>,
    baseline: InputModel,
    cpu: TachometerExpectation,
    gpu: TachometerExpectation,
    count: nat,
) -> Option<MatchedPlanErrorModel>
    decreases count,
{
    if count == 0 {
        None
    } else {
        match first_prior_error(priors, baseline, cpu, gpu, (count - 1) as nat) {
            Some(error) => Some(error),
            None => match prior_error(priors, baseline, cpu, gpu, count - 1) {
                Some(reason) => Some(
                    MatchedPlanErrorModel::InvalidPriorRun { index: count - 1, reason },
                ),
                None => None,
            },
        }
    }
}

/// Why a plan cannot run.
pub open spec fn plan_error(plan: MatchedWorkloadPlan<'_>) -> Option<MatchedPlanErrorModel> {
    let baseline = plan.baseline@;
    let cpu = plan.tachometer_calibrations.cpu@;
    let gpu = plan.tachometer_calibrations.gpu@;
    match validation_error(baseline.record, baseline.slopes) {
        Some(error) => Some(MatchedPlanErrorModel::InvalidBaseline(error)),
        None => if !baseline_is_accepted(baseline.record) {
            Some(MatchedPlanErrorModel::BaselineNotAccepted)
        } else if class_of(baseline.record.workload->0.workload_id) is None {
            Some(MatchedPlanErrorModel::UnknownWorkloadClass)
        } else if !(cpu.fan == EvidenceFan::Cpu && calibration_replays(cpu)) {
            Some(MatchedPlanErrorModel::InvalidCalibration { fan: EvidenceFan::Cpu })
        } else if !(gpu.fan == EvidenceFan::Gpu && calibration_replays(gpu)) {
            Some(MatchedPlanErrorModel::InvalidCalibration { fan: EvidenceFan::Gpu })
        } else {
            first_prior_error(
                inputs(plan.previous_passing_runs@),
                baseline,
                expectation_of(*plan.tachometer_calibrations.cpu),
                expectation_of(*plan.tachometer_calibrations.gpu),
                plan.previous_passing_runs@.len(),
            )
        },
    }
}

/// The first error stays the first however many runs follow.
proof fn lemma_first_prior_error_stays(
    priors: Seq<InputModel>,
    baseline: InputModel,
    cpu: TachometerExpectation,
    gpu: TachometerExpectation,
    count: nat,
    total: nat,
)
    requires
        count <= total,
        first_prior_error(priors, baseline, cpu, gpu, count) is Some,
    ensures
        first_prior_error(priors, baseline, cpu, gpu, total) == first_prior_error(
            priors,
            baseline,
            cpu,
            gpu,
            count,
        ),
    decreases total - count,
{
    if count < total {
        lemma_first_prior_error_stays(priors, baseline, cpu, gpu, count + 1, total);
    }
}

fn is_known(fingerprints: &Vec<String>, text: &str) -> (yes: bool)
    ensures
        yes == exists|j: int| 0 <= j < fingerprints@.len() && (#[trigger] fingerprints@[j])@ == text@,
{
    let mut i: usize = 0;
    while i < fingerprints.len()
        invariant
            i <= fingerprints.len(),
            forall|j: int| 0 <= j < i ==> (#[trigger] fingerprints@[j])@ != text@,
        decreases fingerprints.len() - i,
    {
        if same_text(fingerprints[i].as_str(), text) {
            return true;
        }
        i = i + 1;
    }
    false
}

/// Decides [`prior_run_matches`].
pub fn prior_run_fits(
    prior: &EvidenceInput<'_>,
    baseline: &EvidenceInput<'_>,
    binding: &str,
    calibrations: MatchedWorkloadTachometerCalibrations<'_>,
) -> (yes: bool)
    ensures
        yes == prior_run_matches(
            prior@,
            baseline@,
            binding@,
            expectation_of(*calibrations.cpu),
            expectation_of(*calibrations.gpu),
        ),
{
    same_text(prior.record.stage.as_str(), "matched-workload") && prior.record.outcome.status
        == RunOutcomeStatus::Passed && prior.record.faults.len() == 0
        && prior.record.qualification_envelope.same_as(&baseline.record.qualification_envelope)
        && is_text(&prior.record.baseline_binding_sha256, binding) && matched_workload_is_complete(
        prior.record,
        prior.slopes,
    ) && matched_workload_matches_baseline(prior.record, baseline.record, prior.slopes)
        && matched_workload_matches_calibrations(prior.record, calibrations)
}

fn validate_prior_runs(plan: &MatchedWorkloadPlan<'_>) -> (result: Result<
    (),
    MatchedWorkloadPlanError,
>)
    ensures
        first_prior_error(
            inputs(plan.previous_passing_runs@),
            plan.baseline@,
            expectation_of(*plan.tachometer_calibrations.cpu),
            expectation_of(*plan.tachometer_calibrations.gpu),
            plan.previous_passing_runs@.len(),
        ) == match result {
            Ok(()) => None::<MatchedPlanErrorModel>,
            Err(error) => Some(error@),
        },
{
    let ghost priors = inputs(plan.previous_passing_runs@);
    let ghost cpu = expectation_of(*plan.tachometer_calibrations.cpu);
    let ghost gpu = expectation_of(*plan.tachometer_calibrations.gpu);
    let binding = baseline_fingerprint(&plan.baseline);
    let mut known: Vec<String> = Vec::new();
    let mut i: usize = 0;
    while i < plan.previous_passing_runs.len()
        invariant
            i <= plan.previous_passing_runs@.len(),
            priors == inputs(plan.previous_passing_runs@),
            cpu == expectation_of(*plan.tachometer_calibrations.cpu),
            gpu == expectation_of(*plan.tachometer_calibrations.gpu),
            binding@ == fingerprint(plan.baseline@.canonical),
            known@.len() == i,
            forall|j: int|
                0 <= j < i ==> (#[trigger] known@[j])@ == fingerprint(priors[j].canonical),
            first_prior_error(priors, plan.baseline@, cpu, gpu, i as nat) is None,
        decreases plan.previous_passing_runs@.len() - i,
    {
        let prior = &plan.previous_passing_runs[i];
        assert(priors[i as int] == prior@);
        let text = baseline_fingerprint(prior);
        let reason: Option<String> = match prior.record.validate(prior.slopes) {
            Err(error) => Some(error.message()),
            Ok(()) => if is_known(&known, text.as_str()) {
                proof {
                    let j = choose|j: int|
                        0 <= j < known@.len() && (#[trigger] known@[j])@ == text@;
                    assert(fingerprint(priors[j].canonical) == fingerprint(prior@.canonical));
                }
                Some("duplicate previous passing run".to_owned())
            } else {
                proof {
                    assert forall|j: int| 0 <= j < i implies fingerprint(
                        #[trigger] priors[j].canonical,
                    ) != fingerprint(prior@.canonical) by {
                        assert(known@[j]@ != text@);
                    }
                }
                if prior_run_fits(
                    prior,
                    &plan.baseline,
                    binding.as_str(),
                    plan.tachometer_calibrations,
                ) {
                    None
                } else {
                    Some(
                        "run must be a complete passing match for this baseline envelope and workload".to_owned(),
                    )
                }
            },
        };
        match reason {
            Some(reason) => {
                proof {
                    lemma_first_prior_error_stays(
                        priors,
                        plan.baseline@,
                        cpu,
                        gpu,
                        (i + 1) as nat,
                        plan.previous_passing_runs@.len(),
                    );
                }
                return Err(MatchedWorkloadPlanError::InvalidPriorRun { index: i, reason });
            },
            None => {},
        }
        known.push(text);
        i = i + 1;
    }
    Ok(())
}

/// Decides whether a plan can run.
pub fn validate_plan(plan: &MatchedWorkloadPlan<'_>) -> (result: Result<
    (),
    MatchedWorkloadPlanError,
>)
    ensures
        plan_error(*plan) == match result {
            Ok(()) => None::<MatchedPlanErrorModel>,
            Err(error) => Some(error@),
        },
        result is Ok ==> baseline_is_accepted(plan.baseline@.record) && class_of(
            plan.baseline@.record.workload->0.workload_id,
        ) is Some,
{
    let baseline = plan.baseline.record;
    match baseline.validate(plan.baseline.slopes) {
        Ok(()) => {},
        Err(error) => {
            return Err(MatchedWorkloadPlanError::InvalidBaseline(error));
        },
    }
    if !same_text(baseline.stage.as_str(), "firmware-auto-baseline") || baseline.outcome.status
        != RunOutcomeStatus::Passed || baseline.thermal_summary.is_none()
        || !covers_final_five_minutes(baseline) {
        return Err(MatchedWorkloadPlanError::BaselineNotAccepted);
    }
    let workload = match &baseline.workload {
        Some(workload) => workload,
        None => {
            return Err(MatchedWorkloadPlanError::BaselineNotAccepted);
        },
    };
    if MatchedWorkloadClass::from_workload_id(workload.workload_id.as_str()).is_none() {
        return Err(MatchedWorkloadPlanError::UnknownWorkloadClass);
    }
    let cpu = plan.tachometer_calibrations.cpu;
    if cpu.fan != EvidenceFan::Cpu || !calibration_replay_matches(cpu) {
        return Err(MatchedWorkloadPlanError::InvalidCalibration { fan: EvidenceFan::Cpu });
    }
    let gpu = plan.tachometer_calibrations.gpu;
    if gpu.fan != EvidenceFan::Gpu || !calibration_replay_matches(gpu) {
        return Err(MatchedWorkloadPlanError::InvalidCalibration { fan: EvidenceFan::Gpu });
    }
    validate_prior_runs(plan)
}

} // verus!
