//! The evidence that a supervised endurance run must rest on.

use vstd::prelude::*;
use vstd::string::*;
use crate::evidence::{
    EnduranceThermalEnvelopeEvidence, EvidenceProfile, EvidenceRecord, EvidenceValidationError,
    RecordModel, ThermalSummaryModel,
};
use crate::matched_plan::MatchedWorkloadClass;
use crate::text::{join, join3, same_text};

verus! {

broadcast use vstd::string::group_string_axioms;

/// One place in the required workload matrix.
#[derive(Debug, Clone, Copy, PartialEq, Eq, Structural)]
pub struct WorkloadKey {
    pub profile: EvidenceProfile,
    pub class: MatchedWorkloadClass,
}

/// Whether a place belongs to the matrix: every class on either profile, but the combined one only
/// on external power.
pub open spec fn is_required(key: WorkloadKey) -> bool {
    !(key.profile == EvidenceProfile::Battery && key.class == MatchedWorkloadClass::Combined)
}

/// How long a workload must run.
pub open spec fn duration_of(key: WorkloadKey) -> int {
    match (key.profile, key.class) {
        (EvidenceProfile::Ac, MatchedWorkloadClass::Cpu) => 1_200_000,
        (EvidenceProfile::Ac, MatchedWorkloadClass::Gpu) => 1_200_000,
        (EvidenceProfile::Ac, MatchedWorkloadClass::Combined) => 1_800_000,
        (EvidenceProfile::Battery, MatchedWorkloadClass::Combined) => 0,
        _ => 600_000,
    }
}

/// The places of the matrix, in order.
pub open spec fn required_key(index: int) -> WorkloadKey {
    if index == 0 {
        WorkloadKey { profile: EvidenceProfile::Ac, class: MatchedWorkloadClass::Idle }
    } else if index == 1 {
        WorkloadKey { profile: EvidenceProfile::Ac, class: MatchedWorkloadClass::Cpu }
    } else if index == 2 {
        WorkloadKey { profile: EvidenceProfile::Ac, class: MatchedWorkloadClass::Gpu }
    } else if index == 3 {
        WorkloadKey { profile: EvidenceProfile::Ac, class: MatchedWorkloadClass::Combined }
    } else if index == 4 {
        WorkloadKey { profile: EvidenceProfile::Battery, class: MatchedWorkloadClass::Idle }
    } else if index == 5 {
        WorkloadKey { profile: EvidenceProfile::Battery, class: MatchedWorkloadClass::Cpu }
    } else {
        WorkloadKey { profile: EvidenceProfile::Battery, class: MatchedWorkloadClass::Gpu }
    }
}

/// The places of the matrix are exactly the required ones, each once.
pub proof fn required_keys_cover_the_matrix(key: WorkloadKey)
    ensures
        is_required(key) <==> exists|i: int| 0 <= i < 7 && #[trigger] required_key(i) == key,
        forall|i: int, j: int|
            0 <= i < j < 7 ==> #[trigger] required_key(i) != #[trigger] required_key(j),
{
    if is_required(key) {
        match (key.profile, key.class) {
            (EvidenceProfile::Ac, MatchedWorkloadClass::Idle) => {
                assert(required_key(0) == key);
            },
            (EvidenceProfile::Ac, MatchedWorkloadClass::Cpu) => {
                assert(required_key(1) == key);
            },
            (EvidenceProfile::Ac, MatchedWorkloadClass::Gpu) => {
                assert(required_key(2) == key);
            },
            (EvidenceProfile::Ac, MatchedWorkloadClass::Combined) => {
                assert(required_key(3) == key);
            },
            (EvidenceProfile::Battery, MatchedWorkloadClass::Idle) => {
                assert(required_key(4) == key);
            },
            (EvidenceProfile::Battery, MatchedWorkloadClass::Cpu) => {
                assert(required_key(5) == key);
            },
            (EvidenceProfile::Battery, _) => {
                assert(required_key(6) == key);
            },
        }
    }
}

impl WorkloadKey {
    pub fn required_duration_millis(self) -> (millis: u64)
        ensures
            millis == duration_of(self),
    {
        match (self.profile, self.class) {
            (EvidenceProfile::Ac, MatchedWorkloadClass::Cpu) => 1_200_000,
            (EvidenceProfile::Ac, MatchedWorkloadClass::Gpu) => 1_200_000,
            (EvidenceProfile::Ac, MatchedWorkloadClass::Combined) => 1_800_000,
            (EvidenceProfile::Battery, MatchedWorkloadClass::Combined) => 0,
            _ => 600_000,
        }
    }

    /// The place of the matrix at an index.
    pub fn expected(index: usize) -> (key: WorkloadKey)
        requires
            index < 7,
        ensures
            key == required_key(index as int),
    {
        let profile = if index < 4 {
            EvidenceProfile::Ac
        } else {
            EvidenceProfile::Battery
        };
        let class = if index == 0 || index == 4 {
            MatchedWorkloadClass::Idle
        } else if index == 1 || index == 5 {
            MatchedWorkloadClass::Cpu
        } else if index == 2 || index == 6 {
            MatchedWorkloadClass::Gpu
        } else {
            MatchedWorkloadClass::Combined
        };
        WorkloadKey { profile, class }
    }
}

/// The text of a profile's name.
pub open spec fn profile_text(profile: EvidenceProfile) -> Seq<char> {
    match profile {
        EvidenceProfile::Ac => "Ac"@,
        EvidenceProfile::Battery => "Battery"@,
    }
}

/// The text of a class's name.
pub open spec fn class_text(class: MatchedWorkloadClass) -> Seq<char> {
    match class {
        MatchedWorkloadClass::Idle => "Idle"@,
        MatchedWorkloadClass::Cpu => "Cpu"@,
        MatchedWorkloadClass::Gpu => "Gpu"@,
        MatchedWorkloadClass::Combined => "Combined"@,
    }
}

/// The text of a place in the matrix.
pub open spec fn key_text(key: WorkloadKey) -> Seq<char> {
    profile_text(key.profile) + "/"@ + class_text(key.class)
}

pub(crate) fn key_name(key: WorkloadKey) -> (text: String)
    ensures
        text@ == key_text(key),
{
    let profile = match key.profile {
        EvidenceProfile::Ac => "Ac",
        EvidenceProfile::Battery => "Battery",
    };
    let class = match key.class {
        MatchedWorkloadClass::Idle => "Idle",
        MatchedWorkloadClass::Cpu => "Cpu",
        MatchedWorkloadClass::Gpu => "Gpu",
        MatchedWorkloadClass::Combined => "Combined",
    };
    join3(profile, "/", class)
}

/// The class that a canonical workload name stands for on a profile.
pub open spec fn named_class(workload_id: Seq<char>, profile: EvidenceProfile) -> Option<
    MatchedWorkloadClass,
> {
    match profile {
        EvidenceProfile::Ac => if workload_id == "idle-ac-v1"@ {
            Some(MatchedWorkloadClass::Idle)
        } else if workload_id == "cpu-ac-v1"@ {
            Some(MatchedWorkloadClass::Cpu)
        } else if workload_id == "gpu-ac-v1"@ {
            Some(MatchedWorkloadClass::Gpu)
        } else if workload_id == "combined-ac-v1"@ {
            Some(MatchedWorkloadClass::Combined)
        } else {
            None
        },
        EvidenceProfile::Battery => if workload_id == "idle-battery-v1"@ {
            Some(MatchedWorkloadClass::Idle)
        } else if workload_id == "cpu-battery-v1"@ {
            Some(MatchedWorkloadClass::Cpu)
        } else if workload_id == "gpu-battery-v1"@ {
            Some(MatchedWorkloadClass::Gpu)
        } else {
            None
        },
    }
}

/// The program that a class of workload runs.
pub open spec fn class_program(class: MatchedWorkloadClass) -> Seq<char> {
    match class {
        MatchedWorkloadClass::Idle => "/usr/lib/pt31553-fan-control/workloads/idle"@,
        MatchedWorkloadClass::Cpu => "/usr/lib/pt31553-fan-control/workloads/cpu"@,
        MatchedWorkloadClass::Gpu => "/usr/lib/pt31553-fan-control/workloads/gpu"@,
        MatchedWorkloadClass::Combined => "/usr/lib/pt31553-fan-control/workloads/combined"@,
    }
}

/// The place in the matrix that a record's canonical workload fills.
pub open spec fn key_of(record: RecordModel) -> Option<WorkloadKey> {
    match record.workload {
        Some(workload) => match named_class(workload.workload_id, workload.power_profile) {
            Some(class) => if workload.version == "1.0.0"@ && workload.command == seq![
                class_program(class),
                "--fixed"@,
            ] {
                Some(WorkloadKey { profile: workload.power_profile, class })
            } else {
                None
            },
            None => None,
        },
        None => None,
    }
}

fn find_named_class(workload_id: &str, profile: EvidenceProfile) -> (class: Option<
    MatchedWorkloadClass,
>)
    ensures
        class == named_class(workload_id@, profile),
{
    match profile {
        EvidenceProfile::Ac => if same_text(workload_id, "idle-ac-v1") {
            Some(MatchedWorkloadClass::Idle)
        } else if same_text(workload_id, "cpu-ac-v1") {
            Some(MatchedWorkloadClass::Cpu)
        } else if same_text(workload_id, "gpu-ac-v1") {
            Some(MatchedWorkloadClass::Gpu)
        } else if same_text(workload_id, "combined-ac-v1") {
            Some(MatchedWorkloadClass::Combined)
        } else {
            None
        },
        EvidenceProfile::Battery => if same_text(workload_id, "idle-battery-v1") {
            Some(MatchedWorkloadClass::Idle)
        } else if same_text(workload_id, "cpu-battery-v1") {
            Some(MatchedWorkloadClass::Cpu)
        } else if same_text(workload_id, "gpu-battery-v1") {
            Some(MatchedWorkloadClass::Gpu)
        } else {
            None
        },
    }
}

/// Finds [`key_of`].
pub fn workload_key(record: &EvidenceRecord) -> (key: Option<WorkloadKey>)
    ensures
        key == key_of(record@),
{
    let workload = match &record.workload {
        Some(workload) => workload,
        None => {
            return None;
        },
    };
    let class = match find_named_class(workload.workload_id.as_str(), workload.power_profile) {
        Some(class) => class,
        None => {
            return None;
        },
    };
    let program = match class {
        MatchedWorkloadClass::Idle => "/usr/lib/pt31553-fan-control/workloads/idle",
        MatchedWorkloadClass::Cpu => "/usr/lib/pt31553-fan-control/workloads/cpu",
        MatchedWorkloadClass::Gpu => "/usr/lib/pt31553-fan-control/workloads/gpu",
        MatchedWorkloadClass::Combined => "/usr/lib/pt31553-fan-control/workloads/combined",
    };
    let ghost wanted = seq![class_program(class), "--fixed"@];
    if workload.command.len() != 2 {
        assert(workload@.command.len() != wanted.len());
        return None;
    }
    let canonical = same_text(workload.command[0].as_str(), program) && same_text(
        workload.command[1].as_str(),
        "--fixed",
    );
    proof {
        assert(workload@.command[0] == workload.command@[0]@);
        assert(workload@.command[1] == workload.command@[1]@);
        if canonical {
            assert(workload@.command =~= wanted);
        } else {
            assert(workload@.command != wanted) by {
                assert(wanted[0] == program@);
                assert(wanted[1] == "--fixed"@);
            }
        }
    }
    if canonical && same_text(workload.version.as_str(), "1.0.0") {
        Some(WorkloadKey { profile: workload.power_profile, class })
    } else {
        None
    }
}

/// Why an endurance run cannot start, or its record cannot stand.
#[derive(Debug, PartialEq, Eq)]
pub enum SupervisedEndurancePlanError {
    InvalidQualificationEvidence { artifact: String, reason: String },
    IncompleteWorkloadMatrix { reason: String },
    InvalidWorkload { reason: String },
    InvalidGeneratedEvidence(EvidenceValidationError),
}

/// The contents of a plan error.
pub enum EndurancePlanErrorModel {
    InvalidQualificationEvidence { artifact: Seq<char>, reason: Seq<char> },
    IncompleteWorkloadMatrix { reason: Seq<char> },
    InvalidWorkload { reason: Seq<char> },
    InvalidGeneratedEvidence(EvidenceValidationError),
}

impl View for SupervisedEndurancePlanError {
    type V = EndurancePlanErrorModel;

    open spec fn view(&self) -> EndurancePlanErrorModel {
        match *self {
            SupervisedEndurancePlanError::InvalidQualificationEvidence { artifact, reason } =>
                EndurancePlanErrorModel::InvalidQualificationEvidence {
                artifact: artifact@,
                reason: reason@,
            },
            SupervisedEndurancePlanError::IncompleteWorkloadMatrix { reason } =>
                EndurancePlanErrorModel::IncompleteWorkloadMatrix { reason: reason@ },
            SupervisedEndurancePlanError::InvalidWorkload { reason } =>
                EndurancePlanErrorModel::InvalidWorkload { reason: reason@ },
            SupervisedEndurancePlanError::InvalidGeneratedEvidence(error) =>
                EndurancePlanErrorModel::InvalidGeneratedEvidence(error),
        }
    }
}

impl Clone for SupervisedEndurancePlanError {
    fn clone(&self) -> (copy: SupervisedEndurancePlanError)
        ensures
            copy@ == self@,
    {
        match self {
            SupervisedEndurancePlanError::InvalidQualificationEvidence { artifact, reason } =>
                SupervisedEndurancePlanError::InvalidQualificationEvidence {
                artifact: artifact.clone(),
                reason: reason.clone(),
            },
            SupervisedEndurancePlanError::IncompleteWorkloadMatrix { reason } =>
                SupervisedEndurancePlanError::IncompleteWorkloadMatrix { reason: reason.clone() },
            SupervisedEndurancePlanError::InvalidWorkload { reason } =>
                SupervisedEndurancePlanError::InvalidWorkload { reason: reason.clone() },
            SupervisedEndurancePlanError::InvalidGeneratedEvidence(error) =>
                SupervisedEndurancePlanError::InvalidGeneratedEvidence(*error),
        }
    }
}

impl EndurancePlanErrorModel {
    /// The message shown to an operator.
    pub open spec fn text(self) -> Seq<char> {
        match self {
            EndurancePlanErrorModel::InvalidQualificationEvidence { artifact, reason } =>
                "invalid "@ + artifact + " evidence: "@ + reason,
            EndurancePlanErrorModel::IncompleteWorkloadMatrix { reason } =>
                "incomplete workload matrix: "@ + reason,
            EndurancePlanErrorModel::InvalidWorkload { reason } => "invalid endurance workload: "@
                + reason,
            EndurancePlanErrorModel::InvalidGeneratedEvidence(error) =>
                "generated endurance evidence is invalid: "@ + error.text(),
        }
    }
}

impl SupervisedEndurancePlanError {
    /// The message shown to an operator.
    pub fn message(&self) -> (text: String)
        ensures
            text@ == self@.text(),
    {
        match self {
            SupervisedEndurancePlanError::InvalidQualificationEvidence { artifact, reason } => {
                let mut text = join3("invalid ", artifact.as_str(), " evidence: ");
                text.append(reason.as_str());
                text
            },
            SupervisedEndurancePlanError::IncompleteWorkloadMatrix { reason } => join(
                "incomplete workload matrix: ",
                reason.as_str(),
            ),
            SupervisedEndurancePlanError::InvalidWorkload { reason } => join(
                "invalid endurance workload: ",
                reason.as_str(),
            ),
            SupervisedEndurancePlanError::InvalidGeneratedEvidence(error) => join(
                "generated endurance evidence is invalid: ",
                error.message().as_str(),
            ),
        }
    }
}

/// An error about one piece of evidence.
pub open spec fn artifact_error(artifact: Seq<char>, reason: Seq<char>) -> EndurancePlanErrorModel {
    EndurancePlanErrorModel::InvalidQualificationEvidence { artifact, reason }
}

/// An error about the workload matrix.
pub open spec fn matrix_gap(reason: Seq<char>) -> EndurancePlanErrorModel {
    EndurancePlanErrorModel::IncompleteWorkloadMatrix { reason }
}

pub(crate) fn invalid_artifact(
    artifact: &str,
    reason: &str,
) -> (error: SupervisedEndurancePlanError)
    ensures
        error@ == artifact_error(artifact@, reason@),
{
    SupervisedEndurancePlanError::InvalidQualificationEvidence {
        artifact: artifact.to_owned(),
        reason: reason.to_owned(),
    }
}

pub(crate) fn matrix_error(reason: &str) -> (error: SupervisedEndurancePlanError)
    ensures
        error@ == matrix_gap(reason@),
{
    SupervisedEndurancePlanError::IncompleteWorkloadMatrix { reason: reason.to_owned() }
}

/// Whether a result says what a model of its error says.
pub open spec fn plan_verdict(
    result: Result<(), SupervisedEndurancePlanError>,
    error: Option<EndurancePlanErrorModel>,
) -> bool {
    match result {
        Ok(()) => error is None,
        Err(e) => error == Some(e@),
    }
}

/// A measurement of a thermal summary.
#[derive(Debug, Clone, Copy, PartialEq, Eq, Structural)]
pub enum ThermalMeasure {
    CpuPeak,
    GpuPeak,
    CpuP95,
    GpuP95,
}

/// What a summary measured.
pub open spec fn measured(summary: ThermalSummaryModel, measure: ThermalMeasure) -> i32 {
    match measure {
        ThermalMeasure::CpuPeak => summary.cpu_peak_millicelsius,
        ThermalMeasure::GpuPeak => summary.gpu_peak_millicelsius,
        ThermalMeasure::CpuP95 => summary.cpu_p95_millicelsius,
        ThermalMeasure::GpuP95 => summary.gpu_p95_millicelsius,
    }
}

/// The highest measurement among the summaries of a list of records.
pub open spec fn highest(records: Seq<&EvidenceRecord>, measure: ThermalMeasure) -> Option<i32>
    decreases records.len(),
{
    if records.len() == 0 {
        None
    } else {
        let earlier = highest(records.drop_last(), measure);
        match records.last()@.thermal_summary {
            Some(summary) => match earlier {
                Some(value) => if value >= measured(summary, measure) {
                    Some(value)
                } else {
                    Some(measured(summary, measure))
                },
                None => Some(measured(summary, measure)),
            },
            None => earlier,
        }
    }
}

/// The highest measurement is one of them, and none exceeds it.
pub proof fn highest_bounds_every_summary(
    records: Seq<&EvidenceRecord>,
    measure: ThermalMeasure,
    index: int,
)
    requires
        0 <= index < records.len(),
        records[index]@.thermal_summary is Some,
    ensures
        highest(records, measure) matches Some(value) && measured(
            records[index]@.thermal_summary->0,
            measure,
        ) <= value,
    decreases records.len(),
{
    if index < records.len() - 1 {
        assert(records.drop_last()[index] == records[index]);
        highest_bounds_every_summary(records.drop_last(), measure, index);
    }
}

/// The text of a measurement's name.
pub open spec fn measure_text(measure: ThermalMeasure) -> Seq<char> {
    match measure {
        ThermalMeasure::CpuPeak => "CPU peak"@,
        ThermalMeasure::GpuPeak => "GPU peak"@,
        ThermalMeasure::CpuP95 => "CPU p95"@,
        ThermalMeasure::GpuP95 => "GPU p95"@,
    }
}

/// The absolute abort limit that a measurement must stay below.
pub open spec fn abort_limit(measure: ThermalMeasure) -> int {
    match measure {
        ThermalMeasure::CpuPeak => 95_000,
        ThermalMeasure::CpuP95 => 95_000,
        ThermalMeasure::GpuPeak => 85_000,
        ThermalMeasure::GpuP95 => 85_000,
    }
}

/// The ceiling that the highest measurement gives, two degrees above it, where that is supported.
pub open spec fn ceiling_of(records: Seq<&EvidenceRecord>, measure: ThermalMeasure) -> Option<int> {
    let ceiling = highest(records, measure)->0 + 2_000;
    if 0 < ceiling < abort_limit(measure) {
        Some(ceiling)
    } else {
        None
    }
}

/// Why a list of baselines gives no thermal envelope.
pub open spec fn envelope_error(records: Seq<&EvidenceRecord>) -> Option<EndurancePlanErrorModel> {
    if highest(records, ThermalMeasure::CpuPeak) is None {
        Some(matrix_gap("all baselines require thermal summaries"@))
    } else if ceiling_of(records, ThermalMeasure::CpuPeak) is None {
        Some(ceiling_error(ThermalMeasure::CpuPeak))
    } else if ceiling_of(records, ThermalMeasure::GpuPeak) is None {
        Some(ceiling_error(ThermalMeasure::GpuPeak))
    } else if ceiling_of(records, ThermalMeasure::CpuP95) is None {
        Some(ceiling_error(ThermalMeasure::CpuP95))
    } else if ceiling_of(records, ThermalMeasure::GpuP95) is None {
        Some(ceiling_error(ThermalMeasure::GpuP95))
    } else {
        None
    }
}

/// The error for an unsupported ceiling.
pub open spec fn ceiling_error(measure: ThermalMeasure) -> EndurancePlanErrorModel {
    artifact_error(
        "baseline thermal envelope"@,
        measure_text(measure) + " plus comparison margin exceeds the supported limit"@,
    )
}

/// The thermal envelope that a list of baselines gives.
pub open spec fn envelope_of(records: Seq<&EvidenceRecord>) -> EnduranceThermalEnvelopeEvidence {
    EnduranceThermalEnvelopeEvidence {
        cpu_peak_limit_millicelsius: ceiling_of(records, ThermalMeasure::CpuPeak)->0 as i32,
        gpu_peak_limit_millicelsius: ceiling_of(records, ThermalMeasure::GpuPeak)->0 as i32,
        cpu_p95_limit_millicelsius: ceiling_of(records, ThermalMeasure::CpuP95)->0 as i32,
        gpu_p95_limit_millicelsius: ceiling_of(records, ThermalMeasure::GpuP95)->0 as i32,
    }
}

fn find_highest(records: &[&EvidenceRecord], measure: ThermalMeasure) -> (found: Option<i32>)
    ensures
        found == highest(records@, measure),
{
    let mut found: Option<i32> = None;
    let mut i: usize = 0;
    assert(records@.take(0) =~= Seq::<&EvidenceRecord>::empty());
    while i < records.len()
        invariant
            i <= records@.len(),
            found == highest(records@.take(i as int), measure),
        decreases records@.len() - i,
    {
        proof {
            let longer = records@.take(i + 1);
            assert(longer.drop_last() =~= records@.take(i as int));
            assert(longer.last() == records@[i as int]);
        }
        match &records[i].thermal_summary {
            Some(summary) => {
                let value: i32 = match measure {
                    ThermalMeasure::CpuPeak => summary.cpu_peak_millicelsius,
                    ThermalMeasure::GpuPeak => summary.gpu_peak_millicelsius,
                    ThermalMeasure::CpuP95 => summary.cpu_p95_millicelsius,
                    ThermalMeasure::GpuP95 => summary.gpu_p95_millicelsius,
                };
                found = match found {
                    Some(known) => if known >= value {
                        Some(known)
                    } else {
                        Some(value)
                    },
                    None => Some(value),
                };
            },
            None => {},
        }
        i = i + 1;
    }
    assert(records@.take(records@.len() as int) =~= records@);
    found
}

fn find_ceiling(value: i32, measure: ThermalMeasure) -> (result: Result<
    i32,
    SupervisedEndurancePlanError,
>)
    ensures
        match result {
            Ok(ceiling) => ceiling == value + 2_000 && 0 < ceiling < abort_limit(measure),
            Err(error) => !(0 < value + 2_000 < abort_limit(measure)) && error@ == ceiling_error(
                measure,
            ),
        },
{
    let (limit, name): (i64, &'static str) = match measure {
        ThermalMeasure::CpuPeak => (95_000, "CPU peak"),
        ThermalMeasure::GpuPeak => (85_000, "GPU peak"),
        ThermalMeasure::CpuP95 => (95_000, "CPU p95"),
        ThermalMeasure::GpuP95 => (85_000, "GPU p95"),
    };
    let ceiling: i64 = value as i64 + 2_000;
    if ceiling > 0 && ceiling < limit {
        Ok(ceiling as i32)
    } else {
        Err(
            invalid_artifact(
                "baseline thermal envelope",
                join(name, " plus comparison margin exceeds the supported limit").as_str(),
            ),
        )
    }
}

proof fn lemma_measured_together(
    records: Seq<&EvidenceRecord>,
    a: ThermalMeasure,
    b: ThermalMeasure,
)
    ensures
        highest(records, a) is Some == highest(records, b) is Some,
    decreases records.len(),
{
    if records.len() > 0 {
        lemma_measured_together(records.drop_last(), a, b);
    }
}

/// Derives the thermal envelope of an endurance run from its baselines.
pub fn endurance_thermal_envelope(baselines: &[&EvidenceRecord]) -> (result: Result<
    EnduranceThermalEnvelopeEvidence,
    SupervisedEndurancePlanError,
>)
    ensures
        match result {
            Ok(envelope) => envelope_error(baselines@) is None && envelope == envelope_of(
                baselines@,
            ),
            Err(error) => envelope_error(baselines@) == Some(error@),
        },
{
    proof {
        lemma_measured_together(baselines@, ThermalMeasure::CpuPeak, ThermalMeasure::GpuPeak);
        lemma_measured_together(baselines@, ThermalMeasure::CpuPeak, ThermalMeasure::CpuP95);
        lemma_measured_together(baselines@, ThermalMeasure::CpuPeak, ThermalMeasure::GpuP95);
    }
    let (cpu_peak, gpu_peak, cpu_p95, gpu_p95) = match (
        find_highest(baselines, ThermalMeasure::CpuPeak),
        find_highest(baselines, ThermalMeasure::GpuPeak),
        find_highest(baselines, ThermalMeasure::CpuP95),
        find_highest(baselines, ThermalMeasure::GpuP95),
    ) {
        (Some(cpu_peak), Some(gpu_peak), Some(cpu_p95), Some(gpu_p95)) => (
            cpu_peak,
            gpu_peak,
            cpu_p95,
            gpu_p95,
        ),
        _ => {
            return Err(matrix_error("all baselines require thermal summaries"));
        },
    };
    let cpu_peak_limit_millicelsius: i32 = match find_ceiling(cpu_peak, ThermalMeasure::CpuPeak) {
        Ok(ceiling) => ceiling,
        Err(error) => {
            return Err(error);
        },
    };
    let gpu_peak_limit_millicelsius: i32 = match find_ceiling(gpu_peak, ThermalMeasure::GpuPeak) {
        Ok(ceiling) => ceiling,
        Err(error) => {
            return Err(error);
        },
    };
    let cpu_p95_limit_millicelsius: i32 = match find_ceiling(cpu_p95, ThermalMeasure::CpuP95) {
        Ok(ceiling) => ceiling,
        Err(error) => {
            return Err(error);
        },
    };
    let gpu_p95_limit_millicelsius: i32 = match find_ceiling(gpu_p95, ThermalMeasure::GpuP95) {
        Ok(ceiling) => ceiling,
        Err(error) => {
            return Err(error);
        },
    };
    Ok(
        EnduranceThermalEnvelopeEvidence {
            cpu_peak_limit_millicelsius,
            gpu_peak_limit_millicelsius,
            cpu_p95_limit_millicelsius,
            gpu_p95_limit_millicelsius,
        },
    )
}

} // verus!
