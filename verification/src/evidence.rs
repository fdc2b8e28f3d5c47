//! Evidence records of qualification runs, and the contents that contracts speak of.

use vstd::prelude::*;
use vstd::string::*;
use crate::calibration::{CalibrationCheckpoint, CheckpointModel};
use crate::compatibility::{CompatibilityDeclarationV1, DeclarationModel};
use crate::lifecycle::{CaseResultModel, LiveLifecycleCaseResult};
use crate::text::{clone_texts, join, join3, same_text, text_option, texts};

verus! {

broadcast use vstd::string::group_string_axioms;

pub const EVIDENCE_SCHEMA_VERSION: u32 = 1;

pub const EVIDENCE_SCHEMA_VERSION_V2: u32 = 2;

/// One immutable record of a qualification run.
#[derive(Debug, PartialEq, Eq)]
pub struct EvidenceRecord {
    pub schema_version: u32,
    pub record_status: EvidenceRecordStatus,
    pub qualification_envelope: QualificationEnvelopeIdentityV1,
    pub stage: String,
    pub started_at: EvidenceTimestamp,
    pub completed_at: EvidenceTimestamp,
    pub starting_conditions_captured_at: Option<EvidenceTimestamp>,
    pub workload_started_at: Option<EvidenceTimestamp>,
    pub baseline_binding_sha256: Option<String>,
    pub prerequisite_binding_sha256: Option<String>,
    pub fan_endpoint_identities: Option<FanEndpointIdentitiesEvidence>,
    pub workload: Option<WorkloadEvidence>,
    pub samples: Vec<TelemetrySampleEvidence>,
    pub commands: Vec<FanCommandEvidence>,
    pub readbacks: Vec<FanReadbackEvidence>,
    pub state_transitions: Vec<StateTransitionEvidence>,
    pub faults: Vec<FaultEvidence>,
    pub restoration_attempts: Vec<RestorationAttemptEvidence>,
    pub process_stops: Vec<ProcessStopEvidence>,
    pub calibration: Vec<FanCalibrationEvidence>,
    pub thermal_summary: Option<ThermalSummaryEvidence>,
    pub endurance_thermal_envelope: Option<EnduranceThermalEnvelopeEvidence>,
    pub endurance_observer_attestation: Option<EnduranceObserverAttestationEvidence>,
    pub live_lifecycle_cases: Option<Vec<LiveLifecycleCaseResult>>,
    pub outcome: RunOutcomeEvidence,
}

#[derive(Debug, Clone, Copy, PartialEq, Eq, Hash, Structural)]
pub enum EvidenceRecordStatus {
    Complete,
}

/// Temperature ceilings derived from the accepted baselines.
#[derive(Debug, Clone, Copy, PartialEq, Eq, Structural)]
pub struct EnduranceThermalEnvelopeEvidence {
    pub cpu_peak_limit_millicelsius: i32,
    pub gpu_peak_limit_millicelsius: i32,
    pub cpu_p95_limit_millicelsius: i32,
    pub gpu_p95_limit_millicelsius: i32,
}

/// Every confirmation that the physical safety observer gave during one endurance run.
#[derive(Debug, PartialEq, Eq)]
pub struct EnduranceObserverAttestationEvidence {
    pub started_at: EvidenceTimestamp,
    pub completed_at: EvidenceTimestamp,
    pub checks: Vec<EvidenceTimestamp>,
}

#[derive(Debug, PartialEq, Eq)]
pub struct QualificationEnvelopeIdentityV1 {
    pub qualification_record_schema_version: u32,
    pub qualification_id: String,
    pub policy_version: String,
    pub protected_policy_sha256: String,
    pub compatibility: CompatibilityDeclarationV1,
}

#[derive(Debug, Clone, Copy, PartialEq, Eq, Structural)]
pub struct EvidenceTimestamp {
    pub monotonic_millis: u64,
    pub wall_unix_millis: i64,
}

#[derive(Debug, PartialEq, Eq)]
pub struct WorkloadEvidence {
    pub workload_id: String,
    pub command: Vec<String>,
    pub version: String,
    pub power_profile: EvidenceProfile,
    pub ambient_millicelsius: i32,
    pub starting_cpu_millicelsius: i32,
    pub starting_gpu_millicelsius: i32,
}

#[derive(Debug, Clone, Copy, PartialEq, Eq)]
pub struct TelemetrySampleEvidence {
    pub timestamp: EvidenceTimestamp,
    pub cpu_millicelsius: Option<i32>,
    pub gpu_millicelsius: Option<i32>,
    pub freshness: SampleFreshness,
    pub external_power: Option<EvidenceExternalPower>,
    pub selected_profile: Option<EvidenceProfile>,
    pub cpu_source_demand_basis_points: Option<u16>,
    pub gpu_source_demand_basis_points: Option<u16>,
    pub cpu_utilization_basis_points: Option<u16>,
    pub gpu_utilization_basis_points: Option<u16>,
    pub commanded_demand_basis_points: Option<u16>,
    pub cpu_thermal_throttling: Option<bool>,
    pub gpu_thermal_throttling: Option<bool>,
}

#[derive(Debug, Clone, Copy, PartialEq, Eq, Structural)]
pub enum SampleFreshness {
    Fresh,
    Stale,
    Invalid,
    Missing,
}

#[derive(Debug, Clone, Copy, PartialEq, Eq, Structural)]
pub enum EvidenceExternalPower {
    Ac,
    Battery,
}

#[derive(Debug, Clone, Copy, PartialEq, Eq, Hash, Structural)]
pub enum EvidenceProfile {
    Ac,
    Battery,
}

#[derive(Debug, Clone, Copy, PartialEq, Eq, Structural)]
pub struct FanCommandEvidence {
    pub timestamp: EvidenceTimestamp,
    pub fan: EvidenceFan,
    pub field: FanControlField,
    pub value: u32,
}

#[derive(Debug, PartialEq, Eq)]
pub struct FanReadbackEvidence {
    pub timestamp: EvidenceTimestamp,
    pub source_timestamp: Option<EvidenceTimestamp>,
    pub fresh: Option<bool>,
    pub boot_id: Option<String>,
    pub fan: EvidenceFan,
    pub field: FanReadbackField,
    pub value: Option<u32>,
    pub endpoint_identity: String,
    pub outcome: ObservationOutcome,
    pub phase: Option<FanReadbackPhase>,
}

#[derive(Debug, Clone, Copy, PartialEq, Eq, Structural)]
pub enum FanReadbackPhase {
    Initial,
    StartGate,
    WorkloadStarted,
    Sample,
    Final,
}

#[derive(Debug, Clone, Copy, PartialEq, Eq, Structural)]
pub enum EvidenceFan {
    Cpu,
    Gpu,
}

#[derive(Debug, Clone, Copy, PartialEq, Eq, Structural)]
pub enum FanControlField {
    Pwm,
    Enable,
}

#[derive(Debug, Clone, Copy, PartialEq, Eq, Structural)]
pub enum FanReadbackField {
    Pwm,
    Enable,
    Rpm,
}

#[derive(Debug, Clone, Copy, PartialEq, Eq, Structural)]
pub enum ObservationOutcome {
    Confirmed,
    Unexpected,
    Unreadable,
}

#[derive(Debug, PartialEq, Eq)]
pub struct StateTransitionEvidence {
    pub timestamp: EvidenceTimestamp,
    pub boot_id: Option<String>,
    pub from: String,
    pub to: String,
}

#[derive(Debug, PartialEq, Eq)]
pub struct FaultEvidence {
    pub timestamp: EvidenceTimestamp,
    pub boot_id: Option<String>,
    pub code: String,
    pub detail: String,
}

#[derive(Debug, Clone, Copy, PartialEq, Eq)]
pub struct RestorationAttemptEvidence {
    pub timestamp: EvidenceTimestamp,
    pub fan: EvidenceFan,
    pub auto_write_succeeded: bool,
    pub enable_readback: Option<u32>,
    pub outcome: RestorationOutcome,
}

#[derive(Debug, Clone, Copy, PartialEq, Eq, Structural)]
pub enum StoppedProcess {
    Workload,
    Service,
}

#[derive(Debug, PartialEq, Eq)]
pub struct ProcessStopEvidence {
    pub process: StoppedProcess,
    pub process_identity: String,
    pub requested_at: EvidenceTimestamp,
    pub confirmed_at: EvidenceTimestamp,
    pub running: bool,
}

#[derive(Debug, Clone, Copy, PartialEq, Eq, Structural)]
pub enum RestorationOutcome {
    FirmwareAutoConfirmed,
    FirmwareAutoUnconfirmed,
    MaximumContainmentConfirmed,
    ContainmentFailed,
}

#[derive(Debug, PartialEq, Eq)]
pub struct FanCalibrationEvidence {
    pub fan: EvidenceFan,
    pub floor_basis_points: u16,
    pub slowest_response_millis: Option<u64>,
    pub protocol_checkpoint: Option<CalibrationCheckpoint>,
    pub response_deadline_millis: u64,
    pub anchors: Vec<RpmAnchorEvidence>,
}

#[derive(Debug, Clone, Copy, PartialEq, Eq, Structural)]
pub struct RpmAnchorEvidence {
    pub duty_basis_points: u16,
    pub median_rpm: u32,
}

/// Identities of the six fan endpoints that a run was bound to.
#[derive(Debug, PartialEq, Eq)]
pub struct FanEndpointIdentitiesEvidence {
    pub cpu_pwm: String,
    pub cpu_enable: String,
    pub cpu_tachometer: String,
    pub gpu_pwm: String,
    pub gpu_enable: String,
    pub gpu_tachometer: String,
}

#[derive(Debug, PartialEq, Eq)]
pub struct ThermalSummaryEvidence {
    pub cpu_peak_millicelsius: i32,
    pub gpu_peak_millicelsius: i32,
    pub cpu_p95_millicelsius: i32,
    pub gpu_p95_millicelsius: i32,
    pub cpu_final_slope_millicelsius_per_minute: i32,
    pub gpu_final_slope_millicelsius_per_minute: i32,
    pub system_stable: Option<bool>,
    pub kernel_faults: Vec<String>,
    pub nvidia_faults: Vec<String>,
}

#[derive(Debug, PartialEq, Eq)]
pub struct RunOutcomeEvidence {
    pub status: RunOutcomeStatus,
    pub reason: String,
    pub another_passing_run_required: bool,
    pub final_firmware_auto_confirmed: bool,
}

#[derive(Debug, Clone, Copy, PartialEq, Eq, Structural)]
pub enum RunOutcomeStatus {
    Passed,
    Failed,
    NoGo,
}

/// Why a record is not valid evidence.
#[derive(Debug, Clone, Copy, PartialEq, Eq)]
pub enum EvidenceValidationError {
    UnsupportedSchemaVersion,
    IncompatibleSchemaField { field: &'static str },
    InvalidIdentity { field: &'static str },
    InvalidStage,
    InvalidTimeRange,
    EventOutsideRun { field: &'static str, index: usize },
    InvalidWorkload { field: &'static str },
    InvalidValue { field: &'static str, index: usize },
    InvalidState { field: &'static str, index: usize },
    InvalidFault { field: &'static str, index: usize },
}

/// The contents of an envelope identity.
pub struct EnvelopeModel {
    pub schema_version: u32,
    pub qualification_id: Seq<char>,
    pub policy_version: Seq<char>,
    pub protected_policy_sha256: Seq<char>,
    pub compatibility: DeclarationModel,
}

/// The contents of a workload description.
pub struct WorkloadModel {
    pub workload_id: Seq<char>,
    pub command: Seq<Seq<char>>,
    pub version: Seq<char>,
    pub power_profile: EvidenceProfile,
    pub ambient_millicelsius: i32,
    pub starting_cpu_millicelsius: i32,
    pub starting_gpu_millicelsius: i32,
}

/// The contents of a fan calibration.
pub struct FanCalibrationModel {
    pub fan: EvidenceFan,
    pub floor_basis_points: u16,
    pub slowest_response_millis: Option<u64>,
    pub protocol_checkpoint: Option<CheckpointModel>,
    pub response_deadline_millis: u64,
    pub anchors: Seq<RpmAnchorEvidence>,
}

/// The contents of a thermal summary.
pub struct ThermalSummaryModel {
    pub cpu_peak_millicelsius: i32,
    pub gpu_peak_millicelsius: i32,
    pub cpu_p95_millicelsius: i32,
    pub gpu_p95_millicelsius: i32,
    pub cpu_final_slope_millicelsius_per_minute: i32,
    pub gpu_final_slope_millicelsius_per_minute: i32,
    pub system_stable: Option<bool>,
    pub kernel_faults: Seq<Seq<char>>,
    pub nvidia_faults: Seq<Seq<char>>,
}

/// The contents of an observer attestation.
pub struct ObserverAttestationModel {
    pub started_at: EvidenceTimestamp,
    pub completed_at: EvidenceTimestamp,
    pub checks: Seq<EvidenceTimestamp>,
}

/// The contents of a run outcome.
pub struct OutcomeModel {
    pub status: RunOutcomeStatus,
    pub reason: Seq<char>,
    pub another_passing_run_required: bool,
    pub final_firmware_auto_confirmed: bool,
}

/// The contents of an evidence record.
pub struct RecordModel {
    pub schema_version: u32,
    pub envelope: EnvelopeModel,
    pub stage: Seq<char>,
    pub started_at: EvidenceTimestamp,
    pub completed_at: EvidenceTimestamp,
    pub starting_conditions_captured_at: Option<EvidenceTimestamp>,
    pub workload_started_at: Option<EvidenceTimestamp>,
    pub baseline_binding_sha256: Option<Seq<char>>,
    pub prerequisite_binding_sha256: Option<Seq<char>>,
    pub fan_endpoint_identities: Option<FanEndpointIdentitiesEvidence>,
    pub workload: Option<WorkloadModel>,
    pub samples: Seq<TelemetrySampleEvidence>,
    pub commands: Seq<FanCommandEvidence>,
    pub readbacks: Seq<FanReadbackEvidence>,
    pub state_transitions: Seq<StateTransitionEvidence>,
    pub faults: Seq<FaultEvidence>,
    pub restoration_attempts: Seq<RestorationAttemptEvidence>,
    pub process_stops: Seq<ProcessStopEvidence>,
    pub calibration: Seq<FanCalibrationModel>,
    pub thermal_summary: Option<ThermalSummaryModel>,
    pub endurance_thermal_envelope: Option<EnduranceThermalEnvelopeEvidence>,
    pub endurance_observer_attestation: Option<ObserverAttestationModel>,
    pub live_lifecycle_cases: Option<Seq<CaseResultModel>>,
    pub outcome: OutcomeModel,
}

impl View for QualificationEnvelopeIdentityV1 {
    type V = EnvelopeModel;

    open spec fn view(&self) -> EnvelopeModel {
        EnvelopeModel {
            schema_version: self.qualification_record_schema_version,
            qualification_id: self.qualification_id@,
            policy_version: self.policy_version@,
            protected_policy_sha256: self.protected_policy_sha256@,
            compatibility: self.compatibility@,
        }
    }
}

impl View for WorkloadEvidence {
    type V = WorkloadModel;

    open spec fn view(&self) -> WorkloadModel {
        WorkloadModel {
            workload_id: self.workload_id@,
            command: texts(self.command@),
            version: self.version@,
            power_profile: self.power_profile,
            ambient_millicelsius: self.ambient_millicelsius,
            starting_cpu_millicelsius: self.starting_cpu_millicelsius,
            starting_gpu_millicelsius: self.starting_gpu_millicelsius,
        }
    }
}

impl View for FanCalibrationEvidence {
    type V = FanCalibrationModel;

    open spec fn view(&self) -> FanCalibrationModel {
        FanCalibrationModel {
            fan: self.fan,
            floor_basis_points: self.floor_basis_points,
            slowest_response_millis: self.slowest_response_millis,
            protocol_checkpoint: match self.protocol_checkpoint {
                Some(checkpoint) => Some(checkpoint@),
                None => None,
            },
            response_deadline_millis: self.response_deadline_millis,
            anchors: self.anchors@,
        }
    }
}

impl View for ThermalSummaryEvidence {
    type V = ThermalSummaryModel;

    open spec fn view(&self) -> ThermalSummaryModel {
        ThermalSummaryModel {
            cpu_peak_millicelsius: self.cpu_peak_millicelsius,
            gpu_peak_millicelsius: self.gpu_peak_millicelsius,
            cpu_p95_millicelsius: self.cpu_p95_millicelsius,
            gpu_p95_millicelsius: self.gpu_p95_millicelsius,
            cpu_final_slope_millicelsius_per_minute: self.cpu_final_slope_millicelsius_per_minute,
            gpu_final_slope_millicelsius_per_minute: self.gpu_final_slope_millicelsius_per_minute,
            system_stable: self.system_stable,
            kernel_faults: texts(self.kernel_faults@),
            nvidia_faults: texts(self.nvidia_faults@),
        }
    }
}

impl View for EnduranceObserverAttestationEvidence {
    type V = ObserverAttestationModel;

    open spec fn view(&self) -> ObserverAttestationModel {
        ObserverAttestationModel {
            started_at: self.started_at,
            completed_at: self.completed_at,
            checks: self.checks@,
        }
    }
}

impl View for RunOutcomeEvidence {
    type V = OutcomeModel;

    open spec fn view(&self) -> OutcomeModel {
        OutcomeModel {
            status: self.status,
            reason: self.reason@,
            another_passing_run_required: self.another_passing_run_required,
            final_firmware_auto_confirmed: self.final_firmware_auto_confirmed,
        }
    }
}

impl View for EvidenceRecord {
    type V = RecordModel;

    open spec fn view(&self) -> RecordModel {
        RecordModel {
            schema_version: self.schema_version,
            envelope: self.qualification_envelope@,
            stage: self.stage@,
            started_at: self.started_at,
            completed_at: self.completed_at,
            starting_conditions_captured_at: self.starting_conditions_captured_at,
            workload_started_at: self.workload_started_at,
            baseline_binding_sha256: text_option(self.baseline_binding_sha256),
            prerequisite_binding_sha256: text_option(self.prerequisite_binding_sha256),
            fan_endpoint_identities: self.fan_endpoint_identities,
            workload: match self.workload {
                Some(workload) => Some(workload@),
                None => None,
            },
            samples: self.samples@,
            commands: self.commands@,
            readbacks: self.readbacks@,
            state_transitions: self.state_transitions@,
            faults: self.faults@,
            restoration_attempts: self.restoration_attempts@,
            process_stops: self.process_stops@,
            calibration: self.calibration@.map_values(|c: FanCalibrationEvidence| c@),
            thermal_summary: match self.thermal_summary {
                Some(summary) => Some(summary@),
                None => None,
            },
            endurance_thermal_envelope: self.endurance_thermal_envelope,
            endurance_observer_attestation: match self.endurance_observer_attestation {
                Some(attestation) => Some(attestation@),
                None => None,
            },
            live_lifecycle_cases: match self.live_lifecycle_cases {
                Some(cases) => Some(cases@.map_values(|c: LiveLifecycleCaseResult| c@)),
                None => None,
            },
            outcome: self.outcome@,
        }
    }
}

/// A record that holds nothing yet but its frame.
pub open spec fn blank_record(
    envelope: EnvelopeModel,
    stage: Seq<char>,
    started_at: EvidenceTimestamp,
    completed_at: EvidenceTimestamp,
    outcome: OutcomeModel,
) -> RecordModel {
    RecordModel {
        schema_version: 2,
        envelope,
        stage,
        started_at,
        completed_at,
        starting_conditions_captured_at: None,
        workload_started_at: None,
        baseline_binding_sha256: None,
        prerequisite_binding_sha256: None,
        fan_endpoint_identities: None,
        workload: None,
        samples: Seq::empty(),
        commands: Seq::empty(),
        readbacks: Seq::empty(),
        state_transitions: Seq::empty(),
        faults: Seq::empty(),
        restoration_attempts: Seq::empty(),
        process_stops: Seq::empty(),
        calibration: Seq::empty(),
        thermal_summary: None,
        endurance_thermal_envelope: None,
        endurance_observer_attestation: None,
        live_lifecycle_cases: None,
        outcome,
    }
}

impl EvidenceRecord {
    /// A record that holds nothing yet but its frame.
    pub fn complete_v2(
        envelope: QualificationEnvelopeIdentityV1,
        stage: &str,
        started_at: EvidenceTimestamp,
        completed_at: EvidenceTimestamp,
        outcome: RunOutcomeEvidence,
    ) -> (record: EvidenceRecord)
        ensures
            record@ == blank_record(envelope@, stage@, started_at, completed_at, outcome@),
            record.qualification_envelope == envelope,
    {
        let record = EvidenceRecord {
            schema_version: EVIDENCE_SCHEMA_VERSION_V2,
            record_status: EvidenceRecordStatus::Complete,
            qualification_envelope: envelope,
            stage: stage.to_owned(),
            started_at,
            completed_at,
            starting_conditions_captured_at: None,
            workload_started_at: None,
            baseline_binding_sha256: None,
            prerequisite_binding_sha256: None,
            fan_endpoint_identities: None,
            workload: None,
            samples: Vec::new(),
            commands: Vec::new(),
            readbacks: Vec::new(),
            state_transitions: Vec::new(),
            faults: Vec::new(),
            restoration_attempts: Vec::new(),
            process_stops: Vec::new(),
            calibration: Vec::new(),
            thermal_summary: None,
            endurance_thermal_envelope: None,
            endurance_observer_attestation: None,
            live_lifecycle_cases: None,
            outcome,
        };
        assert(record@.calibration =~= Seq::empty());
        record
    }
}

impl Clone for QualificationEnvelopeIdentityV1 {
    fn clone(&self) -> (copy: QualificationEnvelopeIdentityV1)
        ensures
            copy@ == self@,
    {
        QualificationEnvelopeIdentityV1 {
            qualification_record_schema_version: self.qualification_record_schema_version,
            qualification_id: self.qualification_id.clone(),
            policy_version: self.policy_version.clone(),
            protected_policy_sha256: self.protected_policy_sha256.clone(),
            compatibility: self.compatibility.clone(),
        }
    }
}

impl QualificationEnvelopeIdentityV1 {
    /// Whether two identities hold the same contents.
    pub fn same_as(&self, other: &QualificationEnvelopeIdentityV1) -> (same: bool)
        ensures
            same == (self@ == other@),
    {
        self.qualification_record_schema_version == other.qualification_record_schema_version
            && same_text(self.qualification_id.as_str(), other.qualification_id.as_str())
            && same_text(self.policy_version.as_str(), other.policy_version.as_str()) && same_text(
            self.protected_policy_sha256.as_str(),
            other.protected_policy_sha256.as_str(),
        ) && self.compatibility.same_as(&other.compatibility)
    }
}

impl Clone for WorkloadEvidence {
    fn clone(&self) -> (copy: WorkloadEvidence)
        ensures
            copy@ == self@,
    {
        WorkloadEvidence {
            workload_id: self.workload_id.clone(),
            command: clone_texts(&self.command),
            version: self.version.clone(),
            power_profile: self.power_profile,
            ambient_millicelsius: self.ambient_millicelsius,
            starting_cpu_millicelsius: self.starting_cpu_millicelsius,
            starting_gpu_millicelsius: self.starting_gpu_millicelsius,
        }
    }
}

/// Copies an optional text.
pub(crate) fn clone_text_option(value: &Option<String>) -> (copy: Option<String>)
    ensures
        copy == *value,
{
    match value {
        Some(text) => Some(text.clone()),
        None => None,
    }
}

impl Clone for FanCalibrationEvidence {
    fn clone(&self) -> (copy: FanCalibrationEvidence)
        ensures
            copy@ == self@,
    {
        let mut anchors: Vec<RpmAnchorEvidence> = Vec::new();
        let mut i: usize = 0;
        while i < self.anchors.len()
            invariant
                i <= self.anchors.len(),
                anchors@ == self.anchors@.take(i as int),
            decreases self.anchors.len() - i,
        {
            anchors.push(self.anchors[i]);
            i = i + 1;
            assert(anchors@ =~= self.anchors@.take(i as int));
        }
        assert(anchors@ =~= self.anchors@);
        FanCalibrationEvidence {
            fan: self.fan,
            floor_basis_points: self.floor_basis_points,
            slowest_response_millis: self.slowest_response_millis,
            protocol_checkpoint: match &self.protocol_checkpoint {
                Some(checkpoint) => Some(checkpoint.clone()),
                None => None,
            },
            response_deadline_millis: self.response_deadline_millis,
            anchors,
        }
    }
}

impl Clone for FanReadbackEvidence {
    fn clone(&self) -> (copy: FanReadbackEvidence)
        ensures
            copy == *self,
    {
        FanReadbackEvidence {
            timestamp: self.timestamp,
            source_timestamp: self.source_timestamp,
            fresh: self.fresh,
            boot_id: clone_text_option(&self.boot_id),
            fan: self.fan,
            field: self.field,
            value: self.value,
            endpoint_identity: self.endpoint_identity.clone(),
            outcome: self.outcome,
            phase: self.phase,
        }
    }
}

impl Clone for StateTransitionEvidence {
    fn clone(&self) -> (copy: StateTransitionEvidence)
        ensures
            copy == *self,
    {
        StateTransitionEvidence {
            timestamp: self.timestamp,
            boot_id: clone_text_option(&self.boot_id),
            from: self.from.clone(),
            to: self.to.clone(),
        }
    }
}

impl Clone for FaultEvidence {
    fn clone(&self) -> (copy: FaultEvidence)
        ensures
            copy == *self,
    {
        FaultEvidence {
            timestamp: self.timestamp,
            boot_id: clone_text_option(&self.boot_id),
            code: self.code.clone(),
            detail: self.detail.clone(),
        }
    }
}

impl Clone for EnduranceObserverAttestationEvidence {
    fn clone(&self) -> (copy: EnduranceObserverAttestationEvidence)
        ensures
            copy@ == self@,
    {
        let checks = self.checks.clone();
        assert(checks@ =~= self.checks@);
        EnduranceObserverAttestationEvidence {
            started_at: self.started_at,
            completed_at: self.completed_at,
            checks,
        }
    }
}

impl Clone for RunOutcomeEvidence {
    fn clone(&self) -> (copy: RunOutcomeEvidence)
        ensures
            copy == *self,
    {
        RunOutcomeEvidence {
            status: self.status,
            reason: self.reason.clone(),
            another_passing_run_required: self.another_passing_run_required,
            final_firmware_auto_confirmed: self.final_firmware_auto_confirmed,
        }
    }
}

impl Clone for ThermalSummaryEvidence {
    fn clone(&self) -> (copy: ThermalSummaryEvidence)
        ensures
            copy@ == self@,
    {
        ThermalSummaryEvidence {
            cpu_peak_millicelsius: self.cpu_peak_millicelsius,
            gpu_peak_millicelsius: self.gpu_peak_millicelsius,
            cpu_p95_millicelsius: self.cpu_p95_millicelsius,
            gpu_p95_millicelsius: self.gpu_p95_millicelsius,
            cpu_final_slope_millicelsius_per_minute: self.cpu_final_slope_millicelsius_per_minute,
            gpu_final_slope_millicelsius_per_minute: self.gpu_final_slope_millicelsius_per_minute,
            system_stable: self.system_stable,
            kernel_faults: clone_texts(&self.kernel_faults),
            nvidia_faults: clone_texts(&self.nvidia_faults),
        }
    }
}

impl Clone for FanEndpointIdentitiesEvidence {
    fn clone(&self) -> (copy: FanEndpointIdentitiesEvidence)
        ensures
            copy == *self,
    {
        FanEndpointIdentitiesEvidence {
            cpu_pwm: self.cpu_pwm.clone(),
            cpu_enable: self.cpu_enable.clone(),
            cpu_tachometer: self.cpu_tachometer.clone(),
            gpu_pwm: self.gpu_pwm.clone(),
            gpu_enable: self.gpu_enable.clone(),
            gpu_tachometer: self.gpu_tachometer.clone(),
        }
    }
}

impl Clone for ProcessStopEvidence {
    fn clone(&self) -> (copy: ProcessStopEvidence)
        ensures
            copy == *self,
    {
        ProcessStopEvidence {
            process: self.process,
            process_identity: self.process_identity.clone(),
            requested_at: self.requested_at,
            confirmed_at: self.confirmed_at,
            running: self.running,
        }
    }
}

impl Clone for EvidenceRecord {
    fn clone(&self) -> (copy: EvidenceRecord)
        ensures
            copy@ == self@,
    {
        let copy = EvidenceRecord {
            schema_version: self.schema_version,
            record_status: self.record_status,
            qualification_envelope: self.qualification_envelope.clone(),
            stage: self.stage.clone(),
            started_at: self.started_at,
            completed_at: self.completed_at,
            starting_conditions_captured_at: self.starting_conditions_captured_at,
            workload_started_at: self.workload_started_at,
            baseline_binding_sha256: clone_text_option(&self.baseline_binding_sha256),
            prerequisite_binding_sha256: clone_text_option(&self.prerequisite_binding_sha256),
            fan_endpoint_identities: match &self.fan_endpoint_identities {
                Some(value) => Some(value.clone()),
                None => None,
            },
            workload: match &self.workload {
                Some(value) => Some(value.clone()),
                None => None,
            },
            samples: self.samples.clone(),
            commands: self.commands.clone(),
            readbacks: self.readbacks.clone(),
            state_transitions: self.state_transitions.clone(),
            faults: self.faults.clone(),
            restoration_attempts: self.restoration_attempts.clone(),
            process_stops: self.process_stops.clone(),
            calibration: self.calibration.clone(),
            thermal_summary: match &self.thermal_summary {
                Some(value) => Some(value.clone()),
                None => None,
            },
            endurance_thermal_envelope: self.endurance_thermal_envelope,
            endurance_observer_attestation: match &self.endurance_observer_attestation {
                Some(value) => Some(value.clone()),
                None => None,
            },
            live_lifecycle_cases: match &self.live_lifecycle_cases {
                Some(value) => Some(value.clone()),
                None => None,
            },
            outcome: self.outcome.clone(),
        };
        proof {
            assert(copy.samples@ =~= self.samples@);
            assert(copy.commands@ =~= self.commands@);
            assert(copy.readbacks@ =~= self.readbacks@);
            assert(copy.state_transitions@ =~= self.state_transitions@);
            assert(copy.faults@ =~= self.faults@);
            assert(copy.restoration_attempts@ =~= self.restoration_attempts@);
            assert(copy.process_stops@ =~= self.process_stops@);
            assert(copy@.calibration =~= self@.calibration);
            if self.live_lifecycle_cases is Some {
                assert(copy@.live_lifecycle_cases->0 =~= self@.live_lifecycle_cases->0);
            }
        }
        copy
    }
}

impl EvidenceValidationError {
    /// The text of the message.
    pub open spec fn text(self) -> Seq<char> {
        match self {
            EvidenceValidationError::UnsupportedSchemaVersion =>
                "unsupported evidence schema version"@,
            EvidenceValidationError::IncompatibleSchemaField { field } => field@
                + " is incompatible with the evidence schema version"@,
            EvidenceValidationError::InvalidIdentity { field } =>
                "invalid qualification identity at "@ + field@,
            EvidenceValidationError::InvalidStage => "invalid qualification stage"@,
            EvidenceValidationError::InvalidTimeRange =>
                "evidence monotonic time range is invalid"@,
            EvidenceValidationError::EventOutsideRun { field, index } => place_text(field@, index)
                + " is outside the run time range"@,
            EvidenceValidationError::InvalidWorkload { field } => "invalid workload field "@
                + field@,
            EvidenceValidationError::InvalidValue { field, index } => "invalid value at "@
                + place_text(field@, index),
            EvidenceValidationError::InvalidState { field, index } => "invalid state at "@
                + place_text(field@, index),
            EvidenceValidationError::InvalidFault { field, index } => "invalid fault at "@
                + place_text(field@, index),
        }
    }

    /// The message shown to an operator.
    pub fn message(&self) -> (message: String)
        ensures
            message@ == self.text(),
    {
        match self {
            EvidenceValidationError::UnsupportedSchemaVersion =>
                "unsupported evidence schema version".to_owned(),
            EvidenceValidationError::IncompatibleSchemaField { field } => join(
                field,
                " is incompatible with the evidence schema version",
            ),
            EvidenceValidationError::InvalidIdentity { field } => join(
                "invalid qualification identity at ",
                field,
            ),
            EvidenceValidationError::InvalidStage => "invalid qualification stage".to_owned(),
            EvidenceValidationError::InvalidTimeRange =>
                "evidence monotonic time range is invalid".to_owned(),
            EvidenceValidationError::EventOutsideRun { field, index } => join(
                place(field, *index).as_str(),
                " is outside the run time range",
            ),
            EvidenceValidationError::InvalidWorkload { field } => join(
                "invalid workload field ",
                field,
            ),
            EvidenceValidationError::InvalidValue { field, index } => join(
                "invalid value at ",
                place(field, *index).as_str(),
            ),
            EvidenceValidationError::InvalidState { field, index } => join(
                "invalid state at ",
                place(field, *index).as_str(),
            ),
            EvidenceValidationError::InvalidFault { field, index } => join(
                "invalid fault at ",
                place(field, *index).as_str(),
            ),
        }
    }
}

/// A field name with an index.
pub open spec fn place_text(field: Seq<char>, index: usize) -> Seq<char> {
    field + "["@ + crate::text::decimal_text(index as nat) + "]"@
}

fn place(field: &str, index: usize) -> (text: String)
    ensures
        text@ == place_text(field@, index),
{
    let mut text = join3(field, "[", crate::text::decimal(index as u64).as_str());
    text.append("]");
    text
}

/// The power source that a profile runs on.
pub open spec fn profile_source(profile: EvidenceProfile) -> EvidenceExternalPower {
    match profile {
        EvidenceProfile::Ac => EvidenceExternalPower::Ac,
        EvidenceProfile::Battery => EvidenceExternalPower::Battery,
    }
}

/// The power source that a profile runs on.
pub fn profile_power(profile: EvidenceProfile) -> (power: EvidenceExternalPower)
    ensures
        power == profile_source(profile),
{
    match profile {
        EvidenceProfile::Ac => EvidenceExternalPower::Ac,
        EvidenceProfile::Battery => EvidenceExternalPower::Battery,
    }
}

} // verus!
