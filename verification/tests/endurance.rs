use fan_control_core::trace::History;
use fan_control_core::authority::{
    validate_record_identity, PolicyAuthorityError, QualificationRecordV2,
    SupervisedEnduranceAuthorizationV1, SUPERVISED_ENDURANCE_EVIDENCE_PATH,
};
use fan_control_core::compatibility::{
    CompatibilityDeclarationV1, EscapeHatchCapability, FanControlDeclaration, FanWriteBackend,
    HardwareIdentity, KernelIdentity, ModuleIdentity, ModuleProvenance, SecureBootRequirements,
};
use fan_control_core::endurance_matrix::{
    validate_endurance_workload, validate_qualification_plan, SupervisedEnduranceCalibrations,
    SupervisedEndurancePlan,
};
use fan_control_core::endurance_plan::{
    endurance_thermal_envelope, workload_key, SupervisedEndurancePlanError, WorkloadKey,
};
use fan_control_core::endurance_schedule::{
    segment_boundary_elapsed, segment_index_at_elapsed, supervised_endurance_segments,
    SupervisedEnduranceLoad, SupervisedEnduranceSegment, SUPERVISED_ENDURANCE_DURATION_MILLIS,
    SUPERVISED_ENDURANCE_SAMPLE_COUNT,
};
use fan_control_core::endurance_shutdown::{
    contain_both_fans_at_maximum, perform_confirmed_stop, restore_both_fans, StopEffort,
    StopExpectation, SupervisedEnduranceEnvironment, SupervisedEnduranceFanContainment,
    SupervisedEnduranceProcessStopConfirmation, SupervisedEnduranceSegmentConfirmation,
};
use fan_control_core::evidence::{
    EvidenceFan, EvidenceProfile, EvidenceRecord, EvidenceRecordStatus, EvidenceTimestamp,
    QualificationEnvelopeIdentityV1, RestorationOutcome, RunOutcomeEvidence, RunOutcomeStatus,
    StoppedProcess, ThermalSummaryEvidence, WorkloadEvidence,
};
use fan_control_core::matched_control::{ControlEvidenceState, MatchedWorkloadObservation};
use fan_control_core::matched_plan::EvidenceInput;
use fan_control_core::matched_workload::{
    CapturedMatchedWorkloadStartingConditions, MatchedWorkloadFanRestoration,
};
use fan_control_core::thermal::flat_slopes;

fn declaration() -> CompatibilityDeclarationV1 {
    CompatibilityDeclarationV1 {
        schema_version: 1,
        hardware: HardwareIdentity {
            dmi_product_name: "Predator PT315-53".to_owned(),
            dmi_board_name: "Civic_TLS".to_owned(),
            bios_version: "V1.17".to_owned(),
        },
        kernel: KernelIdentity {
            release: "6.19.2-cachyos-pt31553".to_owned(),
            package: "linux-cachyos-pt31553".to_owned(),
            source_commit: "c".repeat(40),
            image_sha256: "1".repeat(64),
            image_signer_fingerprint: "2".repeat(64),
        },
        module: ModuleIdentity {
            name: "acer_wmi".to_owned(),
            path: "/usr/lib/modules/6.19.2-cachyos-pt31553/kernel/drivers/platform/x86/acer-wmi.ko.zst"
                .to_owned(),
            sha256: "3".repeat(64),
            signer_fingerprint: "4".repeat(64),
            vermagic: "6.19.2-cachyos-pt31553 SMP preempt mod_unload".to_owned(),
            provenance: ModuleProvenance::InTree,
        },
        secure_boot: SecureBootRequirements { required: true },
        fan_control: FanControlDeclaration {
            backend: FanWriteBackend::AcerHwmon,
            hwmon_name: "acer".to_owned(),
            endpoints: ["pwm1", "pwm1_enable", "fan1_input", "pwm2", "pwm2_enable", "fan2_input"]
                .iter()
                .map(|name| name.to_string())
                .collect(),
            forbidden_capabilities: vec![
                EscapeHatchCapability::ForceCaps,
                EscapeHatchCapability::EcRawMode,
                EscapeHatchCapability::PredatorV4Override,
                EscapeHatchCapability::DirectWmi,
                EscapeHatchCapability::RawEc,
                EscapeHatchCapability::ReplacementWmiModule,
                EscapeHatchCapability::AlternateFanWriteBackend,
            ],
        },
    }
}

fn envelope() -> QualificationEnvelopeIdentityV1 {
    QualificationEnvelopeIdentityV1 {
        qualification_record_schema_version: 1,
        qualification_id: "pt31553-q1".to_owned(),
        policy_version: "policy-1".to_owned(),
        protected_policy_sha256: "a".repeat(64),
        compatibility: declaration(),
    }
}

fn at(monotonic_millis: u64) -> EvidenceTimestamp {
    EvidenceTimestamp {
        monotonic_millis,
        wall_unix_millis: monotonic_millis as i64,
    }
}

fn workload() -> WorkloadEvidence {
    WorkloadEvidence {
        workload_id: "supervised-mixed-endurance".to_owned(),
        command: vec![
            "/usr/lib/pt31553-fan-control/workloads/mixed".to_owned(),
            "--fixed".to_owned(),
        ],
        version: "1.0.0".to_owned(),
        power_profile: EvidenceProfile::Ac,
        ambient_millicelsius: 22_000,
        starting_cpu_millicelsius: 45_000,
        starting_gpu_millicelsius: 40_000,
    }
}

fn legacy_record() -> EvidenceRecord {
    let mut record = EvidenceRecord::complete_v2(
        envelope(),
        "thermal-baseline",
        at(1_000),
        at(2_000),
        RunOutcomeEvidence {
            status: RunOutcomeStatus::Passed,
            reason: "complete".to_owned(),
            another_passing_run_required: false,
            final_firmware_auto_confirmed: true,
        },
    );
    record.schema_version = 1;
    record.workload = Some(workload());
    record
}

fn summary(cpu_peak_millicelsius: i32) -> ThermalSummaryEvidence {
    ThermalSummaryEvidence {
        cpu_peak_millicelsius,
        gpu_peak_millicelsius: 80_000,
        cpu_p95_millicelsius: 90_000,
        gpu_p95_millicelsius: 75_000,
        cpu_final_slope_millicelsius_per_minute: 0,
        gpu_final_slope_millicelsius_per_minute: 0,
        system_stable: Some(true),
        kernel_faults: vec![],
        nvidia_faults: vec![],
    }
}

fn no_control() -> ControlEvidenceState {
    ControlEvidenceState {
        cpu_pwm: None,
        cpu_enable: None,
        cpu_rpm: None,
        gpu_pwm: None,
        gpu_enable: None,
        gpu_rpm: None,
    }
}

struct OverflowRestorationEnvironment {
    now: EvidenceTimestamp,
    restored: Vec<EvidenceFan>,
    stops: Vec<&'static str>,
}

impl SupervisedEnduranceEnvironment for OverflowRestorationEnvironment {
    fn history(&self) -> History<fan_control_core::endurance_calls::EnduranceCall> {
        unreachable!()
    }

    fn timestamp(&mut self) -> EvidenceTimestamp {
        self.now
    }

    fn confirm_observer(&mut self, _: u64) -> Result<EvidenceTimestamp, String> {
        unreachable!()
    }

    fn capture_starting_conditions(
        &mut self,
        _: u64,
    ) -> Result<CapturedMatchedWorkloadStartingConditions, String> {
        unreachable!()
    }

    fn enter_custom_control(&mut self, _: u64) -> Result<(), String> {
        unreachable!()
    }

    fn begin_segment(
        &mut self,
        _: SupervisedEnduranceSegment,
        _: u64,
    ) -> Result<SupervisedEnduranceSegmentConfirmation, String> {
        unreachable!()
    }

    fn start_workload(
        &mut self,
        _: &WorkloadEvidence,
        _: u64,
    ) -> Result<EvidenceTimestamp, String> {
        unreachable!()
    }

    fn wait_until(&mut self, _: u64, _: u64) -> Result<(), String> {
        unreachable!()
    }

    fn capture_observation(&mut self, _: u64) -> Result<MatchedWorkloadObservation, String> {
        unreachable!()
    }

    fn stop_workload(
        &mut self,
        _: u64,
    ) -> Result<SupervisedEnduranceProcessStopConfirmation, String> {
        self.stops.push("workload");
        Ok(SupervisedEnduranceProcessStopConfirmation {
            observed_at: self.now,
            process_identity: "/usr/lib/pt31553-fan-control/workloads/mixed".into(),
            running: false,
        })
    }

    fn force_contain_workload(
        &mut self,
        deadline: u64,
    ) -> Result<SupervisedEnduranceProcessStopConfirmation, String> {
        self.stop_workload(deadline)
    }

    fn stop_service(
        &mut self,
        _: u64,
    ) -> Result<SupervisedEnduranceProcessStopConfirmation, String> {
        self.stops.push("service");
        Ok(SupervisedEnduranceProcessStopConfirmation {
            observed_at: self.now,
            process_identity: "pt31553-fan-control.service".into(),
            running: false,
        })
    }

    fn force_contain_service(
        &mut self,
        deadline: u64,
    ) -> Result<SupervisedEnduranceProcessStopConfirmation, String> {
        self.stop_service(deadline)
    }

    fn restore_fan(&mut self, fan: EvidenceFan, _: u64) -> MatchedWorkloadFanRestoration {
        self.restored.push(fan);
        MatchedWorkloadFanRestoration {
            auto_write_succeeded: true,
            enable_readback: Some(2),
            endpoint_identity: format!("{fan:?}-enable"),
            outcome: RestorationOutcome::FirmwareAutoConfirmed,
        }
    }

    fn contain_fan_at_maximum(
        &mut self,
        fan: EvidenceFan,
        _: u64,
    ) -> SupervisedEnduranceFanContainment {
        self.restored.push(fan);
        SupervisedEnduranceFanContainment {
            enable_readback: Some(1),
            pwm_write_succeeded: true,
            pwm_readback: Some(255),
            enable_endpoint_identity: format!("{fan:?}-enable"),
            pwm_endpoint_identity: format!("{fan:?}-pwm"),
            outcome: RestorationOutcome::MaximumContainmentConfirmed,
        }
    }
}

#[test]
fn endurance_schedule_is_exactly_sixty_minutes_with_two_load_idle_cycles() {
    let segments = supervised_endurance_segments();
    assert_eq!(
        segments
            .iter()
            .map(|segment| segment.duration_millis)
            .sum::<u64>(),
        SUPERVISED_ENDURANCE_DURATION_MILLIS
    );
    assert_eq!(
        segments
            .iter()
            .map(|segment| segment.power_profile)
            .collect::<Vec<_>>(),
        vec![
            EvidenceProfile::Ac,
            EvidenceProfile::Ac,
            EvidenceProfile::Battery,
            EvidenceProfile::Battery,
            EvidenceProfile::Ac,
            EvidenceProfile::Ac,
        ]
    );
    assert_eq!(
        segments
            .iter()
            .map(|segment| segment.load)
            .collect::<Vec<_>>(),
        vec![
            SupervisedEnduranceLoad::Load,
            SupervisedEnduranceLoad::Idle,
            SupervisedEnduranceLoad::Load,
            SupervisedEnduranceLoad::Idle,
            SupervisedEnduranceLoad::Load,
            SupervisedEnduranceLoad::Idle,
        ]
    );
    assert_eq!(segment_index_at_elapsed(15 * 60 * 1_000), 0);
    assert_eq!(segment_index_at_elapsed(15 * 60 * 1_000 + 2_000), 1);
    assert_eq!(
        segment_index_at_elapsed(SUPERVISED_ENDURANCE_DURATION_MILLIS),
        5
    );
}

#[test]
fn segment_boundaries_split_the_hour() {
    assert_eq!(segment_boundary_elapsed(0), Some(0));
    assert_eq!(segment_boundary_elapsed(1), Some(900_000));
    assert_eq!(segment_boundary_elapsed(6), Some(3_600_000));
    assert_eq!(segment_boundary_elapsed(7), None);
    assert_eq!(SUPERVISED_ENDURANCE_SAMPLE_COUNT as u64 * 2_000, 3_600_000);
}

#[test]
fn incomplete_evidence_matrix_is_rejected_before_endurance() {
    let preflight = legacy_record();
    let json: &[u8] = b"{}";
    let input = || EvidenceInput {
        record: &preflight,
        slopes: flat_slopes(),
        canonical_json: json,
    };
    let plan = SupervisedEndurancePlan {
        prerequisite_binding_sha256: "a".repeat(64),
        preflight: input(),
        baselines: &[],
        matched_workload_runs: &[],
        tachometer_calibrations: SupervisedEnduranceCalibrations {
            cpu: input(),
            gpu: input(),
        },
        live_lifecycle: input(),
        workload: preflight.workload.clone().expect("fixture workload"),
    };
    assert!(matches!(
        validate_qualification_plan(&plan),
        Err(SupervisedEndurancePlanError::InvalidQualificationEvidence { .. })
    ));
}

#[test]
fn baseline_thermal_margin_must_fit_the_persisted_schema_envelope() {
    for cpu_peak in [94_000, i32::MAX] {
        let mut baseline = legacy_record();
        baseline.thermal_summary = Some(summary(cpu_peak));

        assert!(matches!(
            endurance_thermal_envelope(&[&baseline]),
            Err(SupervisedEndurancePlanError::InvalidQualificationEvidence { .. })
        ));
    }
}

#[test]
fn thermal_envelope_is_the_highest_baseline_plus_the_margin() {
    let mut cool = legacy_record();
    cool.thermal_summary = Some(summary(70_000));
    let mut hot = legacy_record();
    hot.thermal_summary = Some(summary(91_000));
    let limits = endurance_thermal_envelope(&[&cool, &hot]).unwrap();
    assert_eq!(limits.cpu_peak_limit_millicelsius, 93_000);
    assert_eq!(limits.gpu_peak_limit_millicelsius, 82_000);
    assert_eq!(limits.cpu_p95_limit_millicelsius, 92_000);
    assert_eq!(limits.gpu_p95_limit_millicelsius, 77_000);

    let bare = legacy_record();
    assert!(endurance_thermal_envelope(&[&hot, &bare]).is_ok());
    assert!(matches!(
        endurance_thermal_envelope(&[&bare]),
        Err(SupervisedEndurancePlanError::IncompleteWorkloadMatrix { .. })
    ));
}

#[test]
fn qualification_record_deserialization_requires_the_authority_schema() {
    let identity = legacy_record().qualification_envelope;
    let mut record = QualificationRecordV2 {
        schema_version: 2,
        qualification_id: identity.qualification_id,
        policy_version: identity.policy_version,
        protected_policy_sha256: identity.protected_policy_sha256,
        compatibility: identity.compatibility,
        supervised_endurance: SupervisedEnduranceAuthorizationV1 {
            schema_version: 1,
            evidence_sha256: "a".repeat(64),
            evidence_path: SUPERVISED_ENDURANCE_EVIDENCE_PATH.into(),
            evidence_schema_version: 2,
            stage: "supervised-endurance".into(),
            record_status: EvidenceRecordStatus::Complete,
            outcome: RunOutcomeStatus::Passed,
            final_firmware_auto_confirmed: true,
            workload_stopped: true,
            service_stopped: true,
            completed_at: EvidenceTimestamp {
                monotonic_millis: 1,
                wall_unix_millis: 1,
            },
        },
    };
    assert!(validate_record_identity(&record).is_ok());
    record.schema_version = 1;
    assert!(matches!(
        validate_record_identity(&record),
        Err(PolicyAuthorityError::InvalidIdentity {
            artifact: "qualification record",
            field: "schema_version",
        })
    ));
}

#[test]
fn restoration_deadline_overflow_still_attempts_both_fans() {
    let now = EvidenceTimestamp {
        monotonic_millis: u64::MAX - 1,
        wall_unix_millis: 0,
    };
    let mut environment = OverflowRestorationEnvironment {
        now,
        restored: Vec::new(),
        stops: Vec::new(),
    };
    let mut readbacks = Vec::new();
    let mut attempts = Vec::new();
    let mut faults = Vec::new();
    let mut not_before = now;

    assert!(!restore_both_fans(
        &mut environment,
        &mut readbacks,
        &mut attempts,
        &mut faults,
        &no_control(),
        &mut not_before,
    ));
    assert_eq!(environment.restored, [EvidenceFan::Cpu, EvidenceFan::Gpu]);
    assert_eq!(attempts.len(), 2);
    assert_eq!(
        faults
            .iter()
            .filter(|fault| fault.detail == "fan restoration deadline overflowed")
            .count(),
        2
    );
}

#[test]
fn stop_deadline_overflow_still_stops_workload_before_service() {
    let now = EvidenceTimestamp {
        monotonic_millis: u64::MAX - 1,
        wall_unix_millis: 0,
    };
    let mut environment = OverflowRestorationEnvironment {
        now,
        restored: Vec::new(),
        stops: Vec::new(),
    };
    let mut faults = Vec::new();
    let mut not_before = now;

    perform_confirmed_stop(
        &mut environment,
        &mut faults,
        &mut not_before,
        StopExpectation {
            code: "workload-stop",
            process: StoppedProcess::Workload,
            identity: "/usr/lib/pt31553-fan-control/workloads/mixed",
            fixed_deadline: None,
        },
        StopEffort::Normal,
    );
    perform_confirmed_stop(
        &mut environment,
        &mut faults,
        &mut not_before,
        StopExpectation {
            code: "service-stop",
            process: StoppedProcess::Service,
            identity: "pt31553-fan-control.service",
            fixed_deadline: None,
        },
        StopEffort::Normal,
    );

    assert_eq!(environment.stops, ["workload", "service"]);
    assert_eq!(
        faults
            .iter()
            .filter(|fault| fault.detail == "operation deadline overflowed")
            .count(),
        2
    );
}

#[test]
fn confirmed_stop_needs_the_expected_process() {
    let now = at(5_000);
    let mut environment = OverflowRestorationEnvironment {
        now,
        restored: Vec::new(),
        stops: Vec::new(),
    };
    let mut faults = Vec::new();
    let mut not_before = now;
    let stop = perform_confirmed_stop(
        &mut environment,
        &mut faults,
        &mut not_before,
        StopExpectation {
            code: "workload-stop",
            process: StoppedProcess::Workload,
            identity: "/usr/lib/pt31553-fan-control/workloads/mixed",
            fixed_deadline: None,
        },
        StopEffort::Escalated,
    );
    assert!(stop.is_some());
    assert!(faults.is_empty());
    let stop = perform_confirmed_stop(
        &mut environment,
        &mut faults,
        &mut not_before,
        StopExpectation {
            code: "workload-stop",
            process: StoppedProcess::Workload,
            identity: "/bin/other",
            fixed_deadline: None,
        },
        StopEffort::Terminal,
    );
    assert!(stop.is_none());
    assert_eq!(
        faults[0].detail,
        "stop postcondition was not confirmed for the expected process"
    );
}

#[test]
fn restoration_and_containment_confirm_both_fans() {
    let now = at(5_000);
    let mut environment = OverflowRestorationEnvironment {
        now,
        restored: Vec::new(),
        stops: Vec::new(),
    };
    let mut readbacks = Vec::new();
    let mut attempts = Vec::new();
    let mut faults = Vec::new();
    let mut not_before = now;
    let mut control = no_control();
    control.cpu_enable = Some("Cpu-enable".to_owned());
    control.gpu_enable = Some("Gpu-enable".to_owned());
    control.cpu_pwm = Some("Cpu-pwm".to_owned());
    control.gpu_pwm = Some("Gpu-pwm".to_owned());
    assert!(restore_both_fans(
        &mut environment,
        &mut readbacks,
        &mut attempts,
        &mut faults,
        &control,
        &mut not_before,
    ));
    assert!(faults.is_empty());
    assert!(contain_both_fans_at_maximum(
        &mut environment,
        &mut readbacks,
        &mut attempts,
        &mut faults,
        &control,
        &mut not_before,
    ));
    assert_eq!(attempts.len(), 4);
    assert!(!faults.is_empty());
}

#[test]
fn endurance_workload_is_the_canonical_one() {
    assert!(validate_endurance_workload(&workload()).is_ok());
    let mut other = workload();
    other.power_profile = EvidenceProfile::Battery;
    assert!(matches!(
        validate_endurance_workload(&other),
        Err(SupervisedEndurancePlanError::InvalidWorkload { .. })
    ));
}

#[test]
fn matrix_has_seven_places() {
    let durations: Vec<u64> = (0..7)
        .map(|index| WorkloadKey::expected(index).required_duration_millis())
        .collect();
    assert_eq!(
        durations,
        [600_000, 1_200_000, 1_200_000, 1_800_000, 600_000, 600_000, 600_000]
    );
    let mut record = legacy_record();
    let workload = record.workload.as_mut().unwrap();
    workload.workload_id = "gpu-ac-v1".to_owned();
    workload.command[0] = "/usr/lib/pt31553-fan-control/workloads/gpu".to_owned();
    let key = workload_key(&record).unwrap();
    assert_eq!(key.required_duration_millis(), 1_200_000);
    record.workload.as_mut().unwrap().workload_id = "unknown".to_owned();
    assert!(workload_key(&record).is_none());
}
