use std::collections::BTreeMap;

use fan_control_core::trace::History;
use fan_control_core::baseline::{
    run_firmware_auto_baseline, BaselineCleanupAttestation, BaselineObservation,
    BaselineStartingConditions, CapturedBaselineStartingConditions, FirmwareAutoBaselineEnvironment,
    FirmwareAutoBaselinePlan, FirmwareAutoBaselinePlanError, FirmwareAutoBaselineReport,
};
use fan_control_core::baseline_record::firmware_auto_baseline_is_complete;
use fan_control_core::calibration::{
    CalibrationLevelObservation, CalibrationReadbackSample, CalibrationStep, FanHoldObservation,
};
use fan_control_core::calibration_session::ConservativeFanCalibration;
use fan_control_core::compatibility::{
    CompatibilityDeclarationV1, EscapeHatchCapability, FanControlDeclaration, FanWriteBackend,
    HardwareIdentity, KernelIdentity, ModuleIdentity, ModuleProvenance, SecureBootRequirements,
};
use fan_control_core::evidence::{
    EvidenceExternalPower, EvidenceFan, EvidenceProfile, EvidenceRecord, EvidenceTimestamp,
    FanCalibrationEvidence, FanCommandEvidence, FanControlField, FanReadbackEvidence,
    FanReadbackField, FanReadbackPhase, ObservationOutcome, QualificationEnvelopeIdentityV1,
    RestorationOutcome, RunOutcomeStatus, SampleFreshness, TelemetrySampleEvidence,
    WorkloadEvidence,
};
use fan_control_core::matched_control::{
    MatchedWorkloadObservation, MatchedWorkloadTachometerCalibrations,
};
use fan_control_core::endurance_matrix::run_fits_place;
use fan_control_core::matched_plan::{
    baseline_fingerprint, prior_run_fits, EvidenceInput, MatchedWorkloadClass, MatchedWorkloadPlan,
    MatchedWorkloadPlanError,
};
use fan_control_core::matched_record::matched_workload_is_complete;
use fan_control_core::matched_workload::{
    run_matched_custom_workload, CapturedMatchedWorkloadStartingConditions,
    MatchedWorkloadEnvironment, MatchedWorkloadFanRestoration, MatchedWorkloadReport,
    MatchedWorkloadStartingConditions,
};
use fan_control_core::platform::{
    BoundedIdentityBoundFileAccess, Clock, FileAccess, FileIdentity, FilePermissions,
    IdentityBoundReadAccess, ListedEntry, PlatformError, PlatformErrorKind,
};
use fan_control_core::run_log::SlopeMeter;
use fan_control_core::tachometer::Fan;
use fan_control_core::thermal::{flat_slopes, summarize_thermal_evidence, FinalSlopes};

fn declaration() -> CompatibilityDeclarationV1 {
    CompatibilityDeclarationV1 {
        schema_version: 1,
        hardware: HardwareIdentity {
            dmi_product_name: "Predator PT315-53".to_owned(),
            dmi_board_name: "Civic_TLS".to_owned(),
            bios_version: "V1.17".to_owned(),
        },
        kernel: KernelIdentity {
            release: "6.19.2-cachyos-pt31553".to_owned(),
            package: "linux-cachyos-pt31553".to_owned(),
            source_commit: "c".repeat(40),
            image_sha256: "1".repeat(64),
            image_signer_fingerprint: "2".repeat(64),
        },
        module: ModuleIdentity {
            name: "acer_wmi".to_owned(),
            path: "/usr/lib/modules/6.19.2-cachyos-pt31553/kernel/drivers/platform/x86/acer-wmi.ko.zst"
                .to_owned(),
            sha256: "3".repeat(64),
            signer_fingerprint: "4".repeat(64),
            vermagic: "6.19.2-cachyos-pt31553 SMP preempt mod_unload".to_owned(),
            provenance: ModuleProvenance::InTree,
        },
        secure_boot: SecureBootRequirements { required: true },
        fan_control: FanControlDeclaration {
            backend: FanWriteBackend::AcerHwmon,
            hwmon_name: "acer".to_owned(),
            endpoints: ["pwm1", "pwm1_enable", "fan1_input", "pwm2", "pwm2_enable", "fan2_input"]
                .iter()
                .map(|name| name.to_string())
                .collect(),
            forbidden_capabilities: vec![
                EscapeHatchCapability::ForceCaps,
                EscapeHatchCapability::EcRawMode,
                EscapeHatchCapability::PredatorV4Override,
                EscapeHatchCapability::DirectWmi,
                EscapeHatchCapability::RawEc,
                EscapeHatchCapability::ReplacementWmiModule,
                EscapeHatchCapability::AlternateFanWriteBackend,
            ],
        },
    }
}

fn envelope() -> QualificationEnvelopeIdentityV1 {
    QualificationEnvelopeIdentityV1 {
        qualification_record_schema_version: 1,
        qualification_id: "pt31553-q1".to_owned(),
        policy_version: "policy-1".to_owned(),
        protected_policy_sha256: "a".repeat(64),
        compatibility: declaration(),
    }
}

fn at(monotonic_millis: u64) -> EvidenceTimestamp {
    EvidenceTimestamp {
        monotonic_millis,
        wall_unix_millis: monotonic_millis as i64,
    }
}

fn rpm_of(pwm: u8) -> u32 {
    500 + pwm as u32 * 16
}

fn sample(monotonic_millis: u64, pwm: u8) -> CalibrationReadbackSample {
    CalibrationReadbackSample {
        monotonic_millis,
        selected_enable_readback: 1,
        selected_pwm_readback: pwm,
        other_enable_readback: 1,
        other_pwm_readback: 255,
        selected_rpm: Some(rpm_of(pwm)),
    }
}

fn level(now: u64, pwm: u8) -> CalibrationLevelObservation {
    CalibrationLevelObservation {
        commanded_at_monotonic_millis: now,
        samples: (0..4).map(|i| sample(now + i * 1_000, pwm)).collect(),
        stall_observed: false,
        unexplained_rpm_collapse_observed: false,
    }
}

fn advance(session: &mut ConservativeFanCalibration, now: &mut u64) {
    match session.next_step() {
        CalibrationStep::HoldFloor { pwm_value, .. } => {
            let samples: Vec<_> = (0..451).map(|i| sample(*now + i * 2_000, pwm_value)).collect();
            *now = samples.last().unwrap().monotonic_millis + 1_000;
            session
                .record_hold(FanHoldObservation {
                    samples,
                    stall_observed: false,
                    unexplained_rpm_collapse_observed: false,
                })
                .unwrap();
        }
        step => {
            let pwm = step.pwm_value().unwrap();
            session.record_level(level(*now, pwm)).unwrap();
            *now += 4_000;
        }
    }
}

fn complete(fan: Fan) -> ConservativeFanCalibration {
    let mut session = ConservativeFanCalibration::start(fan);
    let mut now = 10_000;
    while session.next_step() != CalibrationStep::Complete {
        advance(&mut session, &mut now);
    }
    session
}

struct Files(BTreeMap<String, String>);

impl Files {
    fn entries(&self, root: &str) -> Vec<ListedEntry> {
        let mut names: Vec<String> = self
            .0
            .keys()
            .filter_map(|path| path.strip_prefix(&format!("{root}/")))
            .map(|rest| rest.split('/').next().unwrap().to_owned())
            .collect();
        names.dedup();
        names
            .into_iter()
            .map(|name| ListedEntry {
                path: format!("{root}/{name}"),
                is_direct_child: true,
                name: Some(name),
            })
            .collect()
    }
}

impl fan_control_core::machine::Machine for Files {
    fn history(&self) -> History<fan_control_core::machine::MachineCall> {
        unreachable!()
    }
}

impl FileAccess for Files {
    fn list(&mut self, root: &str) -> Result<Vec<ListedEntry>, PlatformError> {
        Ok(self.entries(root))
    }

    fn read(&mut self, path: &str) -> Result<String, PlatformError> {
        self.0.get(path).cloned().ok_or(PlatformError {
            kind: PlatformErrorKind::NotFound,
            detail: "missing".to_owned(),
        })
    }
}

impl IdentityBoundReadAccess for Files {
    fn identity(&mut self, path: &str) -> Result<FileIdentity, PlatformError> {
        Ok(FileIdentity {
            device: 1,
            inode: path.bytes().fold(7, |sum, byte| sum * 31 % 1_000_003 + byte as u64),
        })
    }

    fn permissions(&mut self, path: &str) -> Result<FilePermissions, PlatformError> {
        Ok(if path.ends_with("name") || path.ends_with("_input") {
            FilePermissions::ReadOnly
        } else {
            FilePermissions::ReadWrite
        })
    }

    fn list_bound(
        &mut self,
        root: &str,
        _: FileIdentity,
    ) -> Result<Vec<ListedEntry>, PlatformError> {
        Ok(self.entries(root))
    }

    fn read_bound(
        &mut self,
        root: &str,
        _: FileIdentity,
        child: &str,
    ) -> Result<String, PlatformError> {
        self.read(&format!("{root}/{child}"))
    }
}

impl BoundedIdentityBoundFileAccess for Files {
    fn list_before(&mut self, root: &str, _: u128) -> Result<Vec<ListedEntry>, PlatformError> {
        self.list(root)
    }

    fn identity_before(&mut self, path: &str, _: u128) -> Result<FileIdentity, PlatformError> {
        self.identity(path)
    }

    fn list_bound_before(
        &mut self,
        root: &str,
        identity: FileIdentity,
        _: u128,
    ) -> Result<Vec<ListedEntry>, PlatformError> {
        self.list_bound(root, identity)
    }

    fn permissions_bound_before(
        &mut self,
        root: &str,
        _: FileIdentity,
        child: &str,
        _: FileIdentity,
        _: u128,
    ) -> Result<FilePermissions, PlatformError> {
        self.permissions(&format!("{root}/{child}"))
    }

    fn read_bound_before(
        &mut self,
        root: &str,
        identity: FileIdentity,
        child: &str,
        child_identity: FileIdentity,
        _: u128,
    ) -> Result<String, PlatformError> {
        assert_eq!(child_identity, self.identity(&format!("{root}/{child}")).unwrap());
        self.read_bound(root, identity, child)
    }

    fn write_bound_if_before(
        &mut self,
        _: &str,
        _: FileIdentity,
        _: &Vec<(String, FileIdentity)>,
        _: &Vec<(String, String)>,
        _: &str,
        _: &str,
        _: u128,
    ) -> Result<(), PlatformError> {
        panic!("a baseline writes nothing")
    }
}

impl Clock for Files {
    fn monotonic_now(&mut self) -> u128 {
        1_000
    }

    fn delay(&mut self, _: u128) {}
}

fn platform(mode: &str) -> Files {
    let mut files = BTreeMap::new();
    files.insert("/h/hwmon0/name".to_owned(), "acer\n".to_owned());
    for name in ["pwm1", "pwm1_enable", "fan1_input", "pwm2", "pwm2_enable", "fan2_input"] {
        files.insert(format!("/h/hwmon0/{name}"), mode.to_owned());
    }
    Files(files)
}

struct FlatMeter;

impl SlopeMeter for FlatMeter {
    fn history(&self) -> History<(
        History<fan_control_core::evidence::TelemetrySampleEvidence>,
        fan_control_core::thermal::FinalSlopes,
    )> {
        unreachable!()
    }

    fn measure(&mut self, _: &Vec<TelemetrySampleEvidence>) -> FinalSlopes {
        flat_slopes()
    }
}

struct World {
    now: u64,
    actions: Vec<&'static str>,
    cpu_millicelsius: i32,
    cleanup_writes: u64,
    hot_after: Option<u64>,
    restoration_fails: bool,
    refuses_custom: bool,
}

fn world() -> World {
    World {
        now: 50_000,
        actions: Vec::new(),
        cpu_millicelsius: 70_000,
        cleanup_writes: 0,
        hot_after: None,
        restoration_fails: false,
        refuses_custom: false,
    }
}

impl World {
    fn sample(&self) -> TelemetrySampleEvidence {
        let hot = self.hot_after.is_some_and(|after| self.now > after);
        TelemetrySampleEvidence {
            timestamp: at(self.now),
            cpu_millicelsius: Some(if hot { 95_000 } else { self.cpu_millicelsius }),
            gpu_millicelsius: Some(60_000),
            freshness: SampleFreshness::Fresh,
            external_power: Some(EvidenceExternalPower::Ac),
            selected_profile: Some(EvidenceProfile::Ac),
            cpu_source_demand_basis_points: Some(6_000),
            gpu_source_demand_basis_points: Some(6_000),
            cpu_utilization_basis_points: Some(9_000),
            gpu_utilization_basis_points: Some(100),
            commanded_demand_basis_points: Some(6_000),
            cpu_thermal_throttling: Some(false),
            gpu_thermal_throttling: Some(false),
        }
    }

    fn readback(&self, fan: EvidenceFan, field: FanReadbackField, value: u32) -> FanReadbackEvidence {
        FanReadbackEvidence {
            timestamp: at(self.now),
            source_timestamp: None,
            fresh: None,
            boot_id: None,
            fan,
            field,
            value: Some(value),
            endpoint_identity: format!("{fan:?}-{field:?}"),
            outcome: ObservationOutcome::Confirmed,
            phase: Some(FanReadbackPhase::Sample),
        }
    }
}

impl FirmwareAutoBaselineEnvironment for World {
    fn history(&self) -> History<fan_control_core::baseline_calls::BaselineCall> {
        unreachable!()
    }

    fn timestamp(&mut self) -> EvidenceTimestamp {
        at(self.now)
    }

    fn capture_starting_conditions(
        &mut self,
    ) -> Result<CapturedBaselineStartingConditions, String> {
        Ok(CapturedBaselineStartingConditions {
            conditions: BaselineStartingConditions {
                ambient_millicelsius: 22_000,
                cpu_millicelsius: 45_000,
                gpu_millicelsius: 40_000,
                power_profile: EvidenceProfile::Ac,
            },
            captured_at: at(self.now),
        })
    }

    fn start_workload(
        &mut self,
        _: &WorkloadEvidence,
        _: u64,
    ) -> Result<EvidenceTimestamp, String> {
        self.actions.push("start");
        Ok(at(self.now))
    }

    fn wait_until(&mut self, target: u64, _: u64) -> Result<(), String> {
        self.now = target;
        Ok(())
    }

    fn capture_observation(&mut self, _: u64) -> Result<BaselineObservation, String> {
        Ok(BaselineObservation {
            sample: self.sample(),
            system_stable: true,
            kernel_faults: vec![],
            nvidia_faults: vec![],
        })
    }

    fn stop_workload(&mut self, _: u64) -> Result<(), String> {
        self.actions.push("stop");
        Ok(())
    }

    fn cleanup_after_workload(&mut self) -> Result<BaselineCleanupAttestation, String> {
        Ok(BaselineCleanupAttestation {
            fan_control_write_count: self.cleanup_writes,
        })
    }
}

impl MatchedWorkloadEnvironment for World {
    fn history(&self) -> History<fan_control_core::matched_calls::MatchedCall> {
        unreachable!()
    }

    fn timestamp(&mut self) -> EvidenceTimestamp {
        self.now += 1;
        at(self.now)
    }

    fn capture_starting_conditions(
        &mut self,
    ) -> Result<CapturedMatchedWorkloadStartingConditions, String> {
        Ok(CapturedMatchedWorkloadStartingConditions {
            conditions: MatchedWorkloadStartingConditions {
                ambient_millicelsius: 23_000,
                cpu_millicelsius: 46_000,
                gpu_millicelsius: 41_000,
                power_profile: EvidenceProfile::Ac,
            },
            captured_at: at(self.now),
        })
    }

    fn enter_custom_control(&mut self, _: u64) -> Result<(), String> {
        self.actions.push("custom");
        if self.refuses_custom {
            Err("refused".to_owned())
        } else {
            Ok(())
        }
    }

    fn start_workload(
        &mut self,
        _: &WorkloadEvidence,
        _: u64,
    ) -> Result<EvidenceTimestamp, String> {
        self.actions.push("start");
        Ok(at(self.now))
    }

    fn wait_until(&mut self, target: u64, _: u64) -> Result<(), String> {
        self.now = target;
        Ok(())
    }

    fn capture_observation(&mut self, _: u64) -> Result<MatchedWorkloadObservation, String> {
        let pwm: u8 = 153;
        let mut commands = Vec::new();
        let mut readbacks = Vec::new();
        for fan in [EvidenceFan::Cpu, EvidenceFan::Gpu] {
            commands.push(FanCommandEvidence {
                timestamp: at(self.now),
                fan,
                field: FanControlField::Pwm,
                value: pwm as u32,
            });
            readbacks.push(self.readback(fan, FanReadbackField::Pwm, pwm as u32));
            readbacks.push(self.readback(fan, FanReadbackField::Enable, 1));
            readbacks.push(self.readback(fan, FanReadbackField::Rpm, rpm_of(pwm)));
        }
        Ok(MatchedWorkloadObservation {
            sample: self.sample(),
            commands,
            readbacks,
            controller_fault: None,
            system_stable: true,
            kernel_faults: vec![],
            nvidia_faults: vec![],
        })
    }

    fn stop_workload(&mut self, _: u64) -> Result<(), String> {
        self.actions.push("stop");
        Ok(())
    }

    fn restore_fan(&mut self, fan: EvidenceFan, _: u64) -> MatchedWorkloadFanRestoration {
        self.actions.push(match fan {
            EvidenceFan::Cpu => "restore cpu",
            EvidenceFan::Gpu => "restore gpu",
        });
        let failed = self.restoration_fails && fan == EvidenceFan::Cpu;
        MatchedWorkloadFanRestoration {
            auto_write_succeeded: !failed,
            enable_readback: Some(if failed { 1 } else { 2 }),
            endpoint_identity: format!("{fan:?}-Enable"),
            outcome: if failed {
                RestorationOutcome::FirmwareAutoUnconfirmed
            } else {
                RestorationOutcome::FirmwareAutoConfirmed
            },
        }
    }
}

fn workload() -> WorkloadEvidence {
    WorkloadEvidence {
        workload_id: "cpu-ac-v1".to_owned(),
        command: vec![
            "/usr/lib/pt31553-fan-control/workloads/cpu".to_owned(),
            "--fixed".to_owned(),
        ],
        version: "1.0.0".to_owned(),
        power_profile: EvidenceProfile::Ac,
        ambient_millicelsius: 22_000,
        starting_cpu_millicelsius: 45_000,
        starting_gpu_millicelsius: 40_000,
    }
}

fn run_baseline(world: &mut World, mode: &'static str) -> FirmwareAutoBaselineReport {
    run_firmware_auto_baseline(
        &mut platform(mode),
        world,
        &mut FlatMeter,
        &FirmwareAutoBaselinePlan {
            hwmon_root: "/h",
            qualification_envelope: envelope(),
            workload: workload(),
            samples_required: 160,
        },
    )
    .unwrap()
}

fn codes(record: &EvidenceRecord) -> Vec<&str> {
    record.faults.iter().map(|fault| fault.code.as_str()).collect()
}

#[test]
fn baseline_passes_on_a_quiet_machine() {
    let mut world = world();
    let report = run_baseline(&mut world, "2\n");
    assert_eq!(codes(report.record()), Vec::<&str>::new());
    assert!(report.accepted());
    assert_eq!(world.actions, ["start", "stop"]);
    assert_eq!(report.clone().record(), report.record());
    let record = report.into_record();
    assert_eq!(record.samples.len(), 160);
    assert!(record.commands.is_empty());
    assert!(record.validate(flat_slopes()).is_ok());
    assert!(firmware_auto_baseline_is_complete(&record, flat_slopes()));
    let summary = record.thermal_summary.unwrap();
    assert_eq!(summary.cpu_peak_millicelsius, 70_000);
    assert_eq!(summary.gpu_p95_millicelsius, 60_000);
}

#[test]
fn baseline_aborts_when_too_hot() {
    let mut world = world();
    world.hot_after = Some(60_000);
    let report = run_baseline(&mut world, "2\n");
    assert!(!report.accepted());
    assert_eq!(codes(report.record())[0], "absolute-thermal-abort");
    assert_eq!(world.actions, ["start", "stop"]);
    assert_eq!(report.record().outcome.status, RunOutcomeStatus::Failed);
    assert!(report.record().outcome.another_passing_run_required);
}

#[test]
fn baseline_never_starts_outside_firmware_auto() {
    let mut world = world();
    let report = run_baseline(&mut world, "1\n");
    assert!(!report.accepted());
    assert!(world.actions.is_empty());
    assert!(report.record().samples.is_empty());
}

#[test]
fn baseline_refuses_cleanup_writes_and_bad_identities() {
    let mut world = world();
    world.cleanup_writes = 1;
    assert!(!run_baseline(&mut world, "2\n").accepted());

    let mut bad = envelope();
    bad.protected_policy_sha256 = "z".repeat(64);
    let mut untouched = self::world();
    let result = run_firmware_auto_baseline(
        &mut platform("2\n"),
        &mut untouched,
        &mut FlatMeter,
        &FirmwareAutoBaselinePlan {
            hwmon_root: "/h",
            qualification_envelope: bad,
            workload: workload(),
            samples_required: 160,
        },
    );
    assert!(matches!(
        result,
        Err(FirmwareAutoBaselinePlanError::InvalidQualificationEnvelope(_))
    ));
    assert!(untouched.actions.is_empty());
    assert_eq!(untouched.now, 50_000);
}

fn run_matched(
    world: &mut World,
    baseline: &EvidenceRecord,
    cpu: &FanCalibrationEvidence,
    gpu: &FanCalibrationEvidence,
) -> Result<MatchedWorkloadReport, MatchedWorkloadPlanError> {
    let plan = MatchedWorkloadPlan {
        baseline: EvidenceInput {
            record: baseline,
            slopes: flat_slopes(),
            canonical_json: b"{\"baseline\":1}",
        },
        previous_passing_runs: &[],
        tachometer_calibrations: MatchedWorkloadTachometerCalibrations { cpu, gpu },
    };
    run_matched_custom_workload(world, &mut FlatMeter, &plan)
}

fn calibration(fan: Fan) -> FanCalibrationEvidence {
    complete(fan).evidence().unwrap().clone()
}

#[test]
fn matched_workload_passes_and_restores_both_fans() {
    let baseline = run_baseline(&mut world(), "2\n").into_record();
    let mut world = world();
    let report = run_matched(
        &mut world,
        &baseline,
        &calibration(Fan::Cpu),
        &calibration(Fan::Gpu),
    )
    .unwrap();
    assert_eq!(codes(report.record()), Vec::<&str>::new());
    assert!(report.accepted());
    assert_eq!(
        world.actions,
        ["custom", "start", "stop", "restore cpu", "restore gpu"]
    );
    assert_eq!(report.clone().record(), report.record());
    let record = report.into_record();
    assert!(record.validate(flat_slopes()).is_ok());
    assert!(matched_workload_is_complete(&record, flat_slopes()));
    assert_eq!(record.samples.len(), 160);
    assert_eq!(record.calibration, [calibration(Fan::Cpu), calibration(Fan::Gpu)]);
    let mut bare = record.clone();
    bare.calibration.clear();
    assert!(bare.validate(flat_slopes()).is_err());
    assert!(!matched_workload_is_complete(&bare, flat_slopes()));
    assert!(record.outcome.final_firmware_auto_confirmed);
}

#[test]
fn matched_workload_restores_both_fans_after_an_abort() {
    let baseline = run_baseline(&mut world(), "2\n").into_record();
    let mut world = world();
    world.hot_after = Some(60_000);
    let report = run_matched(
        &mut world,
        &baseline,
        &calibration(Fan::Cpu),
        &calibration(Fan::Gpu),
    )
    .unwrap();
    assert!(!report.accepted());
    assert_eq!(codes(report.record())[0], "absolute-thermal-abort");
    assert_eq!(
        world.actions,
        ["custom", "start", "stop", "restore cpu", "restore gpu"]
    );
    assert!(report.record().outcome.final_firmware_auto_confirmed);
}

#[test]
fn matched_workload_restores_both_fans_after_a_refused_takeover() {
    let baseline = run_baseline(&mut world(), "2\n").into_record();
    let mut world = world();
    world.refuses_custom = true;
    let result = run_matched(
        &mut world,
        &baseline,
        &calibration(Fan::Cpu),
        &calibration(Fan::Gpu),
    );
    assert!(!result.is_ok_and(|report| report.accepted()));
    assert_eq!(world.actions, ["custom", "restore cpu", "restore gpu"]);
}

#[test]
fn matched_workload_tells_a_failed_restoration() {
    let baseline = run_baseline(&mut world(), "2\n").into_record();
    let mut world = world();
    world.restoration_fails = true;
    let report = run_matched(
        &mut world,
        &baseline,
        &calibration(Fan::Cpu),
        &calibration(Fan::Gpu),
    )
    .unwrap();
    assert!(!report.accepted());
    assert!(!report.record().outcome.final_firmware_auto_confirmed);
    assert_eq!(&world.actions[3..], ["restore cpu", "restore gpu"]);
}

#[test]
fn matched_workload_must_not_run_hotter_than_its_baseline() {
    let baseline = run_baseline(&mut world(), "2\n").into_record();
    let mut world = world();
    world.cpu_millicelsius = 72_001;
    let report = run_matched(
        &mut world,
        &baseline,
        &calibration(Fan::Cpu),
        &calibration(Fan::Gpu),
    )
    .unwrap();
    assert!(!report.accepted());
    assert_eq!(codes(report.record()), [
            "peak-temperature-regression",
            "p95-temperature-regression"
        ]);
}

#[test]
fn matched_plans_need_an_accepted_baseline_and_calibrations() {
    let baseline = run_baseline(&mut world(), "2\n").into_record();
    let mut untouched = world();
    let swapped = run_matched(
        &mut untouched,
        &baseline,
        &calibration(Fan::Gpu),
        &calibration(Fan::Cpu),
    );
    assert!(untouched.actions.is_empty());
    assert_eq!(untouched.now, 50_000);
    assert!(matches!(
        swapped,
        Err(MatchedWorkloadPlanError::InvalidCalibration {
            fan: EvidenceFan::Cpu
        })
    ));
    let mut hot = world();
    hot.hot_after = Some(60_000);
    let failed = run_baseline(&mut hot, "2\n").into_record();
    assert!(matches!(
        run_matched(
            &mut world(),
            &failed,
            &calibration(Fan::Cpu),
            &calibration(Fan::Gpu),
        ),
        Err(MatchedWorkloadPlanError::BaselineNotAccepted)
    ));
    assert_eq!(MatchedWorkloadClass::from_workload_id("combined-ac-v1").unwrap().required_passing_runs(), 2);
    assert!(MatchedWorkloadClass::from_workload_id("combinedac").is_none());
}

#[test]
fn summaries_tell_peak_and_percentile() {
    let mut world = world();
    let samples: Vec<TelemetrySampleEvidence> = (1..=20)
        .map(|i| {
            world.cpu_millicelsius = i * 1_000;
            world.sample()
        })
        .collect();
    let summary =
        summarize_thermal_evidence(&samples, flat_slopes(), true, vec![], vec![]);
    assert_eq!(summary.cpu_peak_millicelsius, 20_000);
    assert_eq!(summary.cpu_p95_millicelsius, 19_000);
    assert_eq!(summary.gpu_peak_millicelsius, 60_000);
    assert_eq!(summary.system_stable, Some(true));
}

#[test]
fn runs_are_bound_to_their_baseline() {
    let baseline = run_baseline(&mut world(), "2\n").into_record();
    let (cpu, gpu) = (calibration(Fan::Cpu), calibration(Fan::Gpu));
    let run = run_matched(&mut world(), &baseline, &cpu, &gpu)
        .unwrap()
        .into_record();
    let baseline = EvidenceInput {
        record: &baseline,
        slopes: flat_slopes(),
        canonical_json: b"{\"baseline\":1}",
    };
    let run = EvidenceInput {
        record: &run,
        slopes: flat_slopes(),
        canonical_json: b"run",
    };
    let calibrations = MatchedWorkloadTachometerCalibrations { cpu: &cpu, gpu: &gpu };
    let binding = baseline_fingerprint(&baseline);
    assert!(prior_run_fits(&run, &baseline, &binding, calibrations));
    assert!(run_fits_place(&run, &baseline, &binding, calibrations));
    let other = "0".repeat(64);
    assert!(!prior_run_fits(&run, &baseline, &other, calibrations));
    assert!(!run_fits_place(&run, &baseline, &other, calibrations));
}
