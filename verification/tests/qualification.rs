use std::collections::BTreeMap;

use fan_control_core::trace::History;
use fan_control_core::baseline::{
    run_firmware_auto_baseline, BaselineCleanupAttestation, BaselineObservation,
    BaselineStartingConditions, CapturedBaselineStartingConditions, FirmwareAutoBaselineEnvironment,
    FirmwareAutoBaselinePlan,
};
use fan_control_core::calibration::{
    CalibrationLevelObservation, CalibrationReadbackSample, CalibrationStep, FanHoldObservation,
};
use fan_control_core::calibration_build::{build_fan_calibration_record, CompletedFanCalibrationRun};
use fan_control_core::calibration_session::ConservativeFanCalibration;
use fan_control_core::compatibility::{
    CompatibilityDeclarationV1, EscapeHatchCapability, FanControlDeclaration, FanWriteBackend,
    HardwareIdentity, KernelIdentity, ModuleIdentity, ModuleProvenance, SecureBootRequirements,
};
use fan_control_core::endurance::{run_supervised_endurance, SupervisedEnduranceReport};
use fan_control_core::endurance_matrix::{
    MeasuredInput, SupervisedEnduranceCalibrations, SupervisedEndurancePlan,
};
use fan_control_core::endurance_plan::{SupervisedEndurancePlanError, WorkloadKey};
use fan_control_core::endurance_record::supervised_endurance_is_complete;
use fan_control_core::endurance_schedule::{SupervisedEnduranceLoad, SupervisedEnduranceSegment};
use fan_control_core::endurance_shutdown::{
    SupervisedEnduranceEnvironment, SupervisedEnduranceFanContainment,
    SupervisedEnduranceProcessStopConfirmation, SupervisedEnduranceSegmentConfirmation,
};
use fan_control_core::evidence::{
    EvidenceExternalPower, EvidenceFan, EvidenceProfile, EvidenceRecord, EvidenceTimestamp,
    FanCommandEvidence, FanControlField, FanEndpointIdentitiesEvidence, FanReadbackEvidence,
    FanReadbackField, FanReadbackPhase, ObservationOutcome, QualificationEnvelopeIdentityV1,
    RestorationOutcome, RunOutcomeEvidence, RunOutcomeStatus, SampleFreshness,
    TelemetrySampleEvidence, WorkloadEvidence,
};
use fan_control_core::lifecycle::{
    LiveLifecycleCase, LiveLifecycleCaseObservation, LiveLifecycleFanAutoObservation,
    LiveLifecycleFanAutoPair, LiveLifecycleObserved, LiveLifecycleObserverAttestation,
    LiveLifecyclePowerObservation, LiveLifecycleProfileObservation,
    LiveLifecycleRebootArmObservation, LiveLifecycleRebootContinuation,
};
use fan_control_core::lifecycle_run::{
    resume_live_lifecycle_qualification, run_live_lifecycle_until_reboot, LiveLifecycleEnvironment,
    LiveLifecycleProgress,
};
use fan_control_core::matched_control::{
    MatchedWorkloadObservation, MatchedWorkloadTachometerCalibrations,
};
use fan_control_core::matched_plan::{EvidenceInput, MatchedWorkloadClass, MatchedWorkloadPlan};
use fan_control_core::matched_workload::{
    run_matched_custom_workload, CapturedMatchedWorkloadStartingConditions,
    MatchedWorkloadEnvironment, MatchedWorkloadFanRestoration, MatchedWorkloadStartingConditions,
};
use fan_control_core::platform::{
    BoundedIdentityBoundFileAccess, Clock, FileAccess, FileIdentity, FilePermissions,
    IdentityBoundReadAccess, ListedEntry, PlatformError, PlatformErrorKind,
};
use fan_control_core::run_log::SlopeMeter;
use fan_control_core::tachometer::Fan;
use fan_control_core::thermal::{flat_slopes, FinalSlopes};

fn declaration() -> CompatibilityDeclarationV1 {
    CompatibilityDeclarationV1 {
        schema_version: 1,
        hardware: HardwareIdentity {
            dmi_product_name: "Predator PT315-53".to_owned(),
            dmi_board_name: "Civic_TLS".to_owned(),
            bios_version: "V1.17".to_owned(),
        },
        kernel: KernelIdentity {
            release: "6.19.2-cachyos-pt31553".to_owned(),
            package: "linux-cachyos-pt31553".to_owned(),
            source_commit: "c".repeat(40),
            image_sha256: "1".repeat(64),
            image_signer_fingerprint: "2".repeat(64),
        },
        module: ModuleIdentity {
            name: "acer_wmi".to_owned(),
            path: "/usr/lib/modules/6.19.2-cachyos-pt31553/kernel/drivers/platform/x86/acer-wmi.ko.zst"
                .to_owned(),
            sha256: "3".repeat(64),
            signer_fingerprint: "4".repeat(64),
            vermagic: "6.19.2-cachyos-pt31553 SMP preempt mod_unload".to_owned(),
            provenance: ModuleProvenance::InTree,
        },
        secure_boot: SecureBootRequirements { required: true },
        fan_control: FanControlDeclaration {
            backend: FanWriteBackend::AcerHwmon,
            hwmon_name: "acer".to_owned(),
            endpoints: ["pwm1", "pwm1_enable", "fan1_input", "pwm2", "pwm2_enable", "fan2_input"]
                .iter()
                .map(|name| name.to_string())
                .collect(),
            forbidden_capabilities: vec![
                EscapeHatchCapability::ForceCaps,
                EscapeHatchCapability::EcRawMode,
                EscapeHatchCapability::PredatorV4Override,
                EscapeHatchCapability::DirectWmi,
                EscapeHatchCapability::RawEc,
                EscapeHatchCapability::ReplacementWmiModule,
                EscapeHatchCapability::AlternateFanWriteBackend,
            ],
        },
    }
}

fn envelope() -> QualificationEnvelopeIdentityV1 {
    QualificationEnvelopeIdentityV1 {
        qualification_record_schema_version: 1,
        qualification_id: "pt31553-q1".to_owned(),
        policy_version: "policy-1".to_owned(),
        protected_policy_sha256: "a".repeat(64),
        compatibility: declaration(),
    }
}

fn at(monotonic_millis: u64) -> EvidenceTimestamp {
    EvidenceTimestamp {
        monotonic_millis,
        wall_unix_millis: monotonic_millis as i64,
    }
}

fn rpm_of(pwm: u8) -> u32 {
    500 + pwm as u32 * 16
}

fn sample(monotonic_millis: u64, pwm: u8) -> CalibrationReadbackSample {
    CalibrationReadbackSample {
        monotonic_millis,
        selected_enable_readback: 1,
        selected_pwm_readback: pwm,
        other_enable_readback: 1,
        other_pwm_readback: 255,
        selected_rpm: Some(rpm_of(pwm)),
    }
}

fn level(now: u64, pwm: u8) -> CalibrationLevelObservation {
    CalibrationLevelObservation {
        commanded_at_monotonic_millis: now,
        samples: (0..4).map(|i| sample(now + i * 1_000, pwm)).collect(),
        stall_observed: false,
        unexplained_rpm_collapse_observed: false,
    }
}

fn advance(session: &mut ConservativeFanCalibration, now: &mut u64) {
    match session.next_step() {
        CalibrationStep::HoldFloor { pwm_value, .. } => {
            let samples: Vec<_> = (0..451).map(|i| sample(*now + i * 2_000, pwm_value)).collect();
            *now = samples.last().unwrap().monotonic_millis + 1_000;
            session
                .record_hold(FanHoldObservation {
                    samples,
                    stall_observed: false,
                    unexplained_rpm_collapse_observed: false,
                })
                .unwrap();
        }
        step => {
            let pwm = step.pwm_value().unwrap();
            session.record_level(level(*now, pwm)).unwrap();
            *now += 4_000;
        }
    }
}

fn complete(fan: Fan) -> ConservativeFanCalibration {
    let mut session = ConservativeFanCalibration::start(fan);
    let mut now = 10_000;
    while session.next_step() != CalibrationStep::Complete {
        advance(&mut session, &mut now);
    }
    session
}

struct Files(BTreeMap<String, String>);

impl Files {
    fn entries(&self, root: &str) -> Vec<ListedEntry> {
        let mut names: Vec<String> = self
            .0
            .keys()
            .filter_map(|path| path.strip_prefix(&format!("{root}/")))
            .map(|rest| rest.split('/').next().unwrap().to_owned())
            .collect();
        names.dedup();
        names
            .into_iter()
            .map(|name| ListedEntry {
                path: format!("{root}/{name}"),
                is_direct_child: true,
                name: Some(name),
            })
            .collect()
    }
}

impl fan_control_core::machine::Machine for Files {
    fn history(&self) -> History<fan_control_core::machine::MachineCall> {
        unreachable!()
    }
}

impl FileAccess for Files {
    fn list(&mut self, root: &str) -> Result<Vec<ListedEntry>, PlatformError> {
        Ok(self.entries(root))
    }

    fn read(&mut self, path: &str) -> Result<String, PlatformError> {
        self.0.get(path).cloned().ok_or(PlatformError {
            kind: PlatformErrorKind::NotFound,
            detail: "missing".to_owned(),
        })
    }
}

impl IdentityBoundReadAccess for Files {
    fn identity(&mut self, path: &str) -> Result<FileIdentity, PlatformError> {
        Ok(FileIdentity {
            device: 1,
            inode: path.bytes().fold(7, |sum, byte| sum * 31 % 1_000_003 + byte as u64),
        })
    }

    fn permissions(&mut self, path: &str) -> Result<FilePermissions, PlatformError> {
        Ok(if path.ends_with("name") || path.ends_with("_input") {
            FilePermissions::ReadOnly
        } else {
            FilePermissions::ReadWrite
        })
    }

    fn list_bound(
        &mut self,
        root: &str,
        _: FileIdentity,
    ) -> Result<Vec<ListedEntry>, PlatformError> {
        Ok(self.entries(root))
    }

    fn read_bound(
        &mut self,
        root: &str,
        _: FileIdentity,
        child: &str,
    ) -> Result<String, PlatformError> {
        self.read(&format!("{root}/{child}"))
    }
}

impl BoundedIdentityBoundFileAccess for Files {
    fn list_before(&mut self, root: &str, _: u128) -> Result<Vec<ListedEntry>, PlatformError> {
        self.list(root)
    }

    fn identity_before(&mut self, path: &str, _: u128) -> Result<FileIdentity, PlatformError> {
        self.identity(path)
    }

    fn list_bound_before(
        &mut self,
        root: &str,
        identity: FileIdentity,
        _: u128,
    ) -> Result<Vec<ListedEntry>, PlatformError> {
        self.list_bound(root, identity)
    }

    fn permissions_bound_before(
        &mut self,
        root: &str,
        _: FileIdentity,
        child: &str,
        _: FileIdentity,
        _: u128,
    ) -> Result<FilePermissions, PlatformError> {
        self.permissions(&format!("{root}/{child}"))
    }

    fn read_bound_before(
        &mut self,
        root: &str,
        identity: FileIdentity,
        child: &str,
        child_identity: FileIdentity,
        _: u128,
    ) -> Result<String, PlatformError> {
        assert_eq!(child_identity, self.identity(&format!("{root}/{child}")).unwrap());
        self.read_bound(root, identity, child)
    }

    fn write_bound_if_before(
        &mut self,
        _: &str,
        _: FileIdentity,
        _: &Vec<(String, FileIdentity)>,
        _: &Vec<(String, String)>,
        _: &str,
        _: &str,
        _: u128,
    ) -> Result<(), PlatformError> {
        panic!("a baseline writes nothing")
    }
}

impl Clock for Files {
    fn monotonic_now(&mut self) -> u128 {
        1_000
    }

    fn delay(&mut self, _: u128) {}
}

fn platform(mode: &str) -> Files {
    let mut files = BTreeMap::new();
    files.insert("/h/hwmon0/name".to_owned(), "acer\n".to_owned());
    for name in ["pwm1", "pwm1_enable", "fan1_input", "pwm2", "pwm2_enable", "fan2_input"] {
        files.insert(format!("/h/hwmon0/{name}"), mode.to_owned());
    }
    Files(files)
}

struct FlatMeter;

impl SlopeMeter for FlatMeter {
    fn history(&self) -> History<(
        History<fan_control_core::evidence::TelemetrySampleEvidence>,
        fan_control_core::thermal::FinalSlopes,
    )> {
        unreachable!()
    }

    fn measure(&mut self, _: &Vec<TelemetrySampleEvidence>) -> FinalSlopes {
        flat_slopes()
    }
}

struct World {
    now: u64,
    profile: EvidenceProfile,
    load: SupervisedEnduranceLoad,
    actions: Vec<&'static str>,
    observer_leaves_after: Option<u64>,
    stop_fails: bool,
    restoration_fails: bool,
}

fn world(profile: EvidenceProfile) -> World {
    World {
        now: 50_000,
        profile,
        load: SupervisedEnduranceLoad::Load,
        actions: Vec::new(),
        observer_leaves_after: None,
        stop_fails: false,
        restoration_fails: false,
    }
}

fn power(profile: EvidenceProfile) -> EvidenceExternalPower {
    match profile {
        EvidenceProfile::Ac => EvidenceExternalPower::Ac,
        EvidenceProfile::Battery => EvidenceExternalPower::Battery,
    }
}

impl World {
    fn sample(&self) -> TelemetrySampleEvidence {
        let busy = match self.load {
            SupervisedEnduranceLoad::Load => 9_000,
            SupervisedEnduranceLoad::Idle => 500,
        };
        TelemetrySampleEvidence {
            timestamp: at(self.now),
            cpu_millicelsius: Some(70_000),
            gpu_millicelsius: Some(60_000),
            freshness: SampleFreshness::Fresh,
            external_power: Some(power(self.profile)),
            selected_profile: Some(self.profile),
            cpu_source_demand_basis_points: Some(6_000),
            gpu_source_demand_basis_points: Some(6_000),
            cpu_utilization_basis_points: Some(busy),
            gpu_utilization_basis_points: Some(busy),
            commanded_demand_basis_points: Some(6_000),
            cpu_thermal_throttling: Some(false),
            gpu_thermal_throttling: Some(false),
        }
    }

    fn readback(&self, fan: EvidenceFan, field: FanReadbackField, value: u32) -> FanReadbackEvidence {
        FanReadbackEvidence {
            timestamp: at(self.now),
            source_timestamp: None,
            fresh: None,
            boot_id: None,
            fan,
            field,
            value: Some(value),
            endpoint_identity: format!("{fan:?}-{field:?}"),
            outcome: ObservationOutcome::Confirmed,
            phase: Some(FanReadbackPhase::Sample),
        }
    }
}

impl FirmwareAutoBaselineEnvironment for World {
    fn history(&self) -> History<fan_control_core::baseline_calls::BaselineCall> {
        unreachable!()
    }

    fn timestamp(&mut self) -> EvidenceTimestamp {
        at(self.now)
    }

    fn capture_starting_conditions(
        &mut self,
    ) -> Result<CapturedBaselineStartingConditions, String> {
        Ok(CapturedBaselineStartingConditions {
            conditions: BaselineStartingConditions {
                ambient_millicelsius: 22_000,
                cpu_millicelsius: 45_000,
                gpu_millicelsius: 40_000,
                power_profile: self.profile,
            },
            captured_at: at(self.now),
        })
    }

    fn start_workload(
        &mut self,
        _: &WorkloadEvidence,
        _: u64,
    ) -> Result<EvidenceTimestamp, String> {
        self.actions.push("start");
        Ok(at(self.now))
    }

    fn wait_until(&mut self, target: u64, _: u64) -> Result<(), String> {
        self.now = target;
        Ok(())
    }

    fn capture_observation(&mut self, _: u64) -> Result<BaselineObservation, String> {
        Ok(BaselineObservation {
            sample: self.sample(),
            system_stable: true,
            kernel_faults: vec![],
            nvidia_faults: vec![],
        })
    }

    fn stop_workload(&mut self, _: u64) -> Result<(), String> {
        self.actions.push("stop");
        Ok(())
    }

    fn cleanup_after_workload(&mut self) -> Result<BaselineCleanupAttestation, String> {
        Ok(BaselineCleanupAttestation {
            fan_control_write_count: 0,
        })
    }
}

impl MatchedWorkloadEnvironment for World {
    fn history(&self) -> History<fan_control_core::matched_calls::MatchedCall> {
        unreachable!()
    }

    fn timestamp(&mut self) -> EvidenceTimestamp {
        self.now += 1;
        at(self.now)
    }

    fn capture_starting_conditions(
        &mut self,
    ) -> Result<CapturedMatchedWorkloadStartingConditions, String> {
        Ok(CapturedMatchedWorkloadStartingConditions {
            conditions: MatchedWorkloadStartingConditions {
                ambient_millicelsius: 23_000,
                cpu_millicelsius: 46_000,
                gpu_millicelsius: 41_000,
                power_profile: self.profile,
            },
            captured_at: at(self.now),
        })
    }

    fn enter_custom_control(&mut self, _: u64) -> Result<(), String> {
        self.actions.push("custom");
        Ok(())
    }

    fn start_workload(
        &mut self,
        _: &WorkloadEvidence,
        _: u64,
    ) -> Result<EvidenceTimestamp, String> {
        self.actions.push("start");
        Ok(at(self.now))
    }

    fn wait_until(&mut self, target: u64, _: u64) -> Result<(), String> {
        self.now = target;
        Ok(())
    }

    fn capture_observation(&mut self, _: u64) -> Result<MatchedWorkloadObservation, String> {
        let pwm: u8 = 153;
        let mut commands = Vec::new();
        let mut readbacks = Vec::new();
        for fan in [EvidenceFan::Cpu, EvidenceFan::Gpu] {
            commands.push(FanCommandEvidence {
                timestamp: at(self.now),
                fan,
                field: FanControlField::Pwm,
                value: pwm as u32,
            });
            readbacks.push(self.readback(fan, FanReadbackField::Pwm, pwm as u32));
            readbacks.push(self.readback(fan, FanReadbackField::Enable, 1));
            readbacks.push(self.readback(fan, FanReadbackField::Rpm, rpm_of(pwm)));
        }
        Ok(MatchedWorkloadObservation {
            sample: self.sample(),
            commands,
            readbacks,
            controller_fault: None,
            system_stable: true,
            kernel_faults: vec![],
            nvidia_faults: vec![],
        })
    }

    fn stop_workload(&mut self, _: u64) -> Result<(), String> {
        self.actions.push("stop");
        Ok(())
    }

    fn restore_fan(&mut self, fan: EvidenceFan, _: u64) -> MatchedWorkloadFanRestoration {
        self.actions.push(match fan {
            EvidenceFan::Cpu => "restore cpu",
            EvidenceFan::Gpu => "restore gpu",
        });
        let failed = self.restoration_fails && fan == EvidenceFan::Cpu;
        MatchedWorkloadFanRestoration {
            auto_write_succeeded: !failed,
            enable_readback: Some(if failed { 1 } else { 2 }),
            endpoint_identity: format!("{fan:?}-Enable"),
            outcome: if failed {
                RestorationOutcome::FirmwareAutoUnconfirmed
            } else {
                RestorationOutcome::FirmwareAutoConfirmed
            },
        }
    }
}

struct Host {
    now: u64,
    wall: i64,
    boot: &'static str,
    log: Vec<String>,
    mode: u32,
}

fn host() -> Host {
    Host {
        now: 1_000,
        wall: 500_000,
        boot: "boot-a",
        log: Vec::new(),
        mode: 2,
    }
}

impl Host {
    fn tick(&mut self) -> EvidenceTimestamp {
        self.now += 10;
        self.wall += 10;
        EvidenceTimestamp {
            monotonic_millis: self.now,
            wall_unix_millis: self.wall,
        }
    }

    fn covered(&mut self, action: &str) -> (EvidenceTimestamp, LiveLifecycleObserverAttestation) {
        let started_at = self.tick();
        let moment = self.tick();
        let completed_at = self.tick();
        let attestation = LiveLifecycleObserverAttestation {
            action: action.to_owned(),
            started_at,
            completed_at,
            checks: vec![started_at, completed_at],
        };
        (moment, attestation)
    }

    fn ending(&mut self, action: &str) -> LiveLifecycleObserved<EvidenceTimestamp> {
        let started_at = self.tick();
        let completed_at = self.tick();
        LiveLifecycleObserved {
            observation: completed_at,
            observer_attestations: vec![LiveLifecycleObserverAttestation {
                action: action.to_owned(),
                started_at,
                completed_at,
                checks: vec![started_at, completed_at],
            }],
        }
    }

    fn fan(&mut self, fan: EvidenceFan) -> LiveLifecycleFanAutoObservation {
        LiveLifecycleFanAutoObservation {
            observed_at: self.tick(),
            fresh: true,
            enable_readback: Some(self.mode),
            endpoint_identity: match fan {
                EvidenceFan::Cpu => "cpu-enable".to_owned(),
                EvidenceFan::Gpu => "gpu-enable".to_owned(),
            },
        }
    }

    fn pair(&mut self) -> LiveLifecycleFanAutoPair {
        LiveLifecycleFanAutoPair {
            cpu: self.fan(EvidenceFan::Cpu),
            gpu: self.fan(EvidenceFan::Gpu),
        }
    }

    fn powered(&mut self, source: EvidenceExternalPower) -> LiveLifecyclePowerObservation {
        LiveLifecyclePowerObservation {
            observed_at: self.tick(),
            fresh: true,
            source,
        }
    }
}

fn process(name: &str) -> String {
    format!("pid-{name}")
}

impl LiveLifecycleEnvironment for Host {
    fn history(&self) -> History<fan_control_core::lifecycle_calls::LifecycleCall> {
        unreachable!()
    }

    fn timestamp(&mut self) -> EvidenceTimestamp {
        self.tick()
    }

    fn current_boot_id(&mut self) -> Result<String, String> {
        Ok(self.boot.to_owned())
    }

    fn run_case(
        &mut self,
        case: LiveLifecycleCase,
    ) -> Result<LiveLifecycleObserved<LiveLifecycleCaseObservation>, String> {
        self.log.push(case.id().to_owned());
        let mut observer_attestations = Vec::new();
        let observation = match case {
            LiveLifecycleCase::InvalidConfiguration => {
                LiveLifecycleCaseObservation::InvalidConfiguration {
                    observed_at: self.tick(),
                    fresh: true,
                    rejected_before_custom_control: true,
                }
            }
            LiveLifecycleCase::DuplicateProcess => {
                let (observed_at, coverage) = self.covered("duplicate-owner-custom");
                observer_attestations.push(coverage);
                LiveLifecycleCaseObservation::DuplicateProcess {
                    observed_at,
                    fresh: true,
                    duplicate_rejected: true,
                    original_owner_preserved: true,
                    original_process_identity: process("owner"),
                    rejected_process_identity: process("duplicate"),
                }
            }
            LiveLifecycleCase::NormalStopRestart => {
                let (stopped_at, coverage) = self.covered("normal-owner-before-stop");
                observer_attestations.push(coverage);
                let auto_before_restart = self.pair();
                let (restarted_at, coverage) = self.covered("normal-restart-custom");
                observer_attestations.push(coverage);
                LiveLifecycleCaseObservation::NormalStopRestart {
                    clean_stop: true,
                    stopped_at,
                    auto_before_restart,
                    restarted_at,
                    fresh_process: true,
                    process_identity_before: process("before"),
                    process_identity_after: process("after"),
                }
            }
            LiveLifecycleCase::ProcessKillRecovery => {
                let start_limit_reset_at = self.tick();
                let (killed_at, coverage) = self.covered("process-before-kill");
                observer_attestations.push(coverage);
                let auto_before_restart = self.pair();
                let (restarted_at, coverage) = self.covered("bounded-restart-custom");
                observer_attestations.push(coverage);
                LiveLifecycleCaseObservation::ProcessKillRecovery {
                    sigkill_observed: true,
                    start_limit_reset_at,
                    killed_at,
                    auto_before_restart,
                    restarted_at,
                    process_identity_before: process("before"),
                    process_identity_after: process("after"),
                    restart_delay_millis: 2_000,
                    start_limit_burst: 2,
                }
            }
            LiveLifecycleCase::WatchdogRecovery => {
                let start_limit_reset_at = self.tick();
                let (expired_at, coverage) = self.covered("watchdog-monitored-custom");
                observer_attestations.push(coverage);
                let auto_before_restart = self.pair();
                let (restarted_at, coverage) = self.covered("bounded-restart-custom");
                observer_attestations.push(coverage);
                LiveLifecycleCaseObservation::WatchdogRecovery {
                    watchdog_expired: true,
                    start_limit_reset_at,
                    expired_at,
                    auto_before_restart,
                    restarted_at,
                    process_identity_before: process("before"),
                    process_identity_after: process("after"),
                    restart_delay_millis: 2_000,
                    start_limit_burst: 2,
                }
            }
            LiveLifecycleCase::AcToBatteryTransition => {
                let started_at = self.tick();
                let before = self.powered(EvidenceExternalPower::Ac);
                let after = self.powered(EvidenceExternalPower::Battery);
                let selected_profile_after = LiveLifecycleProfileObservation {
                    observed_at: self.tick(),
                    fresh: true,
                    profile: EvidenceProfile::Battery,
                };
                let completed_at = self.tick();
                observer_attestations.push(LiveLifecycleObserverAttestation {
                    action: "ac-transition-custom".to_owned(),
                    started_at,
                    completed_at,
                    checks: vec![started_at, completed_at],
                });
                LiveLifecycleCaseObservation::AcToBatteryTransition {
                    before,
                    after,
                    selected_profile_after,
                }
            }
            LiveLifecycleCase::SuspendResume => {
                let auto_before_sleep = self.pair();
                let (suspended_at, coverage) = self.covered("pre-suspend-custom");
                observer_attestations.push(coverage);
                let resumed_at = self.tick();
                let (process_started_at, coverage) = self.covered("post-resume-custom");
                observer_attestations.push(coverage);
                LiveLifecycleCaseObservation::SuspendResume {
                    auto_before_sleep,
                    suspended_at,
                    suspend_completed: true,
                    resumed_at,
                    process_started_at,
                    process_identity_before: process("before"),
                    process_identity_after: process("after"),
                }
            }
            LiveLifecycleCase::Reboot => unreachable!(),
        };
        Ok(LiveLifecycleObserved {
            observation,
            observer_attestations,
        })
    }

    fn restore_after_case(
        &mut self,
        case: LiveLifecycleCase,
    ) -> Result<LiveLifecycleObserved<EvidenceTimestamp>, String> {
        self.log.push("restore".to_owned());
        let mut ended = self.ending(&format!("{}-cleanup", case.id()));
        if case == LiveLifecycleCase::InvalidConfiguration {
            ended.observer_attestations.clear();
        }
        Ok(ended)
    }

    fn resume_after_reboot(
        &mut self,
    ) -> Result<LiveLifecycleObserved<LiveLifecycleRebootContinuation>, String> {
        Ok(LiveLifecycleObserved {
            observation: LiveLifecycleRebootContinuation {
                reboot_completed: true,
                boot_id_before: "boot-a".to_owned(),
                boot_id_after: self.boot.to_owned(),
                post_boot_at: self.tick(),
            },
            observer_attestations: vec![],
        })
    }

    fn arm_after_reboot(
        &mut self,
    ) -> Result<LiveLifecycleObserved<LiveLifecycleRebootArmObservation>, String> {
        self.log.push("arm".to_owned());
        let (armed_at, coverage) = self.covered("post-reboot-arm");
        Ok(LiveLifecycleObserved {
            observation: LiveLifecycleRebootArmObservation {
                armed_at,
                controller_process_identity: process("controller"),
            },
            observer_attestations: vec![coverage],
        })
    }

    fn restore_after_reboot(
        &mut self,
    ) -> Result<LiveLifecycleObserved<EvidenceTimestamp>, String> {
        self.log.push("restore".to_owned());
        Ok(self.ending("post-reboot-restore"))
    }

    fn confirm_firmware_auto(
        &mut self,
        fan: EvidenceFan,
    ) -> Result<LiveLifecycleFanAutoObservation, String> {
        self.log.push(match fan {
            EvidenceFan::Cpu => "cpu".to_owned(),
            EvidenceFan::Gpu => "gpu".to_owned(),
        });
        Ok(self.fan(fan))
    }
}

fn endpoints() -> FanEndpointIdentitiesEvidence {
    FanEndpointIdentitiesEvidence {
        cpu_pwm: "cpu-pwm".to_owned(),
        cpu_enable: "cpu-enable".to_owned(),
        cpu_tachometer: "cpu-rpm".to_owned(),
        gpu_pwm: "gpu-pwm".to_owned(),
        gpu_enable: "gpu-enable".to_owned(),
        gpu_tachometer: "gpu-rpm".to_owned(),
    }
}

fn identity(fan: EvidenceFan, field: &str) -> String {
    format!("{fan:?}-{field}")
}

impl SupervisedEnduranceEnvironment for World {
    fn history(&self) -> History<fan_control_core::endurance_calls::EnduranceCall> {
        unreachable!()
    }

    fn timestamp(&mut self) -> EvidenceTimestamp {
        self.now += 1;
        at(self.now)
    }

    fn confirm_observer(&mut self, _: u64) -> Result<EvidenceTimestamp, String> {
        if self.observer_leaves_after.is_some_and(|moment| self.now > moment) {
            return Err("observer left".to_owned());
        }
        self.now += 1;
        Ok(at(self.now))
    }

    fn capture_starting_conditions(
        &mut self,
        _: u64,
    ) -> Result<CapturedMatchedWorkloadStartingConditions, String> {
        MatchedWorkloadEnvironment::capture_starting_conditions(self)
    }

    fn enter_custom_control(&mut self, _: u64) -> Result<(), String> {
        self.actions.push("custom");
        Ok(())
    }

    fn begin_segment(
        &mut self,
        segment: SupervisedEnduranceSegment,
        _: u64,
    ) -> Result<SupervisedEnduranceSegmentConfirmation, String> {
        self.load = segment.load;
        self.profile = segment.power_profile;
        let busy = match self.load {
            SupervisedEnduranceLoad::Load => 9_000,
            SupervisedEnduranceLoad::Idle => 500,
        };
        self.now += 1;
        Ok(SupervisedEnduranceSegmentConfirmation {
            observed_at: at(self.now),
            load: self.load,
            external_power: power(self.profile),
            selected_profile: self.profile,
            cpu_utilization_basis_points: busy,
            gpu_utilization_basis_points: busy,
        })
    }

    fn start_workload(
        &mut self,
        workload: &WorkloadEvidence,
        deadline: u64,
    ) -> Result<EvidenceTimestamp, String> {
        MatchedWorkloadEnvironment::start_workload(self, workload, deadline)
    }

    fn wait_until(&mut self, target: u64, _: u64) -> Result<(), String> {
        self.now = target;
        Ok(())
    }

    fn capture_observation(&mut self, deadline: u64) -> Result<MatchedWorkloadObservation, String> {
        MatchedWorkloadEnvironment::capture_observation(self, deadline)
    }

    fn stop_workload(
        &mut self,
        _: u64,
    ) -> Result<SupervisedEnduranceProcessStopConfirmation, String> {
        self.actions.push("stop workload");
        if self.stop_fails {
            return Err("still running".to_owned());
        }
        self.now += 1;
        Ok(SupervisedEnduranceProcessStopConfirmation {
            observed_at: at(self.now),
            process_identity: "/usr/lib/pt31553-fan-control/workloads/mixed".to_owned(),
            running: false,
        })
    }

    fn force_contain_workload(
        &mut self,
        _: u64,
    ) -> Result<SupervisedEnduranceProcessStopConfirmation, String> {
        self.actions.push("force workload");
        self.now += 1;
        Ok(SupervisedEnduranceProcessStopConfirmation {
            observed_at: at(self.now),
            process_identity: "/usr/lib/pt31553-fan-control/workloads/mixed".to_owned(),
            running: false,
        })
    }

    fn stop_service(
        &mut self,
        _: u64,
    ) -> Result<SupervisedEnduranceProcessStopConfirmation, String> {
        self.actions.push("stop service");
        self.now += 1;
        Ok(SupervisedEnduranceProcessStopConfirmation {
            observed_at: at(self.now),
            process_identity: "pt31553-fan-control.service".to_owned(),
            running: false,
        })
    }

    fn force_contain_service(
        &mut self,
        deadline: u64,
    ) -> Result<SupervisedEnduranceProcessStopConfirmation, String> {
        self.stop_service(deadline)
    }

    fn restore_fan(&mut self, fan: EvidenceFan, deadline: u64) -> MatchedWorkloadFanRestoration {
        MatchedWorkloadEnvironment::restore_fan(self, fan, deadline)
    }

    fn contain_fan_at_maximum(
        &mut self,
        fan: EvidenceFan,
        _: u64,
    ) -> SupervisedEnduranceFanContainment {
        self.actions.push("maximum");
        SupervisedEnduranceFanContainment {
            enable_readback: Some(1),
            pwm_write_succeeded: true,
            pwm_readback: Some(255),
            enable_endpoint_identity: identity(fan, "Enable"),
            pwm_endpoint_identity: identity(fan, "Pwm"),
            outcome: RestorationOutcome::MaximumContainmentConfirmed,
        }
    }
}

fn workload(key: WorkloadKey) -> WorkloadEvidence {
    let class = match key.class {
        MatchedWorkloadClass::Idle => "idle",
        MatchedWorkloadClass::Cpu => "cpu",
        MatchedWorkloadClass::Gpu => "gpu",
        MatchedWorkloadClass::Combined => "combined",
    };
    let profile = match key.profile {
        EvidenceProfile::Ac => "ac",
        EvidenceProfile::Battery => "battery",
    };
    WorkloadEvidence {
        workload_id: format!("{class}-{profile}-v1"),
        command: vec![
            format!("/usr/lib/pt31553-fan-control/workloads/{class}"),
            "--fixed".to_owned(),
        ],
        version: "1.0.0".to_owned(),
        power_profile: key.profile,
        ambient_millicelsius: 22_000,
        starting_cpu_millicelsius: 45_000,
        starting_gpu_millicelsius: 40_000,
    }
}

fn mixed() -> WorkloadEvidence {
    WorkloadEvidence {
        workload_id: "supervised-mixed-endurance".to_owned(),
        command: vec![
            "/usr/lib/pt31553-fan-control/workloads/mixed".to_owned(),
            "--fixed".to_owned(),
        ],
        version: "1.0.0".to_owned(),
        power_profile: EvidenceProfile::Ac,
        ambient_millicelsius: 22_000,
        starting_cpu_millicelsius: 45_000,
        starting_gpu_millicelsius: 40_000,
    }
}

fn calibration(fan: Fan) -> EvidenceRecord {
    build_fan_calibration_record(CompletedFanCalibrationRun {
        qualification_envelope: envelope(),
        calibration: complete(fan).evidence().unwrap().clone(),
        endpoint_identities: endpoints(),
        started_at: at(9_000),
        restoration_attempted_at: at(2_000_000),
        restoration_confirmed_at: at(2_000_500),
        completed_at: at(2_001_000),
    })
    .unwrap()
}

fn preflight() -> EvidenceRecord {
    let mut record = EvidenceRecord::complete_v2(
        envelope(),
        "preflight",
        at(1_000),
        at(2_000),
        RunOutcomeEvidence {
            status: RunOutcomeStatus::Passed,
            reason: "ready".to_owned(),
            another_passing_run_required: false,
            final_firmware_auto_confirmed: true,
        },
    );
    for fan in [EvidenceFan::Cpu, EvidenceFan::Gpu] {
        record.readbacks.push(FanReadbackEvidence {
            timestamp: at(1_500),
            source_timestamp: None,
            fresh: None,
            boot_id: None,
            fan,
            field: FanReadbackField::Enable,
            value: Some(2),
            endpoint_identity: identity(fan, "Enable"),
            outcome: ObservationOutcome::Confirmed,
            phase: None,
        });
    }
    assert_eq!(record.validate(flat_slopes()), Ok(()));
    record
}

fn lifecycle() -> EvidenceRecord {
    let mut host = host();
    let checkpoint =
        match run_live_lifecycle_until_reboot(&mut host, &envelope(), &"b".repeat(64), &endpoints())
        {
            Ok(LiveLifecycleProgress::AwaitingReboot(checkpoint)) => *checkpoint,
            _ => panic!("must wait for the reboot"),
        };
    host.boot = "boot-b";
    host.now = 500;
    host.wall += 60_000;
    let report = resume_live_lifecycle_qualification(&mut host, checkpoint).unwrap();
    assert!(report.accepted());
    report.into_record()
}

fn input<'a>(record: &'a EvidenceRecord, json: &'a str) -> EvidenceInput<'a> {
    EvidenceInput {
        record,
        slopes: flat_slopes(),
        canonical_json: json.as_bytes(),
    }
}

struct Qualification {
    preflight: EvidenceRecord,
    baselines: Vec<(EvidenceRecord, String)>,
    runs: Vec<(EvidenceRecord, String)>,
    cpu: EvidenceRecord,
    gpu: EvidenceRecord,
    lifecycle: EvidenceRecord,
}

fn qualification() -> Qualification {
    let cpu = calibration(Fan::Cpu);
    let gpu = calibration(Fan::Gpu);
    let mut baselines = Vec::new();
    let mut runs = Vec::new();
    for index in 0..7 {
        let key = WorkloadKey::expected(index);
        let samples = (key.required_duration_millis() / 2_000) as usize;
        let baseline = run_firmware_auto_baseline(
            &mut platform("2\n"),
            &mut world(key.profile),
            &mut FlatMeter,
            &FirmwareAutoBaselinePlan {
                hwmon_root: "/h",
                qualification_envelope: envelope(),
                workload: workload(key),
                samples_required: samples,
            },
        )
        .unwrap();
        assert!(baseline.accepted());
        let baseline = baseline.into_record();
        let json = format!("baseline {index}");
        let mut previous: Vec<(EvidenceRecord, String)> = Vec::new();
        for number in 0..key.class.required_passing_runs() {
            let prior: Vec<EvidenceInput> =
                previous.iter().map(|(record, json)| input(record, json)).collect();
            let report = run_matched_custom_workload(
                &mut world(key.profile),
                &mut FlatMeter,
                &MatchedWorkloadPlan {
                    baseline: input(&baseline, &json),
                    previous_passing_runs: &prior,
                    tachometer_calibrations: MatchedWorkloadTachometerCalibrations {
                        cpu: &cpu.calibration[0],
                        gpu: &gpu.calibration[0],
                    },
                },
            )
            .unwrap();
            assert!(report.accepted());
            previous.push((report.into_record(), format!("run {index} {number}")));
        }
        runs.append(&mut previous);
        baselines.push((baseline, json));
    }
    Qualification {
        preflight: preflight(),
        baselines,
        runs,
        cpu,
        gpu,
        lifecycle: lifecycle(),
    }
}

fn measured(entries: &[(EvidenceRecord, String)]) -> Vec<MeasuredInput<'_>> {
    entries
        .iter()
        .map(|(record, json)| MeasuredInput {
            input: input(record, json),
            measurement_json: json.as_bytes(),
        })
        .collect()
}

fn endure(
    world: &mut World,
    qualification: &Qualification,
) -> Result<SupervisedEnduranceReport, SupervisedEndurancePlanError> {
    let baselines = measured(&qualification.baselines);
    let runs = measured(&qualification.runs);
    let plan = SupervisedEndurancePlan {
        prerequisite_binding_sha256: "b".repeat(64),
        preflight: input(&qualification.preflight, "preflight"),
        baselines: &baselines,
        matched_workload_runs: &runs,
        tachometer_calibrations: SupervisedEnduranceCalibrations {
            cpu: input(&qualification.cpu, "cpu"),
            gpu: input(&qualification.gpu, "gpu"),
        },
        live_lifecycle: input(&qualification.lifecycle, "lifecycle"),
        workload: mixed(),
    };
    run_supervised_endurance(world, &mut FlatMeter, &plan)
}

#[test]
fn complete_qualification_endures_the_hour() {
    let qualification = qualification();
    let mut world = world(EvidenceProfile::Ac);
    let report = match endure(&mut world, &qualification) {
        Ok(report) => report,
        Err(error) => panic!("{}", error.message()),
    };
    assert_eq!(report.record().faults, vec![]);
    assert!(report.accepted());
    assert_eq!(
        world.actions,
        ["custom", "start", "stop workload", "stop service", "restore cpu", "restore gpu"]
    );
    assert_eq!(report.clone().record(), report.record());
    let record = report.into_record();
    assert_eq!(record.samples.len(), 1_800);
    assert!(record.validate(flat_slopes()).is_ok());
    assert!(supervised_endurance_is_complete(&record, flat_slopes()));
    let limits = record.endurance_thermal_envelope.unwrap();
    assert_eq!(limits.cpu_peak_limit_millicelsius, 72_000);
}

#[test]
fn endurance_shuts_down_in_order_when_the_observer_leaves() {
    let qualification = qualification();
    let mut world = world(EvidenceProfile::Ac);
    world.observer_leaves_after = Some(80_000);
    world.stop_fails = true;
    world.restoration_fails = true;
    let report = match endure(&mut world, &qualification) {
        Ok(report) => report,
        Err(error) => panic!("{}", error.message()),
    };
    assert!(!report.accepted());
    assert_eq!(
        world.actions,
        [
            "custom",
            "start",
            "stop workload",
            "stop workload",
            "force workload",
            "stop service",
            "restore cpu",
            "restore gpu",
            "maximum",
            "maximum"
        ]
    );
    assert_eq!(report.record().outcome.status, RunOutcomeStatus::Failed);
    assert!(!report.record().outcome.final_firmware_auto_confirmed);
}

#[test]
fn endurance_needs_the_whole_matrix() {
    let mut qualification = qualification();
    qualification.runs.pop();
    let mut untouched = world(EvidenceProfile::Ac);
    let result = endure(&mut untouched, &qualification);
    assert!(untouched.actions.is_empty());
    assert_eq!(untouched.now, 50_000);
    assert!(matches!(
        result.err().unwrap(),
        SupervisedEndurancePlanError::IncompleteWorkloadMatrix { .. }
    ));
    qualification.baselines.pop();
    let result = endure(&mut world(EvidenceProfile::Ac), &qualification);
    assert!(matches!(
        result.err().unwrap(),
        SupervisedEndurancePlanError::IncompleteWorkloadMatrix { .. }
    ));
    qualification.preflight.stage = "rehearsal".to_owned();
    let result = endure(&mut world(EvidenceProfile::Ac), &qualification);
    assert!(matches!(
        result.err().unwrap(),
        SupervisedEndurancePlanError::InvalidQualificationEvidence { .. }
    ));
}
