use fan_control_core::trace::History;
use fan_control_core::compatibility::{
    CompatibilityDeclarationV1, EscapeHatchCapability, FanControlDeclaration, FanWriteBackend,
    HardwareIdentity, KernelIdentity, ModuleIdentity, ModuleProvenance, SecureBootRequirements,
};
use fan_control_core::evidence::{
    EvidenceExternalPower, EvidenceFan, EvidenceProfile, EvidenceTimestamp,
    FanEndpointIdentitiesEvidence, QualificationEnvelopeIdentityV1,
};
use fan_control_core::lifecycle::{
    classify_live_lifecycle_request, DangerousLiveFaultInjection, LiveLifecycleCase,
    LiveLifecycleCaseObservation, LiveLifecycleFanAutoObservation, LiveLifecycleFanAutoPair,
    LiveLifecycleObserved, LiveLifecycleObserverAttestation, LiveLifecyclePowerObservation,
    LiveLifecycleProfileObservation, LiveLifecycleRebootArmObservation,
    LiveLifecycleRebootContinuation, LiveLifecycleRequest,
};
use fan_control_core::lifecycle_checkpoint::LiveLifecycleCheckpoint;
use fan_control_core::lifecycle_record::live_lifecycle_is_complete;
use fan_control_core::lifecycle_run::{
    resume_live_lifecycle_qualification, run_live_lifecycle_until_reboot, LiveLifecycleEnvironment,
    LiveLifecyclePlanError, LiveLifecycleProgress, LiveLifecycleReport,
};

fn declaration() -> CompatibilityDeclarationV1 {
    CompatibilityDeclarationV1 {
        schema_version: 1,
        hardware: HardwareIdentity {
            dmi_product_name: "Predator PT315-53".to_owned(),
            dmi_board_name: "Civic_TLS".to_owned(),
            bios_version: "V1.17".to_owned(),
        },
        kernel: KernelIdentity {
            release: "6.19.2-cachyos-pt31553".to_owned(),
            package: "linux-cachyos-pt31553".to_owned(),
            source_commit: "c".repeat(40),
            image_sha256: "1".repeat(64),
            image_signer_fingerprint: "2".repeat(64),
        },
        module: ModuleIdentity {
            name: "acer_wmi".to_owned(),
            path: "/usr/lib/modules/6.19.2-cachyos-pt31553/kernel/drivers/platform/x86/acer-wmi.ko.zst"
                .to_owned(),
            sha256: "3".repeat(64),
            signer_fingerprint: "4".repeat(64),
            vermagic: "6.19.2-cachyos-pt31553 SMP preempt mod_unload".to_owned(),
            provenance: ModuleProvenance::InTree,
        },
        secure_boot: SecureBootRequirements { required: true },
        fan_control: FanControlDeclaration {
            backend: FanWriteBackend::AcerHwmon,
            hwmon_name: "acer".to_owned(),
            endpoints: ["pwm1", "pwm1_enable", "fan1_input", "pwm2", "pwm2_enable", "fan2_input"]
                .iter()
                .map(|name| name.to_string())
                .collect(),
            forbidden_capabilities: vec![
                EscapeHatchCapability::ForceCaps,
                EscapeHatchCapability::EcRawMode,
                EscapeHatchCapability::PredatorV4Override,
                EscapeHatchCapability::DirectWmi,
                EscapeHatchCapability::RawEc,
                EscapeHatchCapability::ReplacementWmiModule,
                EscapeHatchCapability::AlternateFanWriteBackend,
            ],
        },
    }
}

fn envelope() -> QualificationEnvelopeIdentityV1 {
    QualificationEnvelopeIdentityV1 {
        qualification_record_schema_version: 1,
        qualification_id: "pt31553-q1".to_owned(),
        policy_version: "policy-1".to_owned(),
        protected_policy_sha256: "a".repeat(64),
        compatibility: declaration(),
    }
}

struct Host {
    now: u64,
    wall: i64,
    boot: &'static str,
    log: Vec<String>,
    failing: Option<LiveLifecycleCase>,
    mode: u32,
}

fn host() -> Host {
    Host {
        now: 1_000,
        wall: 500_000,
        boot: "boot-a",
        log: Vec::new(),
        failing: None,
        mode: 2,
    }
}

impl Host {
    fn tick(&mut self) -> EvidenceTimestamp {
        self.now += 10;
        self.wall += 10;
        EvidenceTimestamp {
            monotonic_millis: self.now,
            wall_unix_millis: self.wall,
        }
    }

    fn covered(&mut self, action: &str) -> (EvidenceTimestamp, LiveLifecycleObserverAttestation) {
        let started_at = self.tick();
        let moment = self.tick();
        let completed_at = self.tick();
        let attestation = LiveLifecycleObserverAttestation {
            action: action.to_owned(),
            started_at,
            completed_at,
            checks: vec![started_at, completed_at],
        };
        (moment, attestation)
    }

    fn ending(&mut self, action: &str) -> LiveLifecycleObserved<EvidenceTimestamp> {
        let started_at = self.tick();
        let completed_at = self.tick();
        LiveLifecycleObserved {
            observation: completed_at,
            observer_attestations: vec![LiveLifecycleObserverAttestation {
                action: action.to_owned(),
                started_at,
                completed_at,
                checks: vec![started_at, completed_at],
            }],
        }
    }

    fn fan(&mut self, fan: EvidenceFan) -> LiveLifecycleFanAutoObservation {
        LiveLifecycleFanAutoObservation {
            observed_at: self.tick(),
            fresh: true,
            enable_readback: Some(self.mode),
            endpoint_identity: match fan {
                EvidenceFan::Cpu => "cpu-enable".to_owned(),
                EvidenceFan::Gpu => "gpu-enable".to_owned(),
            },
        }
    }

    fn pair(&mut self) -> LiveLifecycleFanAutoPair {
        LiveLifecycleFanAutoPair {
            cpu: self.fan(EvidenceFan::Cpu),
            gpu: self.fan(EvidenceFan::Gpu),
        }
    }

    fn power(&mut self, source: EvidenceExternalPower) -> LiveLifecyclePowerObservation {
        LiveLifecyclePowerObservation {
            observed_at: self.tick(),
            fresh: true,
            source,
        }
    }
}

fn process(name: &str) -> String {
    format!("pid-{name}")
}

impl LiveLifecycleEnvironment for Host {
    fn history(&self) -> History<fan_control_core::lifecycle_calls::LifecycleCall> {
        unreachable!()
    }

    fn timestamp(&mut self) -> EvidenceTimestamp {
        self.tick()
    }

    fn current_boot_id(&mut self) -> Result<String, String> {
        Ok(self.boot.to_owned())
    }

    fn run_case(
        &mut self,
        case: LiveLifecycleCase,
    ) -> Result<LiveLifecycleObserved<LiveLifecycleCaseObservation>, String> {
        self.log.push(case.id().to_owned());
        if self.failing == Some(case) {
            return Err("harness failed".to_owned());
        }
        let mut observer_attestations = Vec::new();
        let observation = match case {
            LiveLifecycleCase::InvalidConfiguration => {
                LiveLifecycleCaseObservation::InvalidConfiguration {
                    observed_at: self.tick(),
                    fresh: true,
                    rejected_before_custom_control: true,
                }
            }
            LiveLifecycleCase::DuplicateProcess => {
                let (observed_at, coverage) = self.covered("duplicate-owner-custom");
                observer_attestations.push(coverage);
                LiveLifecycleCaseObservation::DuplicateProcess {
                    observed_at,
                    fresh: true,
                    duplicate_rejected: true,
                    original_owner_preserved: true,
                    original_process_identity: process("owner"),
                    rejected_process_identity: process("duplicate"),
                }
            }
            LiveLifecycleCase::NormalStopRestart => {
                let (stopped_at, coverage) = self.covered("normal-owner-before-stop");
                observer_attestations.push(coverage);
                let auto_before_restart = self.pair();
                let (restarted_at, coverage) = self.covered("normal-restart-custom");
                observer_attestations.push(coverage);
                LiveLifecycleCaseObservation::NormalStopRestart {
                    clean_stop: true,
                    stopped_at,
                    auto_before_restart,
                    restarted_at,
                    fresh_process: true,
                    process_identity_before: process("before"),
                    process_identity_after: process("after"),
                }
            }
            LiveLifecycleCase::ProcessKillRecovery => {
                let start_limit_reset_at = self.tick();
                let (killed_at, coverage) = self.covered("process-before-kill");
                observer_attestations.push(coverage);
                let auto_before_restart = self.pair();
                let (restarted_at, coverage) = self.covered("bounded-restart-custom");
                observer_attestations.push(coverage);
                LiveLifecycleCaseObservation::ProcessKillRecovery {
                    sigkill_observed: true,
                    start_limit_reset_at,
                    killed_at,
                    auto_before_restart,
                    restarted_at,
                    process_identity_before: process("before"),
                    process_identity_after: process("after"),
                    restart_delay_millis: 2_000,
                    start_limit_burst: 2,
                }
            }
            LiveLifecycleCase::WatchdogRecovery => {
                let start_limit_reset_at = self.tick();
                let (expired_at, coverage) = self.covered("watchdog-monitored-custom");
                observer_attestations.push(coverage);
                let auto_before_restart = self.pair();
                let (restarted_at, coverage) = self.covered("bounded-restart-custom");
                observer_attestations.push(coverage);
                LiveLifecycleCaseObservation::WatchdogRecovery {
                    watchdog_expired: true,
                    start_limit_reset_at,
                    expired_at,
                    auto_before_restart,
                    restarted_at,
                    process_identity_before: process("before"),
                    process_identity_after: process("after"),
                    restart_delay_millis: 2_000,
                    start_limit_burst: 2,
                }
            }
            LiveLifecycleCase::AcToBatteryTransition => {
                let started_at = self.tick();
                let before = self.power(EvidenceExternalPower::Ac);
                let after = self.power(EvidenceExternalPower::Battery);
                let selected_profile_after = LiveLifecycleProfileObservation {
                    observed_at: self.tick(),
                    fresh: true,
                    profile: EvidenceProfile::Battery,
                };
                let completed_at = self.tick();
                observer_attestations.push(LiveLifecycleObserverAttestation {
                    action: "ac-transition-custom".to_owned(),
                    started_at,
                    completed_at,
                    checks: vec![started_at, completed_at],
                });
                LiveLifecycleCaseObservation::AcToBatteryTransition {
                    before,
                    after,
                    selected_profile_after,
                }
            }
            LiveLifecycleCase::SuspendResume => {
                let auto_before_sleep = self.pair();
                let (suspended_at, coverage) = self.covered("pre-suspend-custom");
                observer_attestations.push(coverage);
                let resumed_at = self.tick();
                let (process_started_at, coverage) = self.covered("post-resume-custom");
                observer_attestations.push(coverage);
                LiveLifecycleCaseObservation::SuspendResume {
                    auto_before_sleep,
                    suspended_at,
                    suspend_completed: true,
                    resumed_at,
                    process_started_at,
                    process_identity_before: process("before"),
                    process_identity_after: process("after"),
                }
            }
            LiveLifecycleCase::Reboot => unreachable!(),
        };
        Ok(LiveLifecycleObserved {
            observation,
            observer_attestations,
        })
    }

    fn restore_after_case(
        &mut self,
        case: LiveLifecycleCase,
    ) -> Result<LiveLifecycleObserved<EvidenceTimestamp>, String> {
        self.log.push("restore".to_owned());
        let mut ended = self.ending(&format!("{}-cleanup", case.id()));
        if case == LiveLifecycleCase::InvalidConfiguration {
            ended.observer_attestations.clear();
        }
        Ok(ended)
    }

    fn resume_after_reboot(
        &mut self,
    ) -> Result<LiveLifecycleObserved<LiveLifecycleRebootContinuation>, String> {
        Ok(LiveLifecycleObserved {
            observation: LiveLifecycleRebootContinuation {
                reboot_completed: true,
                boot_id_before: "boot-a".to_owned(),
                boot_id_after: self.boot.to_owned(),
                post_boot_at: self.tick(),
            },
            observer_attestations: vec![],
        })
    }

    fn arm_after_reboot(
        &mut self,
    ) -> Result<LiveLifecycleObserved<LiveLifecycleRebootArmObservation>, String> {
        self.log.push("arm".to_owned());
        let (armed_at, coverage) = self.covered("post-reboot-arm");
        Ok(LiveLifecycleObserved {
            observation: LiveLifecycleRebootArmObservation {
                armed_at,
                controller_process_identity: process("controller"),
            },
            observer_attestations: vec![coverage],
        })
    }

    fn restore_after_reboot(
        &mut self,
    ) -> Result<LiveLifecycleObserved<EvidenceTimestamp>, String> {
        self.log.push("restore".to_owned());
        Ok(self.ending("post-reboot-restore"))
    }

    fn confirm_firmware_auto(
        &mut self,
        fan: EvidenceFan,
    ) -> Result<LiveLifecycleFanAutoObservation, String> {
        self.log.push(match fan {
            EvidenceFan::Cpu => "cpu".to_owned(),
            EvidenceFan::Gpu => "gpu".to_owned(),
        });
        Ok(self.fan(fan))
    }
}

fn endpoints() -> FanEndpointIdentitiesEvidence {
    FanEndpointIdentitiesEvidence {
        cpu_pwm: "cpu-pwm".to_owned(),
        cpu_enable: "cpu-enable".to_owned(),
        cpu_tachometer: "cpu-rpm".to_owned(),
        gpu_pwm: "gpu-pwm".to_owned(),
        gpu_enable: "gpu-enable".to_owned(),
        gpu_tachometer: "gpu-rpm".to_owned(),
    }
}

fn run(host: &mut Host) -> Result<LiveLifecycleProgress, LiveLifecyclePlanError> {
    run_live_lifecycle_until_reboot(host, &envelope(), &"b".repeat(64), &endpoints())
}

fn waiting(host: &mut Host) -> LiveLifecycleCheckpoint {
    match run(host) {
        Ok(LiveLifecycleProgress::AwaitingReboot(checkpoint)) => *checkpoint,
        Ok(LiveLifecycleProgress::Complete(report)) => {
            panic!("{:?}", report.record().faults)
        }
        Err(error) => panic!("{}", error.message()),
    }
}

fn rebooted(host: &mut Host) {
    host.boot = "boot-b";
    host.now = 500;
    host.wall += 60_000;
    host.log.clear();
}

#[test]
fn lifecycle_waits_for_the_reboot_and_completes_after_it() {
    let mut host = host();
    let checkpoint = waiting(&mut host);
    assert_eq!(&host.log[..6], ["cpu", "gpu", "invalid-configuration", "restore", "cpu", "gpu"]);
    assert!(checkpoint.validate().is_ok());
    assert_eq!(checkpoint.prerequisite_binding_sha256(), "b".repeat(64));
    rebooted(&mut host);
    let again = checkpoint.clone();
    assert!(again.validate().is_ok());
    assert_eq!(again.prerequisite_binding_sha256(), "b".repeat(64));
    let report = resume_live_lifecycle_qualification(&mut host, checkpoint).unwrap();
    assert_eq!(report.record().faults.len(), 0, "{:?}", report.record().faults);
    assert!(report.accepted());
    assert_eq!(host.log, ["cpu", "gpu", "arm", "restore", "cpu", "gpu"]);
    assert!(report.validate().is_ok());
    assert_eq!(report.cases().len(), 8);
    assert_eq!(report.cases()[7].case(), LiveLifecycleCase::Reboot);
    assert_eq!(report.clone().record(), report.record());
    let record = report.into_record();
    assert!(live_lifecycle_is_complete(&record));
    assert!(again.matches_completed_record_prefix(&record));
    let report = LiveLifecycleReport::from_record(record).unwrap();
    assert!(report.accepted());
}

#[test]
fn lifecycle_contains_a_failing_case() {
    let mut host = host();
    host.failing = Some(LiveLifecycleCase::WatchdogRecovery);
    match run(&mut host).ok().unwrap() {
        LiveLifecycleProgress::Complete(report) => {
            assert!(!report.accepted());
            assert_eq!(report.record().outcome.final_firmware_auto_confirmed, true);
            let last = report.cases().last().unwrap();
            assert_eq!(last.case(), LiveLifecycleCase::WatchdogRecovery);
            assert!(!last.passed());
        }
        LiveLifecycleProgress::AwaitingReboot(_) => panic!("must not wait"),
    }
    assert_eq!(
        &host.log[host.log.len() - 4..],
        ["watchdog-recovery", "restore", "cpu", "gpu"]
    );
}

#[test]
fn lifecycle_runs_no_case_outside_firmware_auto() {
    let mut host = host();
    host.mode = 1;
    match run(&mut host).ok().unwrap() {
        LiveLifecycleProgress::Complete(report) => {
            assert!(!report.accepted());
            assert!(report.cases().is_empty());
            assert!(!report.record().outcome.final_firmware_auto_confirmed);
        }
        LiveLifecycleProgress::AwaitingReboot(_) => panic!("must not wait"),
    }
    assert!(!host.log.contains(&"invalid-configuration".to_owned()));
}

#[test]
fn lifecycle_arms_only_after_confirmed_auto() {
    let mut host = host();
    let checkpoint = waiting(&mut host);
    rebooted(&mut host);
    host.mode = 1;
    let report = resume_live_lifecycle_qualification(&mut host, checkpoint).unwrap();
    assert!(!report.accepted());
    assert!(!host.log.contains(&"arm".to_owned()));
    assert!(host.log.contains(&"restore".to_owned()));
}

#[test]
fn lifecycle_needs_a_distinct_boot() {
    let mut host = host();
    let checkpoint = waiting(&mut host);
    rebooted(&mut host);
    host.boot = "boot-a";
    let report = resume_live_lifecycle_qualification(&mut host, checkpoint).unwrap();
    assert!(!report.accepted());
    assert!(!host.log.contains(&"arm".to_owned()));
}

#[test]
fn lifecycle_plans_are_checked_first() {
    let mut host = host();
    let mut bad = envelope();
    bad.policy_version = String::new();
    assert!(matches!(
        run_live_lifecycle_until_reboot(&mut host, &bad, &"b".repeat(64), &endpoints()),
        Err(LiveLifecyclePlanError::InvalidEnvelope(_))
    ));
    assert!(matches!(
        run_live_lifecycle_until_reboot(&mut host, &envelope(), "b", &endpoints()),
        Err(LiveLifecyclePlanError::InvalidCheckpoint(_))
    ));
    let mut same = endpoints();
    same.gpu_enable = same.cpu_enable.clone();
    assert!(!same.is_valid());
    assert!(matches!(
        run_live_lifecycle_until_reboot(&mut host, &envelope(), &"b".repeat(64), &same),
        Err(LiveLifecyclePlanError::InvalidCheckpoint(_))
    ));
    assert!(host.log.is_empty());
}

#[test]
fn dangerous_requests_are_refused() {
    assert_eq!(
        classify_live_lifecycle_request(LiveLifecycleRequest::Approved(LiveLifecycleCase::Reboot)),
        Ok(LiveLifecycleCase::Reboot)
    );
    for fault in DangerousLiveFaultInjection::ALL {
        let error =
            classify_live_lifecycle_request(LiveLifecycleRequest::Dangerous(fault)).unwrap_err();
        assert_eq!(error.fault(), fault);
        assert!(error.message().ends_with(
            " is refused on live hardware; exercise it only against the simulated backend"
        ));
    }
    assert_eq!(LiveLifecycleCase::ALL.len(), 8);
    assert_eq!(
        LiveLifecycleCase::AcToBatteryTransition.id(),
        "ac-to-battery-transition"
    );
}
