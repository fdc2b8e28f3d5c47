use std::collections::BTreeMap;

use fan_control_core::trace::History;
use fan_control_core::acer_hwmon::{
    discover_acer_hwmon, only_device, validate_hwmon_entry, AcerHwmonDevice,
    AcerHwmonDiscoveryError,
};
use fan_control_core::arming::{
    admit_sample, arm_both_fans_safely, unexpected_readback_message, ArmedFanControl,
    ArmingReadySample, ControllerOwnership, FanArmingError, FanArmingFailure, FanArmingOperation,
    FanArmingReadback, FirmwareAutoSafingOutcome,
};
use fan_control_core::authority::{
    admit_policy_authority, requalification_policy_snapshot, validate_binding,
    validate_fingerprinted_authority, validate_manifest_identity, AdmittedPolicyAuthority,
    PolicyAuthorityAccess, PolicyAuthorityAdmissionError, PolicyAuthorityError,
    ProtectedPolicyManifestV2, QualificationRecordV2, SupervisedEnduranceAuthorizationV1,
    QUALIFICATION_RECORD_PATH, SUPERVISED_ENDURANCE_EVIDENCE_PATH,
};
use fan_control_core::compatibility::{
    admit_compatibility, supported_kernel_release, validate_declaration,
    CompatibilityAdmissionError, CompatibilityDeclarationError, CompatibilityDeclarationV1,
    CompatibilityObservation, EscapeHatchCapability, EvidenceCompleteness, FanControlDeclaration,
    FanWriteBackend, HardwareIdentity, KernelIdentity, ModuleIdentity, ModuleProvenance,
    ObservedFanAbi, SecureBootRequirements,
};
use fan_control_core::config::{
    CurvePointConfig, FanConfig, FansConfig, ProfileConfig, ProfilesConfig, ValidatedConfig,
};
use fan_control_core::control_cycle::{
    control_readback_message, run_healthy_control_cycle, CompleteSampleSet, ControlCycleOperation,
    ControlCycleReadback, ControlPolicy, HealthyControl, HealthyControlCycleError,
};
use fan_control_core::demand::{FanOutputs, Pwm};
use fan_control_core::endpoint_io::{malformed_tachometer_message, parse_tachometer_contents};
use fan_control_core::evidence::{
    EvidenceRecordStatus, EvidenceTimestamp, QualificationEnvelopeIdentityV1, RpmAnchorEvidence,
    RunOutcomeStatus,
};
use fan_control_core::external_power::ExternalPower;
use fan_control_core::hash::sha256_hex;
use fan_control_core::platform::{
    BoundedIdentityBoundFileAccess, Clock, FileAccess, FileIdentity, FilePermissions,
    IdentityBoundReadAccess, ListedEntry, PlatformError, PlatformErrorKind,
};
use fan_control_core::tachometer::{expected_rpm_from_anchors, Fan};
use fan_control_core::tachometer_policy::{FanTachometerConfig, TachometerCalibrationConfig};

fn declaration() -> CompatibilityDeclarationV1 {
    CompatibilityDeclarationV1 {
        schema_version: 1,
        hardware: HardwareIdentity {
            dmi_product_name: "Predator PT315-53".to_owned(),
            dmi_board_name: "Civic_TLS".to_owned(),
            bios_version: "V1.17".to_owned(),
        },
        kernel: KernelIdentity {
            release: "6.19.2-cachyos-pt31553".to_owned(),
            package: "linux-cachyos-pt31553".to_owned(),
            source_commit: "c".repeat(40),
            image_sha256: "1".repeat(64),
            image_signer_fingerprint: "2".repeat(64),
        },
        module: ModuleIdentity {
            name: "acer_wmi".to_owned(),
            path: "/usr/lib/modules/6.19.2-cachyos-pt31553/kernel/drivers/platform/x86/acer-wmi.ko.zst"
                .to_owned(),
            sha256: "3".repeat(64),
            signer_fingerprint: "4".repeat(64),
            vermagic: "6.19.2-cachyos-pt31553 SMP preempt mod_unload".to_owned(),
            provenance: ModuleProvenance::InTree,
        },
        secure_boot: SecureBootRequirements { required: true },
        fan_control: FanControlDeclaration {
            backend: FanWriteBackend::AcerHwmon,
            hwmon_name: "acer".to_owned(),
            endpoints: ["pwm1", "pwm1_enable", "fan1_input", "pwm2", "pwm2_enable", "fan2_input"]
                .iter()
                .map(|name| name.to_string())
                .collect(),
            forbidden_capabilities: vec![
                EscapeHatchCapability::ForceCaps,
                EscapeHatchCapability::EcRawMode,
                EscapeHatchCapability::PredatorV4Override,
                EscapeHatchCapability::DirectWmi,
                EscapeHatchCapability::RawEc,
                EscapeHatchCapability::ReplacementWmiModule,
                EscapeHatchCapability::AlternateFanWriteBackend,
            ],
        },
    }
}

const ROOT: &str = "/sys/class/hwmon";
const DEVICE: &str = "/sys/class/hwmon/hwmon3";
const SECOND: u128 = 1_000_000_000;

struct Machine {
    files: BTreeMap<String, String>,
    now: u128,
    writes: Vec<(String, String)>,
    fail_write: Option<usize>,
    stuck_rpm: bool,
    slow_rpm: bool,
    ownership_id: u64,
    epoch: u64,
    restored: usize,
    record: Option<QualificationRecordV2>,
    auto_confirmed: bool,
}

fn missing(path: &str) -> PlatformError {
    PlatformError {
        kind: PlatformErrorKind::NotFound,
        detail: format!("{path} is missing"),
    }
}

fn machine() -> Machine {
    let mut files = BTreeMap::new();
    for (name, contents) in [
        ("hwmon1/name", "coretemp\n"),
        ("hwmon3/name", "acer\n"),
        ("hwmon3/pwm1", "90\n"),
        ("hwmon3/pwm1_enable", "2\n"),
        ("hwmon3/fan1_input", "0\n"),
        ("hwmon3/pwm2", "90\n"),
        ("hwmon3/pwm2_enable", "2\n"),
        ("hwmon3/fan2_input", "0\n"),
    ] {
        files.insert(format!("{ROOT}/{name}"), contents.to_owned());
    }
    Machine {
        files,
        now: 100 * SECOND,
        writes: Vec::new(),
        fail_write: None,
        stuck_rpm: false,
        slow_rpm: false,
        ownership_id: 7,
        epoch: 1,
        restored: 0,
        record: None,
        auto_confirmed: true,
    }
}

impl Machine {
    fn entries(&self, root: &str) -> Result<Vec<ListedEntry>, PlatformError> {
        let mut names: Vec<String> = self
            .files
            .keys()
            .filter_map(|path| path.strip_prefix(&format!("{root}/")))
            .map(|rest| rest.split('/').next().unwrap().to_owned())
            .collect();
        names.dedup();
        if names.is_empty() {
            return Err(missing(root));
        }
        Ok(names
            .into_iter()
            .map(|name| ListedEntry {
                path: format!("{root}/{name}"),
                is_direct_child: true,
                name: Some(name),
            })
            .collect())
    }

    fn identity_of(&self, path: &str) -> FileIdentity {
        FileIdentity {
            device: 1,
            inode: path.bytes().fold(7, |sum, byte| sum * 31 % 1_000_003 + byte as u64),
        }
    }

    fn permissions_of(&self, path: &str) -> FilePermissions {
        if path.ends_with("name") || path.ends_with("_input") {
            FilePermissions::ReadOnly
        } else {
            FilePermissions::ReadWrite
        }
    }

    fn contents(&self, path: &str) -> Result<String, PlatformError> {
        for (tachometer, duty, mode) in [
            ("fan1_input", "pwm1", "pwm1_enable"),
            ("fan2_input", "pwm2", "pwm2_enable"),
        ] {
            if path == format!("{DEVICE}/{tachometer}") {
                let mode = self.files[&format!("{DEVICE}/{mode}")].trim().to_owned();
                if mode != "1" || self.stuck_rpm {
                    return Ok("0\n".to_owned());
                }
                let duty: u8 = self.files[&format!("{DEVICE}/{duty}")].trim().parse().unwrap();
                let rpm = expected_rpm_from_anchors(&anchors(), duty).unwrap();
                let rpm = if self.slow_rpm { rpm / 2 } else { rpm };
                return Ok(format!("{rpm}\n"));
            }
        }
        self.files.get(path).cloned().ok_or_else(|| missing(path))
    }
}

impl fan_control_core::machine::Machine for Machine {
    fn history(&self) -> History<fan_control_core::machine::MachineCall> {
        unreachable!()
    }
}

impl Clock for Machine {
    fn monotonic_now(&mut self) -> u128 {
        self.now
    }

    fn delay(&mut self, nanos: u128) {
        self.now += nanos;
    }
}

impl FileAccess for Machine {
    fn list(&mut self, root: &str) -> Result<Vec<ListedEntry>, PlatformError> {
        self.entries(root)
    }

    fn read(&mut self, path: &str) -> Result<String, PlatformError> {
        self.contents(path)
    }
}

impl IdentityBoundReadAccess for Machine {
    fn identity(&mut self, path: &str) -> Result<FileIdentity, PlatformError> {
        Ok(self.identity_of(path))
    }

    fn permissions(&mut self, path: &str) -> Result<FilePermissions, PlatformError> {
        Ok(self.permissions_of(path))
    }

    fn list_bound(
        &mut self,
        root: &str,
        identity: FileIdentity,
    ) -> Result<Vec<ListedEntry>, PlatformError> {
        assert_eq!(identity, self.identity_of(root));
        self.entries(root)
    }

    fn read_bound(
        &mut self,
        root: &str,
        identity: FileIdentity,
        child: &str,
    ) -> Result<String, PlatformError> {
        assert_eq!(identity, self.identity_of(root));
        self.contents(&format!("{root}/{child}"))
    }
}

impl BoundedIdentityBoundFileAccess for Machine {
    fn list_before(
        &mut self,
        root: &str,
        _: u128,
    ) -> Result<Vec<ListedEntry>, PlatformError> {
        self.entries(root)
    }

    fn identity_before(&mut self, path: &str, _: u128) -> Result<FileIdentity, PlatformError> {
        Ok(self.identity_of(path))
    }

    fn list_bound_before(
        &mut self,
        root: &str,
        _: FileIdentity,
        _: u128,
    ) -> Result<Vec<ListedEntry>, PlatformError> {
        self.entries(root)
    }

    fn permissions_bound_before(
        &mut self,
        root: &str,
        _: FileIdentity,
        child: &str,
        _: FileIdentity,
        _: u128,
    ) -> Result<FilePermissions, PlatformError> {
        Ok(self.permissions_of(&format!("{root}/{child}")))
    }

    fn read_bound_before(
        &mut self,
        root: &str,
        _: FileIdentity,
        child: &str,
        child_identity: FileIdentity,
        _: u128,
    ) -> Result<String, PlatformError> {
        let path = format!("{root}/{child}");
        assert_eq!(child_identity, self.identity_of(&path));
        self.contents(&path)
    }

    fn write_bound_if_before(
        &mut self,
        root: &str,
        _: FileIdentity,
        endpoints: &Vec<(String, FileIdentity)>,
        guards: &Vec<(String, String)>,
        child: &str,
        contents: &str,
        _: u128,
    ) -> Result<(), PlatformError> {
        assert_eq!(endpoints.len(), 6);
        for (guard, expected) in guards {
            assert_eq!(self.files[&format!("{root}/{guard}")].trim(), expected);
        }
        if self.fail_write == Some(self.writes.len()) {
            return Err(PlatformError {
                kind: PlatformErrorKind::TimedOut,
                detail: "write timed out".to_owned(),
            });
        }
        self.writes.push((child.to_owned(), contents.to_owned()));
        self.files
            .insert(format!("{root}/{child}"), format!("{contents}\n"));
        Ok(())
    }
}

impl ControllerOwnership for Machine {
    fn ownership_id(&mut self) -> u64 {
        self.ownership_id
    }

    fn sampling_epoch(&mut self) -> u64 {
        self.epoch
    }

    fn begin_custom_transition(&mut self) -> u64 {
        self.epoch += 1;
        self.epoch
    }

    fn custom_epoch_is_current(&mut self, ownership_id: u64, custom_epoch: u64) -> bool {
        self.ownership_id == ownership_id && self.epoch == custom_epoch
    }

    fn restore_or_contain_firmware_auto(
        &mut self,
        _: &AcerHwmonDevice,
    ) -> FirmwareAutoSafingOutcome {
        self.restored += 1;
        self.epoch += 1;
        FirmwareAutoSafingOutcome::Restored
    }
}

impl PolicyAuthorityAccess for Machine {
    fn history(&self) -> History<fan_control_core::authority_calls::AuthorityCall> {
        unreachable!()
    }

    fn ownership_id(&mut self) -> u64 {
        self.ownership_id
    }

    fn refresh_firmware_auto_confirmation(&mut self, _: &AcerHwmonDevice) -> bool {
        self.auto_confirmed
    }

    fn read_root_owned_qualification_record(
        &mut self,
        path: &str,
    ) -> Result<Result<QualificationRecordV2, String>, PlatformError> {
        assert_eq!(path, QUALIFICATION_RECORD_PATH);
        self.record.take().map(Ok).ok_or_else(|| missing(path))
    }

    fn verify_root_owned_supervised_endurance_evidence(
        &mut self,
        path: &str,
        sha256: &str,
        envelope: &QualificationEnvelopeIdentityV1,
    ) -> Result<(), PlatformError> {
        assert_eq!(path, SUPERVISED_ENDURANCE_EVIDENCE_PATH);
        assert_eq!(sha256, "e".repeat(64));
        assert_eq!(envelope.protected_policy_sha256, sha256_hex(SOURCE.as_bytes()));
        Ok(())
    }

    fn restore_firmware_auto(&mut self, _: &AcerHwmonDevice) -> Result<(), String> {
        self.restored += 1;
        Ok(())
    }
}

const SOURCE: &str = "schema_version = 2\n";

fn anchors() -> Vec<RpmAnchorEvidence> {
    [(4_000, 2_000), (5_750, 3_000), (7_500, 4_000), (10_000, 5_000)]
        .iter()
        .map(|(duty_basis_points, median_rpm)| RpmAnchorEvidence {
            duty_basis_points: *duty_basis_points,
            median_rpm: *median_rpm,
        })
        .collect()
}

fn tachometer() -> FanTachometerConfig {
    FanTachometerConfig {
        floor_basis_points: 4_000,
        response_deadline_millis: 4_000,
        anchors: anchors(),
    }
}

fn curve(low: i64) -> Vec<CurvePointConfig> {
    vec![
        CurvePointConfig { temperature_c: 50, demand_percent: low },
        CurvePointConfig { temperature_c: 90, demand_percent: 100 },
    ]
}

fn fans(floor: i64) -> FansConfig {
    FansConfig {
        cpu: FanConfig { minimum_duty_percent: floor },
        gpu: FanConfig { minimum_duty_percent: floor },
    }
}

fn profiles(low: i64) -> ProfilesConfig {
    ProfilesConfig {
        ac: ProfileConfig { cpu_curve: curve(low), gpu_curve: curve(low) },
        battery: ProfileConfig { cpu_curve: curve(low), gpu_curve: curve(low) },
    }
}

fn manifest() -> ProtectedPolicyManifestV2 {
    ProtectedPolicyManifestV2 {
        schema_version: 2,
        qualification_id: "pt31553-q1".to_owned(),
        policy_version: "policy-1".to_owned(),
        compatibility: declaration(),
        calibration: TachometerCalibrationConfig { cpu: tachometer(), gpu: tachometer() },
        fans: fans(40),
        profiles: profiles(40),
    }
}

fn record() -> QualificationRecordV2 {
    QualificationRecordV2 {
        schema_version: 2,
        qualification_id: "pt31553-q1".to_owned(),
        policy_version: "policy-1".to_owned(),
        protected_policy_sha256: sha256_hex(SOURCE.as_bytes()),
        compatibility: declaration(),
        supervised_endurance: SupervisedEnduranceAuthorizationV1 {
            schema_version: 1,
            evidence_sha256: "e".repeat(64),
            evidence_path: SUPERVISED_ENDURANCE_EVIDENCE_PATH.to_owned(),
            evidence_schema_version: 2,
            stage: "supervised-endurance".to_owned(),
            record_status: EvidenceRecordStatus::Complete,
            outcome: RunOutcomeStatus::Passed,
            final_firmware_auto_confirmed: true,
            workload_stopped: true,
            service_stopped: true,
            completed_at: EvidenceTimestamp { monotonic_millis: 1, wall_unix_millis: 1 },
        },
    }
}

fn observation() -> CompatibilityObservation {
    let declared = declaration();
    CompatibilityObservation {
        hardware: declared.hardware,
        kernel: declared.kernel,
        module: declared.module,
        secure_boot_enabled: true,
        kernel_image_trusted: true,
        module_signature_trusted: true,
        fan_abi: ObservedFanAbi {
            hwmon_name: "acer".to_owned(),
            endpoints: declared.fan_control.endpoints,
        },
        backend_evidence_completeness: EvidenceCompleteness::Complete,
        backends: vec![FanWriteBackend::AcerHwmon],
        capability_evidence_completeness: EvidenceCompleteness::Complete,
        enabled_capabilities: vec![],
    }
}

fn device(machine: &mut Machine) -> AcerHwmonDevice {
    discover_acer_hwmon(machine, ROOT).unwrap()
}

fn authority(machine: &mut Machine, device: &AcerHwmonDevice) -> AdmittedPolicyAuthority {
    machine.record = Some(record());
    admit_policy_authority(
        machine,
        device,
        SOURCE,
        Ok(manifest()),
        QUALIFICATION_RECORD_PATH,
        &[observation()],
    )
    .unwrap()
}

fn candidate(low: i64) -> ValidatedConfig {
    ValidatedConfig::from_parts(fans(40), profiles(low)).unwrap()
}

fn ready(machine: &Machine) -> ArmingReadySample {
    ArmingReadySample {
        completed_at: machine.now,
        ownership_id: machine.ownership_id,
        sampling_epoch: machine.epoch,
    }
}

fn arm(machine: &mut Machine, low: i64) -> Result<ArmedFanControl, FanArmingError> {
    let device = device(machine);
    let authority = authority(machine, &device);
    let sample = ready(machine);
    arm_both_fans_safely(machine, &device, &authority, &candidate(low), sample)
}

struct Policy {
    outputs: FanOutputs,
    started_at: u128,
    commits: usize,
}

impl ControlPolicy for Policy {
    fn history(&self) -> History<fan_control_core::policy_calls::PolicyCall> {
        unreachable!()
    }

    fn sample(&mut self) -> Result<CompleteSampleSet, String> {
        Ok(CompleteSampleSet {
            cycle_started_at: self.started_at,
            completed_at: self.started_at,
            cpu_temperature_millicelsius: 60_000,
            gpu_temperature_millicelsius: 55_000,
            external_power: ExternalPower::Connected,
        })
    }

    fn propose(
        &mut self,
        _: &ValidatedConfig,
        _: CompleteSampleSet,
    ) -> Result<FanOutputs, String> {
        Ok(self.outputs)
    }

    fn commit(&mut self) {
        self.commits += 1;
    }
}

fn outputs(cpu: u8, gpu: u8) -> FanOutputs {
    FanOutputs { cpu: Pwm::new(cpu), gpu: Pwm::new(gpu) }
}

#[test]
fn discovery_finds_the_one_acer_device() {
    let mut machine = machine();
    let device = device(&mut machine);
    assert_eq!(device.root(), DEVICE);
    assert_eq!(device.cpu().pwm(), "/sys/class/hwmon/hwmon3/pwm1");
    assert_eq!(device.gpu().enable(), "/sys/class/hwmon/hwmon3/pwm2_enable");
    assert_eq!(device.gpu().tachometer(), "/sys/class/hwmon/hwmon3/fan2_input");
    assert_eq!(
        device.endpoint_identity("/sys/class/hwmon/hwmon3/pwm1"),
        Some(machine.identity_of("/sys/class/hwmon/hwmon3/pwm1"))
    );
    assert_eq!(device.endpoint_identity("/etc/passwd"), None);
    assert_eq!(device.abi_is_current_before(&mut machine, u128::MAX), Ok(true));
}

#[test]
fn discovery_refuses_other_layouts() {
    let mut none = machine();
    none.files.insert(format!("{DEVICE}/name"), "nvme\n".to_owned());
    assert_eq!(
        discover_acer_hwmon(&mut none, ROOT).unwrap_err(),
        AcerHwmonDiscoveryError::NoDevice
    );
    let mut two = machine();
    two.files.insert(format!("{ROOT}/hwmon1/name"), "acer\n".to_owned());
    assert_eq!(
        discover_acer_hwmon(&mut two, ROOT).unwrap_err(),
        AcerHwmonDiscoveryError::AmbiguousDevices { count: 2 }
    );
    let mut third = machine();
    third.files.insert(format!("{DEVICE}/pwm3"), "1\n".to_owned());
    assert!(matches!(
        discover_acer_hwmon(&mut third, ROOT),
        Err(AcerHwmonDiscoveryError::InvalidAbi { .. })
    ));
    let entry = ListedEntry {
        path: "/sys/class/hwmon/hwmonx".to_owned(),
        is_direct_child: true,
        name: Some("hwmonx".to_owned()),
    };
    assert!(validate_hwmon_entry(&entry).is_err());
}

#[test]
fn control_needs_exactly_one_device() {
    let identity = FileIdentity { device: 1, inode: 2 };
    let one = (DEVICE.to_owned(), identity);
    assert_eq!(only_device(vec![]), Err(AcerHwmonDiscoveryError::NoDevice));
    assert_eq!(only_device(vec![one.clone()]), Ok(one.clone()));
    assert_eq!(
        only_device(vec![one.clone(), one]),
        Err(AcerHwmonDiscoveryError::AmbiguousDevices { count: 2 })
    );
}

#[test]
fn handover_stages_the_maximum_before_custom_control() {
    let mut machine = machine();
    let armed = arm(&mut machine, 45).unwrap();
    assert_eq!(
        machine.writes,
        [
            ("pwm1".to_owned(), "255".to_owned()),
            ("pwm2".to_owned(), "255".to_owned()),
            ("pwm1_enable".to_owned(), "1".to_owned()),
            ("pwm2_enable".to_owned(), "1".to_owned()),
        ]
    );
    assert_eq!((armed.cpu_rpm(), armed.gpu_rpm()), (5_000, 5_000));
    assert_eq!(machine.restored, 0);
    assert!(armed.is_current_for(&mut machine));
    machine.epoch += 1;
    assert!(!armed.is_current_for(&mut machine));
}

#[test]
fn handover_needs_a_candidate_within_the_envelope() {
    let mut machine = machine();
    let error = arm(&mut machine, 39).err().unwrap();
    assert!(matches!(error.reason(), FanArmingFailure::Policy(_)));
    assert!(machine.writes.is_empty());
    assert_eq!(machine.restored, 1);
    assert_eq!(
        error.message(),
        "fan arming rejected: candidate policy: ac.cpu curve is below its protected envelope at 50 \u{b0}C"
    );
}

#[test]
fn handover_refuses_foreign_and_old_samples() {
    let mut machine = machine();
    let device = device(&mut machine);
    let authority = authority(&mut machine, &device);
    let config = candidate(45);
    let mut sample = ready(&machine);
    sample.ownership_id = 8;
    let error =
        arm_both_fans_safely(&mut machine, &device, &authority, &config, sample).err().unwrap();
    assert_eq!(error, FanArmingError::Rejected(FanArmingFailure::ForeignOwnershipSample));
    let mut sample = ready(&machine);
    sample.sampling_epoch = 99;
    let error =
        arm_both_fans_safely(&mut machine, &device, &authority, &config, sample).err().unwrap();
    assert_eq!(error, FanArmingError::Rejected(FanArmingFailure::ObsoleteSampleEpoch));
    machine.ownership_id = 9;
    let sample = ready(&machine);
    let error =
        arm_both_fans_safely(&mut machine, &device, &authority, &config, sample).err().unwrap();
    assert_eq!(error, FanArmingError::Rejected(FanArmingFailure::ForeignOwnershipAuthority));
    assert!(machine.writes.is_empty());
    assert_eq!(machine.restored, 3);
}

#[test]
fn samples_expire_after_one_cadence() {
    assert_eq!(admit_sample(5 * SECOND, 3 * SECOND), Ok(7 * SECOND));
    assert_eq!(
        admit_sample(5 * SECOND, 3 * SECOND - 1),
        Err(FanArmingFailure::StaleSample)
    );
    assert_eq!(
        admit_sample(5 * SECOND, 5 * SECOND + 1),
        Err(FanArmingFailure::SampleFromFuture)
    );
    assert_eq!(
        admit_sample(u128::MAX, u128::MAX),
        Err(FanArmingFailure::DeadlineOverflow)
    );
}

#[test]
fn handover_fails_where_fans_do_not_turn() {
    let mut machine = machine();
    machine.stuck_rpm = true;
    let error = arm(&mut machine, 45).err().unwrap();
    assert_eq!(
        error.message(),
        "fan arming rejected: fan tachometer response timed out (CPU: None, GPU: None)"
    );
    assert_eq!(machine.now, 110 * SECOND);
    assert_eq!(machine.restored, 1);
}

#[test]
fn handover_reports_unexpected_readbacks_quoted() {
    let mut machine = machine();
    machine.files.insert(format!("{DEVICE}/pwm2_enable"), "1\n".to_owned());
    let error = arm(&mut machine, 45).err().unwrap();
    assert_eq!(
        error.message(),
        "fan arming rejected: GPU fan Firmware Auto confirmation mode readback expected 2, got \"1\\n\""
    );
    assert!(machine.writes.is_empty());
}

#[test]
fn handover_reports_failed_writes() {
    let mut machine = machine();
    machine.fail_write = Some(3);
    let error = arm(&mut machine, 45).err().unwrap();
    assert_eq!(
        error.message(),
        "fan arming rejected: GPU fan Custom-mode write failed: write timed out"
    );
    assert_eq!(machine.restored, 1);
}

#[test]
fn safing_outcomes_shape_the_error() {
    let error = fan_control_core::arming::reject_arming(
        FanArmingFailure::DeviceChanged,
        FirmwareAutoSafingOutcome::Critical {
            restoration: "r".to_owned(),
            containment: "c".to_owned(),
        },
    );
    assert_eq!(
        error.message(),
        "fan arming rejected (fan device identity changed during arming); Firmware Auto restoration failed: r; emergency containment: c"
    );
    let error = fan_control_core::arming::reject_arming(
        FanArmingFailure::DeviceChanged,
        FirmwareAutoSafingOutcome::Contained {
            restoration: "r".to_owned(),
            containment: "c".to_owned(),
        },
    );
    assert_eq!(
        error.message(),
        "fan arming rejected (fan device identity changed during arming); initial Firmware Auto restoration failed (r), then containment recovered: c"
    );
}

#[test]
fn control_cycle_writes_only_changed_duties() {
    let mut machine = machine();
    let armed = arm(&mut machine, 45).unwrap();
    let mut control = HealthyControl::from_armed(armed);
    assert_eq!(control.last_outputs(), FanOutputs::maximum());
    machine.writes.clear();
    let mut policy = Policy { outputs: outputs(128, 255), started_at: machine.now, commits: 0 };
    let cycle = run_healthy_control_cycle(&mut machine, &mut control, &mut policy).unwrap();
    assert_eq!(cycle.outputs(), outputs(128, 255));
    assert_eq!(cycle.sample().cpu_temperature_millicelsius, 60_000);
    assert_eq!(machine.writes, [("pwm1".to_owned(), "128".to_owned())]);
    assert_eq!(policy.commits, 1);
    assert_eq!(control.last_outputs(), outputs(128, 255));
    assert!(control.is_current_for(&mut machine));
}

#[test]
fn control_cycle_failure_is_final() {
    let mut machine = machine();
    let armed = arm(&mut machine, 45).unwrap();
    let mut control = HealthyControl::from_armed(armed);
    machine.files.insert(format!("{DEVICE}/pwm1"), "7\n".to_owned());
    let mut policy = Policy { outputs: outputs(255, 255), started_at: machine.now, commits: 0 };
    let error = run_healthy_control_cycle(&mut machine, &mut control, &mut policy).unwrap_err();
    assert_eq!(
        error.message(),
        "CPU fan prior-duty confirmation duty expected \"255\", got \"7\\n\""
    );
    assert_eq!(policy.commits, 0);
    assert!(!control.is_current_for(&mut machine));
    let error = run_healthy_control_cycle(&mut machine, &mut control, &mut policy).unwrap_err();
    assert_eq!(error, HealthyControlCycleError::Invalidated);
}

#[test]
fn control_cycle_checks_its_epoch_and_deadlines() {
    let mut machine = machine();
    let armed = arm(&mut machine, 45).unwrap();
    let mut control = HealthyControl::from_armed(armed);
    machine.epoch += 1;
    let mut policy = Policy { outputs: outputs(128, 128), started_at: machine.now, commits: 0 };
    assert_eq!(
        run_healthy_control_cycle(&mut machine, &mut control, &mut policy).unwrap_err(),
        HealthyControlCycleError::StaleArmingReceipt
    );

    let mut machine = self::machine();
    let armed = arm(&mut machine, 45).unwrap();
    let mut control = HealthyControl::from_armed(armed);
    policy.started_at = u128::MAX;
    assert_eq!(
        run_healthy_control_cycle(&mut machine, &mut control, &mut policy).unwrap_err(),
        HealthyControlCycleError::DeadlineOverflow
    );

    let mut machine = self::machine();
    let armed = arm(&mut machine, 45).unwrap();
    let mut control = HealthyControl::from_armed(armed);
    policy.started_at = machine.now;
    machine.fail_write = Some(machine.writes.len());
    assert_eq!(
        run_healthy_control_cycle(&mut machine, &mut control, &mut policy).unwrap_err(),
        HealthyControlCycleError::DeadlineExceeded
    );
}

#[test]
fn control_cycle_supervises_settled_speeds() {
    let mut machine = machine();
    let armed = arm(&mut machine, 45).unwrap();
    let mut control = HealthyControl::from_armed(armed);
    machine.slow_rpm = true;
    let mut policy = Policy { outputs: outputs(255, 255), started_at: machine.now, commits: 0 };
    assert!(run_healthy_control_cycle(&mut machine, &mut control, &mut policy).is_ok());
    machine.now += 5 * SECOND;
    policy.started_at = machine.now;
    let error = run_healthy_control_cycle(&mut machine, &mut control, &mut policy).unwrap_err();
    assert_eq!(
        error,
        HealthyControlCycleError::TachometerOutOfBand {
            fan: Fan::Cpu,
            expected_rpm: 5_000,
            actual_rpm: 2_500,
        }
    );
    assert_eq!(
        error.message(),
        "CPU fan tachometer settled outside its qualified \u{b1}30% band (expected 5000 RPM, got 2500 RPM)"
    );
}

#[test]
fn restoration_ends_a_receipt_and_its_control() {
    let mut machine = machine();
    let armed = arm(&mut machine, 45).unwrap();
    let device = device(&mut machine);
    assert!(armed.is_current_for(&mut machine));
    machine.restore_or_contain_firmware_auto(&device);
    assert!(!armed.is_current_for(&mut machine));
    let mut control = HealthyControl::from_armed(armed);
    assert!(!control.is_current_for(&mut machine));
    machine.writes.clear();
    let mut policy = Policy { outputs: outputs(128, 128), started_at: machine.now, commits: 0 };
    assert_eq!(
        run_healthy_control_cycle(&mut machine, &mut control, &mut policy).unwrap_err(),
        HealthyControlCycleError::StaleArmingReceipt
    );
    assert!(machine.writes.is_empty());
}

#[test]
fn control_is_current_exactly_where_its_receipt_was() {
    let mut machine = machine();
    let armed = arm(&mut machine, 45).unwrap();
    let control = HealthyControl::from_armed(armed);
    assert_eq!(control.last_outputs(), outputs(255, 255));
    assert!(control.is_current_for(&mut machine));
    machine.ownership_id += 1;
    assert!(!control.is_current_for(&mut machine));
    machine.ownership_id -= 1;
    assert!(control.is_current_for(&mut machine));
    machine.epoch += 1;
    assert!(!control.is_current_for(&mut machine));
}

#[test]
fn expired_sample_is_refused_after_one_restoration() {
    let mut machine = machine();
    let device = device(&mut machine);
    let authority = authority(&mut machine, &device);
    let mut sample = ready(&machine);
    sample.completed_at = machine.now - 2 * SECOND - 1;
    let error = arm_both_fans_safely(&mut machine, &device, &authority, &candidate(45), sample)
        .err()
        .unwrap();
    assert_eq!(error, FanArmingError::Rejected(FanArmingFailure::StaleSample));
    assert!(machine.writes.is_empty());
    assert_eq!(machine.restored, 1);
}

#[test]
fn a_changed_duty_starts_its_response_time_anew() {
    let mut machine = machine();
    let armed = arm(&mut machine, 45).unwrap();
    let mut control = HealthyControl::from_armed(armed);
    machine.slow_rpm = true;
    machine.now += 5 * SECOND;
    let mut policy = Policy { outputs: outputs(128, 128), started_at: machine.now, commits: 0 };
    assert!(run_healthy_control_cycle(&mut machine, &mut control, &mut policy).is_ok());
    machine.now += 4 * SECOND;
    policy.started_at = machine.now;
    assert!(run_healthy_control_cycle(&mut machine, &mut control, &mut policy).is_ok());
    machine.now += 1;
    policy.started_at = machine.now;
    policy.outputs = outputs(255, 128);
    assert!(matches!(
        run_healthy_control_cycle(&mut machine, &mut control, &mut policy).unwrap_err(),
        HealthyControlCycleError::TachometerOutOfBand { fan: Fan::Gpu, .. }
    ));
    assert_eq!(policy.commits, 2);
}

#[test]
fn a_cycle_that_finds_another_mode_writes_nothing() {
    let mut machine = machine();
    let armed = arm(&mut machine, 45).unwrap();
    let mut control = HealthyControl::from_armed(armed);
    machine.files.insert(format!("{DEVICE}/pwm2_enable"), "2\n".to_owned());
    machine.writes.clear();
    let mut policy = Policy { outputs: outputs(128, 128), started_at: machine.now, commits: 0 };
    assert!(matches!(
        run_healthy_control_cycle(&mut machine, &mut control, &mut policy).unwrap_err(),
        HealthyControlCycleError::UnexpectedReadback {
            fan: Fan::Gpu,
            field: ControlCycleReadback::Mode,
            operation: ControlCycleOperation::ConfirmBeforeOutput,
            ..
        }
    ));
    assert!(machine.writes.is_empty());
    assert_eq!(policy.commits, 0);
    assert_eq!(control.last_outputs(), outputs(255, 255));
}

#[test]
fn authority_is_bound_to_its_policy_and_ownership() {
    let mut machine = machine();
    let device = device(&mut machine);
    let authority = authority(&mut machine, &device);
    assert_eq!(authority.qualification_id(), "pt31553-q1");
    assert_eq!(authority.policy_version(), "policy-1");
    assert_eq!(authority.protected_policy_sha256(), sha256_hex(SOURCE.as_bytes()));
    assert!(authority.belongs_to_ownership(7));
    assert!(!authority.belongs_to_ownership(8));
    assert!(authority.validate_candidate(&candidate(40)).is_ok());
    assert!(authority.validate_candidate(&candidate(39)).is_err());
}

fn refused(
    machine: &mut Machine,
    source: &str,
    manifest: Result<ProtectedPolicyManifestV2, String>,
    observations: &[CompatibilityObservation],
) -> String {
    let device = device(machine);
    let before = machine.restored;
    let error = admit_policy_authority(
        machine,
        &device,
        source,
        manifest,
        QUALIFICATION_RECORD_PATH,
        observations,
    )
    .unwrap_err();
    assert_eq!(machine.restored, before + 1);
    error.message()
}

#[test]
fn authority_is_refused_for_each_defect() {
    let mut machine = machine();
    machine.auto_confirmed = false;
    assert_eq!(
        refused(&mut machine, SOURCE, Ok(manifest()), &[observation()]),
        "authority rejected: Firmware Auto was not confirmed before policy admission"
    );
    machine.auto_confirmed = true;
    assert_eq!(
        refused(&mut machine, SOURCE, Ok(manifest()), &[observation()]),
        format!("authority rejected: qualification record provenance: {QUALIFICATION_RECORD_PATH} is missing")
    );
    machine.record = Some(record());
    assert_eq!(
        refused(&mut machine, SOURCE, Err("bad toml".to_owned()), &[observation()]),
        "authority rejected: protected policy: bad toml"
    );
    machine.record = Some(record());
    assert_eq!(
        refused(&mut machine, "other source", Ok(manifest()), &[observation()]),
        "authority rejected: authority mismatch at protected_policy_sha256"
    );
    machine.record = Some(record());
    let mut other = manifest();
    other.policy_version = "policy-2".to_owned();
    assert_eq!(
        refused(&mut machine, SOURCE, Ok(other), &[observation()]),
        "authority rejected: authority mismatch at policy_version"
    );
    machine.record = Some(record());
    assert_eq!(
        refused(&mut machine, SOURCE, Ok(manifest()), &[]),
        "authority rejected: current compatibility: compatibility observation is missing"
    );
    machine.record = Some(record());
    let mut other = manifest();
    other.calibration.cpu.response_deadline_millis = 2_999;
    assert!(refused(&mut machine, SOURCE, Ok(other), &[observation()])
        .starts_with("authority rejected: invalid tachometer calibration: "));
    machine.record = Some(record());
    let mut other = manifest();
    other.fans.cpu.minimum_duty_percent = 101;
    assert!(refused(&mut machine, SOURCE, Ok(other), &[observation()])
        .starts_with("authority rejected: invalid protected policy: "));
    let mut other = manifest();
    other.schema_version = 1;
    assert!(matches!(
        validate_manifest_identity(&other),
        Err(PolicyAuthorityError::InvalidIdentity { field: "schema_version", .. })
    ));
}

#[test]
fn requalification_reads_a_policy_without_its_record() {
    let snapshot = requalification_policy_snapshot(SOURCE, Ok(manifest())).unwrap();
    assert_eq!(snapshot.qualification_id, "pt31553-q1");
    assert_eq!(snapshot.protected_policy_sha256, sha256_hex(SOURCE.as_bytes()));
    assert!(requalification_policy_snapshot(SOURCE, Err("no".to_owned())).is_err());
    let rejected = fan_control_core::authority::reject_authority(
        PolicyAuthorityError::FirmwareAutoUnconfirmed,
        Err("stuck".to_owned()),
    );
    assert!(matches!(
        rejected,
        PolicyAuthorityAdmissionError::RestorationFailed { .. }
    ));
}

#[test]
fn fingerprints_are_sha256_in_hexadecimal() {
    assert_eq!(
        sha256_hex(b"abc"),
        "ba7816bf8f01cfea414140de5dae2223b00361a396177a9cb410ff61f20015ad"
    );
    assert_eq!(
        sha256_hex(b""),
        "e3b0c44298fc1c149afbf4c8996fb92427ae41e4649b934ca495991b7852b855"
    );
}

#[test]
fn declarations_must_name_the_qualified_machine() {
    assert!(validate_declaration(&declaration()).is_ok());
    let mut other = declaration();
    other.hardware.bios_version = "V1.18".to_owned();
    assert!(matches!(
        validate_declaration(&other),
        Err(CompatibilityDeclarationError::Unsafe { field: "hardware.bios_version", .. })
    ));
    let mut other = declaration();
    other.fan_control.endpoints.pop();
    assert!(matches!(
        validate_declaration(&other),
        Err(CompatibilityDeclarationError::Unsafe { field: "fan_control.endpoints", .. })
    ));
    assert!(supported_kernel_release("6.19.2-cachyos-pt31553"));
    assert!(supported_kernel_release("7.0-cachyos-pt31553"));
    assert!(!supported_kernel_release("6.18.9-cachyos-pt31553"));
    assert!(!supported_kernel_release("6.19.2"));
}

#[test]
fn compatibility_needs_exactly_one_matching_observation() {
    let declared = declaration();
    assert!(admit_compatibility(&declared, &[observation()]).is_ok());
    assert_eq!(
        admit_compatibility(&declared, &[observation(), observation()]).unwrap_err(),
        CompatibilityAdmissionError::AmbiguousObservations { count: 2 }
    );
    let mut other = observation();
    other.secure_boot_enabled = false;
    assert!(matches!(
        admit_compatibility(&declared, &[other]),
        Err(CompatibilityAdmissionError::Untrusted { .. })
    ));
    let mut other = observation();
    other.enabled_capabilities = vec![EscapeHatchCapability::RawEc];
    assert_eq!(
        admit_compatibility(&declared, &[other]).unwrap_err(),
        CompatibilityAdmissionError::ForbiddenCapability { capability: EscapeHatchCapability::RawEc }
    );
    let mut other = observation();
    other.backends = vec![];
    assert_eq!(
        admit_compatibility(&declared, &[other]).unwrap_err(),
        CompatibilityAdmissionError::MissingBackend
    );
    let mut other = observation();
    other.kernel.release = "6.20.0-cachyos-pt31553".to_owned();
    assert!(matches!(
        admit_compatibility(&declared, &[other]),
        Err(CompatibilityAdmissionError::Mismatch { .. })
    ));
}

#[test]
fn messages_take_quoted_contents() {
    assert_eq!(
        malformed_tachometer_message(Fan::Gpu, "\"x\""),
        "GPU fan tachometer readback is malformed: \"x\""
    );
    assert_eq!(
        unexpected_readback_message(
            Fan::Cpu,
            FanArmingOperation::ReadDuty,
            FanArmingReadback::Duty,
            "255",
            "\"7\"",
        ),
        "CPU fan duty read duty readback expected 255, got \"7\""
    );
    assert_eq!(
        control_readback_message(
            Fan::Gpu,
            ControlCycleOperation::ConfirmResult,
            ControlCycleReadback::Mode,
            "\"1\"",
            "\"2\"",
        ),
        "GPU fan result confirmation mode expected \"1\", got \"2\""
    );
    let malformed = HealthyControlCycleError::MalformedTachometer {
        fan: Fan::Cpu,
        actual: "a\tb".to_owned(),
    };
    assert_eq!(
        malformed.message(),
        "CPU fan tachometer readback is malformed: \"a\\tb\""
    );
}

#[test]
fn tachometers_tell_plausible_speeds() {
    assert_eq!(parse_tachometer_contents("0\n"), Some(None));
    assert_eq!(parse_tachometer_contents("300\n"), Some(Some(300)));
    assert_eq!(parse_tachometer_contents("299\n"), None);
    assert_eq!(parse_tachometer_contents("+300\n"), None);
    assert_eq!(parse_tachometer_contents("\n"), None);
}

#[test]
fn fingerprints_bind_policies_to_their_records() {
    let mut bound = record();
    bound.protected_policy_sha256 = "f".repeat(64);
    assert!(validate_binding(&"f".repeat(64), &manifest(), &bound, &[observation()]).is_ok());
    assert!(matches!(
        validate_binding(&"e".repeat(64), &manifest(), &bound, &[observation()]),
        Err(PolicyAuthorityError::Mismatch { field: "protected_policy_sha256" })
    ));
    let authority = validate_fingerprinted_authority(
        "f".repeat(64),
        Ok(manifest()),
        Ok(bound),
        &[observation()],
    )
    .unwrap();
    assert_eq!(authority.protected_policy_sha256, "f".repeat(64));
    assert_eq!(authority.endurance_evidence_sha256, "e".repeat(64));
}
