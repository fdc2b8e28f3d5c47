use fan_control_core::calibration::{
    calibration_level_is_settled, CalibrationLevelObservation, CalibrationObservationError,
    CalibrationReadbackSample, CalibrationStep, FanHoldObservation,
};
use fan_control_core::calibration_build::{
    build_fan_calibration_record, CalibrationEvidenceWriteError, CompletedFanCalibrationRun,
};
use fan_control_core::calibration_record::fan_calibration_is_complete;
use fan_control_core::calibration_session::ConservativeFanCalibration;
use fan_control_core::compatibility::{
    CompatibilityDeclarationV1, EscapeHatchCapability, FanControlDeclaration, FanWriteBackend,
    HardwareIdentity, KernelIdentity, ModuleIdentity, ModuleProvenance, SecureBootRequirements,
};
use fan_control_core::evidence::{
    EvidenceRecord, EvidenceTimestamp, EvidenceValidationError, FanEndpointIdentitiesEvidence,
    QualificationEnvelopeIdentityV1, RunOutcomeEvidence, RunOutcomeStatus,
};
use fan_control_core::evidence_rules::calibration_replay_matches;
use fan_control_core::publication::accept_evidence;
use fan_control_core::tachometer::{expected_rpm_from_anchors, rpm_in_band, rpm_is_plausible, Fan};
use fan_control_core::thermal::flat_slopes;

fn declaration() -> CompatibilityDeclarationV1 {
    CompatibilityDeclarationV1 {
        schema_version: 1,
        hardware: HardwareIdentity {
            dmi_product_name: "Predator PT315-53".to_owned(),
            dmi_board_name: "Civic_TLS".to_owned(),
            bios_version: "V1.17".to_owned(),
        },
        kernel: KernelIdentity {
            release: "6.19.2-cachyos-pt31553".to_owned(),
            package: "linux-cachyos-pt31553".to_owned(),
            source_commit: "c".repeat(40),
            image_sha256: "1".repeat(64),
            image_signer_fingerprint: "2".repeat(64),
        },
        module: ModuleIdentity {
            name: "acer_wmi".to_owned(),
            path: "/usr/lib/modules/6.19.2-cachyos-pt31553/kernel/drivers/platform/x86/acer-wmi.ko.zst"
                .to_owned(),
            sha256: "3".repeat(64),
            signer_fingerprint: "4".repeat(64),
            vermagic: "6.19.2-cachyos-pt31553 SMP preempt mod_unload".to_owned(),
            provenance: ModuleProvenance::InTree,
        },
        secure_boot: SecureBootRequirements { required: true },
        fan_control: FanControlDeclaration {
            backend: FanWriteBackend::AcerHwmon,
            hwmon_name: "acer".to_owned(),
            endpoints: ["pwm1", "pwm1_enable", "fan1_input", "pwm2", "pwm2_enable", "fan2_input"]
                .iter()
                .map(|name| name.to_string())
                .collect(),
            forbidden_capabilities: vec![
                EscapeHatchCapability::ForceCaps,
                EscapeHatchCapability::EcRawMode,
                EscapeHatchCapability::PredatorV4Override,
                EscapeHatchCapability::DirectWmi,
                EscapeHatchCapability::RawEc,
                EscapeHatchCapability::ReplacementWmiModule,
                EscapeHatchCapability::AlternateFanWriteBackend,
            ],
        },
    }
}

fn envelope() -> QualificationEnvelopeIdentityV1 {
    QualificationEnvelopeIdentityV1 {
        qualification_record_schema_version: 1,
        qualification_id: "pt31553-q1".to_owned(),
        policy_version: "policy-1".to_owned(),
        protected_policy_sha256: "a".repeat(64),
        compatibility: declaration(),
    }
}

fn at(monotonic_millis: u64) -> EvidenceTimestamp {
    EvidenceTimestamp {
        monotonic_millis,
        wall_unix_millis: monotonic_millis as i64,
    }
}

fn rpm_of(pwm: u8) -> u32 {
    500 + pwm as u32 * 16
}

fn sample(monotonic_millis: u64, pwm: u8) -> CalibrationReadbackSample {
    CalibrationReadbackSample {
        monotonic_millis,
        selected_enable_readback: 1,
        selected_pwm_readback: pwm,
        other_enable_readback: 1,
        other_pwm_readback: 255,
        selected_rpm: Some(rpm_of(pwm)),
    }
}

fn level(now: u64, pwm: u8) -> CalibrationLevelObservation {
    CalibrationLevelObservation {
        commanded_at_monotonic_millis: now,
        samples: (0..4).map(|i| sample(now + i * 1_000, pwm)).collect(),
        stall_observed: false,
        unexplained_rpm_collapse_observed: false,
    }
}

fn advance(session: &mut ConservativeFanCalibration, now: &mut u64) {
    match session.next_step() {
        CalibrationStep::HoldFloor { pwm_value, .. } => {
            let samples: Vec<_> = (0..451).map(|i| sample(*now + i * 2_000, pwm_value)).collect();
            *now = samples.last().unwrap().monotonic_millis + 1_000;
            session
                .record_hold(FanHoldObservation {
                    samples,
                    stall_observed: false,
                    unexplained_rpm_collapse_observed: false,
                })
                .unwrap();
        }
        step => {
            let pwm = step.pwm_value().unwrap();
            session.record_level(level(*now, pwm)).unwrap();
            *now += 4_000;
        }
    }
}

fn complete(fan: Fan) -> ConservativeFanCalibration {
    let mut session = ConservativeFanCalibration::start(fan);
    let mut now = 10_000;
    while session.next_step() != CalibrationStep::Complete {
        advance(&mut session, &mut now);
    }
    session
}

fn identities() -> FanEndpointIdentitiesEvidence {
    FanEndpointIdentitiesEvidence {
        cpu_pwm: "1:1".to_owned(),
        cpu_enable: "1:2".to_owned(),
        cpu_tachometer: "1:3".to_owned(),
        gpu_pwm: "1:4".to_owned(),
        gpu_enable: "1:5".to_owned(),
        gpu_tachometer: "1:6".to_owned(),
    }
}

#[test]
fn conservative_calibration_completes() {
    let session = complete(Fan::Cpu);
    assert_eq!(session.lowest_stable_basis_points(), Some(3_000));
    assert_eq!(session.floor_basis_points(), Some(4_000));
    let evidence = session.evidence().unwrap();
    assert_eq!(evidence.slowest_response_millis, Some(3_000));
    assert_eq!(
        evidence
            .anchors
            .iter()
            .map(|anchor| anchor.duty_basis_points)
            .collect::<Vec<_>>(),
        [4_000, 5_750, 7_500, 10_000]
    );
    assert_eq!(evidence.anchors[3].median_rpm, rpm_of(255));
    assert!(calibration_replay_matches(evidence));
}

#[test]
fn first_steps_descend_from_the_maximum() {
    let mut session = ConservativeFanCalibration::start(Fan::Gpu);
    let mut now = 1_000;
    let mut duties = Vec::new();
    for _ in 0..5 {
        duties.push(session.next_step().duty_basis_points().unwrap());
        advance(&mut session, &mut now);
    }
    assert_eq!(duties, [10_000, 6_000, 5_000, 4_000, 3_000]);
    assert_eq!(
        session.next_step(),
        CalibrationStep::TransitionToMaximum {
            attempt: 1,
            pwm_value: 255
        }
    );
}

#[test]
fn resumed_sessions_revalidate_at_the_maximum() {
    let mut session = ConservativeFanCalibration::start(Fan::Gpu);
    let mut now = 1_000;
    for _ in 0..7 {
        advance(&mut session, &mut now);
    }
    let expected = session.next_step();
    assert_eq!(session.clone(), session);
    let mut resumed = ConservativeFanCalibration::resume(Fan::Gpu, session.checkpoint()).unwrap();
    assert_eq!(
        resumed.next_step(),
        CalibrationStep::RevalidateBothAtMaximum { pwm_value: 255 }
    );
    resumed.record_level(level(now + 60_000, 255)).unwrap();
    assert_eq!(resumed.next_step(), expected);
    assert!(ConservativeFanCalibration::resume(Fan::Cpu, session.checkpoint()).is_err());
    let mut tampered = session.checkpoint();
    tampered.schema_version = 2;
    assert!(ConservativeFanCalibration::resume(Fan::Gpu, tampered).is_err());
}

#[test]
fn unstable_sweep_levels_set_a_higher_floor() {
    let mut session = ConservativeFanCalibration::start(Fan::Cpu);
    let mut now = 1_000;
    for _ in 0..3 {
        advance(&mut session, &mut now);
    }
    let pwm = session.next_step().pwm_value().unwrap();
    let mut stalled = level(now, pwm);
    stalled.stall_observed = true;
    session.record_level(stalled).unwrap();
    assert_eq!(session.floor_basis_points(), Some(6_000));
    assert_eq!(session.lowest_stable_basis_points(), Some(5_000));
}

#[test]
fn floors_need_a_stable_level_below_the_maximum() {
    let mut session = ConservativeFanCalibration::start(Fan::Cpu);
    let mut now = 1_000;
    advance(&mut session, &mut now);
    assert_eq!(session.floor_basis_points(), None);
    let pwm = session.next_step().pwm_value().unwrap();
    let mut stalled = level(now, pwm);
    stalled.stall_observed = true;
    assert_eq!(
        session.record_level(stalled),
        Err(CalibrationObservationError::ConservativeMarginUnavailable)
    );
    assert_eq!(session.floor_basis_points(), None);
    assert_eq!(session.next_step(), CalibrationStep::Failed);
}

#[test]
fn refused_observations_fail_the_session() {
    let cases: Vec<(CalibrationObservationError, fn(&mut CalibrationLevelObservation))> = vec![
        (CalibrationObservationError::OtherFanNotAtMaximum, |level| {
            level.samples[1].other_pwm_readback = 254
        }),
        (CalibrationObservationError::SelectedFanReadbackMismatch, |level| {
            level.samples[1].selected_pwm_readback = 3
        }),
        (CalibrationObservationError::InvalidRpm, |level| {
            level.samples[1].selected_rpm = Some(10_001)
        }),
        (CalibrationObservationError::UnexpectedStep, |level| {
            level.commanded_at_monotonic_millis += 1
        }),
        (CalibrationObservationError::InconclusiveObservation, |level| {
            level.samples.truncate(1)
        }),
    ];
    for (expected, spoil) in cases {
        let mut session = ConservativeFanCalibration::start(Fan::Cpu);
        let mut observation = level(1_000, 255);
        spoil(&mut observation);
        assert_eq!(session.record_level(observation), Err(expected));
        assert_eq!(session.next_step(), CalibrationStep::Failed);
        assert_eq!(
            session.record_level(level(10_000, 255)),
            Err(CalibrationObservationError::StageAlreadyFailed)
        );
    }
    let mut session = ConservativeFanCalibration::start(Fan::Cpu);
    assert_eq!(
        session.record_hold(FanHoldObservation {
            samples: vec![sample(1_000, 255)],
            stall_observed: false,
            unexplained_rpm_collapse_observed: false,
        }),
        Err(CalibrationObservationError::UnexpectedStep)
    );
    let mut session = ConservativeFanCalibration::start(Fan::Cpu);
    let mut stalled = level(1_000, 255);
    stalled.stall_observed = true;
    assert_eq!(
        session.record_level(stalled),
        Err(CalibrationObservationError::ConservativeMarginUnavailable)
    );
}

#[test]
fn settled_levels_need_a_steady_window() {
    assert_eq!(calibration_level_is_settled(&level(0, 255)), Ok(true));
    let mut unsteady = level(0, 255);
    for (index, sample) in unsteady.samples.iter_mut().enumerate() {
        sample.selected_rpm = Some(1_000 + 1_000 * index as u32);
    }
    assert_eq!(calibration_level_is_settled(&unsteady), Ok(false));
}

fn run() -> CompletedFanCalibrationRun {
    let session = complete(Fan::Gpu);
    CompletedFanCalibrationRun {
        qualification_envelope: envelope(),
        calibration: session.evidence().unwrap().clone(),
        endpoint_identities: identities(),
        started_at: at(9_000),
        restoration_attempted_at: at(2_000_000),
        restoration_confirmed_at: at(2_000_500),
        completed_at: at(2_001_000),
    }
}

#[test]
fn completed_calibrations_make_valid_records() {
    let record = build_fan_calibration_record(run()).unwrap();
    assert!(fan_calibration_is_complete(&record));
    assert_eq!(record.stage, "fan-calibration");
    assert_eq!(record.calibration.len(), 1);
    assert!(accept_evidence(&record, flat_slopes(), 2).is_ok());
    assert!(accept_evidence(&record, flat_slopes(), 1).is_err());

    let mut bare = run();
    bare.calibration.protocol_checkpoint = None;
    assert_eq!(
        build_fan_calibration_record(bare).unwrap_err(),
        EvidenceValidationError::InvalidValue {
            field: "calibration.protocol_checkpoint",
            index: 0
        }
    );
    let mut backwards = run();
    backwards.completed_at = at(1);
    assert!(build_fan_calibration_record(backwards).is_err());
}

fn empty_record(status: RunOutcomeStatus) -> EvidenceRecord {
    EvidenceRecord::complete_v2(
        envelope(),
        "fan-calibration",
        at(9_000),
        at(2_001_000),
        RunOutcomeEvidence {
            status,
            reason: "calibrated".to_owned(),
            another_passing_run_required: false,
            final_firmware_auto_confirmed: true,
        },
    )
}

#[test]
fn only_completed_passing_calibrations_are_prepared_for_publication() {
    let fresh = ConservativeFanCalibration::start(Fan::Gpu);
    let session = complete(Fan::Gpu);
    assert!(matches!(
        fresh.prepare_evidence(empty_record(RunOutcomeStatus::Passed), flat_slopes()),
        Err(CalibrationEvidenceWriteError::IncompleteCalibration)
    ));
    assert!(matches!(
        session.prepare_evidence(empty_record(RunOutcomeStatus::Failed), flat_slopes()),
        Err(CalibrationEvidenceWriteError::UnsuccessfulEvidenceOutcome)
    ));
    let mut old = empty_record(RunOutcomeStatus::Passed);
    old.schema_version = 1;
    assert!(matches!(
        session.prepare_evidence(old, flat_slopes()),
        Err(CalibrationEvidenceWriteError::UnsupportedEvidenceVersion)
    ));
    let twice = build_fan_calibration_record(run()).unwrap();
    assert!(matches!(
        session.prepare_evidence(twice, flat_slopes()),
        Err(CalibrationEvidenceWriteError::RecordAlreadyContainsCalibration)
    ));
    let mut once = build_fan_calibration_record(run()).unwrap();
    once.calibration.clear();
    let prepared = session.prepare_evidence(once, flat_slopes()).unwrap();
    assert!(fan_calibration_is_complete(&prepared));
    assert!(matches!(
        session.prepare_evidence(empty_record(RunOutcomeStatus::Passed), flat_slopes()),
        Err(CalibrationEvidenceWriteError::InvalidRecord(_))
    ));
}

#[test]
fn expected_speeds_interpolate_between_anchors() {
    let session = complete(Fan::Cpu);
    let anchors = &session.evidence().unwrap().anchors;
    assert_eq!(expected_rpm_from_anchors(anchors, 255), Some(rpm_of(255)));
    assert_eq!(expected_rpm_from_anchors(anchors, 102), Some(rpm_of(102)));
    assert_eq!(expected_rpm_from_anchors(anchors, 101), None);
    assert_eq!(expected_rpm_from_anchors(anchors, 200), Some(rpm_of(200)));
    assert!(rpm_in_band(700, 1_000));
    assert!(rpm_in_band(1_300, 1_000));
    assert!(!rpm_in_band(699, 1_000));
    assert!(!rpm_in_band(1_301, 1_000));
    assert!(rpm_is_plausible(300));
    assert!(!rpm_is_plausible(299));
    assert!(rpm_is_plausible(10_000));
}
