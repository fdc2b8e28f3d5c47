//! Building and preparing the evidence of one completed fan calibration.

use vstd::prelude::*;
use vstd::string::*;
use crate::calibration::{CalibrationReadbackSample, EventModel};
use crate::calibration_record::{
    all_samples, calibration_is_complete, collect_samples, endpoint_identity, ends_in_auto,
    is_endpoint_value, opposite, other_fan, sample_is_recorded,
};
use crate::calibration_session::ConservativeFanCalibration;
use crate::evidence::{
    blank_record, EvidenceFan, EvidenceRecord, EvidenceTimestamp, EvidenceValidationError,
    FanCalibrationEvidence, FanCommandEvidence, FanControlField, FanEndpointIdentitiesEvidence,
    FanReadbackEvidence, FanReadbackField, ObservationOutcome, OutcomeModel,
    QualificationEnvelopeIdentityV1, RecordModel, RestorationAttemptEvidence, RestorationOutcome,
    RunOutcomeEvidence, RunOutcomeStatus, StateTransitionEvidence, EVIDENCE_SCHEMA_VERSION_V2,
};
use crate::evidence_rules::{command_expectations, expected_commands, validation_error};
use crate::publication::EvidenceWriteError;
use crate::run_log::{push_transition, transition, transition_list};
use crate::text::join;
use crate::thermal::{flat, flat_slopes, FinalSlopes};

verus! {

broadcast use vstd::string::group_string_axioms;

/// Exact successful run facts needed to construct one calibration evidence record.
#[derive(Debug, PartialEq, Eq)]
pub struct CompletedFanCalibrationRun {
    pub qualification_envelope: QualificationEnvelopeIdentityV1,
    pub calibration: FanCalibrationEvidence,
    pub endpoint_identities: FanEndpointIdentitiesEvidence,
    pub started_at: EvidenceTimestamp,
    pub restoration_attempted_at: EvidenceTimestamp,
    pub restoration_confirmed_at: EvidenceTimestamp,
    pub completed_at: EvidenceTimestamp,
}

impl Clone for CompletedFanCalibrationRun {
    fn clone(&self) -> (copy: CompletedFanCalibrationRun)
        ensures
            copy.qualification_envelope@ == self.qualification_envelope@,
            copy.calibration@ == self.calibration@,
            copy.endpoint_identities == self.endpoint_identities,
            copy.started_at == self.started_at,
            copy.restoration_attempted_at == self.restoration_attempted_at,
            copy.restoration_confirmed_at == self.restoration_confirmed_at,
            copy.completed_at == self.completed_at,
    {
        CompletedFanCalibrationRun {
            qualification_envelope: self.qualification_envelope.clone(),
            calibration: self.calibration.clone(),
            endpoint_identities: self.endpoint_identities.clone(),
            started_at: self.started_at,
            restoration_attempted_at: self.restoration_attempted_at,
            restoration_confirmed_at: self.restoration_confirmed_at,
            completed_at: self.completed_at,
        }
    }
}

/// The moments of a run all carry the wall clock of its start.
pub open spec fn moment_in(run: CompletedFanCalibrationRun, monotonic_millis: u64) -> EvidenceTimestamp {
    EvidenceTimestamp { monotonic_millis, wall_unix_millis: run.started_at.wall_unix_millis }
}

/// The commands that a calibration leaves.
pub open spec fn built_commands(
    run: CompletedFanCalibrationRun,
    expected: Seq<(u64, u32)>,
) -> Seq<FanCommandEvidence> {
    expected.map_values(
        |command: (u64, u32)|
            FanCommandEvidence {
                timestamp: moment_in(run, command.0),
                fan: run.calibration.fan,
                field: FanControlField::Pwm,
                value: command.1,
            },
    )
}

/// Whether readbacks record calibration samples, five each, on the clock of the run.
pub open spec fn records_samples(
    readbacks: Seq<FanReadbackEvidence>,
    samples: Seq<CalibrationReadbackSample>,
    run: CompletedFanCalibrationRun,
) -> bool {
    &&& readbacks.len() >= samples.len() * 5
    &&& forall|k: int|
        0 <= k < samples.len() ==> sample_is_recorded(
            readbacks,
            k * 5,
            #[trigger] samples[k],
            run.calibration.fan,
            run.endpoint_identities,
        )
    &&& forall|i: int|
        0 <= i < samples.len() * 5 ==> (#[trigger] readbacks[i]).timestamp.wall_unix_millis
            == run.started_at.wall_unix_millis
}

/// Whether a record is the one that a completed calibration leaves.
pub open spec fn is_built_record(record: RecordModel, run: CompletedFanCalibrationRun) -> bool {
    let events = run.calibration@.protocol_checkpoint->0.events;
    let samples = all_samples(events);
    let count = record.readbacks.len() as int;
    &&& record == RecordModel {
        fan_endpoint_identities: Some(run.endpoint_identities),
        commands: built_commands(run, expected_commands(events)),
        readbacks: record.readbacks,
        state_transitions: record.state_transitions,
        restoration_attempts: seq![
            built_attempt(run, EvidenceFan::Cpu),
            built_attempt(run, EvidenceFan::Gpu),
        ],
        calibration: seq![run.calibration@],
        ..blank_record(
            run.qualification_envelope@,
            "fan-calibration"@,
            run.started_at,
            run.completed_at,
            OutcomeModel {
                status: RunOutcomeStatus::Passed,
                reason: "fan calibration passed"@,
                another_passing_run_required: false,
                final_firmware_auto_confirmed: true,
            },
        )
    }
    &&& count == samples.len() * 5 + 2
    &&& records_samples(record.readbacks, samples, run)
    &&& record.readbacks[count - 2].timestamp == run.restoration_confirmed_at
    &&& record.readbacks[count - 1].timestamp == run.restoration_confirmed_at
    &&& ends_in_auto(record.readbacks[count - 2], EvidenceFan::Cpu, run.endpoint_identities)
    &&& ends_in_auto(record.readbacks[count - 1], EvidenceFan::Gpu, run.endpoint_identities)
    &&& transition_list(record.state_transitions) == seq![
        transition(run.started_at, "firmware-auto"@, "custom-control"@),
        transition(run.restoration_confirmed_at, "custom-control"@, "firmware-auto"@),
    ]
}

/// The restoration of one fan at the end of a calibration.
pub open spec fn built_attempt(run: CompletedFanCalibrationRun, fan: EvidenceFan) -> RestorationAttemptEvidence {
    RestorationAttemptEvidence {
        timestamp: run.restoration_attempted_at,
        fan,
        auto_write_succeeded: true,
        enable_readback: Some(2),
        outcome: RestorationOutcome::FirmwareAutoConfirmed,
    }
}

/// Whether every level of a checkpoint commanded a duty.
pub open spec fn levels_are_commanded(events: Seq<EventModel>) -> bool {
    forall|i: int|
        0 <= i < events.len() ==> (#[trigger] events[i] matches EventModel::Level { step, .. }
            ==> step.pwm() is Some)
}

/// A readback of an endpoint's value, confirmed where there is one.
fn plain_readback(
    timestamp: EvidenceTimestamp,
    fan: EvidenceFan,
    field: FanReadbackField,
    value: Option<u32>,
    identities: &FanEndpointIdentitiesEvidence,
) -> (readback: FanReadbackEvidence)
    ensures
        readback.timestamp == timestamp,
        is_endpoint_value(readback, fan, field, value, *identities),
{
    FanReadbackEvidence {
        timestamp,
        source_timestamp: None,
        fresh: None,
        boot_id: None,
        fan,
        field,
        value,
        endpoint_identity: endpoint_identity(identities, fan, field).clone(),
        outcome: if value.is_some() {
            ObservationOutcome::Confirmed
        } else {
            ObservationOutcome::Unreadable
        },
        phase: None,
    }
}

fn build_readbacks(
    run: &CompletedFanCalibrationRun,
    samples: &Vec<CalibrationReadbackSample>,
) -> (readbacks:
    Vec<FanReadbackEvidence>)
    ensures
        readbacks@.len() == samples@.len() * 5,
        records_samples(readbacks@, samples@, *run),
{
    let mut readbacks: Vec<FanReadbackEvidence> = Vec::new();
    let identities = &run.endpoint_identities;
    let fan = run.calibration.fan;
    let other = opposite(fan);
    let mut i: usize = 0;
    while i < samples.len()
        invariant
            i <= samples.len(),
            fan == run.calibration.fan,
            other == other_fan(fan),
            *identities == run.endpoint_identities,
            readbacks@.len() == i * 5,
            forall|k: int|
                0 <= k < i ==> sample_is_recorded(
                    readbacks@,
                    k * 5,
                    #[trigger] samples@[k],
                    fan,
                    run.endpoint_identities,
                ),
            forall|k: int|
                0 <= k < i * 5 ==> (#[trigger] readbacks@[k]).timestamp.wall_unix_millis
                    == run.started_at.wall_unix_millis,
        decreases samples.len() - i,
    {
        let sample = samples[i];
        let at = EvidenceTimestamp {
            monotonic_millis: sample.monotonic_millis,
            wall_unix_millis: run.started_at.wall_unix_millis,
        };
        let ghost before = readbacks@;
        readbacks.push(
            plain_readback(
                at,
                fan,
                FanReadbackField::Enable,
                Some(sample.selected_enable_readback as u32),
                identities,
            ),
        );
        readbacks.push(
            plain_readback(
                at,
                fan,
                FanReadbackField::Pwm,
                Some(sample.selected_pwm_readback as u32),
                identities,
            ),
        );
        readbacks.push(
            plain_readback(at, fan, FanReadbackField::Rpm, sample.selected_rpm, identities),
        );
        readbacks.push(
            plain_readback(
                at,
                other,
                FanReadbackField::Enable,
                Some(sample.other_enable_readback as u32),
                identities,
            ),
        );
        readbacks.push(
            plain_readback(
                at,
                other,
                FanReadbackField::Pwm,
                Some(sample.other_pwm_readback as u32),
                identities,
            ),
        );
        proof {
            assert forall|k: int| 0 <= k < i implies sample_is_recorded(
                readbacks@,
                k * 5,
                #[trigger] samples@[k],
                fan,
                run.endpoint_identities,
            ) by {
                assert(sample_is_recorded(
                    before,
                    k * 5,
                    samples@[k],
                    fan,
                    run.endpoint_identities,
                ));
                assert(readbacks@.take(before.len() as int) =~= before);
            }
            assert forall|k: int| 0 <= k < (i + 1) * 5 implies (
            #[trigger] readbacks@[k]).timestamp.wall_unix_millis
                == run.started_at.wall_unix_millis by {
                if k < i * 5 {
                    assert(readbacks@[k] == before[k]);
                }
            }
        }
        i = i + 1;
    }
    readbacks
}

fn build_commands(run: &CompletedFanCalibrationRun, expected: &Vec<(u64, u32)>) -> (commands: Vec<
    FanCommandEvidence,
>)
    ensures
        commands@ == built_commands(*run, expected@),
{
    let mut commands: Vec<FanCommandEvidence> = Vec::new();
    let mut i: usize = 0;
    while i < expected.len()
        invariant
            i <= expected.len(),
            commands@.len() == i,
            forall|k: int| 0 <= k < i ==> #[trigger] commands@[k] == built_commands(
                *run,
                expected@,
            )[k],
        decreases expected.len() - i,
    {
        let (monotonic_millis, value) = expected[i];
        commands.push(
            FanCommandEvidence {
                timestamp: EvidenceTimestamp {
                    monotonic_millis,
                    wall_unix_millis: run.started_at.wall_unix_millis,
                },
                fan: run.calibration.fan,
                field: FanControlField::Pwm,
                value,
            },
        );
        i = i + 1;
    }
    assert(commands@ =~= built_commands(*run, expected@));
    commands
}

/// Builds the canonical evidence record for one completed fan calibration.
fn assemble_calibration_record(run: CompletedFanCalibrationRun) -> (record: EvidenceRecord)
    requires
        run.calibration.protocol_checkpoint is Some,
        levels_are_commanded(run.calibration@.protocol_checkpoint->0.events),
    ensures
        is_built_record(record@, run),
{
    let (samples, expected) = match &run.calibration.protocol_checkpoint {
        Some(checkpoint) => (collect_samples(checkpoint), command_expectations(checkpoint)),
        None => (Vec::new(), Vec::new()),
    };
    let commands = build_commands(&run, &expected);
    let mut readbacks = build_readbacks(&run, &samples);
    let ghost sampled = readbacks@;
    readbacks.push(
        plain_readback(
            run.restoration_confirmed_at,
            EvidenceFan::Cpu,
            FanReadbackField::Enable,
            Some(2),
            &run.endpoint_identities,
        ),
    );
    readbacks.push(
        plain_readback(
            run.restoration_confirmed_at,
            EvidenceFan::Gpu,
            FanReadbackField::Enable,
            Some(2),
            &run.endpoint_identities,
        ),
    );
    proof {
        assert(forall|i: int| 0 <= i < sampled.len() ==> readbacks@[i] == sampled[i]);
        assert forall|k: int| 0 <= k < samples@.len() implies sample_is_recorded(
            readbacks@,
            k * 5,
            #[trigger] samples@[k],
            run.calibration.fan,
            run.endpoint_identities,
        ) by {
            assert(sample_is_recorded(
                sampled,
                k * 5,
                samples@[k],
                run.calibration.fan,
                run.endpoint_identities,
            ));
        }
        assert(records_samples(readbacks@, samples@, run));
    }
    let mut transitions: Vec<StateTransitionEvidence> = Vec::new();
    push_transition(&mut transitions, run.started_at, "firmware-auto", "custom-control");
    push_transition(
        &mut transitions,
        run.restoration_confirmed_at,
        "custom-control",
        "firmware-auto",
    );
    proof {
        assert(transition_list(transitions@) =~= seq![
            transition(run.started_at, "firmware-auto"@, "custom-control"@),
            transition(run.restoration_confirmed_at, "custom-control"@, "firmware-auto"@),
        ]);
    }
    let mut attempts: Vec<RestorationAttemptEvidence> = Vec::new();
    attempts.push(
        RestorationAttemptEvidence {
            timestamp: run.restoration_attempted_at,
            fan: EvidenceFan::Cpu,
            auto_write_succeeded: true,
            enable_readback: Some(2),
            outcome: RestorationOutcome::FirmwareAutoConfirmed,
        },
    );
    attempts.push(
        RestorationAttemptEvidence {
            timestamp: run.restoration_attempted_at,
            fan: EvidenceFan::Gpu,
            auto_write_succeeded: true,
            enable_readback: Some(2),
            outcome: RestorationOutcome::FirmwareAutoConfirmed,
        },
    );
    let mut record = EvidenceRecord::complete_v2(
        run.qualification_envelope,
        "fan-calibration",
        run.started_at,
        run.completed_at,
        RunOutcomeEvidence {
            status: RunOutcomeStatus::Passed,
            reason: "fan calibration passed".to_owned(),
            another_passing_run_required: false,
            final_firmware_auto_confirmed: true,
        },
    );
    let mut calibration: Vec<FanCalibrationEvidence> = Vec::new();
    calibration.push(run.calibration);
    record.fan_endpoint_identities = Some(run.endpoint_identities);
    record.commands = commands;
    record.readbacks = readbacks;
    record.state_transitions = transitions;
    record.restoration_attempts = attempts;
    record.calibration = calibration;
    proof {
        assert(record@.restoration_attempts =~= seq![
            built_attempt(run, EvidenceFan::Cpu),
            built_attempt(run, EvidenceFan::Gpu),
        ]);
        assert(record@.calibration =~= seq![run.calibration@]);
    }
    record
}

/// Builds and validates the canonical evidence record for one completed fan calibration.
pub fn build_fan_calibration_record(run: CompletedFanCalibrationRun) -> (result: Result<
    EvidenceRecord,
    EvidenceValidationError,
>)
    requires
        run.calibration@.protocol_checkpoint matches Some(checkpoint) ==> levels_are_commanded(
            checkpoint.events,
        ),
    ensures
        if run.calibration.protocol_checkpoint is None {
            result matches Err(error) && error == (EvidenceValidationError::InvalidValue {
                field: "calibration.protocol_checkpoint",
                index: 0,
            })
        } else {
            exists|record: RecordModel| #[trigger]
                is_built_record(record, run) && match result {
                    Ok(built) => built@ == record && validation_error(record, flat()) is None,
                    Err(error) => validation_error(record, flat()) == Some(error),
                }
        },
{
    if run.calibration.protocol_checkpoint.is_none() {
        return Err(
            EvidenceValidationError::InvalidValue {
                field: "calibration.protocol_checkpoint",
                index: 0,
            },
        );
    }
    let record = assemble_calibration_record(run);
    match record.validate(flat_slopes()) {
        Ok(()) => Ok(record),
        Err(error) => Err(error),
    }
}

/// The record that a completed calibration leaves proves that calibration and nothing else.
pub proof fn built_record_is_complete(record: RecordModel, run: CompletedFanCalibrationRun)
    requires
        run.calibration.protocol_checkpoint is Some,
        expected_commands(run.calibration@.protocol_checkpoint->0.events).len() > 0,
        is_built_record(record, run),
    ensures
        calibration_is_complete(record),
{
    let transitions = record.state_transitions;
    let models = transition_list(transitions);
    assert(models.len() == 2);
    assert(models[0] == transitions[0]@);
    assert(models[1] == transitions[1]@);
    assert(record.commands.len() == expected_commands(
        run.calibration@.protocol_checkpoint->0.events,
    ).len());
}

/// Why completed calibration evidence was not published.
#[derive(Debug)]
pub enum CalibrationEvidenceWriteError {
    IncompleteCalibration,
    UnsupportedEvidenceVersion,
    UnsuccessfulEvidenceOutcome,
    RecordAlreadyContainsCalibration,
    InvalidRecord(EvidenceValidationError),
    Write(EvidenceWriteError),
}

impl CalibrationEvidenceWriteError {
    /// The text of the message.
    pub open spec fn text(self) -> Seq<char> {
        match self {
            CalibrationEvidenceWriteError::IncompleteCalibration => "calibration is not complete"@,
            CalibrationEvidenceWriteError::UnsupportedEvidenceVersion =>
                "calibration evidence requires schema version 2"@,
            CalibrationEvidenceWriteError::UnsuccessfulEvidenceOutcome =>
                "completed calibration evidence must have a passed outcome"@,
            CalibrationEvidenceWriteError::RecordAlreadyContainsCalibration =>
                "evidence record already contains calibration"@,
            CalibrationEvidenceWriteError::InvalidRecord(error) =>
                "invalid calibration evidence: "@ + error.text(),
            CalibrationEvidenceWriteError::Write(error) =>
                "cannot publish calibration evidence: "@ + error@.text(),
        }
    }

    /// The message shown to an operator.
    pub fn message(&self) -> (text: String)
        ensures
            text@ == self.text(),
    {
        match self {
            CalibrationEvidenceWriteError::IncompleteCalibration =>
                "calibration is not complete".to_owned(),
            CalibrationEvidenceWriteError::UnsupportedEvidenceVersion =>
                "calibration evidence requires schema version 2".to_owned(),
            CalibrationEvidenceWriteError::UnsuccessfulEvidenceOutcome =>
                "completed calibration evidence must have a passed outcome".to_owned(),
            CalibrationEvidenceWriteError::RecordAlreadyContainsCalibration =>
                "evidence record already contains calibration".to_owned(),
            CalibrationEvidenceWriteError::InvalidRecord(error) => join(
                "invalid calibration evidence: ",
                error.message().as_str(),
            ),
            CalibrationEvidenceWriteError::Write(error) => join(
                "cannot publish calibration evidence: ",
                error.message().as_str(),
            ),
        }
    }
}

/// A record with a calibration added to it.
pub open spec fn with_calibration(
    record: RecordModel,
    calibration: crate::evidence::FanCalibrationModel,
) -> RecordModel {
    RecordModel {
        stage: "fan-calibration"@,
        calibration: seq![calibration],
        ..record
    }
}

impl ConservativeFanCalibration {
    /// Adds the completed calibration to a qualification record that is about to be published.
    /// Record validation protects the one-fan scope, canonical anchors, and final restoration.
    pub fn prepare_evidence(
        &self,
        mut record: EvidenceRecord,
        slopes: FinalSlopes,
    ) -> (result: Result<
        EvidenceRecord,
        CalibrationEvidenceWriteError,
    >)
        ensures
            if record@.schema_version != 2 {
                result matches Err(CalibrationEvidenceWriteError::UnsupportedEvidenceVersion)
            } else if record@.outcome.status != RunOutcomeStatus::Passed {
                result matches Err(CalibrationEvidenceWriteError::UnsuccessfulEvidenceOutcome)
            } else if self@.evidence is None {
                result matches Err(CalibrationEvidenceWriteError::IncompleteCalibration)
            } else if record@.calibration.len() > 0 {
                result matches Err(CalibrationEvidenceWriteError::RecordAlreadyContainsCalibration)
            } else {
                let prepared = with_calibration(record@, self@.evidence->0);
                match validation_error(prepared, slopes) {
                    Some(error) => result matches Err(
                        CalibrationEvidenceWriteError::InvalidRecord(e),
                    ) && e == error,
                    None => result matches Ok(r) && r@ == prepared,
                }
            },
    {
        if record.schema_version != EVIDENCE_SCHEMA_VERSION_V2 {
            return Err(CalibrationEvidenceWriteError::UnsupportedEvidenceVersion);
        }
        if record.outcome.status != RunOutcomeStatus::Passed {
            return Err(CalibrationEvidenceWriteError::UnsuccessfulEvidenceOutcome);
        }
        let evidence = match self.evidence() {
            Some(evidence) => evidence.clone(),
            None => {
                return Err(CalibrationEvidenceWriteError::IncompleteCalibration);
            },
        };
        if record.calibration.len() > 0 {
            return Err(CalibrationEvidenceWriteError::RecordAlreadyContainsCalibration);
        }
        let ghost before = record@;
        record.stage = "fan-calibration".to_owned();
        record.calibration.push(evidence);
        proof {
            assert(record@.calibration =~= seq![self@.evidence->0]);
            assert(record@ == with_calibration(before, self@.evidence->0));
        }
        match record.validate(slopes) {
            Ok(()) => Ok(record),
            Err(error) => Err(CalibrationEvidenceWriteError::InvalidRecord(error)),
        }
    }
}

} // verus!
