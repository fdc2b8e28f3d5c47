//! A resumable calibration session for one fan.

use vstd::prelude::*;
use crate::calibration::{
    allowed_floor, anchor_duties, basis_points_to_pwm, calibration_response_deadline,
    canonical_calibration_anchor_duties, clone_events, continuous, duty_pwm, events,
    first_rpm_index, readings, readings_are_absent, readings_are_complete, readings_are_plausible,
    readings_from, response_deadline, rpms_are_complete_from, rpms_are_plausible, settled,
    settled_level, settled_level_is_plausible, stable_median, stable_rpm_median_values,
    timestamps_are_continuous, CalibrationCheckpoint, CalibrationCheckpointEvent,
    CalibrationLevelObservation, CalibrationObservationError, CalibrationPhase,
    CalibrationReadbackSample, CalibrationStep, CheckpointModel, EventModel, FanHoldObservation,
    HoldModel, LevelModel, SettledLevel, REQUIRED_FLOOR_HOLD_MILLIS,
    REQUIRED_MAXIMUM_TO_FLOOR_TRANSITIONS,
};
use crate::evidence::{EvidenceFan, FanCalibrationEvidence, FanCalibrationModel, RpmAnchorEvidence};
use crate::tachometer::{plausible_rpm, Fan};

verus! {

/// A calibration in progress.
#[derive(Debug, PartialEq, Eq)]
pub struct ConservativeFanCalibration {
    fan: Fan,
    phase: CalibrationPhase,
    stable_sweep_levels: Vec<u16>,
    floor_basis_points: Option<u16>,
    slowest_response_millis: u64,
    anchors: Vec<RpmAnchorEvidence>,
    evidence: Option<FanCalibrationEvidence>,
    events: Vec<CalibrationCheckpointEvent>,
    last_observed_monotonic_millis: Option<u64>,
    resume_phase: Option<CalibrationPhase>,
}

/// The contents of a session.
pub struct SessionModel {
    pub fan: Fan,
    pub phase: CalibrationPhase,
    pub stable_sweep_levels: Seq<u16>,
    pub floor: Option<u16>,
    pub slowest_response_millis: u64,
    pub anchors: Seq<RpmAnchorEvidence>,
    pub evidence: Option<FanCalibrationModel>,
    pub events: Seq<EventModel>,
    pub last_observed: Option<u64>,
    pub resume_phase: Option<CalibrationPhase>,
}

impl View for ConservativeFanCalibration {
    type V = SessionModel;

    closed spec fn view(&self) -> SessionModel {
        SessionModel {
            fan: self.fan,
            phase: self.phase,
            stable_sweep_levels: self.stable_sweep_levels@,
            floor: self.floor_basis_points,
            slowest_response_millis: self.slowest_response_millis,
            anchors: self.anchors@,
            evidence: match self.evidence {
                Some(evidence) => Some(evidence@),
                None => None,
            },
            events: events(self.events@),
            last_observed: self.last_observed_monotonic_millis,
            resume_phase: self.resume_phase,
        }
    }
}

impl Clone for ConservativeFanCalibration {
    fn clone(&self) -> (copy: ConservativeFanCalibration)
        ensures
            copy@ == self@,
    {
        let stable_sweep_levels = self.stable_sweep_levels.clone();
        assert(stable_sweep_levels@ =~= self.stable_sweep_levels@);
        ConservativeFanCalibration {
            fan: self.fan,
            phase: self.phase,
            stable_sweep_levels,
            floor_basis_points: self.floor_basis_points,
            slowest_response_millis: self.slowest_response_millis,
            anchors: clone_anchors(&self.anchors),
            evidence: match &self.evidence {
                Some(value) => Some(value.clone()),
                None => None,
            },
            events: clone_events(&self.events),
            last_observed_monotonic_millis: self.last_observed_monotonic_millis,
            resume_phase: self.resume_phase,
        }
    }
}

/// The fan's name in evidence.
pub open spec fn fan_evidence(fan: Fan) -> EvidenceFan {
    match fan {
        Fan::Cpu => EvidenceFan::Cpu,
        Fan::Gpu => EvidenceFan::Gpu,
    }
}

pub(crate) fn evidence_fan(fan: Fan) -> (evidence: EvidenceFan)
    ensures
        evidence == fan_evidence(fan),
{
    match fan {
        Fan::Cpu => EvidenceFan::Cpu,
        Fan::Gpu => EvidenceFan::Gpu,
    }
}

/// The duty of each step of the descending sweep.
pub open spec fn sweep_duty(index: int) -> u16 {
    if index == 0 {
        10_000
    } else if index == 1 {
        6_000
    } else if index == 2 {
        5_000
    } else if index == 3 {
        4_000
    } else {
        3_000
    }
}

/// The number of steps of the descending sweep.
pub open spec fn sweep_length() -> nat {
    5
}

fn coarse_sweep_duty(index: usize) -> (duty: u16)
    requires
        index < 5,
    ensures
        duty == sweep_duty(index as int),
{
    if index == 0 {
        10_000
    } else if index == 1 {
        6_000
    } else if index == 2 {
        5_000
    } else if index == 3 {
        4_000
    } else {
        3_000
    }
}

/// What a session of each phase has behind it.
pub open spec fn phase_is_consistent(m: SessionModel) -> bool {
    match m.phase {
        CalibrationPhase::Sweep { index } => {
            &&& index < 5
            &&& m.stable_sweep_levels.len() == index
            &&& m.anchors.len() == 0
            &&& m.floor is None
            &&& m.evidence is None
        },
        CalibrationPhase::TransitionToMaximum { attempt } => {
            &&& 1 <= attempt <= 5
            &&& m.anchors.len() == 0
            &&& m.evidence is None
            &&& m.floor matches Some(floor) && allowed_floor(floor)
        },
        CalibrationPhase::TransitionToFloor { attempt } => {
            &&& 1 <= attempt <= 5
            &&& m.anchors.len() == 0
            &&& m.evidence is None
            &&& m.floor matches Some(floor) && allowed_floor(floor)
        },
        CalibrationPhase::HoldFloor => {
            &&& m.anchors.len() == 0
            &&& m.evidence is None
            &&& m.floor matches Some(floor) && allowed_floor(floor)
        },
        CalibrationPhase::CaptureAnchor { index } => {
            &&& m.evidence is None
            &&& m.floor matches Some(floor) && allowed_floor(floor) && index < anchor_duties(
                floor,
            ).len() && anchors_follow(m.anchors, floor, index as nat)
        },
        CalibrationPhase::Complete => {
            &&& m.resume_phase is None
            &&& m.floor matches Some(floor) && allowed_floor(floor) && anchors_follow(
                m.anchors,
                floor,
                anchor_duties(floor).len(),
            )
            &&& m.evidence == Some(completed_evidence(m))
            &&& 1_000 <= m.slowest_response_millis <= 10_000
        },
        CalibrationPhase::Failed => m.evidence is None && m.resume_phase is None,
    }
}

/// Whether the anchors captured so far stand at the canonical duties, plausible and never falling.
pub open spec fn anchors_follow(anchors: Seq<RpmAnchorEvidence>, floor: u16, count: nat) -> bool {
    &&& anchors.len() == count
    &&& forall|i: int|
        0 <= i < anchors.len() ==> (#[trigger] anchors[i]).duty_basis_points == anchor_duties(
            floor,
        )[i] && plausible_rpm(anchors[i].median_rpm)
    &&& forall|i: int, j: int|
        0 <= i <= j < anchors.len() ==> anchors[i].median_rpm <= anchors[j].median_rpm
}

/// The checkpoint that a session writes.
pub open spec fn checkpoint_of(m: SessionModel) -> CheckpointModel {
    CheckpointModel {
        schema_version: 1,
        fan: fan_evidence(m.fan),
        failed: m.phase is Failed,
        events: m.events,
    }
}

/// The evidence that a session completes with.
pub open spec fn completed_evidence(m: SessionModel) -> FanCalibrationModel {
    FanCalibrationModel {
        fan: fan_evidence(m.fan),
        floor_basis_points: m.floor->0,
        slowest_response_millis: Some(m.slowest_response_millis),
        protocol_checkpoint: Some(checkpoint_of(m)),
        response_deadline_millis: response_deadline(m.slowest_response_millis),
        anchors: m.anchors,
    }
}

/// Whether a floor that was decided lies 1000 basis points above the lowest level that was stable.
pub open spec fn floor_is_conservative(m: SessionModel) -> bool {
    m.floor matches Some(floor) ==> {
        &&& m.stable_sweep_levels.len() >= 2
        &&& floor == m.stable_sweep_levels.last() + 1_000
    }
}

/// A session's consistency: its phase agrees with what it holds, and its events replay to it.
pub open spec fn session_is_valid(m: SessionModel) -> bool {
    &&& phase_is_consistent(m)
    &&& floor_is_conservative(m)
    &&& m.slowest_response_millis <= 10_000
    &&& !(m.phase is Sweep && m.stable_sweep_levels.len() == 0) ==> (m.phase is Failed
        || m.slowest_response_millis >= 1_000)
    &&& m.stable_sweep_levels.len() <= 5
    &&& forall|i: int|
        0 <= i < m.stable_sweep_levels.len() ==> #[trigger] m.stable_sweep_levels[i] == sweep_duty(
            i,
        )
    &&& m.resume_phase is Some ==> m.resume_phase == Some(m.phase)
    &&& !(m.phase is Failed) ==> replayed(m.fan, m.events) == Some(
        SessionModel { resume_phase: None, ..m },
    )
}

/// A session has no floor while it sweeps, and has one from the first transition to its end. Wherever
/// there is one, a failed session's too, it is 4000 to 7000 basis points and lies 1000 above the
/// lowest level that was stable.
pub proof fn floors_are_conservative(m: SessionModel)
    requires
        session_is_valid(m),
    ensures
        m.phase is Sweep ==> m.floor is None,
        !(m.phase is Sweep) && !(m.phase is Failed) ==> m.floor is Some,
        m.floor matches Some(floor) ==> 4_000 <= floor <= 7_000 && m.stable_sweep_levels.len() > 0
            && floor == m.stable_sweep_levels.last() + 1_000,
        m.floor matches Some(floor) ==> forall|i: int|
            0 <= i < m.stable_sweep_levels.len() ==> floor - 1_000
                <= #[trigger] m.stable_sweep_levels[i],
{
    if m.floor is Some {
        let last = m.stable_sweep_levels.len() - 1;
        assert(m.stable_sweep_levels[last] == sweep_duty(last));
    }
}

/// A fresh session.
pub open spec fn started(fan: Fan) -> SessionModel {
    SessionModel {
        fan,
        phase: CalibrationPhase::Sweep { index: 0 },
        stable_sweep_levels: Seq::empty(),
        floor: None,
        slowest_response_millis: 0,
        anchors: Seq::empty(),
        evidence: None,
        events: Seq::empty(),
        last_observed: None,
        resume_phase: None,
    }
}

/// The step that a session waits for.
pub open spec fn next_step_of(m: SessionModel) -> CalibrationStep {
    if m.resume_phase is Some {
        CalibrationStep::RevalidateBothAtMaximum { pwm_value: 255 }
    } else {
        match m.phase {
            CalibrationPhase::Sweep { index } => CalibrationStep::Sweep {
                duty_basis_points: sweep_duty(index as int),
                pwm_value: duty_pwm(sweep_duty(index as int)),
            },
            CalibrationPhase::TransitionToMaximum { attempt } =>
                CalibrationStep::TransitionToMaximum { attempt, pwm_value: 255 },
            CalibrationPhase::TransitionToFloor { attempt } => CalibrationStep::TransitionToFloor {
                attempt,
                duty_basis_points: m.floor->0,
                pwm_value: duty_pwm(m.floor->0),
            },
            CalibrationPhase::HoldFloor => CalibrationStep::HoldFloor {
                duty_basis_points: m.floor->0,
                pwm_value: duty_pwm(m.floor->0),
                required_duration_millis: 900_000,
            },
            CalibrationPhase::CaptureAnchor { index } => CalibrationStep::CaptureAnchor {
                duty_basis_points: anchor_duties(m.floor->0)[index as int],
                pwm_value: duty_pwm(anchor_duties(m.floor->0)[index as int]),
            },
            CalibrationPhase::Complete => CalibrationStep::Complete,
            CalibrationPhase::Failed => CalibrationStep::Failed,
        }
    }
}

/// A session that has failed.
pub open spec fn failed(m: SessionModel) -> SessionModel {
    SessionModel { phase: CalibrationPhase::Failed, evidence: None, resume_phase: None, ..m }
}

/// A session that has seen one more response time.
pub open spec fn with_response(m: SessionModel, response_millis: u64) -> SessionModel {
    SessionModel {
        slowest_response_millis: if m.slowest_response_millis >= response_millis {
            m.slowest_response_millis
        } else {
            response_millis
        },
        ..m
    }
}

/// Whether samples follow the last accepted one by 1 to 2000 milliseconds. A session that waits
/// for revalidation starts afresh.
pub open spec fn chronology_holds(
    m: SessionModel,
    samples: Seq<CalibrationReadbackSample>,
) -> bool {
    m.resume_phase is None ==> (m.last_observed matches Some(last) ==> samples.len() > 0 && last
        < samples[0].monotonic_millis && samples[0].monotonic_millis - last <= 2_000)
}

/// What the readbacks of a step's samples show wrong.
pub open spec fn samples_error(
    step: CalibrationStep,
    samples: Seq<CalibrationReadbackSample>,
) -> Option<CalibrationObservationError> {
    if exists|i: int|
        0 <= i < samples.len() && ((#[trigger] samples[i]).other_enable_readback != 1
            || samples[i].other_pwm_readback != 255) {
        Some(CalibrationObservationError::OtherFanNotAtMaximum)
    } else if samples.len() == 0 || exists|i: int|
        0 <= i < samples.len() && ((#[trigger] samples[i]).selected_enable_readback != 1 || Some(
            samples[i].selected_pwm_readback,
        ) != step.pwm()) {
        Some(CalibrationObservationError::SelectedFanReadbackMismatch)
    } else {
        None
    }
}

/// What the readbacks of a level observation show wrong.
pub open spec fn readbacks_error(
    m: SessionModel,
    step: CalibrationStep,
    observation: LevelModel,
) -> Option<CalibrationObservationError> {
    let samples = observation.samples;
    if samples.len() == 0 || samples[0].monotonic_millis != observation.commanded_at || !continuous(
        samples,
    ) || !chronology_holds(m, samples) {
        Some(CalibrationObservationError::UnexpectedStep)
    } else {
        samples_error(step, samples)
    }
}

/// What a level observation shows in a session: an error, or the settled window if any.
pub open spec fn level_reading(m: SessionModel, observation: LevelModel) -> Result<
    Option<SettledLevel>,
    CalibrationObservationError,
> {
    let step = next_step_of(m);
    if step is Complete || step is Failed || step is HoldFloor {
        Err(CalibrationObservationError::UnexpectedStep)
    } else if readbacks_error(m, step, observation) is Some {
        Err(readbacks_error(m, step, observation)->0)
    } else if !readings_are_plausible(observation.samples) || readings_are_absent(
        observation.samples,
    ) {
        Err(CalibrationObservationError::InvalidRpm)
    } else if observation.stall_observed || observation.collapse_observed {
        if !readings_are_complete(observation.samples) {
            Err(CalibrationObservationError::InvalidRpm)
        } else if !(m.phase is Sweep) {
            Err(CalibrationObservationError::UnstableRequiredLevel)
        } else {
            Ok(None)
        }
    } else {
        settled(observation)
    }
}

/// The next phase of a sweep, after a level that settled or did not.
pub open spec fn after_sweep(m: SessionModel, index: usize, level: Option<SettledLevel>) -> Result<
    SessionModel,
    (SessionModel, CalibrationObservationError),
> {
    let seen = match level {
        Some(response) => SessionModel {
            stable_sweep_levels: m.stable_sweep_levels.push(sweep_duty(index as int)),
            ..with_response(m, response.response_millis)
        },
        None => m,
    };
    if level is Some && index + 1 < sweep_length() {
        Ok(SessionModel { phase: CalibrationPhase::Sweep { index: (index + 1) as usize }, ..seen })
    } else if seen.stable_sweep_levels.len() == 0 || seen.stable_sweep_levels.last() + 1_000
        > 10_000 {
        Err((failed(seen), CalibrationObservationError::ConservativeMarginUnavailable))
    } else {
        Ok(
            SessionModel {
                floor: Some((seen.stable_sweep_levels.last() + 1_000) as u16),
                phase: CalibrationPhase::TransitionToMaximum { attempt: 1 },
                ..seen
            },
        )
    }
}

/// The next state after a level whose reading is known.
pub open spec fn after_level(m: SessionModel, level: Option<SettledLevel>) -> Result<
    SessionModel,
    (SessionModel, CalibrationObservationError),
> {
    if m.resume_phase is None && m.phase is Sweep {
        after_sweep(m, m.phase->Sweep_index, level)
    } else {
        match level {
            None => Err((failed(m), CalibrationObservationError::UnstableRequiredLevel)),
            Some(response) => {
                let seen = with_response(m, response.response_millis);
                match m.resume_phase {
                    Some(phase) => Ok(SessionModel { phase, resume_phase: None, ..seen }),
                    None => match m.phase {
                        CalibrationPhase::TransitionToMaximum { attempt } => Ok(
                            SessionModel {
                                phase: CalibrationPhase::TransitionToFloor { attempt },
                                ..seen
                            },
                        ),
                        CalibrationPhase::TransitionToFloor { attempt } => Ok(
                            SessionModel {
                                phase: if attempt == 5 {
                                    CalibrationPhase::HoldFloor
                                } else {
                                    CalibrationPhase::TransitionToMaximum {
                                        attempt: (attempt + 1) as u8,
                                    }
                                },
                                ..seen
                            },
                        ),
                        CalibrationPhase::CaptureAnchor { index } => after_anchor(
                            seen,
                            index,
                            response.median_rpm,
                        ),
                        _ => Err((failed(m), CalibrationObservationError::UnexpectedStep)),
                    },
                }
            },
        }
    }
}

/// The next state after an anchor's median is known.
pub open spec fn after_anchor(seen: SessionModel, index: usize, median_rpm: u32) -> Result<
    SessionModel,
    (SessionModel, CalibrationObservationError),
> {
    let duties = anchor_duties(seen.floor->0);
    if seen.anchors.len() > 0 && median_rpm < seen.anchors.last().median_rpm {
        Err((failed(seen), CalibrationObservationError::DecreasingAnchorRpm))
    } else {
        let longer = SessionModel {
            anchors: seen.anchors.push(
                RpmAnchorEvidence { duty_basis_points: duties[index as int], median_rpm },
            ),
            ..seen
        };
        Ok(
            SessionModel {
                phase: if index + 1 == duties.len() {
                    CalibrationPhase::Complete
                } else {
                    CalibrationPhase::CaptureAnchor { index: (index + 1) as usize }
                },
                ..longer
            },
        )
    }
}

/// A session that keeps one more accepted event. A completed session then holds its evidence.
pub open spec fn with_event(m: SessionModel, event: EventModel, last_observed: u64) -> SessionModel {
    let kept = SessionModel {
        last_observed: Some(last_observed),
        events: m.events.push(event),
        ..m
    };
    if kept.phase is Complete {
        SessionModel { evidence: Some(completed_evidence(kept)), ..kept }
    } else {
        kept
    }
}

/// What recording a level does to a session.
pub open spec fn level_outcome(m: SessionModel, observation: LevelModel) -> (
    SessionModel,
    Result<(), CalibrationObservationError>,
) {
    if m.phase is Failed {
        (m, Err(CalibrationObservationError::StageAlreadyFailed))
    } else {
        match level_reading(m, observation) {
            Err(error) => (failed(m), Err(error)),
            Ok(level) => match after_level(m, level) {
                Err((after, error)) => (after, Err(error)),
                Ok(after) => (
                    with_event(
                        after,
                        EventModel::Level { step: next_step_of(m), observation },
                        observation.samples.last().monotonic_millis,
                    ),
                    Ok(()),
                ),
            },
        }
    }
}

/// What is wrong with a floor hold.
pub open spec fn hold_error(m: SessionModel, hold: HoldModel) -> Option<
    CalibrationObservationError,
> {
    let samples = hold.samples;
    if m.resume_phase is Some || !(m.phase is HoldFloor) {
        Some(CalibrationObservationError::UnexpectedStep)
    } else if hold.stall_observed || hold.collapse_observed {
        Some(CalibrationObservationError::IncompleteHold)
    } else if !chronology_holds(m, samples) {
        Some(CalibrationObservationError::UnexpectedStep)
    } else if samples_error(next_step_of(m), samples) is Some {
        samples_error(next_step_of(m), samples)
    } else if samples.last().monotonic_millis - samples[0].monotonic_millis < 900_000
        || samples.len() < 451 || !continuous(samples) {
        Some(CalibrationObservationError::IncompleteHold)
    } else if !readings_are_complete(samples) {
        Some(CalibrationObservationError::IncompleteHold)
    } else if !readings_are_plausible(samples) {
        Some(CalibrationObservationError::InvalidRpm)
    } else if stable_median(readings(samples)) is None {
        Some(CalibrationObservationError::IncompleteHold)
    } else {
        None
    }
}

/// What recording a floor hold does to a session.
pub open spec fn hold_outcome(m: SessionModel, hold: HoldModel) -> (
    SessionModel,
    Result<(), CalibrationObservationError>,
) {
    if m.phase is Failed {
        (m, Err(CalibrationObservationError::StageAlreadyFailed))
    } else {
        match hold_error(m, hold) {
            Some(error) => (failed(m), Err(error)),
            None => (
                with_event(
                    SessionModel { phase: CalibrationPhase::CaptureAnchor { index: 0 }, ..m },
                    EventModel::Hold { step: next_step_of(m), hold },
                    hold.samples.last().monotonic_millis,
                ),
                Ok(()),
            ),
        }
    }
}

/// One step of a replay: `None` where the event does not fit the session.
pub open spec fn replayed_event(m: SessionModel, event: EventModel) -> Option<SessionModel> {
    if m.phase is Complete {
        None
    } else {
        match event {
            EventModel::Level { step, observation } => {
                let waiting = if step is RevalidateBothAtMaximum && m.resume_phase is None {
                    SessionModel { resume_phase: Some(m.phase), ..m }
                } else {
                    m
                };
                if next_step_of(waiting) != step {
                    None
                } else {
                    match level_outcome(waiting, observation) {
                        (after, Ok(())) => Some(after),
                        (after, Err(error)) => None,
                    }
                }
            },
            EventModel::Hold { step, hold } => if next_step_of(m) != step {
                None
            } else {
                match hold_outcome(m, hold) {
                    (after, Ok(())) => Some(after),
                    (after, Err(error)) => None,
                }
            },
        }
    }
}

/// The session that a list of events leads to.
pub open spec fn replayed(fan: Fan, events: Seq<EventModel>) -> Option<SessionModel>
    decreases events.len(),
{
    if events.len() == 0 {
        Some(started(fan))
    } else {
        match replayed(fan, events.drop_last()) {
            Some(m) => replayed_event(m, events.last()),
            None => None,
        }
    }
}

/// What resuming a checkpoint yields.
pub open spec fn resumed(fan: Fan, checkpoint: CheckpointModel) -> Option<SessionModel> {
    if checkpoint.schema_version != 1 || checkpoint.failed || checkpoint.fan != fan_evidence(fan) {
        None
    } else {
        match replayed(fan, checkpoint.events) {
            Some(m) => Some(
                SessionModel {
                    resume_phase: if m.phase is Complete {
                        None
                    } else {
                        Some(m.phase)
                    },
                    ..m
                },
            ),
            None => None,
        }
    }
}

/// Recording a level keeps a session valid.
pub proof fn level_keeps_session_valid(m: SessionModel, observation: LevelModel)
    requires
        session_is_valid(m),
    ensures
        session_is_valid(level_outcome(m, observation).0),
{
    let (after, result) = level_outcome(m, observation);
    settled_level_is_plausible(observation);
    if result is Ok {
        let event = EventModel::Level { step: next_step_of(m), observation };
        let level = level_reading(m, observation)->Ok_0;
        let moved = after_level(m, level)->Ok_0;
        assert(after == with_event(
            moved,
            event,
            observation.samples.last().monotonic_millis,
        ));
        assert(after.events == m.events.push(event));
        assert(after.events.drop_last() =~= m.events);
        assert(after.events.last() == event);
        let before = SessionModel { resume_phase: None, ..m };
        assert(replayed(m.fan, m.events) == Some(before));
        let waiting = if event->Level_step is RevalidateBothAtMaximum && before.resume_phase is None {
            SessionModel { resume_phase: Some(before.phase), ..before }
        } else {
            before
        };
        assert(waiting == m);
        assert(after.resume_phase is None);
        assert(replayed(m.fan, after.events) == Some(after));
        assert(SessionModel { resume_phase: None, ..after } == after);
    }
}

/// Recording a floor hold keeps a session valid.
pub proof fn hold_keeps_session_valid(m: SessionModel, hold: HoldModel)
    requires
        session_is_valid(m),
    ensures
        session_is_valid(hold_outcome(m, hold).0),
{
    let (after, result) = hold_outcome(m, hold);
    if result is Ok {
        let event = EventModel::Hold { step: next_step_of(m), hold };
        assert(after.events.drop_last() =~= m.events);
        assert(after.events.last() == event);
        assert(SessionModel { resume_phase: None, ..m } == m);
        assert(replayed(m.fan, after.events) == Some(after));
    }
}

/// Every list of events that replays leads to a valid session.
pub proof fn replay_is_valid(fan: Fan, events: Seq<EventModel>)
    ensures
        replayed(fan, events) matches Some(m) ==> session_is_valid(m) && m.fan == fan && m.events
            == events && m.resume_phase is None && !(m.phase is Failed),
    decreases events.len(),
{
    if events.len() == 0 {
        assert(events =~= Seq::<EventModel>::empty());
        assert(started(fan).events =~= events);
    } else {
        replay_is_valid(fan, events.drop_last());
        match replayed(fan, events.drop_last()) {
            Some(m) => {
                if replayed(fan, events) is Some {
                    match events.last() {
                        EventModel::Level { step, observation } => {
                            let waiting = if step is RevalidateBothAtMaximum && m.resume_phase is None {
                                SessionModel { resume_phase: Some(m.phase), ..m }
                            } else {
                                m
                            };
                            assert(SessionModel { resume_phase: None, ..waiting } == m);
                            assert(session_is_valid(waiting));
                            level_keeps_session_valid(waiting, observation);
                        },
                        EventModel::Hold { step, hold } => {
                            hold_keeps_session_valid(m, hold);
                        },
                    }
                    assert(events =~= events.drop_last().push(events.last()));
                }
            },
            None => {},
        }
    }
}

/// A valid session that has not failed resumes from its own checkpoint. Nothing is lost; an
/// unfinished session must first revalidate both fans at maximum.
pub proof fn checkpoint_resumes(m: SessionModel)
    requires
        session_is_valid(m),
        !(m.phase is Failed),
    ensures
        resumed(m.fan, checkpoint_of(m)) == Some(
            SessionModel {
                resume_phase: if m.phase is Complete {
                    None
                } else {
                    Some(m.phase)
                },
                ..m
            },
        ),
{
}

/// A completed session's evidence names an allowed floor, a derived deadline and canonical anchors,
/// and replaying its own checkpoint derives the same evidence.
pub proof fn completed_evidence_replays(m: SessionModel)
    requires
        session_is_valid(m),
        m.phase is Complete,
    ensures
        m.evidence matches Some(evidence) && {
            &&& evidence.fan == fan_evidence(m.fan)
            &&& allowed_floor(evidence.floor_basis_points)
            &&& evidence.slowest_response_millis matches Some(slowest) && 1_000 <= slowest <= 10_000
                && evidence.response_deadline_millis == response_deadline(slowest)
            &&& anchors_follow(
                evidence.anchors,
                evidence.floor_basis_points,
                anchor_duties(evidence.floor_basis_points).len(),
            )
            &&& evidence.protocol_checkpoint matches Some(checkpoint) && resumed(
                m.fan,
                checkpoint,
            ) matches Some(again) && again.evidence == Some(evidence)
        },
{
    checkpoint_resumes(m);
}

/// A refused observation of a session that had not failed leaves it failed, without evidence.
pub proof fn refusal_fails_the_session(m: SessionModel, observation: LevelModel, hold: HoldModel)
    requires
        session_is_valid(m),
    ensures
        level_outcome(m, observation).1 is Err ==> level_outcome(m, observation).0.phase is Failed
            && level_outcome(m, observation).0.evidence is None,
        hold_outcome(m, hold).1 is Err ==> hold_outcome(m, hold).0.phase is Failed && hold_outcome(
            m,
            hold,
        ).0.evidence is None,
{
}

/// A failed session refuses every further observation and does not change.
pub proof fn failure_is_final(m: SessionModel, observation: LevelModel, hold: HoldModel)
    requires
        m.phase is Failed,
    ensures
        level_outcome(m, observation) == (
            m,
            Err::<(), CalibrationObservationError>(CalibrationObservationError::StageAlreadyFailed),
        ),
        hold_outcome(m, hold) == (
            m,
            Err::<(), CalibrationObservationError>(CalibrationObservationError::StageAlreadyFailed),
        ),
{
}

fn samples_are_wrong(step: CalibrationStep, samples: &Vec<CalibrationReadbackSample>) -> (error:
    Option<CalibrationObservationError>)
    ensures
        error == samples_error(step, samples@),
{
    let mut i: usize = 0;
    while i < samples.len()
        invariant
            i <= samples.len(),
            forall|k: int|
                0 <= k < i ==> (#[trigger] samples@[k]).other_enable_readback == 1
                    && samples@[k].other_pwm_readback == 255,
        decreases samples.len() - i,
    {
        if samples[i].other_enable_readback != 1 || samples[i].other_pwm_readback != 255 {
            assert(samples@[i as int].other_enable_readback != 1
                || samples@[i as int].other_pwm_readback != 255);
            return Some(CalibrationObservationError::OtherFanNotAtMaximum);
        }
        i = i + 1;
    }
    if samples.len() == 0 {
        return Some(CalibrationObservationError::SelectedFanReadbackMismatch);
    }
    let expected = step.pwm_value();
    i = 0;
    while i < samples.len()
        invariant
            i <= samples.len(),
            expected == step.pwm(),
            forall|k: int|
                0 <= k < samples@.len() ==> (#[trigger] samples@[k]).other_enable_readback == 1
                    && samples@[k].other_pwm_readback == 255,
            forall|k: int|
                0 <= k < i ==> (#[trigger] samples@[k]).selected_enable_readback == 1 && Some(
                    samples@[k].selected_pwm_readback,
                ) == step.pwm(),
        decreases samples.len() - i,
    {
        let matches = match expected {
            Some(pwm) => samples[i].selected_pwm_readback == pwm,
            None => false,
        };
        if samples[i].selected_enable_readback != 1 || !matches {
            assert(samples@[i as int].selected_enable_readback != 1 || Some(
                samples@[i as int].selected_pwm_readback,
            ) != step.pwm());
            return Some(CalibrationObservationError::SelectedFanReadbackMismatch);
        }
        i = i + 1;
    }
    None
}

impl ConservativeFanCalibration {
    /// Starts a session at the top of the sweep.
    pub fn start(fan: Fan) -> (session: ConservativeFanCalibration)
        ensures
            session@ == started(fan),
            session_is_valid(session@),
    {
        let session = ConservativeFanCalibration {
            fan,
            phase: CalibrationPhase::Sweep { index: 0 },
            stable_sweep_levels: Vec::new(),
            floor_basis_points: None,
            slowest_response_millis: 0,
            anchors: Vec::new(),
            evidence: None,
            events: Vec::new(),
            last_observed_monotonic_millis: None,
            resume_phase: None,
        };
        proof {
            assert(session@.events =~= Seq::<EventModel>::empty());
            assert(session@.stable_sweep_levels =~= Seq::<u16>::empty());
            assert(session@.anchors =~= Seq::<RpmAnchorEvidence>::empty());
            assert(session@ == started(fan));
            replay_is_valid(fan, session@.events);
        }
        session
    }

    /// The accepted observations so far.
    pub fn checkpoint(&self) -> (checkpoint: CalibrationCheckpoint)
        ensures
            checkpoint@ == checkpoint_of(self@),
    {
        CalibrationCheckpoint {
            schema_version: 1,
            fan: evidence_fan(self.fan),
            failed: self.has_failed(),
            events: clone_events(&self.events),
        }
    }

    fn has_failed(&self) -> (yes: bool)
        ensures
            yes == (self@.phase is Failed),
    {
        match self.phase {
            CalibrationPhase::Failed => true,
            _ => false,
        }
    }

    fn is_complete(&self) -> (yes: bool)
        ensures
            yes == (self@.phase is Complete),
    {
        match self.phase {
            CalibrationPhase::Complete => true,
            _ => false,
        }
    }

    /// Rebuilds a session from a checkpoint. An unfinished session must first revalidate both fans
    /// at maximum.
    pub fn resume(expected_fan: Fan, checkpoint: CalibrationCheckpoint) -> (result: Result<
        ConservativeFanCalibration,
        CalibrationObservationError,
    >)
        ensures
            match resumed(expected_fan, checkpoint@) {
                Some(m) => result matches Ok(session) && session@ == m && session_is_valid(
                    session@,
                ),
                None => result is Err && result->Err_0
                    == CalibrationObservationError::InvalidCheckpoint,
            },
    {
        replay(expected_fan, &checkpoint)
    }

    /// The step that the session waits for.
    pub fn next_step(&self) -> (step: CalibrationStep)
        requires
            session_is_valid(self@),
        ensures
            step == next_step_of(self@),
    {
        if self.resume_phase.is_some() {
            return CalibrationStep::RevalidateBothAtMaximum { pwm_value: 255 };
        }
        match self.phase {
            CalibrationPhase::Sweep { index } => {
                let duty_basis_points: u16 = coarse_sweep_duty(index);
                CalibrationStep::Sweep {
                    duty_basis_points,
                    pwm_value: basis_points_to_pwm(duty_basis_points),
                }
            },
            CalibrationPhase::TransitionToMaximum { attempt } =>
                CalibrationStep::TransitionToMaximum { attempt, pwm_value: 255 },
            CalibrationPhase::TransitionToFloor { attempt } => {
                let duty_basis_points: u16 = self.floor_basis_points.unwrap();
                CalibrationStep::TransitionToFloor {
                    attempt,
                    duty_basis_points,
                    pwm_value: basis_points_to_pwm(duty_basis_points),
                }
            },
            CalibrationPhase::HoldFloor => {
                let duty_basis_points: u16 = self.floor_basis_points.unwrap();
                CalibrationStep::HoldFloor {
                    duty_basis_points,
                    pwm_value: basis_points_to_pwm(duty_basis_points),
                    required_duration_millis: REQUIRED_FLOOR_HOLD_MILLIS,
                }
            },
            CalibrationPhase::CaptureAnchor { index } => {
                let duties = canonical_calibration_anchor_duties(self.floor_basis_points.unwrap());
                let duty_basis_points: u16 = duties[index];
                CalibrationStep::CaptureAnchor {
                    duty_basis_points,
                    pwm_value: basis_points_to_pwm(duty_basis_points),
                }
            },
            CalibrationPhase::Complete => CalibrationStep::Complete,
            CalibrationPhase::Failed => CalibrationStep::Failed,
        }
    }

    pub fn floor_basis_points(&self) -> (floor: Option<u16>)
        ensures
            floor == self@.floor,
    {
        self.floor_basis_points
    }

    pub fn lowest_stable_basis_points(&self) -> (duty: Option<u16>)
        ensures
            duty == if self@.stable_sweep_levels.len() == 0 {
                None::<u16>
            } else {
                Some(self@.stable_sweep_levels.last())
            },
    {
        if self.stable_sweep_levels.len() == 0 {
            None
        } else {
            Some(self.stable_sweep_levels[self.stable_sweep_levels.len() - 1])
        }
    }

    /// The evidence of a completed calibration.
    pub fn evidence(&self) -> (evidence: Option<&FanCalibrationEvidence>)
        ensures
            match evidence {
                Some(evidence) => self@.evidence == Some(evidence@),
                None => self@.evidence is None,
            },
    {
        self.evidence.as_ref()
    }

    fn fail(&mut self)
        ensures
            final(self)@ == failed(old(self)@),
    {
        self.phase = CalibrationPhase::Failed;
        self.evidence = None;
        self.resume_phase = None;
    }

    fn follows_chronology(&self, samples: &Vec<CalibrationReadbackSample>) -> (yes: bool)
        ensures
            yes == chronology_holds(self@, samples@),
    {
        if self.resume_phase.is_some() {
            return true;
        }
        match self.last_observed_monotonic_millis {
            None => true,
            Some(last) => samples.len() > 0 && last < samples[0].monotonic_millis
                && samples[0].monotonic_millis - last <= 2_000,
        }
    }

    fn read_level(&self, observation: &CalibrationLevelObservation) -> (result: Result<
        Option<SettledLevel>,
        CalibrationObservationError,
    >)
        requires
            session_is_valid(self@),
        ensures
            result == level_reading(self@, observation@),
    {
        let step = self.next_step();
        match step {
            CalibrationStep::Complete | CalibrationStep::Failed | CalibrationStep::HoldFloor {
                ..
            } => {
                return Err(CalibrationObservationError::UnexpectedStep);
            },
            _ => {},
        }
        let samples = &observation.samples;
        if samples.len() == 0 || samples[0].monotonic_millis
            != observation.commanded_at_monotonic_millis || !timestamps_are_continuous(
            samples.as_slice(),
        ) || !self.follows_chronology(samples) {
            return Err(CalibrationObservationError::UnexpectedStep);
        }
        match samples_are_wrong(step, samples) {
            Some(error) => {
                return Err(error);
            },
            None => {},
        }
        if !rpms_are_plausible(samples) || first_rpm_index(samples) == samples.len() {
            return Err(CalibrationObservationError::InvalidRpm);
        }
        if observation.stall_observed || observation.unexplained_rpm_collapse_observed {
            assert(samples@.skip(0) =~= samples@);
            if !rpms_are_complete_from(samples, 0) {
                return Err(CalibrationObservationError::InvalidRpm);
            }
            match self.phase {
                CalibrationPhase::Sweep { .. } => Ok(None),
                _ => Err(CalibrationObservationError::UnstableRequiredLevel),
            }
        } else {
            settled_level(observation)
        }
    }

    fn observe_response(&mut self, response_millis: u64)
        ensures
            final(self)@ == with_response(old(self)@, response_millis),
    {
        if self.slowest_response_millis < response_millis {
            self.slowest_response_millis = response_millis;
        }
    }

    fn record_sweep(&mut self, index: usize, level: Option<SettledLevel>) -> (result: Result<
        (),
        CalibrationObservationError,
    >)
        requires
            session_is_valid(old(self)@),
            old(self)@.phase == (CalibrationPhase::Sweep { index }),
        ensures
            match after_sweep(old(self)@, index, level) {
                Ok(after) => result is Ok && final(self)@ == after,
                Err((after, error)) => result == Err::<(), CalibrationObservationError>(error)
                    && final(self)@ == after,
            },
    {
        match level {
            Some(response) => {
                self.observe_response(response.response_millis);
                self.stable_sweep_levels.push(coarse_sweep_duty(index));
                if index + 1 < 5 {
                    self.phase = CalibrationPhase::Sweep { index: index + 1 };
                    return Ok(());
                }
            },
            None => {},
        }
        match self.lowest_stable_basis_points() {
            None => {
                self.fail();
                Err(CalibrationObservationError::ConservativeMarginUnavailable)
            },
            Some(lowest_stable) => {
                assert(lowest_stable <= 10_000) by {
                    let levels = self@.stable_sweep_levels;
                    assert(levels.last() == levels[levels.len() - 1]);
                }
                let floor: u16 = lowest_stable + 1_000;
                if floor > 10_000 {
                    self.fail();
                    return Err(CalibrationObservationError::ConservativeMarginUnavailable);
                }
                self.floor_basis_points = Some(floor);
                self.phase = CalibrationPhase::TransitionToMaximum { attempt: 1 };
                Ok(())
            },
        }
    }

    fn advance(&mut self, level: Option<SettledLevel>) -> (result: Result<
        (),
        CalibrationObservationError,
    >)
        requires
            session_is_valid(old(self)@),
            !(old(self)@.phase is Failed),
        ensures
            match after_level(old(self)@, level) {
                Ok(after) => result is Ok && final(self)@ == after,
                Err((after, error)) => result == Err::<(), CalibrationObservationError>(error)
                    && final(self)@ == after,
            },
    {
        if self.resume_phase.is_none() {
            match self.phase {
                CalibrationPhase::Sweep { index } => {
                    return self.record_sweep(index, level);
                },
                _ => {},
            }
        }
        let response = match level {
            Some(response) => response,
            None => {
                self.fail();
                return Err(CalibrationObservationError::UnstableRequiredLevel);
            },
        };
        match self.resume_phase {
            Some(phase) => {
                self.observe_response(response.response_millis);
                self.phase = phase;
                self.resume_phase = None;
                return Ok(());
            },
            None => {},
        }
        match self.phase {
            CalibrationPhase::TransitionToMaximum { attempt } => {
                self.observe_response(response.response_millis);
                self.phase = CalibrationPhase::TransitionToFloor { attempt };
                Ok(())
            },
            CalibrationPhase::TransitionToFloor { attempt } => {
                self.observe_response(response.response_millis);
                if attempt == REQUIRED_MAXIMUM_TO_FLOOR_TRANSITIONS {
                    self.phase = CalibrationPhase::HoldFloor;
                } else {
                    self.phase = CalibrationPhase::TransitionToMaximum { attempt: attempt + 1 };
                }
                Ok(())
            },
            CalibrationPhase::CaptureAnchor { index } => {
                self.observe_response(response.response_millis);
                if self.anchors.len() > 0 && response.median_rpm < self.anchors[self.anchors.len()
                    - 1].median_rpm {
                    self.fail();
                    return Err(CalibrationObservationError::DecreasingAnchorRpm);
                }
                let duties = canonical_calibration_anchor_duties(self.floor_basis_points.unwrap());
                self.anchors.push(
                    RpmAnchorEvidence {
                        duty_basis_points: duties[index],
                        median_rpm: response.median_rpm,
                    },
                );
                if index + 1 == duties.len() {
                    self.phase = CalibrationPhase::Complete;
                } else {
                    self.phase = CalibrationPhase::CaptureAnchor { index: index + 1 };
                }
                Ok(())
            },
            _ => {
                self.fail();
                Err(CalibrationObservationError::UnexpectedStep)
            },
        }
    }

    fn keep_event(&mut self, event: CalibrationCheckpointEvent, last_observed: u64)
        requires
            old(self)@.phase is Complete ==> old(self)@.floor is Some,
        ensures
            final(self)@ == with_event(old(self)@, event@, last_observed),
    {
        self.last_observed_monotonic_millis = Some(last_observed);
        self.events.push(event);
        assert(self@.events =~= old(self)@.events.push(event@));
        if self.is_complete() {
            self.evidence = Some(
                FanCalibrationEvidence {
                    fan: evidence_fan(self.fan),
                    floor_basis_points: self.floor_basis_points.unwrap(),
                    slowest_response_millis: Some(self.slowest_response_millis),
                    protocol_checkpoint: Some(self.checkpoint()),
                    response_deadline_millis: calibration_response_deadline(
                        self.slowest_response_millis,
                    ),
                    anchors: clone_anchors(&self.anchors),
                },
            );
        }
    }

    /// Records the answer to a step that commands one duty.
    pub fn record_level(&mut self, observation: CalibrationLevelObservation) -> (result: Result<
        (),
        CalibrationObservationError,
    >)
        requires
            session_is_valid(old(self)@),
        ensures
            (final(self)@, result) == level_outcome(old(self)@, observation@),
            session_is_valid(final(self)@),
    {
        proof {
            level_keeps_session_valid(self@, observation@);
        }
        if self.has_failed() {
            return Err(CalibrationObservationError::StageAlreadyFailed);
        }
        let step = self.next_step();
        let level = match self.read_level(&observation) {
            Ok(level) => level,
            Err(error) => {
                self.fail();
                return Err(error);
            },
        };
        let last_observed: u64 = observation.samples[observation.samples.len()
            - 1].monotonic_millis;
        assert(last_observed == observation@.samples.last().monotonic_millis);
        match self.advance(level) {
            Ok(()) => {
                self.keep_event(
                    CalibrationCheckpointEvent::Level { step, observation },
                    last_observed,
                );
                Ok(())
            },
            Err(error) => Err(error),
        }
    }

    /// Records the fifteen-minute hold at the floor.
    pub fn record_hold(&mut self, observation: FanHoldObservation) -> (result: Result<
        (),
        CalibrationObservationError,
    >)
        requires
            session_is_valid(old(self)@),
        ensures
            (final(self)@, result) == hold_outcome(old(self)@, observation@),
            session_is_valid(final(self)@),
    {
        proof {
            hold_keeps_session_valid(self@, observation@);
        }
        if self.has_failed() {
            return Err(CalibrationObservationError::StageAlreadyFailed);
        }
        let step = self.next_step();
        match self.find_hold_error(&observation) {
            Some(error) => {
                self.fail();
                return Err(error);
            },
            None => {},
        }
        let last_observed: u64 = observation.samples[observation.samples.len()
            - 1].monotonic_millis;
        self.phase = CalibrationPhase::CaptureAnchor { index: 0 };
        self.keep_event(
            CalibrationCheckpointEvent::Hold { step, hold: observation },
            last_observed,
        );
        Ok(())
    }

    fn find_hold_error(&self, hold: &FanHoldObservation) -> (error: Option<
        CalibrationObservationError,
    >)
        requires
            session_is_valid(self@),
        ensures
            error == hold_error(self@, hold@),
            error is None ==> hold@.samples.len() > 0,
    {
        match self.phase {
            CalibrationPhase::HoldFloor => {},
            _ => {
                return Some(CalibrationObservationError::UnexpectedStep);
            },
        }
        if self.resume_phase.is_some() {
            return Some(CalibrationObservationError::UnexpectedStep);
        }
        if hold.stall_observed || hold.unexplained_rpm_collapse_observed {
            return Some(CalibrationObservationError::IncompleteHold);
        }
        let samples = &hold.samples;
        if !self.follows_chronology(samples) {
            return Some(CalibrationObservationError::UnexpectedStep);
        }
        match samples_are_wrong(self.next_step(), samples) {
            Some(error) => {
                return Some(error);
            },
            None => {},
        }
        let first: u64 = samples[0].monotonic_millis;
        let last: u64 = samples[samples.len() - 1].monotonic_millis;
        if last < first || last - first < REQUIRED_FLOOR_HOLD_MILLIS || samples.len() < 451
            || !timestamps_are_continuous(samples.as_slice()) {
            return Some(CalibrationObservationError::IncompleteHold);
        }
        assert(samples@.skip(0) =~= samples@);
        if !rpms_are_complete_from(samples, 0) {
            return Some(CalibrationObservationError::IncompleteHold);
        }
        if !rpms_are_plausible(samples) {
            return Some(CalibrationObservationError::InvalidRpm);
        }
        let rpms = readings_from(samples, 0);
        match stable_rpm_median_values(&rpms) {
            Some(_) => None,
            None => Some(CalibrationObservationError::IncompleteHold),
        }
    }
}

fn clone_anchors(anchors: &Vec<RpmAnchorEvidence>) -> (copy: Vec<RpmAnchorEvidence>)
    ensures
        copy@ == anchors@,
{
    let mut copy: Vec<RpmAnchorEvidence> = Vec::new();
    let mut i: usize = 0;
    while i < anchors.len()
        invariant
            i <= anchors.len(),
            copy.len() == i,
            forall|k: int| 0 <= k < i ==> copy@[k] == anchors@[k],
        decreases anchors.len() - i,
    {
        copy.push(anchors[i]);
        i = i + 1;
    }
    assert(copy@ =~= anchors@);
    copy
}

/// Once a prefix of the events does not replay, no longer list does.
proof fn lemma_replay_stops(fan: Fan, events: Seq<EventModel>, prefix: int)
    requires
        0 <= prefix <= events.len(),
        replayed(fan, events.take(prefix)) is None,
    ensures
        replayed(fan, events) is None,
    decreases events.len() - prefix,
{
    if prefix == events.len() {
        assert(events.take(prefix) =~= events);
    } else {
        let longer = events.take(prefix + 1);
        assert(longer.drop_last() =~= events.take(prefix));
        lemma_replay_stops(fan, events, prefix + 1);
    }
}

/// Rebuilds a session from a borrowed checkpoint.
pub(crate) fn replay(expected_fan: Fan, checkpoint: &CalibrationCheckpoint) -> (result: Result<
    ConservativeFanCalibration,
    CalibrationObservationError,
>)
    ensures
        match resumed(expected_fan, checkpoint@) {
            Some(m) => result matches Ok(session) && session@ == m && session_is_valid(session@),
            None => result is Err && result->Err_0
                == CalibrationObservationError::InvalidCheckpoint,
        },
{
    if checkpoint.schema_version != 1 || checkpoint.failed || checkpoint.fan != evidence_fan(
        expected_fan,
    ) {
        return Err(CalibrationObservationError::InvalidCheckpoint);
    }
    let mut session = ConservativeFanCalibration::start(expected_fan);
    let ghost all = checkpoint@.events;
    let mut i: usize = 0;
    assert(all.take(0) =~= Seq::<EventModel>::empty());
    while i < checkpoint.events.len()
        invariant
            i <= checkpoint.events.len(),
            all == checkpoint@.events,
            all.len() == checkpoint.events.len(),
            session_is_valid(session@),
            session@.resume_phase is None,
            replayed(expected_fan, all.take(i as int)) == Some(session@),
            resumed(expected_fan, checkpoint@) == match replayed(expected_fan, all) {
                Some(m) => Some(
                    SessionModel {
                        resume_phase: if m.phase is Complete {
                            None
                        } else {
                            Some(m.phase)
                        },
                        ..m
                    },
                ),
                None => None,
            },
        decreases checkpoint.events.len() - i,
    {
        proof {
            let longer = all.take(i + 1);
            assert(longer.drop_last() =~= all.take(i as int));
            assert(longer.last() == checkpoint.events@[i as int]@);
            replay_is_valid(expected_fan, longer);
            if replayed(expected_fan, longer) is None {
                lemma_replay_stops(expected_fan, all, i + 1);
            }
        }
        if session.is_complete() {
            return Err(CalibrationObservationError::InvalidCheckpoint);
        }
        match &checkpoint.events[i] {
            CalibrationCheckpointEvent::Level { step, observation } => {
                let ghost before = session@;
                proof {
                    replay_is_valid(expected_fan, all.take(i as int));
                }
                match step {
                    CalibrationStep::RevalidateBothAtMaximum { .. } => {
                        session.resume_phase = Some(session.phase);
                    },
                    _ => {},
                }
                assert(SessionModel { resume_phase: None, ..before } == before);
                assert(SessionModel { resume_phase: None, ..session@ } == before);
                assert(session_is_valid(session@));
                if session.next_step() != *step {
                    return Err(CalibrationObservationError::InvalidCheckpoint);
                }
                match session.record_level(observation.clone()) {
                    Ok(()) => {},
                    Err(_) => {
                        return Err(CalibrationObservationError::InvalidCheckpoint);
                    },
                }
            },
            CalibrationCheckpointEvent::Hold { step, hold } => {
                if session.next_step() != *step {
                    return Err(CalibrationObservationError::InvalidCheckpoint);
                }
                match session.record_hold(hold.clone()) {
                    Ok(()) => {},
                    Err(_) => {
                        return Err(CalibrationObservationError::InvalidCheckpoint);
                    },
                }
            },
        }
        i = i + 1;
    }
    assert(all.take(all.len() as int) =~= all);
    let ghost last = session@;
    proof {
        replay_is_valid(expected_fan, all);
    }
    if !session.is_complete() {
        session.resume_phase = Some(session.phase);
    }
    assert(SessionModel { resume_phase: None, ..last } == last);
    assert(SessionModel { resume_phase: None, ..session@ } == last);
    Ok(session)
}

} // verus!
