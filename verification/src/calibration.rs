//! The conservative fan-calibration protocol.
//!
//! A session walks a descending duty sweep, five maximum-to-floor transitions, a fifteen-minute
//! hold at the derived floor and a capture of steady RPM anchors. Every accepted observation is
//! kept as an event, so that a checkpoint replays to the session that wrote it.

use vstd::prelude::*;
use crate::evidence::EvidenceFan;
use crate::order::{sort_values, sorted, sorted_orders_the_same_values};
use crate::tachometer::{plausible_rpm, rpm_is_plausible, MAXIMUM_PLAUSIBLE_RPM};

verus! {

pub const REQUIRED_MAXIMUM_TO_FLOOR_TRANSITIONS: u8 = 5;

pub const REQUIRED_FLOOR_HOLD_MILLIS: u64 = 900_000;

pub const MAXIMUM_CALIBRATION_RESPONSE_MILLIS: u64 = 10_000;

const MAXIMUM_DUTY_BASIS_POINTS: u16 = 10_000;

/// The one action that a session waits for.
#[derive(Debug, Clone, Copy, PartialEq, Eq, Structural)]
pub enum CalibrationStep {
    RevalidateBothAtMaximum { pwm_value: u8 },
    Sweep { duty_basis_points: u16, pwm_value: u8 },
    TransitionToMaximum { attempt: u8, pwm_value: u8 },
    TransitionToFloor { attempt: u8, duty_basis_points: u16, pwm_value: u8 },
    HoldFloor { duty_basis_points: u16, pwm_value: u8, required_duration_millis: u64 },
    CaptureAnchor { duty_basis_points: u16, pwm_value: u8 },
    Complete,
    Failed,
}

impl CalibrationStep {
    /// The duty that the step commands.
    pub open spec fn duty(self) -> Option<u16> {
        match self {
            CalibrationStep::Sweep { duty_basis_points, .. } => Some(duty_basis_points),
            CalibrationStep::TransitionToFloor { duty_basis_points, .. } => Some(duty_basis_points),
            CalibrationStep::HoldFloor { duty_basis_points, .. } => Some(duty_basis_points),
            CalibrationStep::CaptureAnchor { duty_basis_points, .. } => Some(duty_basis_points),
            CalibrationStep::RevalidateBothAtMaximum { .. } => Some(10_000),
            CalibrationStep::TransitionToMaximum { .. } => Some(10_000),
            CalibrationStep::Complete => None,
            CalibrationStep::Failed => None,
        }
    }

    /// The PWM value that the step commands.
    pub open spec fn pwm(self) -> Option<u8> {
        match self {
            CalibrationStep::RevalidateBothAtMaximum { pwm_value } => Some(pwm_value),
            CalibrationStep::Sweep { pwm_value, .. } => Some(pwm_value),
            CalibrationStep::TransitionToMaximum { pwm_value, .. } => Some(pwm_value),
            CalibrationStep::TransitionToFloor { pwm_value, .. } => Some(pwm_value),
            CalibrationStep::HoldFloor { pwm_value, .. } => Some(pwm_value),
            CalibrationStep::CaptureAnchor { pwm_value, .. } => Some(pwm_value),
            CalibrationStep::Complete => None,
            CalibrationStep::Failed => None,
        }
    }

    pub fn duty_basis_points(self) -> (duty: Option<u16>)
        ensures
            duty == self.duty(),
    {
        match self {
            CalibrationStep::Sweep { duty_basis_points, .. } => Some(duty_basis_points),
            CalibrationStep::TransitionToFloor { duty_basis_points, .. } => Some(duty_basis_points),
            CalibrationStep::HoldFloor { duty_basis_points, .. } => Some(duty_basis_points),
            CalibrationStep::CaptureAnchor { duty_basis_points, .. } => Some(duty_basis_points),
            CalibrationStep::RevalidateBothAtMaximum { .. } => Some(MAXIMUM_DUTY_BASIS_POINTS),
            CalibrationStep::TransitionToMaximum { .. } => Some(MAXIMUM_DUTY_BASIS_POINTS),
            CalibrationStep::Complete => None,
            CalibrationStep::Failed => None,
        }
    }

    pub fn pwm_value(self) -> (pwm: Option<u8>)
        ensures
            pwm == self.pwm(),
    {
        match self {
            CalibrationStep::RevalidateBothAtMaximum { pwm_value } => Some(pwm_value),
            CalibrationStep::Sweep { pwm_value, .. } => Some(pwm_value),
            CalibrationStep::TransitionToMaximum { pwm_value, .. } => Some(pwm_value),
            CalibrationStep::TransitionToFloor { pwm_value, .. } => Some(pwm_value),
            CalibrationStep::HoldFloor { pwm_value, .. } => Some(pwm_value),
            CalibrationStep::CaptureAnchor { pwm_value, .. } => Some(pwm_value),
            CalibrationStep::Complete => None,
            CalibrationStep::Failed => None,
        }
    }
}

#[derive(Debug, Clone, Copy, PartialEq, Eq)]
pub struct CalibrationReadbackSample {
    pub monotonic_millis: u64,
    pub selected_enable_readback: u8,
    pub selected_pwm_readback: u8,
    pub other_enable_readback: u8,
    pub other_pwm_readback: u8,
    pub selected_rpm: Option<u32>,
}

#[derive(Debug, PartialEq, Eq)]
pub struct CalibrationLevelObservation {
    pub commanded_at_monotonic_millis: u64,
    pub samples: Vec<CalibrationReadbackSample>,
    pub stall_observed: bool,
    pub unexplained_rpm_collapse_observed: bool,
}

#[derive(Debug, PartialEq, Eq)]
pub struct FanHoldObservation {
    pub samples: Vec<CalibrationReadbackSample>,
    pub stall_observed: bool,
    pub unexplained_rpm_collapse_observed: bool,
}

#[derive(Debug, Clone, Copy, PartialEq, Eq, Structural)]
pub enum CalibrationObservationError {
    UnexpectedStep,
    SelectedFanReadbackMismatch,
    OtherFanNotAtMaximum,
    InvalidRpm,
    InconclusiveObservation,
    ConservativeMarginUnavailable,
    UnstableRequiredLevel,
    IncompleteHold,
    DecreasingAnchorRpm,
    StageAlreadyFailed,
    InvalidCheckpoint,
}

impl CalibrationObservationError {
    /// The message shown to an operator.
    pub fn message(self) -> (text: &'static str)
        ensures
            text@ == match self {
                CalibrationObservationError::UnexpectedStep =>
                    "observation does not match the pending calibration step"@,
                CalibrationObservationError::SelectedFanReadbackMismatch =>
                    "selected fan mode or PWM readback does not match the command"@,
                CalibrationObservationError::OtherFanNotAtMaximum =>
                    "the other fan is not verified in Custom mode at maximum"@,
                CalibrationObservationError::InvalidRpm =>
                    "tachometer sample is outside the plausible range"@,
                CalibrationObservationError::InconclusiveObservation =>
                    "calibration observation does not contain conclusive settled evidence"@,
                CalibrationObservationError::ConservativeMarginUnavailable =>
                    "a full ten-point margin above the lowest stable level cannot fit"@,
                CalibrationObservationError::UnstableRequiredLevel =>
                    "a required calibration level was unstable"@,
                CalibrationObservationError::IncompleteHold =>
                    "the floor hold was shorter than fifteen minutes or had a sampling gap"@,
                CalibrationObservationError::DecreasingAnchorRpm =>
                    "steady RPM anchor medians must not decrease as duty increases"@,
                CalibrationObservationError::StageAlreadyFailed =>
                    "the calibration stage has already failed"@,
                CalibrationObservationError::InvalidCheckpoint =>
                    "the calibration checkpoint is invalid"@,
            },
    {
        match self {
            CalibrationObservationError::UnexpectedStep =>
                "observation does not match the pending calibration step",
            CalibrationObservationError::SelectedFanReadbackMismatch =>
                "selected fan mode or PWM readback does not match the command",
            CalibrationObservationError::OtherFanNotAtMaximum =>
                "the other fan is not verified in Custom mode at maximum",
            CalibrationObservationError::InvalidRpm =>
                "tachometer sample is outside the plausible range",
            CalibrationObservationError::InconclusiveObservation =>
                "calibration observation does not contain conclusive settled evidence",
            CalibrationObservationError::ConservativeMarginUnavailable =>
                "a full ten-point margin above the lowest stable level cannot fit",
            CalibrationObservationError::UnstableRequiredLevel =>
                "a required calibration level was unstable",
            CalibrationObservationError::IncompleteHold =>
                "the floor hold was shorter than fifteen minutes or had a sampling gap",
            CalibrationObservationError::DecreasingAnchorRpm =>
                "steady RPM anchor medians must not decrease as duty increases",
            CalibrationObservationError::StageAlreadyFailed =>
                "the calibration stage has already failed",
            CalibrationObservationError::InvalidCheckpoint =>
                "the calibration checkpoint is invalid",
        }
    }
}

/// Where a session stands in the protocol.
#[derive(Debug, Clone, Copy, PartialEq, Eq, Structural)]
pub enum CalibrationPhase {
    Sweep { index: usize },
    TransitionToMaximum { attempt: u8 },
    TransitionToFloor { attempt: u8 },
    HoldFloor,
    CaptureAnchor { index: usize },
    Complete,
    Failed,
}

/// One accepted observation with the step that it answered.
#[derive(Debug, PartialEq, Eq)]
pub enum CalibrationCheckpointEvent {
    Level { step: CalibrationStep, observation: CalibrationLevelObservation },
    Hold { step: CalibrationStep, hold: FanHoldObservation },
}

/// A session's accepted observations, from which the session can be rebuilt.
#[derive(Debug, PartialEq, Eq)]
pub struct CalibrationCheckpoint {
    pub schema_version: u32,
    pub fan: EvidenceFan,
    pub failed: bool,
    pub events: Vec<CalibrationCheckpointEvent>,
}

/// The contents of a level observation.
pub struct LevelModel {
    pub commanded_at: u64,
    pub samples: Seq<CalibrationReadbackSample>,
    pub stall_observed: bool,
    pub collapse_observed: bool,
}

/// The contents of a hold observation.
pub struct HoldModel {
    pub samples: Seq<CalibrationReadbackSample>,
    pub stall_observed: bool,
    pub collapse_observed: bool,
}

/// The contents of an event.
pub enum EventModel {
    Level { step: CalibrationStep, observation: LevelModel },
    Hold { step: CalibrationStep, hold: HoldModel },
}

/// The contents of a checkpoint.
pub struct CheckpointModel {
    pub schema_version: u32,
    pub fan: EvidenceFan,
    pub failed: bool,
    pub events: Seq<EventModel>,
}

impl View for CalibrationLevelObservation {
    type V = LevelModel;

    open spec fn view(&self) -> LevelModel {
        LevelModel {
            commanded_at: self.commanded_at_monotonic_millis,
            samples: self.samples@,
            stall_observed: self.stall_observed,
            collapse_observed: self.unexplained_rpm_collapse_observed,
        }
    }
}

impl View for FanHoldObservation {
    type V = HoldModel;

    open spec fn view(&self) -> HoldModel {
        HoldModel {
            samples: self.samples@,
            stall_observed: self.stall_observed,
            collapse_observed: self.unexplained_rpm_collapse_observed,
        }
    }
}

impl View for CalibrationCheckpointEvent {
    type V = EventModel;

    open spec fn view(&self) -> EventModel {
        match *self {
            CalibrationCheckpointEvent::Level { step, observation } => EventModel::Level {
                step,
                observation: observation@,
            },
            CalibrationCheckpointEvent::Hold { step, hold } => EventModel::Hold {
                step,
                hold: hold@,
            },
        }
    }
}

/// The contents of a list of events.
pub open spec fn events(values: Seq<CalibrationCheckpointEvent>) -> Seq<EventModel> {
    values.map_values(|e: CalibrationCheckpointEvent| e@)
}

impl View for CalibrationCheckpoint {
    type V = CheckpointModel;

    open spec fn view(&self) -> CheckpointModel {
        CheckpointModel {
            schema_version: self.schema_version,
            fan: self.fan,
            failed: self.failed,
            events: events(self.events@),
        }
    }
}

fn clone_samples(samples: &Vec<CalibrationReadbackSample>) -> (copy: Vec<CalibrationReadbackSample>)
    ensures
        copy@ == samples@,
{
    let mut copy: Vec<CalibrationReadbackSample> = Vec::new();
    let mut i: usize = 0;
    while i < samples.len()
        invariant
            i <= samples.len(),
            copy.len() == i,
            forall|k: int| 0 <= k < i ==> copy@[k] == samples@[k],
        decreases samples.len() - i,
    {
        copy.push(samples[i]);
        i = i + 1;
    }
    assert(copy@ =~= samples@);
    copy
}

impl Clone for CalibrationLevelObservation {
    fn clone(&self) -> (copy: CalibrationLevelObservation)
        ensures
            copy@ == self@,
    {
        CalibrationLevelObservation {
            commanded_at_monotonic_millis: self.commanded_at_monotonic_millis,
            samples: clone_samples(&self.samples),
            stall_observed: self.stall_observed,
            unexplained_rpm_collapse_observed: self.unexplained_rpm_collapse_observed,
        }
    }
}

impl Clone for FanHoldObservation {
    fn clone(&self) -> (copy: FanHoldObservation)
        ensures
            copy@ == self@,
    {
        FanHoldObservation {
            samples: clone_samples(&self.samples),
            stall_observed: self.stall_observed,
            unexplained_rpm_collapse_observed: self.unexplained_rpm_collapse_observed,
        }
    }
}

impl Clone for CalibrationCheckpointEvent {
    fn clone(&self) -> (copy: CalibrationCheckpointEvent)
        ensures
            copy@ == self@,
    {
        match self {
            CalibrationCheckpointEvent::Level { step, observation } =>
                CalibrationCheckpointEvent::Level { step: *step, observation: observation.clone() },
            CalibrationCheckpointEvent::Hold { step, hold } => CalibrationCheckpointEvent::Hold {
                step: *step,
                hold: hold.clone(),
            },
        }
    }
}

pub(crate) fn clone_events(
    values: &Vec<CalibrationCheckpointEvent>,
) -> (copy: Vec<CalibrationCheckpointEvent>)
    ensures
        events(copy@) == events(values@),
{
    let mut copy: Vec<CalibrationCheckpointEvent> = Vec::new();
    let mut i: usize = 0;
    while i < values.len()
        invariant
            i <= values.len(),
            copy.len() == i,
            forall|k: int| 0 <= k < i ==> copy@[k]@ == values@[k]@,
        decreases values.len() - i,
    {
        copy.push(values[i].clone());
        i = i + 1;
    }
    assert(events(copy@) =~= events(values@));
    copy
}

impl Clone for CalibrationCheckpoint {
    fn clone(&self) -> (copy: CalibrationCheckpoint)
        ensures
            copy@ == self@,
    {
        CalibrationCheckpoint {
            schema_version: self.schema_version,
            fan: self.fan,
            failed: self.failed,
            events: clone_events(&self.events),
        }
    }
}

/// The response deadline that follows from the slowest response seen.
pub open spec fn response_deadline(slowest_response_millis: u64) -> u64 {
    if slowest_response_millis + 2_000 <= 10_000 {
        (slowest_response_millis + 2_000) as u64
    } else {
        10_000
    }
}

pub(crate) fn calibration_response_deadline(slowest_response_millis: u64) -> (deadline: u64)
    ensures
        deadline == response_deadline(slowest_response_millis),
{
    let padded: u64 = slowest_response_millis.saturating_add(2_000);
    if padded <= MAXIMUM_CALIBRATION_RESPONSE_MILLIS {
        padded
    } else {
        MAXIMUM_CALIBRATION_RESPONSE_MILLIS
    }
}

/// The floors that a calibration may derive.
pub open spec fn allowed_floor(floor_basis_points: u16) -> bool {
    floor_basis_points == 4_000 || floor_basis_points == 5_000 || floor_basis_points == 6_000
        || floor_basis_points == 7_000
}

pub(crate) fn is_allowed_calibration_floor(floor_basis_points: u16) -> (yes: bool)
    ensures
        yes == allowed_floor(floor_basis_points),
{
    floor_basis_points == 4_000 || floor_basis_points == 5_000 || floor_basis_points == 6_000
        || floor_basis_points == 7_000
}

/// The duty half way from a floor to 75 percent, or the floor itself from there on.
pub open spec fn anchor_midpoint(floor: u16) -> u16 {
    if floor < 7_500 {
        (floor + (7_500 - floor) / 2) as u16
    } else {
        floor
    }
}

/// The duties at which steady RPM anchors are captured: the floor, the midpoint, 75 percent and
/// full duty, with no duty directly after itself.
pub open spec fn anchor_duties(floor: u16) -> Seq<u16> {
    let middle = anchor_midpoint(floor);
    seq![floor] + (if middle != floor {
        seq![middle]
    } else {
        Seq::empty()
    }) + (if middle != 7_500 {
        seq![7_500u16]
    } else {
        Seq::empty()
    }) + seq![10_000u16]
}

pub(crate) fn canonical_calibration_anchor_duties(floor_basis_points: u16) -> (duties: Vec<u16>)
    ensures
        duties@ == anchor_duties(floor_basis_points),
{
    let middle: u16 = floor_basis_points + 7_500u16.saturating_sub(floor_basis_points) / 2;
    let mut duties: Vec<u16> = Vec::new();
    duties.push(floor_basis_points);
    if middle != floor_basis_points {
        duties.push(middle);
    }
    if middle != 7_500 {
        duties.push(7_500);
    }
    duties.push(MAXIMUM_DUTY_BASIS_POINTS);
    assert(duties@ =~= anchor_duties(floor_basis_points));
    duties
}

/// The smallest PWM value that reaches a duty.
pub open spec fn duty_pwm(basis_points: u16) -> u8 {
    ((basis_points * 255 + 9_999) / 10_000) as u8
}

pub(crate) fn basis_points_to_pwm(basis_points: u16) -> (pwm: u8)
    requires
        basis_points <= 10_000,
    ensures
        pwm == duty_pwm(basis_points),
{
    let scaled: u32 = basis_points as u32 * 255;
    ((scaled + 9_999) / 10_000) as u8
}

/// A duty's PWM value is at least the duty's exact share of 255, and less than one above it.
pub proof fn duty_pwm_rounds_up(basis_points: u16)
    requires
        basis_points <= 10_000,
    ensures
        basis_points * 255 <= duty_pwm(basis_points) * 10_000 < basis_points * 255 + 10_000,
{
}

/// Whether successive samples are 1 to 2000 milliseconds apart.
pub open spec fn continuous(samples: Seq<CalibrationReadbackSample>) -> bool {
    &&& samples.len() > 0
    &&& forall|i: int|
        0 <= i < samples.len() - 1 ==> 1 <= (#[trigger] samples[i + 1]).monotonic_millis
            - samples[i].monotonic_millis <= 2_000
}

pub(crate) fn timestamps_are_continuous(samples: &[CalibrationReadbackSample]) -> (yes: bool)
    ensures
        yes == continuous(samples@),
{
    if samples.len() == 0 {
        return false;
    }
    let mut i: usize = 1;
    while i < samples.len()
        invariant
            1 <= i <= samples.len(),
            forall|k: int|
                0 <= k < i - 1 ==> 1 <= (#[trigger] samples@[k + 1]).monotonic_millis
                    - samples@[k].monotonic_millis <= 2_000,
        decreases samples.len() - i,
    {
        let earlier: u64 = samples[i - 1].monotonic_millis;
        let later: u64 = samples[i].monotonic_millis;
        if later <= earlier || later - earlier > 2_000 {
            assert(samples@[(i - 1) + 1] == samples@[i as int]);
            return false;
        }
        i = i + 1;
    }
    true
}

/// RPM readings as plain values.
pub open spec fn rpm_values(rpms: Seq<u32>) -> Seq<i64> {
    rpms.map_values(|rpm: u32| rpm as i64)
}

/// The median of at least three RPM readings, where they spread no wider than a tenth of the
/// median or 50 RPM.
pub open spec fn stable_median(rpms: Seq<u32>) -> Option<u32> {
    if rpms.len() < 3 {
        None
    } else {
        let ordered = sorted(rpm_values(rpms));
        let median = ordered[ordered.len() as int / 2];
        let tolerance = if median * 10 / 100 > 50 {
            median * 10 / 100
        } else {
            50
        };
        if ordered.last() - ordered[0] > tolerance {
            None
        } else {
            Some(median as u32)
        }
    }
}

pub(crate) fn stable_rpm_median_values(rpms: &Vec<u32>) -> (median: Option<u32>)
    requires
        forall|i: int| 0 <= i < rpms@.len() ==> plausible_rpm(#[trigger] rpms@[i]),
    ensures
        median == stable_median(rpms@),
        median matches Some(m) ==> plausible_rpm(m),
{
    if rpms.len() < 3 {
        return None;
    }
    let mut values: Vec<i64> = Vec::new();
    let mut i: usize = 0;
    while i < rpms.len()
        invariant
            i <= rpms.len(),
            values.len() == i,
            forall|k: int| 0 <= k < i ==> values@[k] == rpms@[k] as i64,
        decreases rpms.len() - i,
    {
        values.push(rpms[i] as i64);
        i = i + 1;
    }
    assert(values@ =~= rpm_values(rpms@));
    let ordered = sort_values(&values);
    proof {
        lemma_sorted_rpms_are_plausible(rpms@);
    }
    let median: i64 = ordered[ordered.len() / 2];
    assert(plausible_rpm(median as u32) && median <= MAXIMUM_PLAUSIBLE_RPM);
    let share: i64 = median * 10 / 100;
    let tolerance: i64 = if share > 50 {
        share
    } else {
        50
    };
    let low: i64 = ordered[0];
    let high: i64 = ordered[ordered.len() - 1];
    if high - low > tolerance {
        None
    } else {
        Some(median as u32)
    }
}

proof fn lemma_sorted_rpms_are_plausible(rpms: Seq<u32>)
    requires
        forall|i: int| 0 <= i < rpms.len() ==> plausible_rpm(#[trigger] rpms[i]),
    ensures
        sorted(rpm_values(rpms)).len() == rpms.len(),
        forall|k: int|
            0 <= k < rpms.len() ==> 0 <= #[trigger] sorted(rpm_values(rpms))[k]
                <= MAXIMUM_PLAUSIBLE_RPM && plausible_rpm(sorted(rpm_values(rpms))[k] as u32),
{
    broadcast use vstd::seq_lib::group_to_multiset_ensures;

    let values = rpm_values(rpms);
    let ordered = sorted(values);
    sorted_orders_the_same_values(values);
    assert forall|k: int| 0 <= k < rpms.len() implies 0 <= #[trigger] ordered[k]
        <= MAXIMUM_PLAUSIBLE_RPM && plausible_rpm(ordered[k] as u32) by {
        assert(ordered.contains(ordered[k]));
        assert(ordered.to_multiset().count(ordered[k]) > 0);
        assert(values.contains(ordered[k]));
        let j = choose|j: int| 0 <= j < values.len() && values[j] == ordered[k];
        assert(plausible_rpm(rpms[j]));
    }
}

/// The readings of samples that all carry one.
pub open spec fn readings(samples: Seq<CalibrationReadbackSample>) -> Seq<u32> {
    samples.map_values(|s: CalibrationReadbackSample| s.selected_rpm->0)
}

/// Whether every reading that is present is plausible.
pub open spec fn readings_are_plausible(samples: Seq<CalibrationReadbackSample>) -> bool {
    forall|i: int|
        0 <= i < samples.len() ==> ((#[trigger] samples[i]).selected_rpm matches Some(rpm)
            ==> plausible_rpm(rpm))
}

/// Whether no sample carries a reading.
pub open spec fn readings_are_absent(samples: Seq<CalibrationReadbackSample>) -> bool {
    forall|i: int| 0 <= i < samples.len() ==> (#[trigger] samples[i]).selected_rpm is None
}

/// Whether every sample carries a reading.
pub open spec fn readings_are_complete(samples: Seq<CalibrationReadbackSample>) -> bool {
    forall|i: int| 0 <= i < samples.len() ==> (#[trigger] samples[i]).selected_rpm is Some
}

pub(crate) fn rpms_are_plausible(samples: &Vec<CalibrationReadbackSample>) -> (yes: bool)
    ensures
        yes == readings_are_plausible(samples@),
{
    let mut i: usize = 0;
    while i < samples.len()
        invariant
            i <= samples.len(),
            forall|k: int|
                0 <= k < i ==> ((#[trigger] samples@[k]).selected_rpm matches Some(rpm)
                    ==> plausible_rpm(rpm)),
        decreases samples.len() - i,
    {
        match samples[i].selected_rpm {
            Some(rpm) => {
                if !rpm_is_plausible(rpm) {
                    return false;
                }
            },
            None => {},
        }
        i = i + 1;
    }
    true
}

/// The index of the first sample with a reading, or the number of samples.
pub open spec fn first_reading(samples: Seq<CalibrationReadbackSample>) -> nat
    decreases samples.len(),
{
    if samples.len() == 0 || samples[0].selected_rpm is Some {
        0
    } else {
        1 + first_reading(samples.drop_first())
    }
}

pub(crate) fn first_rpm_index(samples: &Vec<CalibrationReadbackSample>) -> (index: usize)
    ensures
        index as nat == first_reading(samples@),
        index <= samples.len(),
        index == samples.len() <==> readings_are_absent(samples@),
        index < samples.len() ==> samples@[index as int].selected_rpm is Some,
{
    let mut i: usize = 0;
    assert(samples@.skip(0) =~= samples@);
    while i < samples.len() && samples[i].selected_rpm.is_none()
        invariant
            i <= samples.len(),
            first_reading(samples@) == i + first_reading(samples@.skip(i as int)),
            forall|k: int| 0 <= k < i ==> (#[trigger] samples@[k]).selected_rpm is None,
        decreases samples.len() - i,
    {
        proof {
            let rest = samples@.skip(i as int);
            assert(rest[0] == samples@[i as int]);
            assert(rest.drop_first() =~= samples@.skip(i + 1));
        }
        i = i + 1;
    }
    proof {
        let rest = samples@.skip(i as int);
        if i < samples.len() {
            assert(rest[0] == samples@[i as int]);
        }
    }
    i
}

pub(crate) fn rpms_are_complete_from(
    samples: &Vec<CalibrationReadbackSample>,
    start: usize,
) -> (yes: bool)
    requires
        start <= samples.len(),
    ensures
        yes == readings_are_complete(samples@.skip(start as int)),
{
    let mut i: usize = start;
    while i < samples.len()
        invariant
            start <= i <= samples.len(),
            forall|k: int| start <= k < i ==> (#[trigger] samples@[k]).selected_rpm is Some,
        decreases samples.len() - i,
    {
        if samples[i].selected_rpm.is_none() {
            assert(samples@.skip(start as int)[i - start] == samples@[i as int]);
            return false;
        }
        i = i + 1;
    }
    true
}

/// Whether the samples of a window are at least 250 milliseconds apart.
pub open spec fn spaced(samples: Seq<CalibrationReadbackSample>) -> bool {
    forall|i: int|
        0 <= i < samples.len() - 1 ==> (#[trigger] samples[i + 1]).monotonic_millis
            - samples[i].monotonic_millis >= 250
}

/// Whether a window is long enough to be judged: three samples over at least a second, none of
/// them crowded.
pub open spec fn settled_window(samples: Seq<CalibrationReadbackSample>) -> bool {
    &&& samples.len() >= 3
    &&& samples.last().monotonic_millis - samples[0].monotonic_millis >= 1_000
    &&& spaced(samples)
}

/// A settled trailing window: its median RPM and how long the level took to settle.
#[derive(Debug, Clone, Copy, PartialEq, Eq, Structural)]
pub struct SettledLevel {
    pub median_rpm: u32,
    pub response_millis: u64,
}

/// The median of the longest settled window that starts at or after `start` and reaches to the
/// last sample.
pub open spec fn settled_median_from(
    samples: Seq<CalibrationReadbackSample>,
    start: int,
) -> Option<u32>
    decreases samples.len() - start,
{
    if start >= samples.len() {
        None
    } else {
        let window = samples.skip(start);
        if settled_window(window) && stable_median(readings(window)) is Some {
            stable_median(readings(window))
        } else {
            settled_median_from(samples, start + 1)
        }
    }
}

/// What a level observation shows: an error where it cannot be judged, otherwise the settled
/// window if there is one.
pub open spec fn settled(observation: LevelModel) -> Result<
    Option<SettledLevel>,
    CalibrationObservationError,
> {
    let samples = observation.samples;
    let first = first_reading(samples) as int;
    if !readings_are_plausible(samples) || readings_are_absent(samples) {
        Err(CalibrationObservationError::InvalidRpm)
    } else if samples.last().monotonic_millis < observation.commanded_at {
        Err(CalibrationObservationError::InconclusiveObservation)
    } else if !(1_000 <= samples.last().monotonic_millis - observation.commanded_at <= 10_000) {
        Err(CalibrationObservationError::InconclusiveObservation)
    } else if !readings_are_complete(samples.skip(first)) {
        Err(CalibrationObservationError::InvalidRpm)
    } else if samples.len() - first < 3 || !continuous(samples) {
        Err(CalibrationObservationError::InconclusiveObservation)
    } else {
        match settled_median_from(samples, first) {
            Some(median_rpm) => Ok(
                Some(
                    SettledLevel {
                        median_rpm,
                        response_millis: (samples.last().monotonic_millis
                            - observation.commanded_at) as u64,
                    },
                ),
            ),
            None => Ok(None),
        }
    }
}

fn window_is_settled(samples: &Vec<CalibrationReadbackSample>, start: usize) -> (yes: bool)
    requires
        start < samples.len(),
    ensures
        yes == settled_window(samples@.skip(start as int)),
{
    let ghost window = samples@.skip(start as int);
    let first: u64 = samples[start].monotonic_millis;
    let last: u64 = samples[samples.len() - 1].monotonic_millis;
    assert(window[0] == samples@[start as int]);
    assert(window.last() == samples@.last());
    if samples.len() - start < 3 || last < first || last - first < 1_000 {
        return false;
    }
    let mut i: usize = start + 1;
    while i < samples.len()
        invariant
            start + 1 <= i <= samples.len(),
            window == samples@.skip(start as int),
            forall|k: int|
                0 <= k < i - start - 1 ==> (#[trigger] window[k + 1]).monotonic_millis
                    - window[k].monotonic_millis >= 250,
        decreases samples.len() - i,
    {
        let earlier: u64 = samples[i - 1].monotonic_millis;
        let later: u64 = samples[i].monotonic_millis;
        assert(window[i - start] == samples@[i as int]);
        assert(window[i - start - 1] == samples@[i - 1]);
        if later < earlier || later - earlier < 250 {
            assert(window[(i - start - 1) + 1].monotonic_millis - window[i - start
                - 1].monotonic_millis < 250);
            return false;
        }
        i = i + 1;
    }
    true
}

pub(crate) fn readings_from(
    samples: &Vec<CalibrationReadbackSample>,
    start: usize,
) -> (rpms: Vec<u32>)
    requires
        start <= samples.len(),
        readings_are_complete(samples@.skip(start as int)),
        readings_are_plausible(samples@),
    ensures
        rpms@ == readings(samples@.skip(start as int)),
        forall|i: int| 0 <= i < rpms@.len() ==> plausible_rpm(#[trigger] rpms@[i]),
{
    let ghost window = samples@.skip(start as int);
    let mut rpms: Vec<u32> = Vec::new();
    let mut i: usize = start;
    while i < samples.len()
        invariant
            start <= i <= samples.len(),
            window == samples@.skip(start as int),
            readings_are_complete(window),
            readings_are_plausible(samples@),
            rpms.len() == i - start,
            forall|k: int| 0 <= k < i - start ==> rpms@[k] == window[k].selected_rpm->0,
            forall|k: int| 0 <= k < rpms@.len() ==> plausible_rpm(#[trigger] rpms@[k]),
        decreases samples.len() - i,
    {
        assert(window[i - start] == samples@[i as int]);
        match samples[i].selected_rpm {
            Some(rpm) => {
                rpms.push(rpm);
            },
            None => {
                assert(false);
            },
        }
        i = i + 1;
    }
    assert(rpms@ =~= readings(window));
    rpms
}

pub(crate) fn settled_level(observation: &CalibrationLevelObservation) -> (result: Result<
    Option<SettledLevel>,
    CalibrationObservationError,
>)
    ensures
        result == settled(observation@),
        result matches Ok(Some(level)) ==> plausible_rpm(level.median_rpm) && 1_000
            <= level.response_millis <= 10_000,
{
    let samples = &observation.samples;
    if !rpms_are_plausible(samples) {
        return Err(CalibrationObservationError::InvalidRpm);
    }
    let first = first_rpm_index(samples);
    if first == samples.len() {
        return Err(CalibrationObservationError::InvalidRpm);
    }
    let last: u64 = samples[samples.len() - 1].monotonic_millis;
    assert(last == samples@.last().monotonic_millis);
    if last < observation.commanded_at_monotonic_millis {
        return Err(CalibrationObservationError::InconclusiveObservation);
    }
    let response_millis: u64 = last - observation.commanded_at_monotonic_millis;
    if response_millis < 1_000 || response_millis > MAXIMUM_CALIBRATION_RESPONSE_MILLIS {
        return Err(CalibrationObservationError::InconclusiveObservation);
    }
    if !rpms_are_complete_from(samples, first) {
        return Err(CalibrationObservationError::InvalidRpm);
    }
    if samples.len() - first < 3 || !timestamps_are_continuous(samples.as_slice()) {
        return Err(CalibrationObservationError::InconclusiveObservation);
    }
    let mut start: usize = first;
    while start < samples.len()
        invariant
            first <= start <= samples.len(),
            samples == &observation.samples,
            first as nat == first_reading(samples@),
            readings_are_plausible(samples@),
            readings_are_complete(samples@.skip(first as int)),
            1_000 <= response_millis <= 10_000,
            settled_median_from(samples@, first as int) == settled_median_from(
                samples@,
                start as int,
            ),
            settled(observation@) == match settled_median_from(samples@, first as int) {
                Some(median_rpm) => Ok::<Option<SettledLevel>, CalibrationObservationError>(
                    Some(SettledLevel { median_rpm, response_millis }),
                ),
                None => Ok::<Option<SettledLevel>, CalibrationObservationError>(None),
            },
        decreases samples.len() - start,
    {
        if window_is_settled(samples, start) {
            proof {
                let outer = samples@.skip(first as int);
                let window = samples@.skip(start as int);
                assert forall|k: int| 0 <= k < window.len() implies (
                #[trigger] window[k]).selected_rpm is Some by {
                    assert(window[k] == outer[k + start - first]);
                }
            }
            let rpms = readings_from(samples, start);
            match stable_rpm_median_values(&rpms) {
                Some(median_rpm) => {
                    return Ok(Some(SettledLevel { median_rpm, response_millis }));
                },
                None => {},
            }
        }
        start = start + 1;
    }
    Ok(None)
}

/// Reports whether a level observation contains a valid settled trailing RPM window.
///
/// The same classifier is used when the completed protocol is validated, keeping live capture
/// and evidence replay on one definition of settled behavior.
pub fn calibration_level_is_settled(observation: &CalibrationLevelObservation) -> (result: Result<
    bool,
    CalibrationObservationError,
>)
    ensures
        result == match settled(observation@) {
            Ok(level) => Ok::<bool, CalibrationObservationError>(level is Some),
            Err(error) => Err::<bool, CalibrationObservationError>(error),
        },
{
    match settled_level(observation) {
        Ok(level) => Ok(level.is_some()),
        Err(error) => Err(error),
    }
}

/// A stable median is one of the readings.
proof fn lemma_stable_median_is_plausible(rpms: Seq<u32>)
    requires
        forall|i: int| 0 <= i < rpms.len() ==> plausible_rpm(#[trigger] rpms[i]),
    ensures
        stable_median(rpms) matches Some(median) ==> plausible_rpm(median),
{
    lemma_sorted_rpms_are_plausible(rpms);
    if rpms.len() >= 3 {
        let ordered = sorted(rpm_values(rpms));
        let median = ordered[ordered.len() as int / 2];
        assert(plausible_rpm(median as u32));
    }
}

proof fn lemma_settled_median_is_plausible(samples: Seq<CalibrationReadbackSample>, start: int)
    requires
        0 <= start <= samples.len(),
        readings_are_plausible(samples),
        readings_are_complete(samples.skip(start)),
    ensures
        settled_median_from(samples, start) matches Some(median) ==> plausible_rpm(median),
    decreases samples.len() - start,
{
    if start < samples.len() {
        let window = samples.skip(start);
        let rpms = readings(window);
        assert forall|i: int| 0 <= i < rpms.len() implies plausible_rpm(#[trigger] rpms[i]) by {
            assert(window[i] == samples[start + i]);
            assert(window[i].selected_rpm is Some);
        }
        lemma_stable_median_is_plausible(rpms);
        let rest = samples.skip(start + 1);
        assert forall|i: int| 0 <= i < rest.len() implies (#[trigger] rest[i]).selected_rpm is Some by {
            assert(rest[i] == window[i + 1]);
        }
        lemma_settled_median_is_plausible(samples, start + 1);
    }
}

proof fn lemma_first_reading(samples: Seq<CalibrationReadbackSample>)
    ensures
        first_reading(samples) <= samples.len(),
    decreases samples.len(),
{
    if samples.len() > 0 && samples[0].selected_rpm is None {
        lemma_first_reading(samples.drop_first());
    }
}

/// A settled level has a plausible median and answered within one to ten seconds.
pub proof fn settled_level_is_plausible(observation: LevelModel)
    ensures
        settled(observation) matches Ok(Some(level)) ==> plausible_rpm(level.median_rpm) && 1_000
            <= level.response_millis <= 10_000,
{
    lemma_first_reading(observation.samples);
    let first = first_reading(observation.samples) as int;
    if readings_are_plausible(observation.samples) && readings_are_complete(
        observation.samples.skip(first),
    ) {
        lemma_settled_median_is_plausible(observation.samples, first);
    }
}

} // verus!
