//! Qualified tachometer calibrations and the supervision that they allow.

use vstd::prelude::*;
use vstd::string::*;
use crate::calibration::{
    allowed_floor, anchor_duties, canonical_calibration_anchor_duties, is_allowed_calibration_floor,
};
use crate::config::{ConfigModel, ValidatedConfig};
use crate::evidence::RpmAnchorEvidence;
use crate::platform::{deadline_after, moment_after};
use crate::tachometer::{
    expected_rpm, expected_rpm_from_anchors, in_band, plausible_rpm, rpm_in_band, rpm_is_plausible,
    Fan,
};
use crate::text::join;

verus! {

broadcast use vstd::string::group_string_axioms;

/// One fan's calibration as a policy carries it.
#[derive(Debug, PartialEq, Eq)]
pub struct FanTachometerConfig {
    pub floor_basis_points: u16,
    pub response_deadline_millis: u64,
    pub anchors: Vec<RpmAnchorEvidence>,
}

/// Both fans' calibrations as a policy carries them.
#[derive(Debug, PartialEq, Eq)]
pub struct TachometerCalibrationConfig {
    pub cpu: FanTachometerConfig,
    pub gpu: FanTachometerConfig,
}

/// The contents of one fan's calibration.
pub struct FanTachometerModel {
    pub floor_basis_points: u16,
    pub response_deadline_millis: u64,
    pub anchors: Seq<RpmAnchorEvidence>,
}

impl View for FanTachometerConfig {
    type V = FanTachometerModel;

    open spec fn view(&self) -> FanTachometerModel {
        FanTachometerModel {
            floor_basis_points: self.floor_basis_points,
            response_deadline_millis: self.response_deadline_millis,
            anchors: self.anchors@,
        }
    }
}

/// Why a calibration does not qualify for a protected configuration.
#[derive(Debug, Clone, Copy, PartialEq, Eq, Structural)]
pub enum TachometerCalibrationError {
    UnsupportedFloor { fan: Fan },
    FloorAboveProtected { fan: Fan },
    ResponseDeadline { fan: Fan },
    Anchors { fan: Fan },
}

impl TachometerCalibrationError {
    /// The text of the message.
    pub open spec fn text(self) -> Seq<char> {
        match self {
            TachometerCalibrationError::UnsupportedFloor { fan } => fan.label()
                + " fan floor is not a calibrated level"@,
            TachometerCalibrationError::FloorAboveProtected { fan } => fan.label()
                + " fan floor lies above the protected floor"@,
            TachometerCalibrationError::ResponseDeadline { fan } => fan.label()
                + " fan response deadline cannot come from a calibration"@,
            TachometerCalibrationError::Anchors { fan } => fan.label()
                + " fan anchors are not canonical"@,
        }
    }

    /// The message shown to an operator.
    pub fn message(&self) -> (text: String)
        ensures
            text@ == self.text(),
    {
        match self {
            TachometerCalibrationError::UnsupportedFloor { fan } => join(
                fan.name(),
                " fan floor is not a calibrated level",
            ),
            TachometerCalibrationError::FloorAboveProtected { fan } => join(
                fan.name(),
                " fan floor lies above the protected floor",
            ),
            TachometerCalibrationError::ResponseDeadline { fan } => join(
                fan.name(),
                " fan response deadline cannot come from a calibration",
            ),
            TachometerCalibrationError::Anchors { fan } => join(
                fan.name(),
                " fan anchors are not canonical",
            ),
        }
    }
}

/// Whether anchors stand at the canonical duties of a floor, plausible and never falling.
pub open spec fn anchors_fit(anchors: Seq<RpmAnchorEvidence>, floor_basis_points: u16) -> bool {
    let duties = anchor_duties(floor_basis_points);
    &&& anchors.len() == duties.len()
    &&& forall|i: int|
        0 <= i < anchors.len() ==> (#[trigger] anchors[i]).duty_basis_points == duties[i]
            && plausible_rpm(anchors[i].median_rpm)
    &&& forall|i: int|
        0 < i < anchors.len() ==> anchors[i - 1].median_rpm <= (#[trigger] anchors[i]).median_rpm
}

/// What is wrong with one fan's calibration.
pub open spec fn fan_calibration_defect(
    calibration: FanTachometerModel,
    fan: Fan,
    protected: ConfigModel,
) -> Option<TachometerCalibrationError> {
    if !allowed_floor(calibration.floor_basis_points) {
        Some(TachometerCalibrationError::UnsupportedFloor { fan })
    } else if calibration.floor_basis_points > protected.floor(fan) * 100 {
        Some(TachometerCalibrationError::FloorAboveProtected { fan })
    } else if !(3_000 <= calibration.response_deadline_millis <= 10_000) {
        Some(TachometerCalibrationError::ResponseDeadline { fan })
    } else if !anchors_fit(calibration.anchors, calibration.floor_basis_points) {
        Some(TachometerCalibrationError::Anchors { fan })
    } else {
        None
    }
}

fn fit_anchors(anchors: &Vec<RpmAnchorEvidence>, floor_basis_points: u16) -> (yes: bool)
    requires
        allowed_floor(floor_basis_points),
    ensures
        yes == anchors_fit(anchors@, floor_basis_points),
{
    let duties = canonical_calibration_anchor_duties(floor_basis_points);
    if anchors.len() != duties.len() {
        return false;
    }
    let mut i: usize = 0;
    while i < anchors.len()
        invariant
            i <= anchors.len(),
            anchors.len() == duties.len(),
            duties@ == anchor_duties(floor_basis_points),
            forall|k: int|
                0 <= k < i ==> (#[trigger] anchors@[k]).duty_basis_points == duties@[k]
                    && plausible_rpm(anchors@[k].median_rpm),
            forall|k: int|
                0 < k < i ==> anchors@[k - 1].median_rpm <= (#[trigger] anchors@[k]).median_rpm,
        decreases anchors.len() - i,
    {
        if anchors[i].duty_basis_points != duties[i] || !rpm_is_plausible(anchors[i].median_rpm) {
            return false;
        }
        if i > 0 && anchors[i - 1].median_rpm > anchors[i].median_rpm {
            return false;
        }
        i = i + 1;
    }
    true
}

fn check_fan_calibration(
    calibration: &FanTachometerConfig,
    fan: Fan,
    protected: &ValidatedConfig,
) -> (result: Result<(), TachometerCalibrationError>)
    ensures
        match fan_calibration_defect(calibration@, fan, protected@) {
            Some(error) => result == Err::<(), TachometerCalibrationError>(error),
            None => result is Ok,
        },
{
    if !is_allowed_calibration_floor(calibration.floor_basis_points) {
        return Err(TachometerCalibrationError::UnsupportedFloor { fan });
    }
    let floor: i64 = protected.floor(fan);
    if calibration.floor_basis_points as i64 > floor * 100 {
        return Err(TachometerCalibrationError::FloorAboveProtected { fan });
    }
    if calibration.response_deadline_millis < 3_000 || calibration.response_deadline_millis
        > 10_000 {
        return Err(TachometerCalibrationError::ResponseDeadline { fan });
    }
    if !fit_anchors(&calibration.anchors, calibration.floor_basis_points) {
        return Err(TachometerCalibrationError::Anchors { fan });
    }
    Ok(())
}

/// What is wrong with both fans' calibrations.
pub open spec fn calibration_defect(
    cpu: FanTachometerModel,
    gpu: FanTachometerModel,
    protected: ConfigModel,
) -> Option<TachometerCalibrationError> {
    match fan_calibration_defect(cpu, Fan::Cpu, protected) {
        Some(error) => Some(error),
        None => fan_calibration_defect(gpu, Fan::Gpu, protected),
    }
}

/// Both fans' calibrations, qualified for a protected configuration.
#[derive(Debug, PartialEq, Eq)]
pub struct QualifiedTachometerCalibrations {
    cpu: FanTachometerConfig,
    gpu: FanTachometerConfig,
}

impl QualifiedTachometerCalibrations {
    /// The contents of a fan's calibration.
    pub closed spec fn of(&self, fan: Fan) -> FanTachometerModel {
        match fan {
            Fan::Cpu => self.cpu@,
            Fan::Gpu => self.gpu@,
        }
    }

    /// A fan's calibration.
    pub fn calibration(&self, fan: Fan) -> (calibration: &FanTachometerConfig)
        ensures
            calibration@ == self.of(fan),
    {
        match fan {
            Fan::Cpu => &self.cpu,
            Fan::Gpu => &self.gpu,
        }
    }
}

fn clone_anchors(anchors: &Vec<RpmAnchorEvidence>) -> (copy: Vec<RpmAnchorEvidence>)
    ensures
        copy@ == anchors@,
{
    let mut copy: Vec<RpmAnchorEvidence> = Vec::new();
    let mut i: usize = 0;
    while i < anchors.len()
        invariant
            i <= anchors.len(),
            copy@ == anchors@.take(i as int),
        decreases anchors.len() - i,
    {
        copy.push(anchors[i]);
        i = i + 1;
        assert(copy@ =~= anchors@.take(i as int));
    }
    assert(copy@ =~= anchors@);
    copy
}

impl Clone for FanTachometerConfig {
    fn clone(&self) -> (copy: FanTachometerConfig)
        ensures
            copy@ == self@,
    {
        FanTachometerConfig {
            floor_basis_points: self.floor_basis_points,
            response_deadline_millis: self.response_deadline_millis,
            anchors: clone_anchors(&self.anchors),
        }
    }
}

impl Clone for QualifiedTachometerCalibrations {
    fn clone(&self) -> (copy: QualifiedTachometerCalibrations)
        ensures
            copy.of(Fan::Cpu) == self.of(Fan::Cpu),
            copy.of(Fan::Gpu) == self.of(Fan::Gpu),
    {
        QualifiedTachometerCalibrations { cpu: self.cpu.clone(), gpu: self.gpu.clone() }
    }
}

impl TachometerCalibrationConfig {
    /// Qualifies both fans' calibrations for a protected configuration.
    pub fn qualify(self, protected: &ValidatedConfig) -> (result: Result<
        QualifiedTachometerCalibrations,
        TachometerCalibrationError,
    >)
        ensures
            match calibration_defect(self.cpu@, self.gpu@, protected@) {
                Some(error) => result matches Err(e) && e == error,
                None => result matches Ok(qualified) && qualified.of(Fan::Cpu) == self.cpu@
                    && qualified.of(Fan::Gpu) == self.gpu@,
            },
    {
        match check_fan_calibration(&self.cpu, Fan::Cpu, protected) {
            Ok(()) => {},
            Err(error) => {
                return Err(error);
            },
        }
        match check_fan_calibration(&self.gpu, Fan::Gpu, protected) {
            Ok(()) => {},
            Err(error) => {
                return Err(error);
            },
        }
        Ok(QualifiedTachometerCalibrations { cpu: self.cpu, gpu: self.gpu })
    }
}

/// Why a fan's speed is not accepted.
#[derive(Debug, Clone, Copy, PartialEq, Eq, Structural)]
pub enum TachometerObservationError {
    DeadlineOverflow,
    OutOfBand { expected_rpm: u32, actual_rpm: u32 },
}

/// The last confirmed duty of a fan, in nanoseconds of the monotonic clock.
#[derive(Debug, Clone, Copy, PartialEq, Eq, Structural)]
pub struct ConfirmedDuty {
    pub pwm: u8,
    pub confirmed_at: u128,
}

/// Supervises both fans' speeds during normal control.
#[derive(Debug)]
pub struct TachometerValidator {
    calibrations: QualifiedTachometerCalibrations,
    cpu: ConfirmedDuty,
    gpu: ConfirmedDuty,
}

/// What a supervised fan is held against.
pub struct SupervisedFan {
    pub calibration: FanTachometerModel,
    pub duty: ConfirmedDuty,
}

/// What a speed tells of a fan: within the band is fine, outside it only until the response
/// deadline after the last confirmed duty.
pub open spec fn observation_error(fan: SupervisedFan, rpm: u32, observed_at: u128) -> Option<
    TachometerObservationError,
> {
    let deadline = moment_after(
        fan.duty.confirmed_at,
        (fan.calibration.response_deadline_millis * 1_000_000) as u128,
    );
    match deadline {
        None => Some(TachometerObservationError::DeadlineOverflow),
        Some(deadline) => match expected_rpm(fan.calibration.anchors, fan.duty.pwm) {
            None => Some(
                TachometerObservationError::OutOfBand { expected_rpm: 0, actual_rpm: rpm },
            ),
            Some(expected) => if in_band(rpm, expected) || observed_at <= deadline {
                None
            } else {
                Some(
                    TachometerObservationError::OutOfBand {
                        expected_rpm: expected,
                        actual_rpm: rpm,
                    },
                )
            },
        },
    }
}

impl TachometerValidator {
    /// What a fan is held against.
    pub closed spec fn supervised(&self, fan: Fan) -> SupervisedFan {
        match fan {
            Fan::Cpu => SupervisedFan {
                calibration: self.calibrations.of(Fan::Cpu),
                duty: self.cpu,
            },
            Fan::Gpu => SupervisedFan {
                calibration: self.calibrations.of(Fan::Gpu),
                duty: self.gpu,
            },
        }
    }

    /// Supervises two fans that were both confirmed at one duty.
    pub fn new(
        calibrations: QualifiedTachometerCalibrations,
        pwm: u8,
        cpu_confirmed_at: u128,
        gpu_confirmed_at: u128,
    ) -> (validator: TachometerValidator)
        ensures
            validator.supervised(Fan::Cpu) == (SupervisedFan {
                calibration: calibrations.of(Fan::Cpu),
                duty: ConfirmedDuty { pwm, confirmed_at: cpu_confirmed_at },
            }),
            validator.supervised(Fan::Gpu) == (SupervisedFan {
                calibration: calibrations.of(Fan::Gpu),
                duty: ConfirmedDuty { pwm, confirmed_at: gpu_confirmed_at },
            }),
    {
        TachometerValidator {
            calibrations,
            cpu: ConfirmedDuty { pwm, confirmed_at: cpu_confirmed_at },
            gpu: ConfirmedDuty { pwm, confirmed_at: gpu_confirmed_at },
        }
    }

    /// Takes note of a newly confirmed duty.
    pub fn command_confirmed(&mut self, fan: Fan, pwm: u8, confirmed_at: u128)
        ensures
            final(self).supervised(fan) == (SupervisedFan {
                duty: ConfirmedDuty { pwm, confirmed_at },
                ..old(self).supervised(fan)
            }),
            forall|other: Fan|
                other != fan ==> #[trigger] final(self).supervised(other) == old(self).supervised(
                    other,
                ),
    {
        let duty = ConfirmedDuty { pwm, confirmed_at };
        match fan {
            Fan::Cpu => {
                self.cpu = duty;
            },
            Fan::Gpu => {
                self.gpu = duty;
            },
        }
    }

    /// Judges a fan's speed.
    pub fn observe(&self, fan: Fan, rpm: u32, observed_at: u128) -> (result: Result<
        (),
        TachometerObservationError,
    >)
        ensures
            match observation_error(self.supervised(fan), rpm, observed_at) {
                Some(error) => result == Err::<(), TachometerObservationError>(error),
                None => result is Ok,
            },
    {
        let calibration = self.calibrations.calibration(fan);
        let duty = match fan {
            Fan::Cpu => self.cpu,
            Fan::Gpu => self.gpu,
        };
        let span: u128 = calibration.response_deadline_millis as u128 * 1_000_000;
        let deadline: u128 = match deadline_after(duty.confirmed_at, span) {
            Some(deadline) => deadline,
            None => {
                return Err(TachometerObservationError::DeadlineOverflow);
            },
        };
        let expected: u32 = match expected_rpm_from_anchors(&calibration.anchors, duty.pwm) {
            Some(expected) => expected,
            None => {
                return Err(
                    TachometerObservationError::OutOfBand { expected_rpm: 0, actual_rpm: rpm },
                );
            },
        };
        if rpm_in_band(rpm, expected) || observed_at <= deadline {
            Ok(())
        } else {
            Err(
                TachometerObservationError::OutOfBand { expected_rpm: expected, actual_rpm: rpm },
            )
        }
    }
}

} // verus!
