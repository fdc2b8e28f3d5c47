//! What a calibration expects of a fan, told by its anchors.

use vstd::prelude::*;
use crate::config::ConfigModel;
use crate::evidence::RpmAnchorEvidence;
use crate::tachometer::{expected_between, expected_rpm, Fan};
use crate::tachometer_policy::{
    fan_calibration_defect, observation_error, FanTachometerModel, SupervisedFan,
};

verus! {

/// Whether a PWM value is the smallest that reaches a duty.
pub open spec fn reaches(pwm: int, duty_basis_points: u16) -> bool {
    10_000 * (pwm - 1) < 255 * duty_basis_points <= 10_000 * pwm
}

/// At an anchor's own PWM value exactly its speed is expected. Between two anchors whose speeds do
/// not fall, the expected speed is the one on the straight line between them, rounded down.
/// Elsewhere two anchors tell nothing.
pub proof fn speeds_are_expected_on_the_line(
    low: RpmAnchorEvidence,
    high: RpmAnchorEvidence,
    from: int,
    to: int,
    pwm: u8,
)
    requires
        reaches(from, low.duty_basis_points),
        reaches(to, high.duty_basis_points),
    ensures
        pwm == from ==> expected_between(low, high, pwm) == Some(low.median_rpm),
        pwm == to && from != to ==> expected_between(low, high, pwm) == Some(high.median_rpm),
        from < pwm < to && low.median_rpm <= high.median_rpm ==> {
            &&& expected_between(low, high, pwm) matches Some(rpm)
            &&& (rpm - low.median_rpm) * (to - from) <= (high.median_rpm - low.median_rpm) * (pwm
                - from)
            &&& (high.median_rpm - low.median_rpm) * (pwm - from) < (rpm - low.median_rpm + 1) * (to
                - from)
        },
        pwm < from && pwm < to || pwm > from && pwm > to ==> expected_between(low, high, pwm)
            is None,
{
    if from < pwm < to && low.median_rpm <= high.median_rpm {
        let rise = high.median_rpm - low.median_rpm;
        let steps = pwm - from;
        let span = to - from;
        let share = rise * steps / span;
        assert(0 <= share <= rise && share * span <= rise * steps && rise * steps < (share + 1)
            * span) by (nonlinear_arith)
            requires
                share == rise * steps / span,
                0 <= rise,
                0 <= steps <= span,
                span > 0,
        ;
    }
}

/// A calibration tells a speed exactly where one of its pairs of neighbouring anchors does, and then
/// the speed that the first such pair tells.
pub proof fn neighbouring_anchors_tell_the_speed(
    anchors: Seq<RpmAnchorEvidence>,
    pwm: u8,
    index: int,
)
    requires
        0 <= index < anchors.len() - 1,
        forall|i: int|
            0 <= i < index ==> expected_between(#[trigger] anchors[i], anchors[i + 1], pwm) is None,
    ensures
        expected_between(anchors[index], anchors[index + 1], pwm) matches Some(rpm) ==> expected_rpm(
            anchors,
            pwm,
        ) == Some(rpm),
        index == anchors.len() - 2 && expected_between(anchors[index], anchors[index + 1], pwm)
            is None ==> expected_rpm(anchors, pwm) is None,
    decreases anchors.len(),
{
    let shorter = anchors.drop_last();
    if index < anchors.len() - 2 {
        assert forall|i: int| 0 <= i < index implies expected_between(
            #[trigger] shorter[i],
            shorter[i + 1],
            pwm,
        ) is None by {
            assert(shorter[i] == anchors[i] && shorter[i + 1] == anchors[i + 1]);
        }
        assert(shorter[index] == anchors[index] && shorter[index + 1] == anchors[index + 1]);
        neighbouring_anchors_tell_the_speed(shorter, pwm, index);
    } else if shorter.len() >= 2 {
        assert forall|i: int| 0 <= i < index - 1 implies expected_between(
            #[trigger] shorter[i],
            shorter[i + 1],
            pwm,
        ) is None by {
            assert(shorter[i] == anchors[i] && shorter[i + 1] == anchors[i + 1]);
        }
        assert(shorter[index - 1] == anchors[index - 1] && shorter[index] == anchors[index]);
        assert(expected_between(anchors[index - 1], anchors[index - 1 + 1], pwm) is None);
        neighbouring_anchors_tell_the_speed(shorter, pwm, index - 1);
    }
}

/// A supervised fan's speed is accepted exactly where its calibration expects a speed at its duty,
/// and either the speed lies within 30 percent of that or the response deadline after the duty was
/// confirmed has not passed yet.
pub proof fn speeds_are_accepted_within_the_band(fan: SupervisedFan, rpm: u32, observed_at: u128)
    requires
        fan.duty.confirmed_at + fan.calibration.response_deadline_millis * 1_000_000
            <= 18_446_744_073_709_551_615_999_999_999,
    ensures
        observation_error(fan, rpm, observed_at) is None <==> (expected_rpm(
            fan.calibration.anchors,
            fan.duty.pwm,
        ) matches Some(expected) && ({
            ||| observed_at <= fan.duty.confirmed_at + fan.calibration.response_deadline_millis
                * 1_000_000
            ||| 7 * expected <= 10 * rpm <= 13 * expected
        })),
{
}

/// A calibration qualifies exactly where its floor is 40, 50, 60 or 70 percent and not above the
/// protected one, its response deadline is three to ten seconds, and its anchors stand at the floor,
/// half way from there to 75 percent, at 75 percent and at full duty, each with a speed of 300 to
/// 10000 revolutions per minute, none slower than the one before.
pub proof fn qualified_calibrations_are_conservative(
    calibration: FanTachometerModel,
    fan: Fan,
    protected: ConfigModel,
)
    ensures
        fan_calibration_defect(calibration, fan, protected) is None <==> {
            let floor = calibration.floor_basis_points;
            let anchors = calibration.anchors;
            let allowed = if fan is Cpu {
                protected.cpu_floor
            } else {
                protected.gpu_floor
            };
            &&& floor == 4_000 || floor == 5_000 || floor == 6_000 || floor == 7_000
            &&& floor <= 100 * allowed
            &&& 3_000 <= calibration.response_deadline_millis <= 10_000
            &&& anchors.len() == 4
            &&& anchors[0].duty_basis_points == floor
            &&& 2 * anchors[1].duty_basis_points == floor + 7_500
            &&& anchors[2].duty_basis_points == 7_500
            &&& anchors[3].duty_basis_points == 10_000
            &&& 300 <= anchors[0].median_rpm <= anchors[1].median_rpm
            &&& anchors[1].median_rpm <= anchors[2].median_rpm <= anchors[3].median_rpm <= 10_000
        },
{
    let floor = calibration.floor_basis_points;
    let anchors = calibration.anchors;
    let duties = crate::calibration::anchor_duties(floor);
    if floor == 4_000 || floor == 5_000 || floor == 6_000 || floor == 7_000 {
        assert(duties.len() == 4);
        assert(duties[0] == floor && duties[2] == 7_500 && duties[3] == 10_000);
        assert(2 * duties[1] == floor + 7_500);
        if anchors.len() == 4 {
            assert(crate::tachometer_policy::anchors_fit(anchors, floor) <==> {
                &&& anchors[0].duty_basis_points == floor
                &&& 2 * anchors[1].duty_basis_points == floor + 7_500
                &&& anchors[2].duty_basis_points == 7_500
                &&& anchors[3].duty_basis_points == 10_000
                &&& 300 <= anchors[0].median_rpm <= anchors[1].median_rpm
                &&& anchors[1].median_rpm <= anchors[2].median_rpm <= anchors[3].median_rpm
                    <= 10_000
            });
        }
    }
}

} // verus!
