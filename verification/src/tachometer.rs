//! Tachometer plausibility and calibration anchors.

use vstd::prelude::*;
use crate::evidence::RpmAnchorEvidence;

verus! {

/// The slowest fan speed taken for a real tachometer reading.
pub const MINIMUM_PLAUSIBLE_RPM: u32 = 300;

/// The fastest fan speed taken for a real tachometer reading.
pub const MAXIMUM_PLAUSIBLE_RPM: u32 = 10_000;

/// One of the two fans.
#[derive(Debug, Clone, Copy, PartialEq, Eq, Structural)]
pub enum Fan {
    Cpu,
    Gpu,
}

impl Fan {
    /// The text of the fan's name.
    pub open spec fn label(self) -> Seq<char> {
        match self {
            Fan::Cpu => "CPU"@,
            Fan::Gpu => "GPU"@,
        }
    }

    /// The fan's name.
    pub fn name(self) -> (name: &'static str)
        ensures
            name@ == self.label(),
    {
        match self {
            Fan::Cpu => "CPU",
            Fan::Gpu => "GPU",
        }
    }
}

/// Whether a fan speed can be a real reading.
pub open spec fn plausible_rpm(rpm: u32) -> bool {
    MINIMUM_PLAUSIBLE_RPM <= rpm <= MAXIMUM_PLAUSIBLE_RPM
}

/// Decides [`plausible_rpm`].
pub fn rpm_is_plausible(rpm: u32) -> (yes: bool)
    ensures
        yes == plausible_rpm(rpm),
{
    MINIMUM_PLAUSIBLE_RPM <= rpm && rpm <= MAXIMUM_PLAUSIBLE_RPM
}

/// The smallest PWM value that reaches an anchor's duty.
pub open spec fn anchor_pwm(anchor: RpmAnchorEvidence) -> int {
    (anchor.duty_basis_points * 255 + 9_999) / 10_000
}

/// The speed expected at a PWM value between two anchors, on the straight line between them and
/// rounded down. Anchors that fall or coincide expect nothing in between.
pub open spec fn expected_between(
    low: RpmAnchorEvidence,
    high: RpmAnchorEvidence,
    pwm: u8,
) -> Option<u32> {
    let from = anchor_pwm(low);
    let to = anchor_pwm(high);
    if pwm == from {
        Some(low.median_rpm)
    } else if pwm == to {
        Some(high.median_rpm)
    } else if from < pwm < to && low.median_rpm <= high.median_rpm {
        Some(
            (low.median_rpm + (high.median_rpm - low.median_rpm) * (pwm - from) / (to
                - from)) as u32,
        )
    } else {
        None
    }
}

/// The speed that a calibration expects at a PWM value: from the first pair of neighbouring
/// anchors that tells it.
pub open spec fn expected_rpm(anchors: Seq<RpmAnchorEvidence>, pwm: u8) -> Option<u32>
    decreases anchors.len(),
{
    if anchors.len() < 2 {
        None
    } else {
        match expected_rpm(anchors.drop_last(), pwm) {
            Some(rpm) => Some(rpm),
            None => expected_between(anchors[anchors.len() - 2], anchors[anchors.len() - 1], pwm),
        }
    }
}

fn expected_between_anchors(
    low: RpmAnchorEvidence,
    high: RpmAnchorEvidence,
    pwm: u8,
) -> (rpm: Option<u32>)
    ensures
        rpm == expected_between(low, high, pwm),
{
    let from: u64 = (low.duty_basis_points as u64 * 255 + 9_999) / 10_000;
    let to: u64 = (high.duty_basis_points as u64 * 255 + 9_999) / 10_000;
    let at: u64 = pwm as u64;
    if at == from {
        Some(low.median_rpm)
    } else if at == to {
        Some(high.median_rpm)
    } else if from < at && at < to && low.median_rpm <= high.median_rpm {
        let rise: u64 = (high.median_rpm - low.median_rpm) as u64;
        let steps: u64 = at - from;
        let span: u64 = to - from;
        proof {
            assert(rise * steps <= rise * span) by (nonlinear_arith)
                requires
                    steps <= span,
                    0 <= rise,
            ;
            assert(rise * steps <= 0xffff_ffff * 255) by (nonlinear_arith)
                requires
                    0 <= rise <= 0xffff_ffff,
                    0 <= steps <= 255,
            ;
            assert((rise * steps) / (span as int) <= rise) by (nonlinear_arith)
                requires
                    rise * steps <= rise * span,
                    span > 0,
                    rise >= 0,
            ;
        }
        let share: u64 = rise * steps / span;
        Some((low.median_rpm as u64 + share) as u32)
    } else {
        None
    }
}

/// The speed that a calibration expects at a PWM value.
pub fn expected_rpm_from_anchors(anchors: &Vec<RpmAnchorEvidence>, pwm: u8) -> (rpm: Option<u32>)
    ensures
        rpm == expected_rpm(anchors@, pwm),
{
    if anchors.len() < 2 {
        return None;
    }
    let mut rpm: Option<u32> = None;
    let mut i: usize = 1;
    while i < anchors.len()
        invariant
            1 <= i <= anchors.len(),
            rpm == expected_rpm(anchors@.take(i as int), pwm),
        decreases anchors.len() - i,
    {
        proof {
            let longer = anchors@.take(i + 1);
            assert(longer.drop_last() =~= anchors@.take(i as int));
            assert(longer[longer.len() - 2] == anchors@[i - 1]);
            assert(longer[longer.len() - 1] == anchors@[i as int]);
        }
        if rpm.is_none() {
            rpm = expected_between_anchors(anchors[i - 1], anchors[i], pwm);
        }
        i = i + 1;
    }
    assert(anchors@.take(anchors.len() as int) =~= anchors@);
    rpm
}

/// Whether a speed lies within 30 percent of the expected one.
pub open spec fn in_band(rpm: u32, expected: u32) -> bool {
    70 * expected <= 100 * rpm <= 130 * expected
}

/// Decides [`in_band`].
pub fn rpm_in_band(rpm: u32, expected: u32) -> (yes: bool)
    ensures
        yes == in_band(rpm, expected),
{
    let scaled: u64 = rpm as u64 * 100;
    expected as u64 * 70 <= scaled && scaled <= expected as u64 * 130
}

/// Between two rising anchors the expected speed never leaves their range.
pub proof fn expectation_stays_between_anchors(
    low: RpmAnchorEvidence,
    high: RpmAnchorEvidence,
    pwm: u8,
)
    requires
        low.median_rpm <= high.median_rpm,
    ensures
        expected_between(low, high, pwm) matches Some(rpm) ==> low.median_rpm <= rpm
            <= high.median_rpm,
{
    let from = anchor_pwm(low);
    let to = anchor_pwm(high);
    if from < pwm < to {
        let rise = high.median_rpm - low.median_rpm;
        let steps = pwm - from;
        let span = to - from;
        assert(0 <= rise * steps / span <= rise) by (nonlinear_arith)
            requires
                0 <= rise,
                0 <= steps <= span,
                span > 0,
        ;
    }
}

} // verus!
