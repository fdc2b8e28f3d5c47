//! What a calibration session asks for and accepts, told by duties, samples and times.

use vstd::prelude::*;
use crate::calibration::{
    anchor_duties, duty_pwm, events, readings, response_deadline, stable_median, CalibrationPhase,
    CalibrationReadbackSample, CalibrationStep, CheckpointModel, EventModel, HoldModel, LevelModel,
};
use crate::calibration_session::{
    hold_outcome, level_outcome, next_step_of, readbacks_error, resumed, session_is_valid,
    SessionModel,
};
use crate::tachometer::Fan;

verus! {

/// The slowest response leaves two seconds before the deadline, which is ten seconds at most.
pub proof fn deadlines_leave_two_seconds(slowest_response_millis: u64)
    requires
        slowest_response_millis <= 10_000,
    ensures
        response_deadline(slowest_response_millis) <= 10_000,
        response_deadline(slowest_response_millis) == 10_000 || response_deadline(
            slowest_response_millis,
        ) == slowest_response_millis + 2_000,
        slowest_response_millis <= response_deadline(slowest_response_millis)
            <= slowest_response_millis + 2_000,
{
}

/// The anchors of a floor below 75 percent are the floor, the duty halfway from it to 75 percent, that
/// duty, and the full one.
pub proof fn anchors_rise_from_the_floor(floor: u16)
    requires
        floor < 7_499,
    ensures
        anchor_duties(floor).len() == 4,
        anchor_duties(floor)[0] == floor,
        floor + 7_499 <= 2 * anchor_duties(floor)[1] <= floor + 7_500,
        anchor_duties(floor)[2] == 7_500,
        anchor_duties(floor)[3] == 10_000,
{
    let duties = anchor_duties(floor);
    assert(duties =~= seq![
        floor,
        crate::calibration::anchor_midpoint(floor),
        7_500u16,
        10_000u16,
    ]);
}

/// The duty that is written for a step is the least one that is not below the step's share of the full
/// duty; a session sweeps down from the full duty by 60, 50, 40 and 30 percent, then changes between the
/// full duty and the floor, holds the floor for fifteen minutes and takes its anchors.
pub proof fn steps_follow_the_phase(m: SessionModel)
    requires
        session_is_valid(m),
    ensures
        m.resume_phase is Some ==> next_step_of(m) == (CalibrationStep::RevalidateBothAtMaximum {
            pwm_value: 255,
        }),
        m.resume_phase is None ==> match m.phase {
            CalibrationPhase::Sweep { index } => {
                &&& index <= 4
                &&& next_step_of(m) matches CalibrationStep::Sweep { duty_basis_points, pwm_value }
                &&& index == 0 ==> duty_basis_points == 10_000 && pwm_value == 255
                &&& index > 0 ==> duty_basis_points == 7_000 - 1_000 * index
                &&& 255 * duty_basis_points <= 10_000 * pwm_value < 255 * duty_basis_points
                    + 10_000
            },
            CalibrationPhase::TransitionToMaximum { attempt } => next_step_of(m) == (
            CalibrationStep::TransitionToMaximum { attempt, pwm_value: 255 }),
            CalibrationPhase::TransitionToFloor { attempt } => {
                &&& next_step_of(m) matches CalibrationStep::TransitionToFloor {
                    attempt: asked,
                    duty_basis_points,
                    pwm_value,
                }
                &&& asked == attempt
                &&& m.floor == Some(duty_basis_points)
                &&& 255 * duty_basis_points <= 10_000 * pwm_value < 255 * duty_basis_points
                    + 10_000
            },
            CalibrationPhase::HoldFloor => {
                &&& next_step_of(m) matches CalibrationStep::HoldFloor {
                    duty_basis_points,
                    pwm_value,
                    required_duration_millis,
                }
                &&& m.floor == Some(duty_basis_points)
                &&& required_duration_millis == 15 * 60 * 1_000
                &&& 255 * duty_basis_points <= 10_000 * pwm_value < 255 * duty_basis_points
                    + 10_000
            },
            CalibrationPhase::CaptureAnchor { index } => {
                &&& next_step_of(m) matches CalibrationStep::CaptureAnchor {
                    duty_basis_points,
                    pwm_value,
                }
                &&& m.anchors.len() == index
                &&& duty_basis_points == anchor_duties(m.floor->0)[index as int]
                &&& 255 * duty_basis_points <= 10_000 * pwm_value < 255 * duty_basis_points
                    + 10_000
            },
            CalibrationPhase::Complete => next_step_of(m) is Complete,
            CalibrationPhase::Failed => next_step_of(m) is Failed,
        },
{
    if m.floor is Some {
        anchors_rise_from_the_floor(m.floor->0);
    }
}

/// Whether a sample shows the other fan in Custom mode at the full duty, and the calibrated fan in Custom
/// mode at a duty.
pub open spec fn shows_both_fans(sample: CalibrationReadbackSample, duty: u8) -> bool {
    &&& sample.other_enable_readback == 1
    &&& sample.other_pwm_readback == 255
    &&& sample.selected_enable_readback == 1
    &&& sample.selected_pwm_readback == duty
}

/// Whether samples follow each other, and what was observed last, within two seconds, none at the same
/// moment as another.
pub open spec fn follow_closely(
    last: Option<u64>,
    samples: Seq<CalibrationReadbackSample>,
) -> bool {
    &&& samples.len() > 0
    &&& last matches Some(last) ==> last < samples[0].monotonic_millis <= last + 2_000
    &&& forall|i: int, j: int|
        0 <= i < samples.len() && j == i + 1 && j < samples.len() ==> (
        #[trigger] samples[i]).monotonic_millis < (#[trigger] samples[j]).monotonic_millis
            <= samples[i].monotonic_millis + 2_000
}

/// A level's readbacks are in order exactly where the samples start at the command, follow each other
/// and the session's last observation closely, and each shows both fans as the step asks.
pub proof fn ordered_readbacks_show_both_fans(m: SessionModel, observation: LevelModel, duty: u8)
    requires
        next_step_of(m).pwm() == Some(duty),
    ensures
        readbacks_error(m, next_step_of(m), observation) is None <==> {
            let samples = observation.samples;
            &&& follow_closely(
                if m.resume_phase is Some {
                    None
                } else {
                    m.last_observed
                },
                samples,
            )
            &&& samples[0].monotonic_millis == observation.commanded_at
            &&& forall|i: int|
                0 <= i < samples.len() ==> shows_both_fans(#[trigger] samples[i], duty)
        },
{
    let samples = observation.samples;
    if crate::calibration::continuous(samples) {
        assert forall|i: int, j: int|
            0 <= i < samples.len() && j == i + 1 && j < samples.len() implies (
        #[trigger] samples[i]).monotonic_millis < (#[trigger] samples[j]).monotonic_millis
            <= samples[i].monotonic_millis + 2_000 by {
            assert(1 <= samples[i + 1].monotonic_millis - samples[i].monotonic_millis <= 2_000);
        }
    }
}

/// A level that is accepted was read in order, showed a plausible speed at least once and none that was
/// not, and stalled or collapsed at most while the session still sweeps. It is noted with the step that
/// was waited for, and its last sample becomes the last observation.
pub proof fn accepted_levels_are_in_order(m: SessionModel, observation: LevelModel)
    requires
        session_is_valid(m),
        level_outcome(m, observation).1 is Ok,
    ensures
        ({
            let after = level_outcome(m, observation).0;
            &&& readbacks_error(m, next_step_of(m), observation) is None
            &&& !(m.phase is Complete || m.phase is Failed)
            &&& m.phase is HoldFloor ==> m.resume_phase is Some
            &&& forall|i: int|
                0 <= i < observation.samples.len() ==> ((
                #[trigger] observation.samples[i]).selected_rpm matches Some(rpm) ==> 300 <= rpm
                    <= 10_000)
            &&& exists|i: int|
                0 <= i < observation.samples.len() && (
                #[trigger] observation.samples[i]).selected_rpm is Some
            &&& observation.stall_observed || observation.collapse_observed ==> m.phase is Sweep
            &&& after.fan == m.fan
            &&& after.events == m.events.push(
                EventModel::Level { step: next_step_of(m), observation },
            )
            &&& after.last_observed == Some(observation.samples.last().monotonic_millis)
            &&& after.slowest_response_millis >= m.slowest_response_millis
            &&& after.slowest_response_millis == m.slowest_response_millis
                || after.slowest_response_millis == observation.samples.last().monotonic_millis
                - observation.commanded_at
        }),
{
    let after = level_outcome(m, observation).0;
    assert(after.events == m.events.push(EventModel::Level { step: next_step_of(m), observation }));
}

/// Each accepted level takes the session one step on: down the sweep while levels are stable, to the
/// transitions once one is not or the sweep is through, five times to the full duty and back to the
/// floor, to the hold, and through the anchors to the end. The floor is set once, 10 percent above the
/// lowest stable level, and never again. A resumed session stays where it was.
pub proof fn levels_lead_one_step_on(m: SessionModel, observation: LevelModel)
    requires
        session_is_valid(m),
        level_outcome(m, observation).1 is Ok,
    ensures
        ({
            let after = level_outcome(m, observation).0;
            &&& after.resume_phase is None
            &&& m.resume_phase is Some ==> after.phase == m.phase && after.floor == m.floor
                && after.anchors == m.anchors && after.stable_sweep_levels == m.stable_sweep_levels
            &&& m.resume_phase is None ==> match m.phase {
                CalibrationPhase::Sweep { index } => {
                    let stable = after.stable_sweep_levels.len() > m.stable_sweep_levels.len();
                    &&& stable ==> after.stable_sweep_levels == m.stable_sweep_levels.push(
                        next_step_of(m)->Sweep_duty_basis_points,
                    )
                    &&& !stable ==> after.stable_sweep_levels == m.stable_sweep_levels
                    &&& observation.stall_observed || observation.collapse_observed ==> !stable
                    &&& stable && index < 4 ==> after.floor is None && after.phase == (
                    CalibrationPhase::Sweep { index: (index + 1) as usize })
                    &&& !(stable && index < 4) ==> {
                        &&& after.phase == (CalibrationPhase::TransitionToMaximum { attempt: 1 })
                        &&& after.floor matches Some(floor)
                        &&& floor == after.stable_sweep_levels.last() + 1_000
                        &&& floor <= 7_000
                    }
                },
                CalibrationPhase::TransitionToMaximum { attempt } => after.floor == m.floor
                    && after.phase == (CalibrationPhase::TransitionToFloor { attempt }),
                CalibrationPhase::TransitionToFloor { attempt } => after.floor == m.floor
                    && after.phase == if attempt < 5 {
                    CalibrationPhase::TransitionToMaximum { attempt: (attempt + 1) as u8 }
                } else {
                    CalibrationPhase::HoldFloor
                },
                CalibrationPhase::CaptureAnchor { index } => {
                    &&& after.floor == m.floor
                    &&& after.anchors.len() == m.anchors.len() + 1
                    &&& forall|i: int|
                        0 <= i < m.anchors.len() ==> #[trigger] after.anchors[i] == m.anchors[i]
                    &&& after.anchors.last().duty_basis_points == next_step_of(
                        m,
                    )->CaptureAnchor_duty_basis_points
                    &&& m.anchors.len() > 0 ==> after.anchors.last().median_rpm
                        >= m.anchors.last().median_rpm
                    &&& after.phase == if index < 3 {
                        CalibrationPhase::CaptureAnchor { index: (index + 1) as usize }
                    } else {
                        CalibrationPhase::Complete
                    }
                },
                _ => false,
            }
        }),
{
    if m.floor is Some {
        anchors_rise_from_the_floor(m.floor->0);
    }
    crate::calibration_session::level_keeps_session_valid(m, observation);
    let after = level_outcome(m, observation).0;
    if m.resume_phase is None && m.phase is Sweep && after.floor is Some {
        crate::calibration_session::floors_are_conservative(after);
    }
}

/// A hold is accepted exactly where the session waits for it and for fifteen minutes, in at least 451
/// samples that follow closely, the other fan stayed at the full duty, the calibrated fan at its floor
/// and at one steady plausible speed, and nothing stalled or collapsed. The anchors come next.
pub proof fn accepted_holds_last_fifteen_minutes(m: SessionModel, hold: HoldModel)
    requires
        session_is_valid(m),
    ensures
        hold_outcome(m, hold).1 is Ok <==> {
            let samples = hold.samples;
            &&& m.phase is HoldFloor
            &&& m.resume_phase is None
            &&& !hold.stall_observed
            &&& !hold.collapse_observed
            &&& follow_closely(m.last_observed, samples)
            &&& samples.len() >= 451
            &&& samples[samples.len() - 1].monotonic_millis >= samples[0].monotonic_millis + 15 * 60
                * 1_000
            &&& forall|i: int|
                0 <= i < samples.len() ==> {
                    &&& shows_both_fans(#[trigger] samples[i], duty_pwm(m.floor->0))
                    &&& samples[i].selected_rpm matches Some(rpm)
                    &&& 300 <= rpm <= 10_000
                }
            &&& stable_median(readings(samples)) is Some
        },
        hold_outcome(m, hold).1 is Ok ==> {
            let after = hold_outcome(m, hold).0;
            &&& after.phase == (CalibrationPhase::CaptureAnchor { index: 0 })
            &&& after.floor == m.floor
            &&& after.slowest_response_millis == m.slowest_response_millis
            &&& after.last_observed == Some(hold.samples.last().monotonic_millis)
            &&& after.events == m.events.push(EventModel::Hold { step: next_step_of(m), hold })
        },
{
    let samples = hold.samples;
    if m.phase is HoldFloor && m.resume_phase is None {
        assert(next_step_of(m).pwm() == Some(duty_pwm(m.floor->0)));
        if crate::calibration::continuous(samples) {
            assert forall|i: int, j: int|
                0 <= i < samples.len() && j == i + 1 && j < samples.len() implies (
            #[trigger] samples[i]).monotonic_millis < (#[trigger] samples[j]).monotonic_millis
                <= samples[i].monotonic_millis + 2_000 by {
                assert(1 <= samples[i + 1].monotonic_millis - samples[i].monotonic_millis <= 2_000);
            }
        }
    }
}

/// A checkpoint resumes only where it is of the first schema, did not fail and is the fan's own. What
/// comes first then is to see both fans at the full duty again, unless the calibration was complete.
pub proof fn resumed_sessions_revalidate_first(fan: Fan, checkpoint: CheckpointModel)
    requires
        resumed(fan, checkpoint) is Some,
    ensures
        checkpoint.schema_version == 1,
        !checkpoint.failed,
        checkpoint.fan is Cpu <==> fan is Cpu,
        resumed(fan, checkpoint)->0.fan == fan,
        resumed(fan, checkpoint)->0.events == checkpoint.events,
        !(resumed(fan, checkpoint)->0.phase is Complete) ==> next_step_of(
            resumed(fan, checkpoint)->0,
        ) == (CalibrationStep::RevalidateBothAtMaximum { pwm_value: 255 }),
        resumed(fan, checkpoint)->0.phase is Complete ==> next_step_of(
            resumed(fan, checkpoint)->0,
        ) is Complete,
        checkpoint.events.len() == 0 ==> resumed(fan, checkpoint)->0.stable_sweep_levels.len() == 0,
{
    crate::calibration_session::replay_is_valid(fan, checkpoint.events);
}

} // verus!
