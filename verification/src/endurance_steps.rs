//! The decisions of a supervised endurance run, one step at a time.

use vstd::prelude::*;
use vstd::string::*;
use crate::baseline::{CPU_ABSOLUTE_ABORT_MILLICELSIUS, GPU_ABSOLUTE_ABORT_MILLICELSIUS};
use crate::endurance_record::{
    check_follows, sample_utilization_matches, thermal_envelope_holds, utilization_matches,
    within_thermal_envelope,
};
use crate::endurance_schedule::{
    segment, segment_at_index, SupervisedEnduranceLoad, SupervisedEnduranceSegment,
};
use crate::endurance_shutdown::{stop_list, StopModel, SupervisedEnduranceSegmentConfirmation};
use crate::evidence::{
    profile_power, profile_source, EnduranceThermalEnvelopeEvidence, EvidenceFan, EvidenceProfile,
    EvidenceTimestamp, FanCommandEvidence, FanReadbackEvidence, FaultEvidence, ProcessStopEvidence,
    RestorationAttemptEvidence, StateTransitionEvidence, TelemetrySampleEvidence, WorkloadEvidence,
    WorkloadModel,
};
use crate::lifecycle::{not_before, reaches, strictly_follows};
use crate::lifecycle_gate::{later_of, later_timestamp};
use crate::matched_control::{
    after_matched_observation, expectation_of, fan_name, fan_text, recorded_observation,
    unknown_control, validate_matched_observation, ControlEvidenceState, ControlJudgement,
    ControlModel, MatchedObservationModel, MatchedWorkloadObservation,
    MatchedWorkloadTachometerCalibrations, ObservationSchedule, TachometerEvidenceState,
    TachometerExpectation,
};
use crate::matched_workload::{matched_start_is_safe, CapturedMatchedWorkloadStartingConditions};
use crate::run_log::{
    append_readbacks, extend_texts, fault, fault_list, plausible_temperature, push_fault,
    push_transition, readback_list, transition, transition_list, FaultModel, ReadbackModel,
    TransitionModel,
};
use crate::text::{clone_texts, join, texts};
use crate::thermal::{summarize_thermal_evidence, thermal_summary, FinalSlopes};

verus! {

broadcast use vstd::string::group_string_axioms;

/// What an endurance run holds.
#[derive(Debug)]
pub struct EnduranceRun {
    pub workload: WorkloadEvidence,
    pub starting_conditions_captured_at: Option<EvidenceTimestamp>,
    pub workload_started_at: Option<EvidenceTimestamp>,
    pub samples: Vec<TelemetrySampleEvidence>,
    pub commands: Vec<FanCommandEvidence>,
    pub readbacks: Vec<FanReadbackEvidence>,
    pub transitions: Vec<StateTransitionEvidence>,
    pub faults: Vec<FaultEvidence>,
    pub restoration_attempts: Vec<RestorationAttemptEvidence>,
    pub process_stops: Vec<ProcessStopEvidence>,
    pub observer_checks: Vec<EvidenceTimestamp>,
    pub kernel_faults: Vec<String>,
    pub nvidia_faults: Vec<String>,
    pub system_stable: bool,
    pub control: ControlEvidenceState,
    pub tachometer: TachometerEvidenceState,
    pub active_segment: usize,
    /// The latest moment that a step left behind.
    pub not_before: EvidenceTimestamp,
}

/// The contents of an endurance run.
pub struct EnduranceModel {
    pub workload: WorkloadModel,
    pub starting_conditions_captured_at: Option<EvidenceTimestamp>,
    pub workload_started_at: Option<EvidenceTimestamp>,
    pub samples: Seq<TelemetrySampleEvidence>,
    pub commands: Seq<FanCommandEvidence>,
    pub readbacks: Seq<ReadbackModel>,
    pub transitions: Seq<TransitionModel>,
    pub faults: Seq<FaultModel>,
    pub attempts: Seq<RestorationAttemptEvidence>,
    pub stops: Seq<StopModel>,
    pub checks: Seq<EvidenceTimestamp>,
    pub kernel_faults: Seq<Seq<char>>,
    pub nvidia_faults: Seq<Seq<char>>,
    pub system_stable: bool,
    pub control: ControlModel,
    pub tachometer: TachometerEvidenceState,
    pub segment: int,
    pub not_before: EvidenceTimestamp,
}

impl View for EnduranceRun {
    type V = EnduranceModel;

    open spec fn view(&self) -> EnduranceModel {
        EnduranceModel {
            workload: self.workload@,
            starting_conditions_captured_at: self.starting_conditions_captured_at,
            workload_started_at: self.workload_started_at,
            samples: self.samples@,
            commands: self.commands@,
            readbacks: readback_list(self.readbacks@),
            transitions: transition_list(self.transitions@),
            faults: fault_list(self.faults@),
            attempts: self.restoration_attempts@,
            stops: stop_list(self.process_stops@),
            checks: self.observer_checks@,
            kernel_faults: texts(self.kernel_faults@),
            nvidia_faults: texts(self.nvidia_faults@),
            system_stable: self.system_stable,
            control: self.control@,
            tachometer: self.tachometer,
            segment: self.active_segment as int,
            not_before: self.not_before,
        }
    }
}

/// A run that has just started.
pub open spec fn fresh_endurance(workload: WorkloadModel, started_at: EvidenceTimestamp) -> EnduranceModel {
    EnduranceModel {
        workload,
        starting_conditions_captured_at: None,
        workload_started_at: None,
        samples: Seq::empty(),
        commands: Seq::empty(),
        readbacks: Seq::empty(),
        transitions: Seq::empty(),
        faults: Seq::empty(),
        attempts: Seq::empty(),
        stops: Seq::empty(),
        checks: Seq::empty(),
        kernel_faults: Seq::empty(),
        nvidia_faults: Seq::empty(),
        system_stable: true,
        control: unknown_control(),
        tachometer: TachometerEvidenceState { cpu: None, gpu: None },
        segment: 0,
        not_before: started_at,
    }
}

/// A run with one more fault.
pub open spec fn endurance_fault(
    m: EnduranceModel,
    at: EvidenceTimestamp,
    code: Seq<char>,
    detail: Seq<char>,
) -> EnduranceModel {
    EnduranceModel { faults: m.faults.push(fault(at, code, detail)), ..m }
}

/// A run with one more fault where a condition holds.
pub open spec fn endurance_fault_if(
    m: EnduranceModel,
    condition: bool,
    at: EvidenceTimestamp,
    code: Seq<char>,
    detail: Seq<char>,
) -> EnduranceModel {
    if condition {
        endurance_fault(m, at, code, detail)
    } else {
        m
    }
}

/// Whether starting conditions were captured in the run, on external power and below the abort
/// limits.
pub open spec fn endurance_start_is_acceptable(
    capture: CapturedMatchedWorkloadStartingConditions,
    started_at: EvidenceTimestamp,
    completed_at: EvidenceTimestamp,
) -> bool {
    &&& started_at.monotonic_millis <= capture.captured_at.monotonic_millis
        <= completed_at.monotonic_millis
    &&& capture.conditions.power_profile == EvidenceProfile::Ac
    &&& matched_start_is_safe(capture.conditions)
}

/// A run after its starting conditions were captured.
pub open spec fn after_endurance_conditions(
    m: EnduranceModel,
    started_at: EvidenceTimestamp,
    deadline: u64,
    completed_at: EvidenceTimestamp,
    result: Result<CapturedMatchedWorkloadStartingConditions, String>,
) -> EnduranceModel {
    let timed = endurance_fault_if(
        m,
        completed_at.monotonic_millis < m.not_before.monotonic_millis
            || completed_at.monotonic_millis > deadline,
        later_of(completed_at, m.not_before),
        "starting-conditions"@,
        "starting-condition capture completed outside its deadline"@,
    );
    let judged = match result {
        Ok(capture) => if endurance_start_is_acceptable(capture, started_at, completed_at) {
            EnduranceModel {
                starting_conditions_captured_at: Some(capture.captured_at),
                workload: WorkloadModel {
                    ambient_millicelsius: capture.conditions.ambient_millicelsius,
                    starting_cpu_millicelsius: capture.conditions.cpu_millicelsius,
                    starting_gpu_millicelsius: capture.conditions.gpu_millicelsius,
                    ..timed.workload
                },
                ..timed
            }
        } else {
            endurance_fault(
                timed,
                completed_at,
                "starting-conditions"@,
                "endurance must begin on AC with fresh temperatures below abort limits"@,
            )
        },
        Err(error) => endurance_fault(
            timed,
            completed_at,
            "starting-conditions"@,
            "cannot capture starting conditions: "@ + error@,
        ),
    };
    EnduranceModel { not_before: later_of(completed_at, m.not_before), ..judged }
}

/// A run after a step was asked for.
pub open spec fn after_step_request(
    m: EnduranceModel,
    observed_at: EvidenceTimestamp,
    code: Seq<char>,
    regressed: Seq<char>,
) -> EnduranceModel {
    let requested_at = later_of(observed_at, m.not_before);
    if observed_at.monotonic_millis < m.not_before.monotonic_millis {
        endurance_fault(m, m.not_before, code, regressed)
    } else {
        endurance_fault_if(
            m,
            requested_at.monotonic_millis + 10_000 > u64::MAX,
            requested_at,
            code,
            "operation deadline overflowed"@,
        )
    }
}

/// The deadline of a step that was asked for without a fault: within the time that the observer may
/// be away.
pub open spec fn step_deadline(m: EnduranceModel, observed_at: EvidenceTimestamp) -> Option<u64> {
    let requested_at = later_of(observed_at, m.not_before);
    if observed_at.monotonic_millis < m.not_before.monotonic_millis
        || requested_at.monotonic_millis + 10_000 > u64::MAX {
        None
    } else {
        Some((requested_at.monotonic_millis + 5_000) as u64)
    }
}

/// A run after the handover to Custom control.
pub open spec fn after_custom_entry(
    m: EnduranceModel,
    requested_at: EvidenceTimestamp,
    deadline: u64,
    observed_at: EvidenceTimestamp,
    result: Result<(), String>,
) -> EnduranceModel {
    let completed_at = later_of(observed_at, requested_at);
    let regressed = endurance_fault_if(
        m,
        observed_at.monotonic_millis < requested_at.monotonic_millis,
        requested_at,
        "custom-control-entry"@,
        "clock regressed during Custom-control entry"@,
    );
    let timed = endurance_fault_if(
        regressed,
        completed_at.monotonic_millis > deadline,
        completed_at,
        "custom-control-entry"@,
        "Custom-control entry exceeded its deadline"@,
    );
    let judged = match result {
        Ok(()) => if timed.faults.len() == 0 {
            EnduranceModel {
                transitions: timed.transitions.push(
                    transition(completed_at, "firmware-auto"@, "custom-control"@),
                ),
                ..timed
            }
        } else {
            timed
        },
        Err(error) => endurance_fault(
            timed,
            completed_at,
            "custom-control-entry"@,
            "cannot confirm Custom control: "@ + error@,
        ),
    };
    EnduranceModel { not_before: completed_at, ..judged }
}

/// Whether a confirmation shows the power, the profile and the load of a segment.
pub open spec fn confirms_segment_state(
    confirmation: SupervisedEnduranceSegmentConfirmation,
    expected: SupervisedEnduranceSegment,
) -> bool {
    &&& confirmation.load == expected.load
    &&& confirmation.selected_profile == expected.power_profile
    &&& confirmation.external_power == profile_source(expected.power_profile)
    &&& confirmation.cpu_utilization_basis_points <= 10_000
    &&& confirmation.gpu_utilization_basis_points <= 10_000
}

/// Whether a confirmation also shows that the load is there.
pub open spec fn confirms_segment(
    confirmation: SupervisedEnduranceSegmentConfirmation,
    expected: SupervisedEnduranceSegment,
) -> bool {
    &&& confirms_segment_state(confirmation, expected)
    &&& match expected.load {
        SupervisedEnduranceLoad::Load => confirmation.cpu_utilization_basis_points >= 5_000
            && confirmation.gpu_utilization_basis_points >= 5_000,
        SupervisedEnduranceLoad::Idle => confirmation.cpu_utilization_basis_points <= 1_000
            && confirmation.gpu_utilization_basis_points <= 1_000,
    }
}

/// Whether a moment lies within a step and the step within its deadline.
pub open spec fn in_step(
    at: EvidenceTimestamp,
    requested_at: EvidenceTimestamp,
    completed_at: EvidenceTimestamp,
    deadline: u64,
) -> bool {
    requested_at.monotonic_millis <= at.monotonic_millis <= completed_at.monotonic_millis
        <= deadline
}

/// A run after its first segment was begun.
pub open spec fn after_first_segment(
    m: EnduranceModel,
    requested_at: EvidenceTimestamp,
    deadline: u64,
    observed_at: EvidenceTimestamp,
    result: Result<SupervisedEnduranceSegmentConfirmation, String>,
) -> EnduranceModel {
    let completed_at = later_of(observed_at, requested_at);
    let timed = endurance_fault_if(
        m,
        observed_at.monotonic_millis < requested_at.monotonic_millis,
        requested_at,
        "endurance-segment"@,
        "clock regressed during initial endurance segment"@,
    );
    let judged = match result {
        Ok(confirmation) => if timed.faults.len() == 0 && confirms_segment_state(
            confirmation,
            segment(0),
        ) && in_step(confirmation.observed_at, requested_at, completed_at, deadline) {
            EnduranceModel {
                transitions: timed.transitions.push(
                    transition(confirmation.observed_at, "custom-control"@, segment(0).id@),
                ),
                ..timed
            }
        } else {
            endurance_fault(
                timed,
                completed_at,
                "endurance-segment"@,
                "initial endurance segment was not confirmed inside its deadline"@,
            )
        },
        Err(error) => endurance_fault(
            timed,
            completed_at,
            "endurance-segment"@,
            "cannot begin initial endurance segment: "@ + error@,
        ),
    };
    EnduranceModel { not_before: completed_at, ..judged }
}

/// A run after its workload was started.
pub open spec fn after_endurance_launch(
    m: EnduranceModel,
    requested_at: EvidenceTimestamp,
    deadline: u64,
    observed_at: EvidenceTimestamp,
    result: Result<EvidenceTimestamp, String>,
) -> EnduranceModel {
    let completed_at = later_of(observed_at, requested_at);
    let timed = endurance_fault_if(
        m,
        observed_at.monotonic_millis < requested_at.monotonic_millis,
        requested_at,
        "workload-start"@,
        "clock regressed during workload start"@,
    );
    let judged = match result {
        Ok(source) => if timed.faults.len() == 0 && in_step(
            source,
            requested_at,
            completed_at,
            deadline,
        ) {
            EnduranceModel { workload_started_at: Some(source), ..timed }
        } else {
            endurance_fault(
                timed,
                completed_at,
                "workload-start"@,
                "mixed workload start was not confirmed inside its deadline"@,
            )
        },
        Err(error) => endurance_fault(
            timed,
            completed_at,
            "workload-start"@,
            "cannot start mixed workload: "@ + error@,
        ),
    };
    EnduranceModel { not_before: completed_at, ..judged }
}

/// A run after it moved on to another segment.
pub open spec fn after_segment_change(
    m: EnduranceModel,
    next: int,
    boundary: u64,
    deadline: u64,
    requested_at: EvidenceTimestamp,
    completed_at: EvidenceTimestamp,
    result: Result<SupervisedEnduranceSegmentConfirmation, String>,
) -> EnduranceModel {
    let judged = match result {
        Ok(confirmation) => if confirms_segment(confirmation, segment(next))
            && confirmation.observed_at.monotonic_millis >= boundary && in_step(
            confirmation.observed_at,
            requested_at,
            completed_at,
            deadline,
        ) {
            EnduranceModel {
                transitions: m.transitions.push(
                    transition(confirmation.observed_at, segment(m.segment).id@, segment(next).id@),
                ),
                segment: next,
                ..m
            }
        } else {
            endurance_fault(
                m,
                completed_at,
                "endurance-segment"@,
                "endurance segment transition was not confirmed inside its deadline"@,
            )
        },
        Err(error) => endurance_fault(
            m,
            completed_at,
            "endurance-segment"@,
            "cannot change endurance segment: "@ + error@,
        ),
    };
    EnduranceModel { not_before: completed_at, ..judged }
}

/// Whether a sample's utilization fits the active segment.
pub open spec fn sample_fits_segment(m: EnduranceModel, sample: TelemetrySampleEvidence) -> bool {
    utilization_matches(
        sample.cpu_utilization_basis_points,
        sample.gpu_utilization_basis_points,
        segment(m.segment).load,
    )
}

/// A run after one more observation was captured.
pub open spec fn after_endurance_observation(
    m: EnduranceModel,
    schedule: ObservationSchedule,
    observation: MatchedObservationModel,
    cpu: TachometerExpectation,
    gpu: TachometerExpectation,
) -> EnduranceModel {
    let judged = after_matched_observation(
        ControlJudgement { control: m.control, tachometer: m.tachometer, faults: m.faults },
        observation,
        segment(m.segment).power_profile,
        schedule,
        cpu,
        gpu,
    );
    let recorded = recorded_observation(observation, schedule);
    EnduranceModel {
        not_before: later_of(schedule.captured_at, m.not_before),
        control: judged.control,
        tachometer: judged.tachometer,
        faults: judged.faults,
        system_stable: m.system_stable && observation.system_stable,
        kernel_faults: m.kernel_faults + observation.kernel_faults,
        nvidia_faults: m.nvidia_faults + observation.nvidia_faults,
        commands: m.commands + recorded.commands,
        readbacks: m.readbacks + readback_list(recorded.readbacks),
        samples: m.samples.push(recorded.sample),
        ..m
    }
}

/// Whether a run stays within its thermal envelope so far.
pub open spec fn stays_within_envelope(
    m: EnduranceModel,
    slopes: FinalSlopes,
    envelope: EnduranceThermalEnvelopeEvidence,
) -> bool {
    within_thermal_envelope(
        thermal_summary(m.samples, slopes, m.system_stable, m.kernel_faults, m.nvidia_faults),
        slopes,
        envelope,
    )
}

/// A run after its thermal envelope was checked.
pub open spec fn after_envelope_check(
    m: EnduranceModel,
    at: EvidenceTimestamp,
    code: Seq<char>,
    slopes: FinalSlopes,
    envelope: EnduranceThermalEnvelopeEvidence,
) -> EnduranceModel {
    endurance_fault_if(
        m,
        !stays_within_envelope(m, slopes, envelope),
        at,
        code,
        "invalid supervised endurance evidence: thermal or stability envelope was exceeded"@,
    )
}

/// Whether a fan has not answered its last duty change.
pub open spec fn is_pending(tachometer: TachometerEvidenceState, fan: EvidenceFan) -> bool {
    match fan {
        EvidenceFan::Cpu => tachometer.cpu matches Some(state) && !state.settled,
        EvidenceFan::Gpu => tachometer.gpu matches Some(state) && !state.settled,
    }
}

/// A run after its fans' last answers were checked.
pub open spec fn after_pending_check(m: EnduranceModel) -> EnduranceModel {
    let at = if m.samples.len() > 0 {
        m.samples.last().timestamp
    } else {
        m.not_before
    };
    endurance_fault_if(
        endurance_fault_if(
            m,
            is_pending(m.tachometer, EvidenceFan::Cpu),
            at,
            "fan-feedback-loss"@,
            fan_text(
                EvidenceFan::Cpu,
            ) + " fan response did not settle before endurance completion"@,
        ),
        is_pending(m.tachometer, EvidenceFan::Gpu),
        at,
        "fan-feedback-loss"@,
        fan_text(EvidenceFan::Gpu) + " fan response did not settle before endurance completion"@,
    )
}

/// Whether an observer's confirmation is fresh, made within its request and not too long after the
/// one before.
pub open spec fn check_is_accepted(
    checks: Seq<EvidenceTimestamp>,
    requested_at: EvidenceTimestamp,
    observed_at: EvidenceTimestamp,
    completed_at: EvidenceTimestamp,
    deadline: u64,
) -> bool {
    &&& requested_at.monotonic_millis <= deadline
    &&& completed_at.monotonic_millis <= deadline
    &&& reaches(requested_at, observed_at)
    &&& reaches(observed_at, completed_at)
    &&& checks.len() > 0 ==> {
        &&& strictly_follows(checks.last(), observed_at)
        &&& observed_at.monotonic_millis - checks.last().monotonic_millis <= 5_000
        &&& observed_at.wall_unix_millis - checks.last().wall_unix_millis <= 5_000
    }
}

/// Where a complete run must be stopped.
pub open spec fn scheduled_endpoint(m: EnduranceModel) -> Option<int> {
    match m.workload_started_at {
        Some(started) => if m.samples.len() == 1_800 && started.monotonic_millis + 3_600_000
            <= u64::MAX {
            Some(started.monotonic_millis + 3_600_000)
        } else {
            None
        },
        None => None,
    }
}

/// The deadline by which a complete run must be stopped.
pub open spec fn scheduled_deadline(m: EnduranceModel) -> Option<u64> {
    match scheduled_endpoint(m) {
        Some(endpoint) => if endpoint + 10_000 <= u64::MAX {
            Some((endpoint + 10_000) as u64)
        } else {
            None
        },
        None => None,
    }
}

/// A run after the schedule of its stop was checked.
pub open spec fn after_stop_schedule(m: EnduranceModel) -> EnduranceModel {
    match scheduled_endpoint(m) {
        Some(endpoint) => endurance_fault_if(
            endurance_fault_if(
                m,
                scheduled_deadline(m) is None,
                m.not_before,
                "workload-stop"@,
                "scheduled workload-stop deadline overflowed"@,
            ),
            endpoint + 100 > u64::MAX || m.not_before.monotonic_millis > endpoint + 100,
            m.not_before,
            "workload-stop"@,
            "workload stop was not requested within the endpoint jitter window"@,
        ),
        None => m,
    }
}

/// A run after the last transition.
pub open spec fn after_endurance_end(
    m: EnduranceModel,
    restored: bool,
    contained: bool,
) -> EnduranceModel {
    EnduranceModel {
        transitions: m.transitions.push(
            transition(
                m.not_before,
                if m.transitions.len() > 0 {
                    m.transitions.last().to
                } else {
                    "custom-control"@
                },
                if restored {
                    "firmware-auto"@
                } else if contained {
                    "emergency-maximum-containment"@
                } else {
                    "restoration-failed"@
                },
            ),
        ),
        ..m
    }
}

/// A run after its completion.
pub open spec fn after_endurance_completion(m: EnduranceModel, observed_at: EvidenceTimestamp) -> EnduranceModel {
    endurance_fault_if(
        m,
        observed_at.monotonic_millis < m.not_before.monotonic_millis,
        m.not_before,
        "endurance-completion"@,
        "clock regressed before endurance completion"@,
    )
}

/// Decides [`confirms_segment_state`].
pub fn segment_state_confirmation_matches(
    confirmation: SupervisedEnduranceSegmentConfirmation,
    expected: SupervisedEnduranceSegment,
) -> (yes: bool)
    ensures
        yes == confirms_segment_state(confirmation, expected),
{
    confirmation.load == expected.load && confirmation.selected_profile == expected.power_profile
        && confirmation.external_power == profile_power(expected.power_profile)
        && confirmation.cpu_utilization_basis_points <= 10_000
        && confirmation.gpu_utilization_basis_points <= 10_000
}

/// Decides [`confirms_segment`].
pub fn segment_confirmation_matches(
    confirmation: SupervisedEnduranceSegmentConfirmation,
    expected: SupervisedEnduranceSegment,
) -> (yes: bool)
    ensures
        yes == confirms_segment(confirmation, expected),
{
    segment_state_confirmation_matches(confirmation, expected) && match expected.load {
        SupervisedEnduranceLoad::Load => confirmation.cpu_utilization_basis_points >= 5_000
            && confirmation.gpu_utilization_basis_points >= 5_000,
        SupervisedEnduranceLoad::Idle => confirmation.cpu_utilization_basis_points <= 1_000
            && confirmation.gpu_utilization_basis_points <= 1_000,
    }
}

fn is_in_step(
    at: EvidenceTimestamp,
    requested_at: EvidenceTimestamp,
    completed_at: EvidenceTimestamp,
    deadline: u64,
) -> (yes: bool)
    ensures
        yes == in_step(at, requested_at, completed_at, deadline),
{
    requested_at.monotonic_millis <= at.monotonic_millis && at.monotonic_millis
        <= completed_at.monotonic_millis && completed_at.monotonic_millis <= deadline
}

impl EnduranceRun {
    /// Starts a run for a workload.
    pub fn begin(workload: &WorkloadEvidence, started_at: EvidenceTimestamp) -> (run: EnduranceRun)
        ensures
            run@ == fresh_endurance(workload@, started_at),
    {
        let run = EnduranceRun {
            workload: workload.clone(),
            starting_conditions_captured_at: None,
            workload_started_at: None,
            samples: Vec::new(),
            commands: Vec::new(),
            readbacks: Vec::new(),
            transitions: Vec::new(),
            faults: Vec::new(),
            restoration_attempts: Vec::new(),
            process_stops: Vec::new(),
            observer_checks: Vec::new(),
            kernel_faults: Vec::new(),
            nvidia_faults: Vec::new(),
            system_stable: true,
            control: ControlEvidenceState::new(),
            tachometer: TachometerEvidenceState { cpu: None, gpu: None },
            active_segment: 0,
            not_before: started_at,
        };
        proof {
            assert(run@.readbacks =~= Seq::empty());
            assert(run@.transitions =~= Seq::empty());
            assert(run@.faults =~= Seq::empty());
            assert(run@.stops =~= Seq::empty());
            assert(run@.kernel_faults =~= Seq::empty());
            assert(run@.nvidia_faults =~= Seq::empty());
        }
        run
    }

    /// Whether the run has met no fault so far.
    pub fn is_clean(&self) -> (yes: bool)
        ensures
            yes == (self@.faults.len() == 0),
            self@.faults.len() == self.faults@.len(),
    {
        assert(fault_list(self.faults@).len() == self.faults@.len());
        self.faults.len() == 0
    }

    /// Records a fault.
    pub fn note(&mut self, at: EvidenceTimestamp, code: &str, detail: &str)
        ensures
            final(self)@ == endurance_fault(old(self)@, at, code@, detail@),
    {
        push_fault(&mut self.faults, at, code, detail);
    }

    /// Records the starting conditions.
    pub fn record_conditions(
        &mut self,
        started_at: EvidenceTimestamp,
        deadline: u64,
        completed_at: EvidenceTimestamp,
        result: Result<CapturedMatchedWorkloadStartingConditions, String>,
    )
        ensures
            final(self)@ == after_endurance_conditions(
                old(self)@,
                started_at,
                deadline,
                completed_at,
                result,
            ),
    {
        let settled_at = later_timestamp(completed_at, self.not_before);
        if completed_at.monotonic_millis < self.not_before.monotonic_millis
            || completed_at.monotonic_millis > deadline {
            self.note(
                settled_at,
                "starting-conditions",
                "starting-condition capture completed outside its deadline",
            );
        }
        match result {
            Ok(capture) => {
                let conditions = capture.conditions;
                if started_at.monotonic_millis <= capture.captured_at.monotonic_millis
                    && capture.captured_at.monotonic_millis <= completed_at.monotonic_millis
                    && conditions.power_profile == EvidenceProfile::Ac && plausible_temperature(
                    conditions.ambient_millicelsius,
                    80_000,
                ) && plausible_temperature(conditions.cpu_millicelsius, 150_000)
                    && plausible_temperature(conditions.gpu_millicelsius, 150_000)
                    && conditions.cpu_millicelsius < CPU_ABSOLUTE_ABORT_MILLICELSIUS
                    && conditions.gpu_millicelsius < GPU_ABSOLUTE_ABORT_MILLICELSIUS {
                    self.starting_conditions_captured_at = Some(capture.captured_at);
                    self.workload.ambient_millicelsius = conditions.ambient_millicelsius;
                    self.workload.starting_cpu_millicelsius = conditions.cpu_millicelsius;
                    self.workload.starting_gpu_millicelsius = conditions.gpu_millicelsius;
                } else {
                    self.note(
                        completed_at,
                        "starting-conditions",
                        "endurance must begin on AC with fresh temperatures below abort limits",
                    );
                }
            },
            Err(error) => {
                let detail = join("cannot capture starting conditions: ", error.as_str());
                self.note(completed_at, "starting-conditions", detail.as_str());
            },
        }
        self.not_before = settled_at;
    }

    /// Records that a step is asked for, and gives the moment from which it counts and its
    /// deadline.
    pub fn request_step(
        &mut self,
        observed_at: EvidenceTimestamp,
        code: &str,
        regressed: &str,
    ) -> (request: (
        EvidenceTimestamp,
        Option<u64>,
    ))
        ensures
            final(self)@ == after_step_request(old(self)@, observed_at, code@, regressed@),
            request.0 == later_of(observed_at, old(self)@.not_before),
            request.1 == step_deadline(old(self)@, observed_at),
    {
        let requested_at = later_timestamp(observed_at, self.not_before);
        if observed_at.monotonic_millis < self.not_before.monotonic_millis {
            self.note(self.not_before, code, regressed);
            return (requested_at, None);
        }
        match requested_at.monotonic_millis.checked_add(10_000) {
            Some(_) => (requested_at, Some(requested_at.monotonic_millis + 5_000)),
            None => {
                self.note(requested_at, code, "operation deadline overflowed");
                (requested_at, None)
            },
        }
    }

    /// Records the handover to Custom control.
    pub fn record_custom_entry(
        &mut self,
        requested_at: EvidenceTimestamp,
        deadline: u64,
        observed_at: EvidenceTimestamp,
        result: Result<(), String>,
    )
        ensures
            final(self)@ == after_custom_entry(
                old(self)@,
                requested_at,
                deadline,
                observed_at,
                result,
            ),
    {
        if observed_at.monotonic_millis < requested_at.monotonic_millis {
            self.note(
                requested_at,
                "custom-control-entry",
                "clock regressed during Custom-control entry",
            );
        }
        let completed_at = later_timestamp(observed_at, requested_at);
        if completed_at.monotonic_millis > deadline {
            self.note(
                completed_at,
                "custom-control-entry",
                "Custom-control entry exceeded its deadline",
            );
        }
        match result {
            Ok(()) => {
                if self.is_clean() {
                    push_transition(
                        &mut self.transitions,
                        completed_at,
                        "firmware-auto",
                        "custom-control",
                    );
                }
            },
            Err(error) => {
                let detail = join("cannot confirm Custom control: ", error.as_str());
                self.note(completed_at, "custom-control-entry", detail.as_str());
            },
        }
        self.not_before = completed_at;
    }

    /// Records the first segment.
    pub fn record_first_segment(
        &mut self,
        requested_at: EvidenceTimestamp,
        deadline: u64,
        observed_at: EvidenceTimestamp,
        result: Result<SupervisedEnduranceSegmentConfirmation, String>,
    )
        ensures
            final(self)@ == after_first_segment(
                old(self)@,
                requested_at,
                deadline,
                observed_at,
                result,
            ),
    {
        if observed_at.monotonic_millis < requested_at.monotonic_millis {
            self.note(
                requested_at,
                "endurance-segment",
                "clock regressed during initial endurance segment",
            );
        }
        let completed_at = later_timestamp(observed_at, requested_at);
        match result {
            Ok(confirmation) => {
                let first = segment_at_index(0);
                if self.is_clean() && segment_state_confirmation_matches(confirmation, first)
                    && is_in_step(
                    confirmation.observed_at,
                    requested_at,
                    completed_at,
                    deadline,
                ) {
                    push_transition(
                        &mut self.transitions,
                        confirmation.observed_at,
                        "custom-control",
                        first.id,
                    );
                } else {
                    self.note(
                        completed_at,
                        "endurance-segment",
                        "initial endurance segment was not confirmed inside its deadline",
                    );
                }
            },
            Err(error) => {
                let detail = join("cannot begin initial endurance segment: ", error.as_str());
                self.note(completed_at, "endurance-segment", detail.as_str());
            },
        }
        self.not_before = completed_at;
    }

    /// Records the start of the workload.
    pub fn record_launch(
        &mut self,
        requested_at: EvidenceTimestamp,
        deadline: u64,
        observed_at: EvidenceTimestamp,
        result: Result<EvidenceTimestamp, String>,
    )
        ensures
            final(self)@ == after_endurance_launch(
                old(self)@,
                requested_at,
                deadline,
                observed_at,
                result,
            ),
    {
        if observed_at.monotonic_millis < requested_at.monotonic_millis {
            self.note(requested_at, "workload-start", "clock regressed during workload start");
        }
        let completed_at = later_timestamp(observed_at, requested_at);
        match result {
            Ok(source) => {
                if self.is_clean() && is_in_step(source, requested_at, completed_at, deadline) {
                    self.workload_started_at = Some(source);
                } else {
                    self.note(
                        completed_at,
                        "workload-start",
                        "mixed workload start was not confirmed inside its deadline",
                    );
                }
            },
            Err(error) => {
                let detail = join("cannot start mixed workload: ", error.as_str());
                self.note(completed_at, "workload-start", detail.as_str());
            },
        }
        self.not_before = completed_at;
    }

    /// Records a move to another segment.
    pub fn record_segment_change(
        &mut self,
        next: usize,
        boundary: u64,
        deadline: u64,
        requested_at: EvidenceTimestamp,
        completed_at: EvidenceTimestamp,
        result: Result<SupervisedEnduranceSegmentConfirmation, String>,
    )
        requires
            next < 6,
            old(self)@.segment < 6,
        ensures
            final(self)@ == after_segment_change(
                old(self)@,
                next as int,
                boundary,
                deadline,
                requested_at,
                completed_at,
                result,
            ),
    {
        match result {
            Ok(confirmation) => {
                let entered = segment_at_index(next);
                if segment_confirmation_matches(confirmation, entered)
                    && confirmation.observed_at.monotonic_millis >= boundary && is_in_step(
                    confirmation.observed_at,
                    requested_at,
                    completed_at,
                    deadline,
                ) {
                    let left = segment_at_index(self.active_segment);
                    push_transition(
                        &mut self.transitions,
                        confirmation.observed_at,
                        left.id,
                        entered.id,
                    );
                    self.active_segment = next;
                } else {
                    self.note(
                        completed_at,
                        "endurance-segment",
                        "endurance segment transition was not confirmed inside its deadline",
                    );
                }
            },
            Err(error) => {
                let detail = join("cannot change endurance segment: ", error.as_str());
                self.note(completed_at, "endurance-segment", detail.as_str());
            },
        }
        self.not_before = completed_at;
    }

    /// Whether a sample's utilization fits the active segment.
    pub fn fits_segment(&self, sample: &TelemetrySampleEvidence) -> (yes: bool)
        requires
            self@.segment < 6,
        ensures
            yes == sample_fits_segment(self@, *sample),
    {
        sample_utilization_matches(sample, segment_at_index(self.active_segment).load)
    }

    /// Records one more observation.
    pub fn record_observation(
        &mut self,
        schedule: ObservationSchedule,
        mut observation: MatchedWorkloadObservation,
        calibrations: MatchedWorkloadTachometerCalibrations<'_>,
    )
        requires
            old(self)@.segment < 6,
        ensures
            final(self)@ == after_endurance_observation(
                old(self)@,
                schedule,
                observation@,
                expectation_of(*calibrations.cpu),
                expectation_of(*calibrations.gpu),
            ),
    {
        validate_matched_observation(
            &mut observation,
            segment_at_index(self.active_segment).power_profile,
            schedule,
            &mut self.control,
            calibrations,
            &mut self.tachometer,
            &mut self.faults,
        );
        let mut observation = observation;
        self.system_stable = self.system_stable && observation.system_stable;
        extend_texts(&mut self.kernel_faults, &observation.kernel_faults);
        extend_texts(&mut self.nvidia_faults, &observation.nvidia_faults);
        self.commands.append(&mut observation.commands);
        append_readbacks(&mut self.readbacks, observation.readbacks);
        self.samples.push(observation.sample);
        self.not_before = later_timestamp(schedule.captured_at, self.not_before);
    }

    /// Checks that the run stays within its thermal envelope.
    pub fn check_envelope(
        &mut self,
        at: EvidenceTimestamp,
        code: &str,
        slopes: FinalSlopes,
        envelope: &EnduranceThermalEnvelopeEvidence,
    )
        ensures
            final(self)@ == after_envelope_check(old(self)@, at, code@, slopes, *envelope),
    {
        let summary = summarize_thermal_evidence(
            &self.samples,
            slopes,
            self.system_stable,
            clone_texts(&self.kernel_faults),
            clone_texts(&self.nvidia_faults),
        );
        if !thermal_envelope_holds(&summary, slopes, envelope) {
            self.note(
                at,
                code,
                "invalid supervised endurance evidence: thermal or stability envelope was exceeded",
            );
        }
    }

    /// Checks that both fans have answered their last duty change.
    pub fn check_pending(&mut self)
        ensures
            final(self)@ == after_pending_check(old(self)@),
    {
        let count = self.samples.len();
        let at = if count > 0 {
            self.samples[count - 1].timestamp
        } else {
            self.not_before
        };
        let cpu_pending = match self.tachometer.cpu {
            Some(state) => !state.settled,
            None => false,
        };
        let gpu_pending = match self.tachometer.gpu {
            Some(state) => !state.settled,
            None => false,
        };
        if cpu_pending {
            self.note(
                at,
                "fan-feedback-loss",
                join(
                    fan_name(EvidenceFan::Cpu),
                    " fan response did not settle before endurance completion",
                ).as_str(),
            );
        }
        if gpu_pending {
            self.note(
                at,
                "fan-feedback-loss",
                join(
                    fan_name(EvidenceFan::Gpu),
                    " fan response did not settle before endurance completion",
                ).as_str(),
            );
        }
    }

    /// Judges an observer's confirmation and keeps it where it is accepted.
    pub fn record_check(
        &mut self,
        requested_at: EvidenceTimestamp,
        observed_at: EvidenceTimestamp,
        completed_at: EvidenceTimestamp,
        deadline: u64,
    ) -> (accepted: bool)
        ensures
            accepted == check_is_accepted(
                old(self)@.checks,
                requested_at,
                observed_at,
                completed_at,
                deadline,
            ),
            final(self)@ == (EnduranceModel {
                checks: if accepted {
                    old(self)@.checks.push(observed_at)
                } else {
                    old(self)@.checks
                },
                ..old(self)@
            }),
    {
        let count = self.observer_checks.len();
        let follows_previous = count == 0 || check_follows(
            self.observer_checks[count - 1],
            observed_at,
        );
        let accepted = requested_at.monotonic_millis <= deadline && completed_at.monotonic_millis
            <= deadline && not_before(requested_at, observed_at) && not_before(
            observed_at,
            completed_at,
        ) && follows_previous;
        if accepted {
            self.observer_checks.push(observed_at);
        }
        accepted
    }

    /// Checks the schedule of the stop, and gives its deadline where the run is complete.
    pub fn check_stop_schedule(&mut self) -> (deadline: Option<u64>)
        ensures
            final(self)@ == after_stop_schedule(old(self)@),
            deadline == scheduled_deadline(old(self)@),
    {
        if self.samples.len() != 1_800 {
            return None;
        }
        let endpoint: u64 = match self.workload_started_at {
            Some(started) => match started.monotonic_millis.checked_add(3_600_000) {
                Some(endpoint) => endpoint,
                None => {
                    return None;
                },
            },
            None => {
                return None;
            },
        };
        let deadline = endpoint.checked_add(10_000);
        if deadline.is_none() {
            self.note(
                self.not_before,
                "workload-stop",
                "scheduled workload-stop deadline overflowed",
            );
        }
        let in_window = match endpoint.checked_add(100) {
            Some(latest) => self.not_before.monotonic_millis <= latest,
            None => false,
        };
        if !in_window {
            self.note(
                self.not_before,
                "workload-stop",
                "workload stop was not requested within the endpoint jitter window",
            );
        }
        deadline
    }

    /// Records a confirmed stop.
    pub fn record_stop(&mut self, stop: ProcessStopEvidence)
        ensures
            final(self)@ == (EnduranceModel { stops: old(self)@.stops.push(stop@), ..old(self)@ }),
    {
        let ghost before = self.process_stops@;
        self.process_stops.push(stop);
        assert(stop_list(self.process_stops@) =~= stop_list(before).push(stop@));
    }

    /// Records the last transition.
    pub fn record_end(&mut self, restored: bool, contained: bool)
        ensures
            final(self)@ == after_endurance_end(old(self)@, restored, contained),
    {
        let count = self.transitions.len();
        let from = if count > 0 {
            self.transitions[count - 1].to.clone()
        } else {
            "custom-control".to_owned()
        };
        proof {
            if count > 0 {
                assert(transition_list(self.transitions@).last() == self.transitions@.last()@);
            }
        }
        push_transition(
            &mut self.transitions,
            self.not_before,
            from.as_str(),
            if restored {
                "firmware-auto"
            } else if contained {
                "emergency-maximum-containment"
            } else {
                "restoration-failed"
            },
        );
    }

    /// Records the completion of the run, and gives its moment.
    pub fn record_completion(&mut self, observed_at: EvidenceTimestamp) -> (completed_at:
        EvidenceTimestamp)
        ensures
            final(self)@ == after_endurance_completion(old(self)@, observed_at),
            completed_at == later_of(observed_at, old(self)@.not_before),
    {
        if observed_at.monotonic_millis < self.not_before.monotonic_millis {
            self.note(
                self.not_before,
                "endurance-completion",
                "clock regressed before endurance completion",
            );
        }
        later_timestamp(observed_at, self.not_before)
    }
}

} // verus!
