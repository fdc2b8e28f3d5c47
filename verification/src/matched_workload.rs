//! The matched Custom-control workload run.
//!
//! Every decision is a function from what the run holds and what came back to what the run holds
//! next. The runner only makes the calls, in order.

use vstd::prelude::*;
use vstd::string::*;
use crate::baseline::{CPU_ABSOLUTE_ABORT_MILLICELSIUS, GPU_ABSOLUTE_ABORT_MILLICELSIUS};
use crate::evidence::{
    EvidenceFan, EvidenceProfile, EvidenceRecord, EvidenceRecordStatus, EvidenceTimestamp,
    FanCommandEvidence, FanReadbackEvidence, FanReadbackField, FanReadbackPhase, FaultEvidence,
    ObservationOutcome, OutcomeModel, RecordModel, RestorationAttemptEvidence, RestorationOutcome,
    RunOutcomeEvidence, RunOutcomeStatus, StateTransitionEvidence, TelemetrySampleEvidence,
    ThermalSummaryEvidence, ThermalSummaryModel, WorkloadEvidence, WorkloadModel,
    EVIDENCE_SCHEMA_VERSION_V2,
};
use crate::evidence_rules::{is_valid, validation_error};
use crate::hash::fingerprint;
use crate::matched_calls::MatchedCall;
use crate::matched_control::{
    after_matched_observation, expectation_of, fan_name, fan_text, lemma_clean_observation,
    recorded_observation, unknown_control, validate_matched_observation, ControlEvidenceState,
    ControlJudgement, ControlModel, MatchedObservationModel, MatchedWorkloadObservation,
    MatchedWorkloadTachometerCalibrations, ObservationSchedule, TachometerEvidenceState,
    TachometerExpectation,
};
use crate::matched_plan::{
    baseline_fingerprint, class_of, comparison_of, evaluate_thermal_comparison, is_acceptable,
    is_near, lies_near, plan_error, runs_required, validate_plan, MatchedPlanErrorModel,
    MatchedWorkloadClass, MatchedWorkloadPlan, MatchedWorkloadPlanError, ThermalComparison,
    AMBIENT_COMPARABILITY_MILLICELSIUS, STARTING_TEMPERATURE_COMPARABILITY_MILLICELSIUS,
};
use crate::run_log::{
    append_readbacks, extend_texts, fault, fault_list, first_detail, first_fault_detail, plausible,
    plausible_temperature, push_fault, push_readback, push_transition, readback_list, transition,
    transition_list, with_fault_if, FaultModel, ReadbackModel, SlopeMeter, TransitionModel,
};
use crate::text::{clone_texts, is_text, join, texts};
use crate::trace::{effects, ran, Trace};
use crate::thermal::{summarize_thermal_evidence, thermal_summary, FinalSlopes};

use crate::observations::{observed, samples_came, slopes_came};
use crate::matched_steps::{
    are_sampled, conditions_state, entry_state, exit_state, fan_was_restored, fans_were_restored,
    finish_state, is_record_of_calls, launch_state, lemma_one_more_sample, matched_state,
    restoration_state, run_came_to, run_was_finished, run_was_opened, run_was_performed, sample_due,
    sample_state, sample_was_taken, samples_were_taken, stop_state, wait_calls, wait_defect,
    workload_was_launched, workload_was_stopped, MatchedState, SampleAnswers,
};

verus! {

broadcast use {crate::observations::group_observed, vstd::string::group_string_axioms, crate::trace::group_effects};

#[derive(Debug, Clone, Copy, PartialEq, Eq, Structural)]
pub struct MatchedWorkloadStartingConditions {
    pub ambient_millicelsius: i32,
    pub cpu_millicelsius: i32,
    pub gpu_millicelsius: i32,
    pub power_profile: EvidenceProfile,
}

#[derive(Debug, Clone, Copy, PartialEq, Eq, Structural)]
pub struct CapturedMatchedWorkloadStartingConditions {
    pub conditions: MatchedWorkloadStartingConditions,
    pub captured_at: EvidenceTimestamp,
}

/// What restoring one fan yielded.
#[derive(Debug, PartialEq, Eq)]
pub struct MatchedWorkloadFanRestoration {
    pub auto_write_succeeded: bool,
    pub enable_readback: Option<u32>,
    pub endpoint_identity: String,
    pub outcome: RestorationOutcome,
}

impl Clone for MatchedWorkloadFanRestoration {
    fn clone(&self) -> (copy: MatchedWorkloadFanRestoration)
        ensures
            copy == *self,
    {
        MatchedWorkloadFanRestoration {
            auto_write_succeeded: self.auto_write_succeeded,
            enable_readback: self.enable_readback,
            endpoint_identity: self.endpoint_identity.clone(),
            outcome: self.outcome,
        }
    }
}

/// What a matched workload asks of the machine.
pub trait MatchedWorkloadEnvironment {
    /// What was asked so far, with what came back.
    spec fn history(&self) -> Seq<MatchedCall>;

    fn timestamp(&mut self) -> (answer: EvidenceTimestamp)
        ensures
            final(self).history() == old(self).history().push(
                MatchedCall::Timestamp { answer },
            ),
    ;

    fn capture_starting_conditions(
        &mut self,
    ) -> (answer: Result<CapturedMatchedWorkloadStartingConditions, String>)
        ensures
            final(self).history() == old(self).history().push(
                MatchedCall::CaptureStartingConditions { answer },
            ),
    ;

    /// Enters the already-admitted Custom-control path. An error is treated as an ambiguous
    /// partial handover and therefore still triggers restoration of both fans.
    /// Must confirm both fans entered Custom control by the absolute deadline.
    fn enter_custom_control(
        &mut self,
        deadline_monotonic_millis: u64,
    ) -> (answer: Result<(), String>)
        ensures
            final(self).history() == old(self).history().push(
                MatchedCall::EnterCustomControl { deadline: deadline_monotonic_millis, answer },
            ),
    ;

    /// Must return no later than `deadline_monotonic_millis`, including ambiguous launch errors.
    fn start_workload(
        &mut self,
        workload: &WorkloadEvidence,
        deadline_monotonic_millis: u64,
    ) -> (answer: Result<EvidenceTimestamp, String>)
        ensures
            final(self).history() == old(self).history().push(
                MatchedCall::StartWorkload {
                    workload: *workload,
                    deadline: deadline_monotonic_millis,
                    answer,
                },
            ),
    ;

    fn wait_until(
        &mut self,
        target_monotonic_millis: u64,
        deadline_monotonic_millis: u64,
    ) -> (answer: Result<(), String>)
        ensures
            final(self).history() == old(self).history().push(
                MatchedCall::WaitUntil {
                    target: target_monotonic_millis,
                    deadline: deadline_monotonic_millis,
                    answer,
                },
            ),
    ;

    fn capture_observation(
        &mut self,
        deadline_monotonic_millis: u64,
    ) -> (answer: Result<MatchedWorkloadObservation, String>)
        ensures
            final(self).history() == old(self).history().push(
                MatchedCall::CaptureObservation { deadline: deadline_monotonic_millis, answer },
            ),
    ;

    /// Must confirm workload termination by the absolute deadline.
    fn stop_workload(&mut self, deadline_monotonic_millis: u64) -> (answer: Result<(), String>)
        ensures
            final(self).history() == old(self).history().push(
                MatchedCall::StopWorkload { deadline: deadline_monotonic_millis, answer },
            ),
    ;

    /// Restores exactly one fan by the absolute deadline. The runner calls this once for each fan
    /// even if the first fails or completes late.
    fn restore_fan(
        &mut self,
        fan: EvidenceFan,
        deadline_monotonic_millis: u64,
    ) -> (answer: MatchedWorkloadFanRestoration)
        ensures
            final(self).history() == old(self).history().push(
                MatchedCall::RestoreFan { fan, deadline: deadline_monotonic_millis, answer },
            ),
    ;
}

/// What a matched run holds.
#[derive(Debug)]
pub struct MatchedRun {
    pub workload: WorkloadEvidence,
    pub starting_conditions_captured_at: Option<EvidenceTimestamp>,
    pub workload_started_at: Option<EvidenceTimestamp>,
    pub samples: Vec<TelemetrySampleEvidence>,
    pub commands: Vec<FanCommandEvidence>,
    pub readbacks: Vec<FanReadbackEvidence>,
    pub state_transitions: Vec<StateTransitionEvidence>,
    pub faults: Vec<FaultEvidence>,
    pub restoration_attempts: Vec<RestorationAttemptEvidence>,
    pub kernel_faults: Vec<String>,
    pub nvidia_faults: Vec<String>,
    pub system_stable: bool,
    pub control: ControlEvidenceState,
    pub tachometer: TachometerEvidenceState,
    /// The latest moment that a confirmed step left behind.
    pub not_before: EvidenceTimestamp,
}

/// The contents of a matched run.
pub struct MatchedRunModel {
    pub workload: WorkloadModel,
    pub starting_conditions_captured_at: Option<EvidenceTimestamp>,
    pub workload_started_at: Option<EvidenceTimestamp>,
    pub samples: Seq<TelemetrySampleEvidence>,
    pub commands: Seq<FanCommandEvidence>,
    pub readbacks: Seq<ReadbackModel>,
    pub transitions: Seq<TransitionModel>,
    pub faults: Seq<FaultModel>,
    pub attempts: Seq<RestorationAttemptEvidence>,
    pub kernel_faults: Seq<Seq<char>>,
    pub nvidia_faults: Seq<Seq<char>>,
    pub system_stable: bool,
    pub control: ControlModel,
    pub tachometer: TachometerEvidenceState,
    pub not_before: EvidenceTimestamp,
}

impl View for MatchedRun {
    type V = MatchedRunModel;

    open spec fn view(&self) -> MatchedRunModel {
        MatchedRunModel {
            workload: self.workload@,
            starting_conditions_captured_at: self.starting_conditions_captured_at,
            workload_started_at: self.workload_started_at,
            samples: self.samples@,
            commands: self.commands@,
            readbacks: readback_list(self.readbacks@),
            transitions: transition_list(self.state_transitions@),
            faults: fault_list(self.faults@),
            attempts: self.restoration_attempts@,
            kernel_faults: texts(self.kernel_faults@),
            nvidia_faults: texts(self.nvidia_faults@),
            system_stable: self.system_stable,
            control: self.control@,
            tachometer: self.tachometer,
            not_before: self.not_before,
        }
    }
}

/// A run that has just started.
pub open spec fn fresh_run(workload: WorkloadModel, started_at: EvidenceTimestamp) -> MatchedRunModel {
    MatchedRunModel {
        workload,
        starting_conditions_captured_at: None,
        workload_started_at: None,
        samples: Seq::empty(),
        commands: Seq::empty(),
        readbacks: Seq::empty(),
        transitions: Seq::empty(),
        faults: Seq::empty(),
        attempts: Seq::empty(),
        kernel_faults: Seq::empty(),
        nvidia_faults: Seq::empty(),
        system_stable: true,
        control: unknown_control(),
        tachometer: TachometerEvidenceState { cpu: None, gpu: None },
        not_before: started_at,
    }
}

/// A run with one more fault.
pub open spec fn matched_fault(
    m: MatchedRunModel,
    at: EvidenceTimestamp,
    code: Seq<char>,
    detail: Seq<char>,
) -> MatchedRunModel {
    MatchedRunModel { faults: m.faults.push(fault(at, code, detail)), ..m }
}

/// A run with one more fault where a condition holds.
pub open spec fn matched_fault_if(
    m: MatchedRunModel,
    condition: bool,
    at: EvidenceTimestamp,
    code: Seq<char>,
    detail: Seq<char>,
) -> MatchedRunModel {
    if condition {
        matched_fault(m, at, code, detail)
    } else {
        m
    }
}

/// Whether starting temperatures are plausible and below the abort limits.
pub open spec fn matched_start_is_safe(conditions: MatchedWorkloadStartingConditions) -> bool {
    &&& plausible(conditions.ambient_millicelsius, 80_000)
    &&& plausible(conditions.cpu_millicelsius, 150_000)
    &&& plausible(conditions.gpu_millicelsius, 150_000)
    &&& conditions.cpu_millicelsius < 95_000
    &&& conditions.gpu_millicelsius < 85_000
}

/// Whether starting conditions are those of a baseline, within the allowed distance.
pub open spec fn matched_start_is_comparable(
    conditions: MatchedWorkloadStartingConditions,
    baseline: WorkloadModel,
) -> bool {
    &&& conditions.power_profile == baseline.power_profile
    &&& is_near(conditions.ambient_millicelsius, baseline.ambient_millicelsius, 2_000)
    &&& is_near(conditions.cpu_millicelsius, baseline.starting_cpu_millicelsius, 3_000)
    &&& is_near(conditions.gpu_millicelsius, baseline.starting_gpu_millicelsius, 3_000)
}

/// A run after its starting conditions were captured.
pub open spec fn after_matched_conditions(
    m: MatchedRunModel,
    baseline: WorkloadModel,
    started_at: EvidenceTimestamp,
    completed_at: EvidenceTimestamp,
    result: Result<CapturedMatchedWorkloadStartingConditions, String>,
) -> MatchedRunModel {
    match result {
        Err(error) => matched_fault(
            m,
            completed_at,
            "starting-conditions"@,
            "cannot capture starting conditions: "@ + error@,
        ),
        Ok(capture) => if !(started_at.monotonic_millis <= capture.captured_at.monotonic_millis
            <= completed_at.monotonic_millis) {
            matched_fault(
                m,
                completed_at,
                "starting-conditions"@,
                "starting-condition timestamp lies outside its capture window"@,
            )
        } else {
            let measured = MatchedRunModel {
                starting_conditions_captured_at: Some(capture.captured_at),
                workload: WorkloadModel {
                    ambient_millicelsius: capture.conditions.ambient_millicelsius,
                    starting_cpu_millicelsius: capture.conditions.cpu_millicelsius,
                    starting_gpu_millicelsius: capture.conditions.gpu_millicelsius,
                    ..m.workload
                },
                ..m
            };
            if !matched_start_is_safe(capture.conditions) {
                matched_fault(
                    measured,
                    capture.captured_at,
                    "starting-conditions"@,
                    "measured temperatures are implausible or at an absolute abort limit"@,
                )
            } else if !matched_start_is_comparable(capture.conditions, baseline) {
                matched_fault(
                    measured,
                    capture.captured_at,
                    "starting-conditions-not-comparable"@,
                    "ambient must be within 2 C and starting CPU/GPU within 3 C of baseline"@,
                )
            } else {
                measured
            }
        },
    }
}

/// A run after Custom control was asked for.
pub open spec fn after_entry(
    m: MatchedRunModel,
    requested_at: EvidenceTimestamp,
    deadline: u64,
    completed_at: EvidenceTimestamp,
    result: Result<(), String>,
) -> MatchedRunModel {
    let regressed = completed_at.monotonic_millis < requested_at.monotonic_millis;
    let timed = if regressed {
        matched_fault(
            m,
            requested_at,
            "custom-control-entry"@,
            "Custom control handover completion time regressed"@,
        )
    } else {
        matched_fault_if(
            m,
            completed_at.monotonic_millis > deadline,
            completed_at,
            "custom-control-entry"@,
            "Custom control handover exceeded its deadline"@,
        )
    };
    let moved = MatchedRunModel {
        not_before: if regressed {
            requested_at
        } else {
            completed_at
        },
        ..timed
    };
    match result {
        Ok(()) => if moved.faults.len() == 0 {
            MatchedRunModel {
                transitions: moved.transitions.push(
                    transition(completed_at, "firmware-auto"@, "custom-control"@),
                ),
                ..moved
            }
        } else {
            moved
        },
        Err(error) => matched_fault(
            moved,
            completed_at,
            "custom-control-entry"@,
            "cannot confirm Custom control handover: "@ + error@,
        ),
    }
}

/// A run after its workload was launched.
pub open spec fn after_matched_launch(
    m: MatchedRunModel,
    requested_at: EvidenceTimestamp,
    deadline: u64,
    completed_at: EvidenceTimestamp,
    result: Result<EvidenceTimestamp, String>,
) -> MatchedRunModel {
    let moved = MatchedRunModel {
        not_before: if completed_at.monotonic_millis >= requested_at.monotonic_millis {
            completed_at
        } else {
            m.not_before
        },
        ..m
    };
    let timed = matched_fault_if(
        moved,
        completed_at.monotonic_millis > deadline,
        completed_at,
        "workload-start"@,
        "fixed workload launch exceeded its deadline"@,
    );
    match result {
        Ok(source) => if timed.faults.len() > 0 {
            timed
        } else if requested_at.monotonic_millis <= source.monotonic_millis
            <= completed_at.monotonic_millis {
            MatchedRunModel { workload_started_at: Some(source), ..timed }
        } else {
            matched_fault(
                timed,
                completed_at,
                "workload-start"@,
                "workload timestamp lies outside its launch window"@,
            )
        },
        Err(error) => matched_fault(
            timed,
            completed_at,
            "workload-start"@,
            "cannot start fixed workload: "@ + error@,
        ),
    }
}

/// A run after one more observation was captured.
pub open spec fn after_capture(
    m: MatchedRunModel,
    schedule: ObservationSchedule,
    deadline: u64,
    observation: MatchedObservationModel,
    cpu: TachometerExpectation,
    gpu: TachometerExpectation,
) -> MatchedRunModel {
    let captured_at = schedule.captured_at;
    let judged = after_matched_observation(
        ControlJudgement {
            control: m.control,
            tachometer: m.tachometer,
            faults: with_fault_if(
                m.faults,
                captured_at.monotonic_millis > deadline,
                fault(captured_at, "sample-cadence"@, "telemetry capture exceeded its deadline"@),
            ),
        },
        observation,
        m.workload.power_profile,
        schedule,
        cpu,
        gpu,
    );
    let recorded = recorded_observation(observation, schedule);
    MatchedRunModel {
        not_before: if captured_at.monotonic_millis >= m.not_before.monotonic_millis {
            captured_at
        } else {
            m.not_before
        },
        control: judged.control,
        tachometer: judged.tachometer,
        faults: judged.faults,
        system_stable: m.system_stable && observation.system_stable,
        kernel_faults: m.kernel_faults + observation.kernel_faults,
        nvidia_faults: m.nvidia_faults + observation.nvidia_faults,
        commands: m.commands + recorded.commands,
        readbacks: m.readbacks + readback_list(recorded.readbacks),
        samples: m.samples.push(recorded.sample),
        ..m
    }
}

/// The moment from which a request counts: never before what is already confirmed.
pub open spec fn boundary_of(
    not_before: EvidenceTimestamp,
    requested_at: EvidenceTimestamp,
) -> EvidenceTimestamp {
    if requested_at.monotonic_millis < not_before.monotonic_millis {
        not_before
    } else {
        requested_at
    }
}

/// A deadline that stays at the last representable moment.
pub open spec fn saturated(start: u64, timeout: int) -> u64 {
    if start + timeout > u64::MAX {
        u64::MAX
    } else {
        (start + timeout) as u64
    }
}

/// A run after a request that must be made whatever the clock says.
pub open spec fn after_request(
    m: MatchedRunModel,
    requested_at: EvidenceTimestamp,
    code: Seq<char>,
    regressed: Seq<char>,
    overflowed: Seq<char>,
) -> MatchedRunModel {
    let boundary = boundary_of(m.not_before, requested_at);
    matched_fault_if(
        matched_fault_if(
            m,
            requested_at.monotonic_millis < m.not_before.monotonic_millis,
            m.not_before,
            code,
            regressed,
        ),
        boundary.monotonic_millis + 5_000 > u64::MAX,
        boundary,
        code,
        overflowed,
    )
}

/// A run after its workload was told to stop.
pub open spec fn after_matched_stop(
    m: MatchedRunModel,
    boundary: EvidenceTimestamp,
    deadline: u64,
    stopped_at: EvidenceTimestamp,
    result: Result<(), String>,
) -> MatchedRunModel {
    let event_at = boundary_of(boundary, stopped_at);
    let moved = MatchedRunModel {
        not_before: event_at,
        ..matched_fault_if(
            m,
            stopped_at.monotonic_millis < boundary.monotonic_millis,
            boundary,
            "workload-stop"@,
            "workload termination completion time regressed"@,
        )
    };
    match result {
        Err(error) => matched_fault(
            moved,
            event_at,
            "workload-stop"@,
            "cannot confirm fixed workload stopped: "@ + error@,
        ),
        Ok(()) => matched_fault_if(
            moved,
            stopped_at.monotonic_millis > deadline,
            stopped_at,
            "workload-stop"@,
            "workload termination exceeded its deadline"@,
        ),
    }
}

/// Whether a restoration was read back as Firmware Auto, in time and from the endpoint that the
/// run was bound to.
pub open spec fn reads_back_auto(
    control: ControlModel,
    fan: EvidenceFan,
    boundary: EvidenceTimestamp,
    deadline: u64,
    completed_at: EvidenceTimestamp,
    restoration: MatchedWorkloadFanRestoration,
) -> bool {
    &&& restoration.enable_readback == Some(2u32)
    &&& control.get(fan, FanReadbackField::Enable) == Some(restoration.endpoint_identity@)
    &&& boundary.monotonic_millis <= completed_at.monotonic_millis <= deadline
}

/// A run after one fan was restored.
pub open spec fn after_restoration(
    m: MatchedRunModel,
    fan: EvidenceFan,
    boundary: EvidenceTimestamp,
    deadline: u64,
    completed_at: EvidenceTimestamp,
    restoration: MatchedWorkloadFanRestoration,
) -> MatchedRunModel {
    let at = boundary_of(boundary, completed_at);
    let timed = if completed_at.monotonic_millis < boundary.monotonic_millis {
        matched_fault(
            m,
            boundary,
            "firmware-auto-restoration"@,
            fan_text(fan) + " restoration completion time regressed"@,
        )
    } else {
        matched_fault_if(
            m,
            completed_at.monotonic_millis > deadline,
            completed_at,
            "firmware-auto-restoration"@,
            fan_text(fan) + " restoration exceeded its deadline"@,
        )
    };
    MatchedRunModel {
        not_before: at,
        attempts: timed.attempts.push(
            RestorationAttemptEvidence {
                timestamp: at,
                fan,
                auto_write_succeeded: restoration.auto_write_succeeded,
                enable_readback: restoration.enable_readback,
                outcome: restoration.outcome,
            },
        ),
        readbacks: timed.readbacks.push(
            ReadbackModel {
                timestamp: at,
                source_timestamp: None,
                fresh: None,
                boot_id: None,
                fan,
                field: FanReadbackField::Enable,
                value: restoration.enable_readback,
                endpoint_identity: restoration.endpoint_identity@,
                outcome: if reads_back_auto(
                    m.control,
                    fan,
                    boundary,
                    deadline,
                    completed_at,
                    restoration,
                ) {
                    ObservationOutcome::Confirmed
                } else if restoration.enable_readback is Some {
                    ObservationOutcome::Unexpected
                } else {
                    ObservationOutcome::Unreadable
                },
                phase: Some(FanReadbackPhase::Final),
            },
        ),
        ..timed
    }
}

/// A run after both fans were restored.
pub open spec fn after_final_transition(
    m: MatchedRunModel,
    observed_at: EvidenceTimestamp,
    restored: bool,
) -> MatchedRunModel {
    let at = boundary_of(m.not_before, observed_at);
    let timed = matched_fault_if(
        m,
        observed_at.monotonic_millis < m.not_before.monotonic_millis,
        m.not_before,
        "firmware-auto-restoration"@,
        "final restoration transition time regressed"@,
    );
    matched_fault_if(
        MatchedRunModel {
            transitions: timed.transitions.push(
                transition(
                    at,
                    "custom-control"@,
                    if restored {
                        "firmware-auto"@
                    } else {
                        "restoration-failed"@
                    },
                ),
            ),
            ..timed
        },
        !restored,
        at,
        "firmware-auto-unconfirmed"@,
        "both fans were not confirmed in Firmware Auto"@,
    )
}

/// A run after its thermal comparison.
pub open spec fn after_comparison(
    m: MatchedRunModel,
    at: EvidenceTimestamp,
    comparison: ThermalComparison,
) -> MatchedRunModel {
    let peaks = matched_fault_if(
        m,
        !comparison.peaks_acceptable,
        at,
        "peak-temperature-regression"@,
        "Custom CPU or GPU peak exceeded baseline by more than 2 C"@,
    );
    let percentiles = matched_fault_if(
        peaks,
        !comparison.percentiles_acceptable,
        at,
        "p95-temperature-regression"@,
        "Custom CPU or GPU 95th percentile exceeded baseline by more than 2 C"@,
    );
    matched_fault_if(
        percentiles,
        !comparison.slopes_acceptable,
        at,
        "final-slope-regression"@,
        "Custom final-five-minute CPU or GPU slope exceeded 1 C/min"@,
    )
}

/// A run after its completion.
pub open spec fn after_completion(m: MatchedRunModel, observed_at: EvidenceTimestamp) -> MatchedRunModel {
    matched_fault_if(
        m,
        observed_at.monotonic_millis < m.not_before.monotonic_millis,
        m.not_before,
        "matched-workload-completion"@,
        "run completion time regressed"@,
    )
}

/// Finds [`boundary_of`].
pub(crate) fn not_earlier(
    not_before: EvidenceTimestamp,
    requested_at: EvidenceTimestamp,
) -> (boundary: EvidenceTimestamp)
    ensures
        boundary == boundary_of(not_before, requested_at),
{
    if requested_at.monotonic_millis < not_before.monotonic_millis {
        not_before
    } else {
        requested_at
    }
}

impl MatchedRun {
    /// Starts a run for a workload.
    pub fn begin(workload: &WorkloadEvidence, started_at: EvidenceTimestamp) -> (run: MatchedRun)
        ensures
            run@ == fresh_run(workload@, started_at),
    {
        let run = MatchedRun {
            workload: workload.clone(),
            starting_conditions_captured_at: None,
            workload_started_at: None,
            samples: Vec::new(),
            commands: Vec::new(),
            readbacks: Vec::new(),
            state_transitions: Vec::new(),
            faults: Vec::new(),
            restoration_attempts: Vec::new(),
            kernel_faults: Vec::new(),
            nvidia_faults: Vec::new(),
            system_stable: true,
            control: ControlEvidenceState::new(),
            tachometer: TachometerEvidenceState { cpu: None, gpu: None },
            not_before: started_at,
        };
        proof {
            assert(run@.readbacks =~= Seq::empty());
            assert(run@.transitions =~= Seq::empty());
            assert(run@.faults =~= Seq::empty());
            assert(run@.kernel_faults =~= Seq::empty());
            assert(run@.nvidia_faults =~= Seq::empty());
        }
        run
    }

    /// Whether the run has met no fault so far.
    pub fn is_clean(&self) -> (yes: bool)
        ensures
            yes == (self@.faults.len() == 0),
    {
        assert(fault_list(self.faults@).len() == self.faults@.len());
        self.faults.len() == 0
    }

    /// Records a fault.
    pub fn note(&mut self, at: EvidenceTimestamp, code: &str, detail: &str)
        ensures
            final(self)@ == matched_fault(old(self)@, at, code@, detail@),
    {
        push_fault(&mut self.faults, at, code, detail);
    }

    /// Records the starting conditions.
    pub fn record_conditions(
        &mut self,
        baseline: &WorkloadEvidence,
        started_at: EvidenceTimestamp,
        completed_at: EvidenceTimestamp,
        result: Result<CapturedMatchedWorkloadStartingConditions, String>,
    )
        ensures
            final(self)@ == after_matched_conditions(
                old(self)@,
                baseline@,
                started_at,
                completed_at,
                result,
            ),
    {
        let capture = match result {
            Ok(capture) => capture,
            Err(error) => {
                let detail = join("cannot capture starting conditions: ", error.as_str());
                self.note(completed_at, "starting-conditions", detail.as_str());
                return;
            },
        };
        if capture.captured_at.monotonic_millis < started_at.monotonic_millis
            || capture.captured_at.monotonic_millis > completed_at.monotonic_millis {
            self.note(
                completed_at,
                "starting-conditions",
                "starting-condition timestamp lies outside its capture window",
            );
            return;
        }
        let conditions = capture.conditions;
        self.starting_conditions_captured_at = Some(capture.captured_at);
        self.workload.ambient_millicelsius = conditions.ambient_millicelsius;
        self.workload.starting_cpu_millicelsius = conditions.cpu_millicelsius;
        self.workload.starting_gpu_millicelsius = conditions.gpu_millicelsius;
        let safe = plausible_temperature(conditions.ambient_millicelsius, 80_000)
            && plausible_temperature(conditions.cpu_millicelsius, 150_000)
            && plausible_temperature(conditions.gpu_millicelsius, 150_000)
            && conditions.cpu_millicelsius < CPU_ABSOLUTE_ABORT_MILLICELSIUS
            && conditions.gpu_millicelsius < GPU_ABSOLUTE_ABORT_MILLICELSIUS;
        if !safe {
            self.note(
                capture.captured_at,
                "starting-conditions",
                "measured temperatures are implausible or at an absolute abort limit",
            );
        } else if !(conditions.power_profile == baseline.power_profile && lies_near(
            conditions.ambient_millicelsius,
            baseline.ambient_millicelsius,
            AMBIENT_COMPARABILITY_MILLICELSIUS,
        ) && lies_near(
            conditions.cpu_millicelsius,
            baseline.starting_cpu_millicelsius,
            STARTING_TEMPERATURE_COMPARABILITY_MILLICELSIUS,
        ) && lies_near(
            conditions.gpu_millicelsius,
            baseline.starting_gpu_millicelsius,
            STARTING_TEMPERATURE_COMPARABILITY_MILLICELSIUS,
        )) {
            self.note(
                capture.captured_at,
                "starting-conditions-not-comparable",
                "ambient must be within 2 C and starting CPU/GPU within 3 C of baseline",
            );
        }
    }

    /// Records the handover to Custom control.
    pub fn record_entry(
        &mut self,
        requested_at: EvidenceTimestamp,
        deadline: u64,
        completed_at: EvidenceTimestamp,
        result: Result<(), String>,
    )
        ensures
            final(self)@ == after_entry(old(self)@, requested_at, deadline, completed_at, result),
    {
        if completed_at.monotonic_millis < requested_at.monotonic_millis {
            self.note(
                requested_at,
                "custom-control-entry",
                "Custom control handover completion time regressed",
            );
            self.not_before = requested_at;
        } else {
            if completed_at.monotonic_millis > deadline {
                self.note(
                    completed_at,
                    "custom-control-entry",
                    "Custom control handover exceeded its deadline",
                );
            }
            self.not_before = completed_at;
        }
        match result {
            Ok(()) => {
                if self.is_clean() {
                    push_transition(
                        &mut self.state_transitions,
                        completed_at,
                        "firmware-auto",
                        "custom-control",
                    );
                }
            },
            Err(error) => {
                let detail = join("cannot confirm Custom control handover: ", error.as_str());
                self.note(completed_at, "custom-control-entry", detail.as_str());
            },
        }
    }

    /// Records the launch of the workload.
    pub fn record_launch(
        &mut self,
        requested_at: EvidenceTimestamp,
        deadline: u64,
        completed_at: EvidenceTimestamp,
        result: Result<EvidenceTimestamp, String>,
    )
        ensures
            final(self)@ == after_matched_launch(
                old(self)@,
                requested_at,
                deadline,
                completed_at,
                result,
            ),
    {
        if completed_at.monotonic_millis >= requested_at.monotonic_millis {
            self.not_before = completed_at;
        }
        if completed_at.monotonic_millis > deadline {
            self.note(
                completed_at,
                "workload-start",
                "fixed workload launch exceeded its deadline",
            );
        }
        match result {
            Ok(source) => {
                if self.is_clean() {
                    if source.monotonic_millis >= requested_at.monotonic_millis
                        && source.monotonic_millis <= completed_at.monotonic_millis {
                        self.workload_started_at = Some(source);
                    } else {
                        self.note(
                            completed_at,
                            "workload-start",
                            "workload timestamp lies outside its launch window",
                        );
                    }
                }
            },
            Err(error) => {
                let detail = join("cannot start fixed workload: ", error.as_str());
                self.note(completed_at, "workload-start", detail.as_str());
            },
        }
    }

    /// Records one more observation.
    pub fn record_observation(
        &mut self,
        schedule: ObservationSchedule,
        deadline: u64,
        mut observation: MatchedWorkloadObservation,
        calibrations: MatchedWorkloadTachometerCalibrations<'_>,
    )
        ensures
            final(self)@ == after_capture(
                old(self)@,
                schedule,
                deadline,
                observation@,
                expectation_of(*calibrations.cpu),
                expectation_of(*calibrations.gpu),
            ),
    {
        let captured_at = schedule.captured_at;
        if captured_at.monotonic_millis >= self.not_before.monotonic_millis {
            self.not_before = captured_at;
        }
        if captured_at.monotonic_millis > deadline {
            self.note(captured_at, "sample-cadence", "telemetry capture exceeded its deadline");
        }
        validate_matched_observation(
            &mut observation,
            self.workload.power_profile,
            schedule,
            &mut self.control,
            calibrations,
            &mut self.tachometer,
            &mut self.faults,
        );
        let mut observation = observation;
        self.system_stable = self.system_stable && observation.system_stable;
        extend_texts(&mut self.kernel_faults, &observation.kernel_faults);
        extend_texts(&mut self.nvidia_faults, &observation.nvidia_faults);
        self.commands.append(&mut observation.commands);
        append_readbacks(&mut self.readbacks, observation.readbacks);
        self.samples.push(observation.sample);
    }

    /// Records a request that is made whatever the clock says, and gives the moment from which it
    /// counts and its deadline.
    pub fn record_request(
        &mut self,
        requested_at: EvidenceTimestamp,
        code: &str,
        regressed: &str,
        overflowed: &str,
    ) -> (request: (EvidenceTimestamp, u64))
        ensures
            final(self)@ == after_request(old(self)@, requested_at, code@, regressed@, overflowed@),
            request.0 == boundary_of(old(self)@.not_before, requested_at),
            request.1 == saturated(request.0.monotonic_millis, 5_000),
    {
        if requested_at.monotonic_millis < self.not_before.monotonic_millis {
            self.note(self.not_before, code, regressed);
        }
        let boundary = not_earlier(self.not_before, requested_at);
        let deadline: u64 = match boundary.monotonic_millis.checked_add(5_000) {
            Some(deadline) => deadline,
            None => {
                self.note(boundary, code, overflowed);
                u64::MAX
            },
        };
        (boundary, deadline)
    }

    /// Records the end of the workload.
    pub fn record_stop(
        &mut self,
        boundary: EvidenceTimestamp,
        deadline: u64,
        stopped_at: EvidenceTimestamp,
        result: Result<(), String>,
    )
        ensures
            final(self)@ == after_matched_stop(old(self)@, boundary, deadline, stopped_at, result),
    {
        if stopped_at.monotonic_millis < boundary.monotonic_millis {
            self.note(
                boundary,
                "workload-stop",
                "workload termination completion time regressed",
            );
        }
        let event_at = not_earlier(boundary, stopped_at);
        self.not_before = event_at;
        match result {
            Err(error) => {
                let detail = join("cannot confirm fixed workload stopped: ", error.as_str());
                self.note(event_at, "workload-stop", detail.as_str());
            },
            Ok(()) => {
                if stopped_at.monotonic_millis > deadline {
                    self.note(
                        stopped_at,
                        "workload-stop",
                        "workload termination exceeded its deadline",
                    );
                }
            },
        }
    }

    /// Records the restoration of one fan, and tells whether it is confirmed.
    pub fn record_restoration(
        &mut self,
        fan: EvidenceFan,
        boundary: EvidenceTimestamp,
        deadline: u64,
        completed_at: EvidenceTimestamp,
        restoration: MatchedWorkloadFanRestoration,
    ) -> (restored: bool)
        ensures
            final(self)@ == after_restoration(
                old(self)@,
                fan,
                boundary,
                deadline,
                completed_at,
                restoration,
            ),
            restored == (restoration.outcome == RestorationOutcome::FirmwareAutoConfirmed
                && reads_back_auto(
                old(self)@.control,
                fan,
                boundary,
                deadline,
                completed_at,
                restoration,
            )),
    {
        if completed_at.monotonic_millis < boundary.monotonic_millis {
            self.note(
                boundary,
                "firmware-auto-restoration",
                join(fan_name(fan), " restoration completion time regressed").as_str(),
            );
        } else if completed_at.monotonic_millis > deadline {
            self.note(
                completed_at,
                "firmware-auto-restoration",
                join(fan_name(fan), " restoration exceeded its deadline").as_str(),
            );
        }
        let at = not_earlier(boundary, completed_at);
        self.not_before = at;
        let auto = match restoration.enable_readback {
            Some(value) => value == 2,
            None => false,
        };
        let confirmed = auto && is_text(
            self.control.endpoint_identity(fan, FanReadbackField::Enable),
            restoration.endpoint_identity.as_str(),
        ) && completed_at.monotonic_millis >= boundary.monotonic_millis
            && completed_at.monotonic_millis <= deadline;
        self.restoration_attempts.push(
            RestorationAttemptEvidence {
                timestamp: at,
                fan,
                auto_write_succeeded: restoration.auto_write_succeeded,
                enable_readback: restoration.enable_readback,
                outcome: restoration.outcome,
            },
        );
        push_readback(
            &mut self.readbacks,
            FanReadbackEvidence {
                timestamp: at,
                source_timestamp: None,
                fresh: None,
                boot_id: None,
                fan,
                field: FanReadbackField::Enable,
                value: restoration.enable_readback,
                endpoint_identity: restoration.endpoint_identity,
                outcome: if confirmed {
                    ObservationOutcome::Confirmed
                } else if restoration.enable_readback.is_some() {
                    ObservationOutcome::Unexpected
                } else {
                    ObservationOutcome::Unreadable
                },
                phase: Some(FanReadbackPhase::Final),
            },
        );
        confirmed && restoration.outcome == RestorationOutcome::FirmwareAutoConfirmed
    }

    /// Records the way out of Custom control.
    pub fn record_final_transition(&mut self, observed_at: EvidenceTimestamp, restored: bool)
        ensures
            final(self)@ == after_final_transition(old(self)@, observed_at, restored),
    {
        if observed_at.monotonic_millis < self.not_before.monotonic_millis {
            self.note(
                self.not_before,
                "firmware-auto-restoration",
                "final restoration transition time regressed",
            );
        }
        let at = not_earlier(self.not_before, observed_at);
        push_transition(
            &mut self.state_transitions,
            at,
            "custom-control",
            if restored {
                "firmware-auto"
            } else {
                "restoration-failed"
            },
        );
        if !restored {
            self.note(
                at,
                "firmware-auto-unconfirmed",
                "both fans were not confirmed in Firmware Auto",
            );
        }
    }

    /// Records the thermal comparison with the baseline.
    pub fn record_comparison(&mut self, at: EvidenceTimestamp, comparison: ThermalComparison)
        ensures
            final(self)@ == after_comparison(old(self)@, at, comparison),
    {
        if !comparison.peaks_acceptable {
            self.note(
                at,
                "peak-temperature-regression",
                "Custom CPU or GPU peak exceeded baseline by more than 2 C",
            );
        }
        if !comparison.percentiles_acceptable {
            self.note(
                at,
                "p95-temperature-regression",
                "Custom CPU or GPU 95th percentile exceeded baseline by more than 2 C",
            );
        }
        if !comparison.slopes_acceptable {
            self.note(
                at,
                "final-slope-regression",
                "Custom final-five-minute CPU or GPU slope exceeded 1 C/min",
            );
        }
    }

    /// Records the completion of the run, and gives its moment.
    pub fn record_completion(&mut self, observed_at: EvidenceTimestamp) -> (completed_at:
        EvidenceTimestamp)
        ensures
            final(self)@ == after_completion(old(self)@, observed_at),
            completed_at == boundary_of(old(self)@.not_before, observed_at),
    {
        if observed_at.monotonic_millis < self.not_before.monotonic_millis {
            self.note(
                self.not_before,
                "matched-workload-completion",
                "run completion time regressed",
            );
        }
        not_earlier(self.not_before, observed_at)
    }
}

/// Whether a run met its plan without a fault and left both fans in Firmware Auto.
pub open spec fn matched_run_is_accepted(
    m: MatchedRunModel,
    samples_required: nat,
    restored: bool,
) -> bool {
    m.faults.len() == 0 && m.samples.len() == samples_required && restored
}

/// How a matched run is put on record.
pub open spec fn is_matched_record(
    record: RecordModel,
    m: MatchedRunModel,
    plan: MatchedWorkloadPlan<'_>,
    started_at: EvidenceTimestamp,
    completed_at: EvidenceTimestamp,
    restored: bool,
    summary: ThermalSummaryModel,
) -> bool {
    let baseline = plan.baseline@.record;
    let accepted = matched_run_is_accepted(m, baseline.samples.len(), restored);
    let class = class_of(baseline.workload->0.workload_id)->0;
    &&& record.schema_version == 2
    &&& record.envelope == baseline.envelope
    &&& record.stage == "matched-workload"@
    &&& record.started_at == started_at
    &&& record.completed_at == completed_at
    &&& record.starting_conditions_captured_at == m.starting_conditions_captured_at
    &&& record.workload_started_at == m.workload_started_at
    &&& record.baseline_binding_sha256 == Some(fingerprint(plan.baseline@.canonical))
    &&& record.workload == Some(m.workload)
    &&& record.samples == m.samples
    &&& record.commands == m.commands
    &&& readback_list(record.readbacks) == m.readbacks
    &&& transition_list(record.state_transitions) == m.transitions
    &&& fault_list(record.faults) == m.faults
    &&& record.restoration_attempts == m.attempts
    &&& record.calibration == seq![
        plan.tachometer_calibrations.cpu@,
        plan.tachometer_calibrations.gpu@,
    ]
    &&& record.thermal_summary == Some(summary)
    &&& record.outcome == (OutcomeModel {
        status: if accepted {
            RunOutcomeStatus::Passed
        } else {
            RunOutcomeStatus::Failed
        },
        reason: if accepted {
            "Custom workload accepted against its Firmware Auto baseline"@
        } else {
            first_detail(m.faults, "Custom workload incomplete"@)
        },
        another_passing_run_required: !accepted || plan.previous_passing_runs@.len() + 1
            < runs_required(class),
        final_firmware_auto_confirmed: restored,
    })
    &&& record.process_stops.len() == 0
    &&& record.prerequisite_binding_sha256 is None
    &&& record.fan_endpoint_identities is None
    &&& record.endurance_thermal_envelope is None
    &&& record.endurance_observer_attestation is None
    &&& record.live_lifecycle_cases is None
}

/// Puts a matched run on record.
pub fn assemble_matched_record(
    run: MatchedRun,
    plan: &MatchedWorkloadPlan<'_>,
    class: MatchedWorkloadClass,
    started_at: EvidenceTimestamp,
    completed_at: EvidenceTimestamp,
    restored: bool,
    summary: ThermalSummaryEvidence,
) -> (record: EvidenceRecord)
    requires
        plan.baseline@.record.workload is Some,
        class_of(plan.baseline@.record.workload->0.workload_id) == Some(class),
    ensures
        is_matched_record(
            record@,
            run@,
            *plan,
            started_at,
            completed_at,
            restored,
            summary@,
        ),
{
    let baseline = plan.baseline.record;
    let accepted = run.is_clean() && run.samples.len() == baseline.samples.len() && restored;
    let previous = plan.previous_passing_runs.len();
    let another_passing_run_required = !accepted || (class.required_passing_runs() == 2 && previous
        == 0);
    let reason = if accepted {
        "Custom workload accepted against its Firmware Auto baseline".to_owned()
    } else {
        first_fault_detail(&run.faults, "Custom workload incomplete")
    };
    let mut calibration = Vec::new();
    calibration.push(plan.tachometer_calibrations.cpu.clone());
    calibration.push(plan.tachometer_calibrations.gpu.clone());
    let record = EvidenceRecord {
        schema_version: EVIDENCE_SCHEMA_VERSION_V2,
        record_status: EvidenceRecordStatus::Complete,
        qualification_envelope: baseline.qualification_envelope.clone(),
        stage: "matched-workload".to_owned(),
        started_at,
        completed_at,
        starting_conditions_captured_at: run.starting_conditions_captured_at,
        workload_started_at: run.workload_started_at,
        baseline_binding_sha256: Some(baseline_fingerprint(&plan.baseline)),
        prerequisite_binding_sha256: None,
        fan_endpoint_identities: None,
        workload: Some(run.workload),
        samples: run.samples,
        commands: run.commands,
        readbacks: run.readbacks,
        state_transitions: run.state_transitions,
        faults: run.faults,
        restoration_attempts: run.restoration_attempts,
        process_stops: Vec::new(),
        calibration,
        thermal_summary: Some(summary),
        endurance_thermal_envelope: None,
        endurance_observer_attestation: None,
        live_lifecycle_cases: None,
        outcome: RunOutcomeEvidence {
            status: if accepted {
                RunOutcomeStatus::Passed
            } else {
                RunOutcomeStatus::Failed
            },
            reason,
            another_passing_run_required,
            final_firmware_auto_confirmed: restored,
        },
    };
    proof {
        assert(record@.calibration =~= seq![
            plan.tachometer_calibrations.cpu@,
            plan.tachometer_calibrations.gpu@,
        ]);
    }
    record
}

/// What a matched run did to the machine, with what was asked, the moment from which the deadline
/// counts, and what came back.
#[allow(inconsistent_fields)]
pub enum MatchedAction {
    Enter { from: u64, deadline: u64, answer: Result<(), String> },
    Launch {
        workload: WorkloadEvidence,
        from: u64,
        deadline: u64,
        answer: Result<EvidenceTimestamp, String>,
    },
    Stop { from: u64, deadline: u64, answer: Result<(), String> },
    Restore { fan: EvidenceFan, from: u64, deadline: u64, answer: MatchedWorkloadFanRestoration },
}

impl MatchedAction {
    /// The call that the action is.
    pub open spec fn call(self) -> MatchedCall {
        match self {
            MatchedAction::Enter { deadline, answer, .. } => MatchedCall::EnterCustomControl {
                deadline,
                answer,
            },
            MatchedAction::Launch { workload, deadline, answer, .. } =>
                MatchedCall::StartWorkload { workload, deadline, answer },
            MatchedAction::Stop { deadline, answer, .. } => MatchedCall::StopWorkload {
                deadline,
                answer,
            },
            MatchedAction::Restore { fan, deadline, answer, .. } => MatchedCall::RestoreFan {
                fan,
                deadline,
                answer,
            },
        }
    }
}

/// The calls that actions are.
pub open spec fn action_calls(actions: Seq<MatchedAction>) -> Seq<MatchedCall> {
    actions.map_values(|action: MatchedAction| action.call())
}

/// Whether an action restores a fan within its own five seconds.
pub open spec fn restores(action: MatchedAction, fan: EvidenceFan) -> bool {
    action matches MatchedAction::Restore { fan: f, from, deadline, .. } && f == fan && deadline
        == saturated(from, 5_000)
}

/// Whether an action restored a fan and its answer confirms Firmware Auto.
pub open spec fn confirms_auto(action: MatchedAction) -> bool {
    action matches MatchedAction::Restore { answer, .. } && answer.enable_readback == Some(
        2u32,
    ) && answer.outcome == RestorationOutcome::FirmwareAutoConfirmed
}

/// Whether the actions up to sampling were to ask for Custom control and then, if that was granted
/// and if at all, to launch the workload.
pub open spec fn opens_run(actions: Seq<MatchedAction>, workload: WorkloadModel) -> bool {
    &&& actions.len() <= 2
    &&& actions.len() >= 1 ==> (actions[0] matches MatchedAction::Enter { from, deadline, answer }
        && deadline == from + 5_000 && (actions.len() == 2 ==> answer is Ok))
    &&& actions.len() == 2 ==> (actions[1] matches MatchedAction::Launch {
        workload: launched,
        from,
        deadline,
        ..
    } && launched@ == workload && deadline == from + 10_000)
}

/// Whether an action launched the workload.
pub open spec fn launches(action: MatchedAction) -> bool {
    action matches MatchedAction::Launch { answer, .. } && answer is Ok
}

/// Whether an action stopped the workload.
pub open spec fn stops(action: MatchedAction) -> bool {
    action matches MatchedAction::Stop { answer, .. } && answer is Ok
}

/// Whether a run undid what it did: a launched workload was stopped, and after that each fan was
/// restored once, the CPU fan first.
pub open spec fn matched_run_was_undone(
    actions: Seq<MatchedAction>,
    workload: WorkloadModel,
) -> bool {
    ||| actions.len() == 0
    ||| actions.len() >= 2 && restores(actions[actions.len() - 2], EvidenceFan::Cpu) && restores(
        actions[actions.len() - 1],
        EvidenceFan::Gpu,
    ) && {
        let earlier = actions.take(actions.len() - 2);
        ||| opens_run(earlier, workload) && earlier.len() <= 1
        ||| earlier.len() == 3 && opens_run(earlier.take(2), workload) && (
        earlier[2] matches MatchedAction::Stop { from, deadline, .. } && deadline == saturated(
            from,
            5_000,
        ))
    }
}

/// The outcome of a matched workload.
pub struct MatchedWorkloadReport {
    record: EvidenceRecord,
    actions: Ghost<Seq<MatchedAction>>,
}

impl MatchedWorkloadReport {
    /// The contents of the record.
    pub closed spec fn evidence(&self) -> RecordModel {
        self.record@
    }

    /// What the run did to the machine.
    pub closed spec fn actions(&self) -> Seq<MatchedAction> {
        self.actions@
    }

    pub fn record(&self) -> (record: &EvidenceRecord)
        ensures
            record@ == self.evidence(),
    {
        &self.record
    }

    pub fn accepted(&self) -> (yes: bool)
        ensures
            yes == (self.evidence().outcome.status == RunOutcomeStatus::Passed),
    {
        self.record.outcome.status == RunOutcomeStatus::Passed
    }

    pub fn into_record(self) -> (record: EvidenceRecord)
        ensures
            record@ == self.evidence(),
    {
        self.record
    }
}

impl Clone for MatchedWorkloadReport {
    fn clone(&self) -> (copy: MatchedWorkloadReport)
        ensures
            copy.evidence() == self.evidence(),
            copy.actions() == self.actions(),
    {
        MatchedWorkloadReport { record: self.record.clone(), actions: self.actions }
    }
}

/// Asks for Custom control and launches the workload, as long as no fault comes up. Tells whether
/// the launch was attempted.
fn open_run<E>(
    environment: &mut E,
    trace: &mut Trace<'_, E, MatchedCall>,
    run: &mut MatchedRun,
) -> (opened: (
    bool,
    Ghost<Seq<MatchedAction>>,
)) where E: MatchedWorkloadEnvironment + ?Sized
    requires
        old(trace).follows(&*old(environment)),
        old(run)@.faults.len() == 0,
        old(run)@.samples.len() == 0,
    ensures
        final(trace).follows(&*final(environment)),
        final(trace).start() == old(trace).start(),
        observed(final(trace).calls()) == observed(old(trace).calls()),
        effects(final(trace).calls()) == effects(old(trace).calls()) + action_calls(
            opened.1@,
        ),
        opens_run(opened.1@, old(run)@.workload),
        opened.0 == (opened.1@.len() == 2),
        final(run)@.workload == old(run)@.workload,
        final(run)@.samples == old(run)@.samples,
        final(run)@.attempts == old(run)@.attempts,
        final(run)@.faults.len() == 0 ==> final(run)@.workload_started_at is Some && opened.0
            && launches(opened.1@[1]),
        run_was_opened(
            matched_state(old(run)@, old(trace).calls()),
            matched_state(final(run)@, final(trace).calls()),
            opened.0,
        ),
{
    let ghost before = matched_state(run@, trace.calls());
    let mut actions: Ghost<Seq<MatchedAction>> = Ghost(Seq::empty());
    let requested_at = trace.timestamp(environment);
    match requested_at.monotonic_millis.checked_add(5_000) {
        None => {
            run.note(requested_at, "custom-control-entry", "deadline overflowed");
            assert(matched_state(run@, trace.calls()) == entry_state(
                before,
                requested_at,
                Ok(()),
                requested_at,
            ));
        },
        Some(deadline) => {
            let result = trace.enter_custom_control(environment, deadline);
            let ghost entry = MatchedAction::Enter {
                from: requested_at.monotonic_millis,
                deadline,
                answer: result,
            };
            actions = Ghost(actions@.push(entry));
            let completed_at = trace.timestamp(environment);
            run.record_entry(requested_at, deadline, completed_at, result);
            assert(matched_state(run@, trace.calls()) == entry_state(
                before,
                requested_at,
                result,
                completed_at,
            ));
        },
    }
    if !run.is_clean() {
        return (false, actions);
    }
    let ghost entered = matched_state(run@, trace.calls());
    let ghost workload = run.workload;
    let requested_at = trace.timestamp(environment);
    match requested_at.monotonic_millis.checked_add(10_000) {
        None => {
            run.note(requested_at, "workload-start", "deadline overflowed");
            assert(matched_state(run@, trace.calls()) == launch_state(
                entered,
                requested_at,
                workload,
                Ok(requested_at),
                requested_at,
            ));
            assert(workload_was_launched(entered, matched_state(run@, trace.calls()), false));
            (false, actions)
        },
        Some(deadline) => {
            let result = trace.start_workload(environment, &run.workload, deadline);
            let ghost launch = MatchedAction::Launch {
                workload: run.workload,
                from: requested_at.monotonic_millis,
                deadline,
                answer: result,
            };
            actions = Ghost(actions@.push(launch));
            let completed_at = trace.timestamp(environment);
            run.record_launch(requested_at, deadline, completed_at, result);
            assert(matched_state(run@, trace.calls()) == launch_state(
                entered,
                requested_at,
                workload,
                result,
                completed_at,
            ));
            assert(workload_was_launched(entered, matched_state(run@, trace.calls()), true));
            (true, actions)
        },
    }
}

/// A run without a fault keeps an observation's sample as it came.
proof fn lemma_clean_capture(
    m: MatchedRunModel,
    schedule: ObservationSchedule,
    deadline: u64,
    observation: MatchedObservationModel,
    cpu: TachometerExpectation,
    gpu: TachometerExpectation,
)
    ensures
        ({
            let after = after_capture(m, schedule, deadline, observation, cpu, gpu);
            after.faults.len() == 0 ==> after.samples == m.samples.push(observation.sample)
        }),
{
    lemma_clean_observation(
        ControlJudgement {
            control: m.control,
            tachometer: m.tachometer,
            faults: with_fault_if(
                m.faults,
                schedule.captured_at.monotonic_millis > deadline,
                fault(
                    schedule.captured_at,
                    "sample-cadence"@,
                    "telemetry capture exceeded its deadline"@,
                ),
            ),
        },
        observation,
        m.workload.power_profile,
        schedule,
        cpu,
        gpu,
    );
}

/// What came back while a sample was waited for.
spec fn wait_answers(
    before_wait: EvidenceTimestamp,
    waited: Result<(), String>,
    after_wait: EvidenceTimestamp,
    ended_at: EvidenceTimestamp,
) -> SampleAnswers {
    SampleAnswers { before_wait, waited, after_wait, observed: arbitrary(), ended_at }
}

/// Waits until the next sample is due. Where its time does not come as it should, a fault is noted.
fn wait_for_sample<E>(
    environment: &mut E,
    trace: &mut Trace<'_, E, MatchedCall>,
    run: &mut MatchedRun,
) -> (due: (Option<u64>, Ghost<SampleAnswers>)) where E: MatchedWorkloadEnvironment + ?Sized
    requires
        old(trace).follows(&*old(environment)),
        old(run)@.workload_started_at is Some,
    ensures
        final(trace).follows(&*final(environment)),
        final(trace).start() == old(trace).start(),
        effects(final(trace).calls()) == effects(old(trace).calls()),
        observed(final(trace).calls()) == observed(old(trace).calls()),
        match (due.0, wait_defect(old(run)@, due.1@)) {
            (Some(millis), None) => {
                &&& final(run)@ == old(run)@
                &&& final(trace).calls() == old(trace).calls() + wait_calls(old(run)@, due.1@)
                &&& millis == sample_due(old(run)@)
                &&& millis + 100 <= u64::MAX
            },
            (None, Some(detail)) => {
                &&& final(run)@ == matched_fault(
                    old(run)@,
                    due.1@.ended_at,
                    "sample-cadence"@,
                    detail,
                )
                &&& final(trace).calls() == (old(trace).calls() + wait_calls(
                    old(run)@,
                    due.1@,
                )).push(MatchedCall::Timestamp { answer: due.1@.ended_at })
            },
            _ => false,
        },
{
    let ghost none: EvidenceTimestamp = arbitrary();
    let number: u64 = run.samples.len() as u64;
    if number >= u64::MAX / 2_000 {
        let at = trace.timestamp(environment);
        run.note(at, "sample-cadence", "telemetry schedule overflowed");
        return (None, Ghost(wait_answers(none, Ok(()), none, at)));
    }
    let offset: u64 = (number + 1) * 2_000;
    let launched: u64 = run.workload_started_at.unwrap().monotonic_millis;
    let expected_millis: u64 = match launched.checked_add(offset) {
        Some(expected) => expected,
        None => {
            let at = trace.timestamp(environment);
            run.note(at, "sample-cadence", "telemetry schedule overflowed");
            return (None, Ghost(wait_answers(none, Ok(()), none, at)));
        },
    };
    let deadline: u64 = match expected_millis.checked_add(100) {
        Some(deadline) => deadline,
        None => {
            let at = trace.timestamp(environment);
            run.note(at, "sample-cadence", "telemetry deadline overflowed");
            return (None, Ghost(wait_answers(none, Ok(()), none, at)));
        },
    };
    let before_wait = trace.timestamp(environment);
    if before_wait.monotonic_millis > deadline {
        let at = trace.timestamp(environment);
        run.note(at, "sample-cadence", "telemetry deadline elapsed before the wait began");
        return (None, Ghost(wait_answers(before_wait, Ok(()), none, at)));
    }
    let waited = trace.wait_until(environment, expected_millis, deadline);
    let ghost answer = waited;
    match waited {
        Ok(()) => {},
        Err(error) => {
            let detail = join("cannot wait for telemetry: ", error.as_str());
            let at = trace.timestamp(environment);
            run.note(at, "sample-cadence", detail.as_str());
            return (None, Ghost(wait_answers(before_wait, answer, none, at)));
        },
    }
    let after_wait = trace.timestamp(environment);
    if after_wait.monotonic_millis > deadline {
        let at = trace.timestamp(environment);
        run.note(at, "sample-cadence", "telemetry wait exceeded its deadline");
        return (None, Ghost(wait_answers(before_wait, answer, after_wait, at)));
    }
    (Some(expected_millis), Ghost(wait_answers(before_wait, answer, after_wait, none)))
}

/// Waits for one more sample and takes it.
fn take_matched_sample<E>(
    environment: &mut E,
    trace: &mut Trace<'_, E, MatchedCall>,
    run: &mut MatchedRun,
    started_at: EvidenceTimestamp,
    calibrations: MatchedWorkloadTachometerCalibrations<'_>,
) where E: MatchedWorkloadEnvironment + ?Sized
    requires
        old(trace).follows(&*old(environment)),
        old(run)@.faults.len() == 0,
        old(run)@.workload_started_at is Some,
    ensures
        final(trace).follows(&*final(environment)),
        final(trace).start() == old(trace).start(),
        effects(final(trace).calls()) == effects(old(trace).calls()),
        sample_was_taken(
            matched_state(old(run)@, old(trace).calls()),
            matched_state(final(run)@, final(trace).calls()),
            started_at,
            expectation_of(*calibrations.cpu),
            expectation_of(*calibrations.gpu),
        ),
        observed(old(trace).calls()) == old(run)@.samples ==> samples_came(
            final(run)@.samples,
            observed(final(trace).calls()),
            final(run)@.faults.len() == 0,
        ),
        final(run)@.samples.len() <= old(run)@.samples.len() + 1,
        final(run)@.faults.len() == 0 ==> final(run)@.samples.len() == old(run)@.samples.len() + 1
            && final(run)@.workload_started_at is Some,
        final(run)@.workload == old(run)@.workload,
        final(run)@.attempts == old(run)@.attempts,
{
    let ghost before = matched_state(run@, trace.calls());
    let ghost cpu = expectation_of(*calibrations.cpu);
    let ghost gpu = expectation_of(*calibrations.gpu);
    let (due, Ghost(answers)) = wait_for_sample(environment, trace, run);
    let expected_millis: u64 = match due {
        Some(millis) => millis,
        None => {
            assert(matched_state(run@, trace.calls()) == sample_state(
                before,
                answers,
                started_at,
                cpu,
                gpu,
            ));
            return;
        },
    };
    let deadline: u64 = expected_millis + 100;
    let captured = trace.capture_observation(environment, deadline);
    let ghost answer = captured;
    let observation = match captured {
        Ok(observation) => observation,
        Err(error) => {
            let detail = join("cannot capture required telemetry: ", error.as_str());
            let at = trace.timestamp(environment);
            run.note(at, "invalid-telemetry", detail.as_str());
            assert(matched_state(run@, trace.calls()) == sample_state(
                before,
                SampleAnswers { observed: answer, ended_at: at, ..answers },
                started_at,
                cpu,
                gpu,
            ));
            return;
        },
    };
    let captured_at = trace.timestamp(environment);
    let schedule = ObservationSchedule { run_started_at: started_at, captured_at, expected_millis };
    proof {
        lemma_clean_capture(before.run, schedule, deadline, observation@, cpu, gpu);
    }
    run.record_observation(schedule, deadline, observation, calibrations);
    assert(matched_state(run@, trace.calls()) == sample_state(
        before,
        SampleAnswers { observed: answer, ended_at: captured_at, ..answers },
        started_at,
        cpu,
        gpu,
    ));
}

/// Samples until the plan is met or a fault comes up.
fn sample_run<E>(
    environment: &mut E,
    trace: &mut Trace<'_, E, MatchedCall>,
    run: &mut MatchedRun,
    started_at: EvidenceTimestamp,
    samples_required: usize,
    calibrations: MatchedWorkloadTachometerCalibrations<'_>,
) where E: MatchedWorkloadEnvironment + ?Sized
    requires
        old(trace).follows(&*old(environment)),
        old(run)@.samples.len() == 0,
        observed(old(trace).calls()).len() == 0,
        old(run)@.faults.len() == 0 ==> old(run)@.workload_started_at is Some,
    ensures
        final(trace).follows(&*final(environment)),
        final(trace).start() == old(trace).start(),
        effects(final(trace).calls()) == effects(old(trace).calls()),
        samples_were_taken(
            matched_state(old(run)@, old(trace).calls()),
            matched_state(final(run)@, final(trace).calls()),
            started_at,
            samples_required as nat,
            expectation_of(*calibrations.cpu),
            expectation_of(*calibrations.gpu),
        ),
        samples_came(
            final(run)@.samples,
            observed(final(trace).calls()),
            final(run)@.faults.len() == 0,
        ),
        final(run)@.samples.len() <= samples_required,
        final(run)@.faults.len() == 0 ==> final(run)@.samples.len() == samples_required,
        final(run)@.workload == old(run)@.workload,
        final(run)@.attempts == old(run)@.attempts,
        old(run)@.faults.len() > 0 ==> final(run)@ == old(run)@,
{
    let ghost cpu = expectation_of(*calibrations.cpu);
    let ghost gpu = expectation_of(*calibrations.gpu);
    let ghost mut states: Seq<MatchedState> = seq![matched_state(run@, trace.calls())];
    while run.is_clean() && run.samples.len() < samples_required
        invariant
            trace.follows(&*environment),
            trace.start() == old(trace).start(),
            effects(trace.calls()) == effects(old(trace).calls()),
            cpu == expectation_of(*calibrations.cpu),
            gpu == expectation_of(*calibrations.gpu),
            are_sampled(states, started_at, samples_required as nat, cpu, gpu),
            states[0] == matched_state(old(run)@, old(trace).calls()),
            states.last() == matched_state(run@, trace.calls()),
            samples_came(run@.samples, observed(trace.calls()), run@.faults.len() == 0),
            run@.samples.len() <= samples_required,
            run@.faults.len() == 0 ==> run@.workload_started_at is Some,
            run@.workload == old(run)@.workload,
            run@.attempts == old(run)@.attempts,
            old(run)@.faults.len() > 0 ==> run@ == old(run)@,
        decreases
                (if run@.faults.len() == 0 {
                    1int
                } else {
                    0
                }),
                samples_required - run@.samples.len(),
    {
        take_matched_sample(environment, trace, run, started_at, calibrations);
        proof {
            let next = matched_state(run@, trace.calls());
            lemma_one_more_sample(states, next, started_at, samples_required as nat, cpu, gpu);
            states = states.push(next);
        }
    }
}

/// Stops the workload.
fn stop_run<E>(
    environment: &mut E,
    trace: &mut Trace<'_, E, MatchedCall>,
    run: &mut MatchedRun,
) -> (action: Ghost<MatchedAction>) where
    E: MatchedWorkloadEnvironment + ?Sized,

    requires
        old(trace).follows(&*old(environment)),
    ensures
        final(trace).follows(&*final(environment)),
        final(trace).start() == old(trace).start(),
        observed(final(trace).calls()) == observed(old(trace).calls()),
        effects(final(trace).calls()) == effects(old(trace).calls()).push(action@.call()),
        action@ matches MatchedAction::Stop { from, deadline, .. } && deadline == saturated(
            from,
            5_000,
        ),
        final(run)@.workload == old(run)@.workload,
        final(run)@.samples == old(run)@.samples,
        final(run)@.attempts == old(run)@.attempts,
        final(run)@.faults.len() == 0 ==> old(run)@.faults.len() == 0 && stops(action@),
        workload_was_stopped(
            matched_state(old(run)@, old(trace).calls()),
            matched_state(final(run)@, final(trace).calls()),
        ),
{
    let ghost before = matched_state(run@, trace.calls());
    let requested_at = trace.timestamp(environment);
    let (boundary, deadline) = run.record_request(
        requested_at,
        "workload-stop",
        "workload termination request time regressed",
        "workload termination deadline overflowed",
    );
    let result = trace.stop_workload(environment, deadline);
    let ghost stop = MatchedAction::Stop {
        from: boundary.monotonic_millis,
        deadline,
        answer: result,
    };
    let stopped_at = trace.timestamp(environment);
    run.record_stop(boundary, deadline, stopped_at, result);
    assert(matched_state(run@, trace.calls()) == stop_state(
        before,
        requested_at,
        result,
        stopped_at,
    ));
    Ghost(stop)
}

/// Restores one fan, and tells whether it is confirmed in Firmware Auto.
fn restore_one_fan<E>(
    environment: &mut E,
    trace: &mut Trace<'_, E, MatchedCall>,
    run: &mut MatchedRun,
    fan: EvidenceFan,
) -> (restored: (
    bool,
    Ghost<MatchedAction>,
)) where E: MatchedWorkloadEnvironment + ?Sized
    requires
        old(trace).follows(&*old(environment)),
    ensures
        final(trace).follows(&*final(environment)),
        final(trace).start() == old(trace).start(),
        observed(final(trace).calls()) == observed(old(trace).calls()),
        effects(final(trace).calls()) == effects(old(trace).calls()).push(
            restored.1@.call(),
        ),
        restored.0 ==> confirms_auto(restored.1@),
        restores(restored.1@, fan),
        final(run)@.workload == old(run)@.workload,
        final(run)@.samples == old(run)@.samples,
        final(run)@.faults.len() == 0 ==> old(run)@.faults.len() == 0,
        final(run)@.attempts.len() == old(run)@.attempts.len() + 1,
        final(run)@.attempts.drop_last() == old(run)@.attempts,
        final(run)@.attempts.last().fan == fan,
        restored.0 ==> final(run)@.attempts.last().enable_readback == Some(2u32),
        restored.0 ==> final(run)@.attempts.last().outcome
            == RestorationOutcome::FirmwareAutoConfirmed,
        fan_was_restored(
            matched_state(old(run)@, old(trace).calls()),
            matched_state(final(run)@, final(trace).calls()),
            fan,
            restored.0,
        ),
{
    let ghost before = matched_state(run@, trace.calls());
    let requested_at = trace.timestamp(environment);
    let (boundary, deadline) = run.record_request(
        requested_at,
        "firmware-auto-restoration",
        "restoration request time regressed",
        "restoration deadline overflowed",
    );
    let restoration = trace.restore_fan(environment, fan, deadline);
    let completed_at = trace.timestamp(environment);
    let ghost action = MatchedAction::Restore {
        fan,
        from: boundary.monotonic_millis,
        deadline,
        answer: restoration,
    };
    let restored = run.record_restoration(fan, boundary, deadline, completed_at, restoration);
    assert(run@.attempts.drop_last() =~= old(run)@.attempts);
    assert(matched_state(run@, trace.calls()) == restoration_state(
        before,
        fan,
        requested_at,
        restoration,
        completed_at,
    ));
    (restored, Ghost(action))
}

/// Takes the fans over, runs the workload, and undoes both.
fn perform_run<E>(
    environment: &mut E,
    trace: &mut Trace<'_, E, MatchedCall>,
    run: &mut MatchedRun,
    started_at: EvidenceTimestamp,
    samples_required: usize,
    calibrations: MatchedWorkloadTachometerCalibrations<'_>,
) -> (done: (bool, Ghost<Seq<MatchedAction>>)) where E: MatchedWorkloadEnvironment + ?Sized
    requires
        old(trace).follows(&*old(environment)),
        old(run)@.faults.len() == 0,
        old(run)@.samples.len() == 0,
        observed(old(trace).calls()).len() == 0,
        old(run)@.attempts.len() == 0,
    ensures
        final(trace).follows(&*final(environment)),
        final(trace).start() == old(trace).start(),
        effects(final(trace).calls()) == effects(old(trace).calls()) + action_calls(
            done.1@,
        ),
        samples_came(
            final(run)@.samples,
            observed(final(trace).calls()),
            final(run)@.faults.len() == 0,
        ),
        done.0 ==> confirms_auto(done.1@[done.1@.len() - 2]) && confirms_auto(done.1@.last()),
        matched_run_was_undone(done.1@, old(run)@.workload),
        2 <= done.1@.len(),
        final(run)@.workload == old(run)@.workload,
        final(run)@.samples.len() <= samples_required,
        final(run)@.attempts.len() == 2,
        final(run)@.faults.len() == 0 ==> final(run)@.samples.len() == samples_required && done.0
            && done.1@.len() == 5 && launches(done.1@[1]) && stops(done.1@[2]),
        run_was_performed(
            matched_state(old(run)@, old(trace).calls()),
            matched_state(final(run)@, final(trace).calls()),
            started_at,
            samples_required as nat,
            expectation_of(*calibrations.cpu),
            expectation_of(*calibrations.gpu),
            done.0,
        ),
{
    let ghost before = matched_state(run@, trace.calls());
    let (attempted, opening) = open_run(environment, trace, run);
    let ghost opened = matched_state(run@, trace.calls());
    sample_run(environment, trace, run, started_at, samples_required, calibrations);
    let ghost sampled = matched_state(run@, trace.calls());
    let ghost mut earlier = opening@;
    if attempted {
        let stop = stop_run(environment, trace, run);
        proof {
            earlier = earlier.push(stop@);
            assert(earlier.take(2) =~= opening@);
        }
    }
    let ghost stopped = matched_state(run@, trace.calls());
    let (cpu_restored, cpu) = restore_one_fan(environment, trace, run, EvidenceFan::Cpu);
    let (gpu_restored, gpu) = restore_one_fan(environment, trace, run, EvidenceFan::Gpu);
    let ghost gpu_done = matched_state(run@, trace.calls());
    let restored = cpu_restored && gpu_restored;
    let ghost actions = earlier.push(cpu@).push(gpu@);
    proof {
        assert(actions.take(actions.len() - 2) =~= earlier);
    }
    let ended_at = trace.timestamp(environment);
    run.record_final_transition(ended_at, restored);
    let ghost after = matched_state(run@, trace.calls());
    assert(after == exit_state(gpu_done, ended_at, restored));
    assert(fans_were_restored(stopped, after, restored));
    assert(run_was_opened(before, opened, attempted));
    assert(samples_were_taken(
        opened,
        sampled,
        started_at,
        samples_required as nat,
        expectation_of(*calibrations.cpu),
        expectation_of(*calibrations.gpu),
    ));
    (restored, Ghost(actions))
}

/// Compares a run with its baseline and puts it on record.
fn finish_run<E, M>(
    environment: &mut E,
    trace: &mut Trace<'_, E, MatchedCall>,
    meter: &mut M,
    plan: &MatchedWorkloadPlan<'_>,
    class: MatchedWorkloadClass,
    baseline_summary: &ThermalSummaryEvidence,
    mut run: MatchedRun,
    started_at: EvidenceTimestamp,
    restored: bool,
) -> (finished: (EvidenceRecord, FinalSlopes, Ghost<MatchedRunModel>)) where
    E: MatchedWorkloadEnvironment + ?Sized,
    M: SlopeMeter + ?Sized,

    requires
        old(trace).follows(&*old(environment)),
        plan.baseline@.record.workload is Some,
        class_of(plan.baseline@.record.workload->0.workload_id) == Some(class),
    ensures
        final(trace).follows(&*final(environment)),
        final(trace).start() == old(trace).start(),
        observed(final(trace).calls()) == observed(old(trace).calls()),
        effects(final(trace).calls()) == effects(old(trace).calls()),
        is_matched_record(
            finished.0@,
            finished.2@,
            *plan,
            started_at,
            finished.0@.completed_at,
            restored,
            finished.0@.thermal_summary->0,
        ),
        finished.0@.thermal_summary == Some(
            thermal_summary(
                run@.samples,
                finished.1,
                run@.system_stable,
                run@.kernel_faults,
                run@.nvidia_faults,
            ),
        ),
        slopes_came(&*old(meter), &*final(meter), run@.samples, finished.1),
        run_was_finished(
            matched_state(run@, old(trace).calls()),
            matched_state(finished.2@, final(trace).calls()),
            baseline_summary@,
            finished.0@.thermal_summary->0,
            finished.1,
            finished.0@.completed_at,
        ),
        finished.2@.workload == run@.workload,
        finished.2@.samples == run@.samples,
        finished.2@.attempts == run@.attempts,
        finished.2@.faults.len() == 0 ==> run@.faults.len() == 0 && is_acceptable(
            comparison_of(baseline_summary@, finished.0@.thermal_summary->0, finished.1),
        ),
{
    let ghost before = matched_state(run@, trace.calls());
    let slopes = meter.measure(&run.samples);
    let summary = summarize_thermal_evidence(
        &run.samples,
        slopes,
        run.system_stable,
        clone_texts(&run.kernel_faults),
        clone_texts(&run.nvidia_faults),
    );
    let ghost mut compared_at: EvidenceTimestamp = arbitrary();
    if run.is_clean() {
        let at = trace.timestamp(environment);
        proof {
            compared_at = at;
        }
        let comparison = evaluate_thermal_comparison(baseline_summary, &summary, slopes);
        run.record_comparison(at, comparison);
    }
    let ended_at = trace.timestamp(environment);
    let completed_at = run.record_completion(ended_at);
    let ghost ended = run@;
    assert(matched_state(ended, trace.calls()) == finish_state(
        before,
        baseline_summary@,
        summary@,
        slopes,
        compared_at,
        ended_at,
    ));
    let record = assemble_matched_record(
        run,
        plan,
        class,
        started_at,
        completed_at,
        restored,
        summary,
    );
    (record, slopes, Ghost(ended))
}

/// What holds of the outcome of a matched workload, whatever the machine answered.
pub open spec fn matched_report_stands(
    record: RecordModel,
    actions: Seq<MatchedAction>,
    plan: MatchedWorkloadPlan<'_>,
) -> bool {
    let baseline = plan.baseline@.record;
    let reference = baseline.workload->0;
    let passed = record.outcome.status == RunOutcomeStatus::Passed;
    &&& record.workload matches Some(workload) && matched_run_was_undone(actions, workload)
    &&& record.outcome.final_firmware_auto_confirmed ==> actions.len() >= 2 && confirms_auto(
        actions[actions.len() - 2],
    ) && confirms_auto(actions.last())
    &&& record.schema_version == 2
    &&& record.stage == "matched-workload"@
    &&& record.envelope == baseline.envelope
    &&& record.baseline_binding_sha256 == Some(fingerprint(plan.baseline@.canonical))
    &&& record.calibration == seq![
        plan.tachometer_calibrations.cpu@,
        plan.tachometer_calibrations.gpu@,
    ]
    &&& record.workload matches Some(workload) && workload.workload_id == reference.workload_id
        && workload.command == reference.command && workload.version == reference.version
        && workload.power_profile == reference.power_profile
    &&& record.samples.len() <= baseline.samples.len()
    &&& passed || record.outcome.status == RunOutcomeStatus::Failed
    &&& passed <==> record.faults.len() == 0
    &&& passed ==> record.samples.len() == baseline.samples.len()
        && record.outcome.final_firmware_auto_confirmed && actions.len() == 5 && launches(
        actions[1],
    ) && stops(actions[2])
    &&& !passed ==> record.outcome.reason == fault_list(record.faults)[0].detail
    &&& record.outcome.another_passing_run_required == (!passed
        || plan.previous_passing_runs@.len() + 1 < runs_required(
        class_of(reference.workload_id)->0,
    ))
    &&& record.restoration_attempts.len() == if actions.len() == 0 {
        0nat
    } else {
        2
    }
}

/// Runs a plan that was found to be in order, up to the record that it leaves.
fn run_accepted_plan<E, M>(
    environment: &mut E,
    trace: &mut Trace<'_, E, MatchedCall>,
    meter: &mut M,
    plan: &MatchedWorkloadPlan<'_>,
    workload: &WorkloadEvidence,
    baseline_summary: &ThermalSummaryEvidence,
    class: MatchedWorkloadClass,
) -> (left: (EvidenceRecord, FinalSlopes, Ghost<Seq<MatchedAction>>)) where
    E: MatchedWorkloadEnvironment + ?Sized,
    M: SlopeMeter + ?Sized,

    requires
        old(trace).calls() == Seq::<MatchedCall>::empty(),
        old(trace).follows(&*old(environment)),
        plan.baseline@.record.workload == Some(workload@),
        plan.baseline@.record.thermal_summary == Some(baseline_summary@),
        class_of(workload@.workload_id) == Some(class),
    ensures
        final(trace).follows(&*final(environment)),
        final(trace).start() == old(trace).start(),
        effects(final(trace).calls()) == action_calls(left.2@),
        matched_report_stands(left.0@, left.2@, *plan),
        samples_came(
            left.0@.samples,
            observed(final(trace).calls()),
            left.0@.outcome.status == RunOutcomeStatus::Passed,
        ),
        slopes_came(&*old(meter), &*final(meter), left.0@.samples, left.1),
        is_record_of_calls(left.0@, final(trace).calls(), *plan, left.1),
        left.0@.outcome.status == RunOutcomeStatus::Passed ==> left.0@.thermal_summary is Some
            && is_acceptable(
            comparison_of(baseline_summary@, left.0@.thermal_summary->0, left.1),
        ),
{
    let started_at = trace.timestamp(environment);
    let mut run = MatchedRun::begin(workload, started_at);
    let captured = trace.capture_starting_conditions(environment);
    let completed_at = trace.timestamp(environment);
    let ghost start = matched_state(
        fresh_run(workload@, started_at),
        seq![MatchedCall::Timestamp { answer: started_at }],
    );
    run.record_conditions(workload, started_at, completed_at, captured);
    proof {
        let captured_state = conditions_state(start, workload@, started_at, captured, completed_at);
        assert(matched_state(run@, trace.calls()).calls =~= captured_state.calls);
        assert(start.calls =~= Seq::<MatchedCall>::empty().push(
            MatchedCall::Timestamp { answer: started_at },
        ));
    }
    let mut restored = false;
    let mut actions: Ghost<Seq<MatchedAction>> = Ghost(Seq::empty());
    if run.is_clean() {
        let (done, performed) = perform_run(
            environment,
            trace,
            &mut run,
            started_at,
            plan.baseline.record.samples.len(),
            plan.tachometer_calibrations,
        );
        restored = done;
        actions = performed;
    }
    let ghost performed = matched_state(run@, trace.calls());
    let (record, slopes, ended) = finish_run(
        environment,
        trace,
        meter,
        plan,
        class,
        baseline_summary,
        run,
        started_at,
        restored,
    );
    proof {
        assert(fault_list(record@.faults).len() == record@.faults.len());
        assert(run_came_to(
            performed,
            workload@,
            started_at,
            plan.baseline@.record.samples.len(),
            expectation_of(*plan.tachometer_calibrations.cpu),
            expectation_of(*plan.tachometer_calibrations.gpu),
            restored,
        ));
        assert(run_was_finished(
            performed,
            matched_state(ended@, trace.calls()),
            plan.baseline@.record.thermal_summary->0,
            record@.thermal_summary->0,
            slopes,
            record@.completed_at,
        ));
        assert(record@.started_at == started_at);
        assert(record@.thermal_summary == Some(
            thermal_summary(
                performed.run.samples,
                slopes,
                performed.run.system_stable,
                performed.run.kernel_faults,
                performed.run.nvidia_faults,
            ),
        ));
        reveal(is_record_of_calls);
    }
    (record, slopes, actions)
}

/// Whether an outcome is what the record that a run left must give: the report of it where it is
/// valid evidence, and otherwise why it is not.
pub open spec fn is_matched_outcome(
    result: Result<MatchedWorkloadReport, MatchedWorkloadPlanError>,
    record: RecordModel,
    actions: Seq<MatchedAction>,
    slopes: FinalSlopes,
) -> bool {
    match result {
        Ok(report) => report.evidence() == record && report.actions() == actions && is_valid(
            record,
            slopes,
        ),
        Err(error) => validation_error(record, slopes) matches Some(reason) && error@
            == MatchedPlanErrorModel::InvalidGeneratedEvidence(reason),
    }
}

/// Whether a run on the machine led to an outcome: the calls that acted are the actions that were
/// undone, and no others, and the samples and their slopes are those that came back.
pub open spec fn matched_workload_was_run<
    E: MatchedWorkloadEnvironment + ?Sized,
    M: SlopeMeter + ?Sized,
>(
    before: &E,
    after: &E,
    meter_before: &M,
    meter_after: &M,
    plan: MatchedWorkloadPlan<'_>,
    result: Result<MatchedWorkloadReport, MatchedWorkloadPlanError>,
) -> bool {
    exists|
        calls: Seq<MatchedCall>,
        record: RecordModel,
        actions: Seq<MatchedAction>,
        slopes: FinalSlopes,
    |
        {
            &&& #[trigger] ran(before, calls, after)
            &&& effects(calls) == action_calls(actions)
            &&& matched_report_stands(record, actions, plan)
            &&& samples_came(
                record.samples,
                observed(calls),
                record.outcome.status == RunOutcomeStatus::Passed,
            )
            &&& slopes_came(meter_before, meter_after, record.samples, slopes)
            &&& is_record_of_calls(record, calls, plan, slopes)
            &&& record.outcome.status == RunOutcomeStatus::Passed ==> record.thermal_summary is Some
                && is_acceptable(
                comparison_of(
                    plan.baseline@.record.thermal_summary->0,
                    record.thermal_summary->0,
                    slopes,
                ),
            )
            &&& #[trigger] is_matched_outcome(result, record, actions, slopes)
        }
}

/// Runs the baseline's workload under Custom control.
///
/// A plan that cannot run leaves the machine and the meter untouched. Whatever the machine answers,
/// a workload that was launched is also stopped, and each fan that may have been taken over is
/// restored once after that. The record that the run leaves is handed out where it is valid evidence,
/// and otherwise the outcome says why it is not. A run passes exactly where no fault came up.
pub fn run_matched_custom_workload<E, M>(
    environment: &mut E,
    meter: &mut M,
    plan: &MatchedWorkloadPlan<'_>,
) -> (result: Result<MatchedWorkloadReport, MatchedWorkloadPlanError>) where
    E: MatchedWorkloadEnvironment + ?Sized,
    M: SlopeMeter + ?Sized,

    ensures
        match plan_error(*plan) {
            Some(error) => {
                &&& result matches Err(e) && e@ == error
                &&& &*final(environment) == &*old(environment)
                &&& &*final(meter) == &*old(meter)
            },
            None => matched_workload_was_run(
                &*old(environment),
                &*final(environment),
                &*old(meter),
                &*final(meter),
                *plan,
                result,
            ),
        },
{
    match validate_plan(plan) {
        Ok(()) => {},
        Err(error) => {
            return Err(error);
        },
    }
    let baseline = plan.baseline.record;
    let (workload, baseline_summary) = match (&baseline.workload, &baseline.thermal_summary) {
        (Some(workload), Some(summary)) => (workload, summary),
        _ => {
            return Err(MatchedWorkloadPlanError::BaselineNotAccepted);
        },
    };
    let class = match MatchedWorkloadClass::from_workload_id(workload.workload_id.as_str()) {
        Some(class) => class,
        None => {
            return Err(MatchedWorkloadPlanError::UnknownWorkloadClass);
        },
    };
    let mut trace = Trace::begin(environment);
    let (record, slopes, actions) = run_accepted_plan(
        environment,
        &mut trace,
        meter,
        plan,
        workload,
        baseline_summary,
        class,
    );
    let ghost left = record@;
    let ghost done = actions@;
    assert(ran(&*old(environment), trace.calls(), &*environment));
    let result = match record.validate(slopes) {
        Ok(()) => Ok(MatchedWorkloadReport { record, actions }),
        Err(error) => Err(MatchedWorkloadPlanError::InvalidGeneratedEvidence(error)),
    };
    assert(is_matched_outcome(result, left, done, slopes));
    result
}

} // verus!
