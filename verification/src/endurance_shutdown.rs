//! How a supervised endurance run stops its processes and gives the fans back.
//!
//! A stop, a restoration and a containment are each attempted whatever the clock says.

use vstd::prelude::*;
use vstd::string::*;
use crate::endurance_calls::{stop_call, EnduranceCall};
use crate::endurance_schedule::{SupervisedEnduranceLoad, SupervisedEnduranceSegment};
use crate::evidence::{
    EvidenceExternalPower, EvidenceFan, EvidenceProfile, EvidenceTimestamp, FanReadbackEvidence,
    FanReadbackField, FanReadbackPhase, FaultEvidence, ObservationOutcome, ProcessStopEvidence,
    RestorationAttemptEvidence, RestorationOutcome, StoppedProcess, WorkloadEvidence,
};
use crate::lifecycle_gate::{later_of, later_timestamp};
use crate::matched_control::{
    fan_name, fan_text, ControlEvidenceState, ControlModel, MatchedWorkloadObservation,
};
use crate::matched_workload::{
    saturated, CapturedMatchedWorkloadStartingConditions, MatchedWorkloadFanRestoration,
};
use crate::run_log::{
    fault, fault_list, push_fault, push_readback, readback_list, with_fault_if, FaultModel,
    ReadbackModel,
};
use crate::trace::{ran, Trace};
use crate::text::{is_blank, is_text, join, same_text, trimmed};

use crate::observations::observed;

verus! {

broadcast use {
    crate::observations::group_observed,
    vstd::string::group_string_axioms,
};

#[derive(Debug, Clone, Copy, PartialEq, Eq, Structural)]
pub struct SupervisedEnduranceSegmentConfirmation {
    pub observed_at: EvidenceTimestamp,
    pub load: SupervisedEnduranceLoad,
    pub external_power: EvidenceExternalPower,
    pub selected_profile: EvidenceProfile,
    pub cpu_utilization_basis_points: u16,
    pub gpu_utilization_basis_points: u16,
}

#[derive(Debug, PartialEq, Eq)]
pub struct SupervisedEnduranceProcessStopConfirmation {
    pub observed_at: EvidenceTimestamp,
    pub process_identity: String,
    pub running: bool,
}

impl Clone for SupervisedEnduranceProcessStopConfirmation {
    fn clone(&self) -> (copy: SupervisedEnduranceProcessStopConfirmation)
        ensures
            copy == *self,
    {
        SupervisedEnduranceProcessStopConfirmation {
            observed_at: self.observed_at,
            process_identity: self.process_identity.clone(),
            running: self.running,
        }
    }
}

/// Independent Custom-mode and maximum-PWM confirmation for emergency containment.
#[derive(Debug, PartialEq, Eq)]
pub struct SupervisedEnduranceFanContainment {
    pub enable_readback: Option<u32>,
    pub pwm_write_succeeded: bool,
    pub pwm_readback: Option<u32>,
    pub enable_endpoint_identity: String,
    pub pwm_endpoint_identity: String,
    pub outcome: RestorationOutcome,
}

impl Clone for SupervisedEnduranceFanContainment {
    fn clone(&self) -> (copy: SupervisedEnduranceFanContainment)
        ensures
            copy == *self,
    {
        SupervisedEnduranceFanContainment {
            enable_readback: self.enable_readback,
            pwm_write_succeeded: self.pwm_write_succeeded,
            pwm_readback: self.pwm_readback,
            enable_endpoint_identity: self.enable_endpoint_identity.clone(),
            pwm_endpoint_identity: self.pwm_endpoint_identity.clone(),
            outcome: self.outcome,
        }
    }
}

/// What a supervised endurance run asks of the machine and of its observer.
pub trait SupervisedEnduranceEnvironment {
    /// What was asked so far, with what came back.
    spec fn history(&self) -> Seq<EnduranceCall>;

    fn timestamp(&mut self) -> (answer: EvidenceTimestamp)
        ensures
            final(self).history() == old(self).history().push(
                EnduranceCall::Timestamp { answer },
            ),
    ;

    /// Reconfirms that the physical safety observer is present before and throughout Custom.
    fn confirm_observer(
        &mut self,
        deadline_monotonic_millis: u64,
    ) -> (answer: Result<EvidenceTimestamp, String>)
        ensures
            final(self).history() == old(self).history().push(
                EnduranceCall::ConfirmObserver { deadline: deadline_monotonic_millis, answer },
            ),
    ;

    fn capture_starting_conditions(
        &mut self,
        deadline_monotonic_millis: u64,
    ) -> (answer: Result<CapturedMatchedWorkloadStartingConditions, String>)
        ensures
            final(self).history() == old(self).history().push(
                EnduranceCall::CaptureStartingConditions {
                    deadline: deadline_monotonic_millis,
                    answer,
                },
            ),
    ;

    fn enter_custom_control(
        &mut self,
        deadline_monotonic_millis: u64,
    ) -> (answer: Result<(), String>)
        ensures
            final(self).history() == old(self).history().push(
                EnduranceCall::EnterCustomControl { deadline: deadline_monotonic_millis, answer },
            ),
    ;

    fn begin_segment(
        &mut self,
        segment: SupervisedEnduranceSegment,
        deadline_monotonic_millis: u64,
    ) -> (answer: Result<SupervisedEnduranceSegmentConfirmation, String>)
        ensures
            final(self).history() == old(self).history().push(
                EnduranceCall::BeginSegment {
                    segment,
                    deadline: deadline_monotonic_millis,
                    answer,
                },
            ),
    ;

    fn start_workload(
        &mut self,
        workload: &WorkloadEvidence,
        deadline_monotonic_millis: u64,
    ) -> (answer: Result<EvidenceTimestamp, String>)
        ensures
            final(self).history() == old(self).history().push(
                EnduranceCall::StartWorkload {
                    workload: *workload,
                    deadline: deadline_monotonic_millis,
                    answer,
                },
            ),
    ;

    fn wait_until(
        &mut self,
        target_monotonic_millis: u64,
        deadline_monotonic_millis: u64,
    ) -> (answer: Result<(), String>)
        ensures
            final(self).history() == old(self).history().push(
                EnduranceCall::WaitUntil {
                    target: target_monotonic_millis,
                    deadline: deadline_monotonic_millis,
                    answer,
                },
            ),
    ;

    fn capture_observation(
        &mut self,
        deadline_monotonic_millis: u64,
    ) -> (answer: Result<MatchedWorkloadObservation, String>)
        ensures
            final(self).history() == old(self).history().push(
                EnduranceCall::CaptureObservation { deadline: deadline_monotonic_millis, answer },
            ),
    ;

    fn stop_workload(
        &mut self,
        deadline_monotonic_millis: u64,
    ) -> (answer: Result<SupervisedEnduranceProcessStopConfirmation, String>)
        ensures
            final(self).history() == old(self).history().push(
                EnduranceCall::StopWorkload { deadline: deadline_monotonic_millis, answer },
            ),
    ;

    /// Escalates workload termination after a normal stop was not confirmed.
    fn contain_workload(
        &mut self,
        deadline_monotonic_millis: u64,
    ) -> (answer: Result<SupervisedEnduranceProcessStopConfirmation, String>)
        ensures
            final(self).history() == old(self).history().push(
                EnduranceCall::ContainWorkload { deadline: deadline_monotonic_millis, answer },
            )
                || final(self).history() == old(self).history().push(
                    EnduranceCall::StopWorkload { deadline: deadline_monotonic_millis, answer },
                ),
    {
        self.stop_workload(deadline_monotonic_millis)
    }

    /// Performs terminal containment after graceful and escalated workload stops both fail.
    fn force_contain_workload(
        &mut self,
        deadline_monotonic_millis: u64,
    ) -> (answer: Result<SupervisedEnduranceProcessStopConfirmation, String>)
        ensures
            final(self).history() == old(self).history().push(
                EnduranceCall::ForceContainWorkload { deadline: deadline_monotonic_millis, answer },
            ),
    ;

    fn stop_service(
        &mut self,
        deadline_monotonic_millis: u64,
    ) -> (answer: Result<SupervisedEnduranceProcessStopConfirmation, String>)
        ensures
            final(self).history() == old(self).history().push(
                EnduranceCall::StopService { deadline: deadline_monotonic_millis, answer },
            ),
    ;

    /// Escalates service termination after a normal stop was not confirmed.
    fn contain_service(
        &mut self,
        deadline_monotonic_millis: u64,
    ) -> (answer: Result<SupervisedEnduranceProcessStopConfirmation, String>)
        ensures
            final(self).history() == old(self).history().push(
                EnduranceCall::ContainService { deadline: deadline_monotonic_millis, answer },
            )
                || final(self).history() == old(self).history().push(
                    EnduranceCall::StopService { deadline: deadline_monotonic_millis, answer },
                ),
    {
        self.stop_service(deadline_monotonic_millis)
    }

    /// Performs terminal service containment and confirms process absence.
    fn force_contain_service(
        &mut self,
        deadline_monotonic_millis: u64,
    ) -> (answer: Result<SupervisedEnduranceProcessStopConfirmation, String>)
        ensures
            final(self).history() == old(self).history().push(
                EnduranceCall::ForceContainService { deadline: deadline_monotonic_millis, answer },
            ),
    ;

    fn restore_fan(
        &mut self,
        fan: EvidenceFan,
        deadline_monotonic_millis: u64,
    ) -> (answer: MatchedWorkloadFanRestoration)
        ensures
            final(self).history() == old(self).history().push(
                EnduranceCall::RestoreFan { fan, deadline: deadline_monotonic_millis, answer },
            ),
    ;

    /// Commands and confirms emergency maximum fan containment without first selecting Auto.
    fn contain_fan_at_maximum(
        &mut self,
        fan: EvidenceFan,
        deadline_monotonic_millis: u64,
    ) -> (answer: SupervisedEnduranceFanContainment)
        ensures
            final(self).history() == old(self).history().push(
                EnduranceCall::ContainFanAtMaximum {
                    fan,
                    deadline: deadline_monotonic_millis,
                    answer,
                },
            ),
    ;
}

/// How hard a process is stopped.
#[derive(Debug, Clone, Copy, PartialEq, Eq, Structural)]
pub enum StopEffort {
    Normal,
    Escalated,
    Terminal,
}

/// What a stop must show.
#[derive(Debug, Clone, Copy)]
pub struct StopExpectation<'a> {
    pub code: &'a str,
    pub process: StoppedProcess,
    pub identity: &'a str,
    pub fixed_deadline: Option<u64>,
}

/// The contents of a process stop.
pub struct StopModel {
    pub process: StoppedProcess,
    pub process_identity: Seq<char>,
    pub requested_at: EvidenceTimestamp,
    pub confirmed_at: EvidenceTimestamp,
    pub running: bool,
}

impl View for ProcessStopEvidence {
    type V = StopModel;

    open spec fn view(&self) -> StopModel {
        StopModel {
            process: self.process,
            process_identity: self.process_identity@,
            requested_at: self.requested_at,
            confirmed_at: self.confirmed_at,
            running: self.running,
        }
    }
}

/// The contents of a list of process stops.
pub open spec fn stop_list(stops: Seq<ProcessStopEvidence>) -> Seq<StopModel> {
    stops.map_values(|stop: ProcessStopEvidence| stop@)
}

/// The deadline of a stop: the given one or ten seconds, but never more than the observer may be
/// away.
pub open spec fn stop_deadline(requested_at: EvidenceTimestamp, fixed: Option<u64>) -> int {
    let own = match fixed {
        Some(deadline) => deadline as int,
        None => if requested_at.monotonic_millis + 10_000 > u64::MAX {
            requested_at.monotonic_millis as int
        } else {
            requested_at.monotonic_millis + 10_000
        },
    };
    let watched = saturated(requested_at.monotonic_millis, 5_000) as int;
    if own <= watched {
        own
    } else {
        watched
    }
}

/// A list of faults after a stop was asked for.
pub open spec fn after_stop_request(
    faults: Seq<FaultModel>,
    not_before: EvidenceTimestamp,
    observed_at: EvidenceTimestamp,
    code: Seq<char>,
    fixed: Option<u64>,
) -> Seq<FaultModel> {
    let requested_at = later_of(observed_at, not_before);
    let regressed = with_fault_if(
        faults,
        observed_at.monotonic_millis < not_before.monotonic_millis,
        fault(not_before, code, "clock regressed before stop operation"@),
    );
    let overflowed = with_fault_if(
        regressed,
        fixed is None && requested_at.monotonic_millis + 10_000 > u64::MAX,
        fault(requested_at, code, "operation deadline overflowed"@),
    );
    with_fault_if(
        overflowed,
        requested_at.monotonic_millis > stop_deadline(requested_at, fixed),
        fault(requested_at, code, "stop operation missed its scheduled deadline"@),
    )
}

/// Whether a stop is confirmed: the expected process no longer runs, seen within the request.
pub open spec fn stop_is_confirmed(
    result: Result<SupervisedEnduranceProcessStopConfirmation, String>,
    identity: Seq<char>,
    requested_at: EvidenceTimestamp,
    completed_at: EvidenceTimestamp,
    deadline: int,
) -> bool {
    result matches Ok(confirmation) && {
        &&& !confirmation.running
        &&& confirmation.process_identity@ == identity
        &&& requested_at.monotonic_millis <= confirmation.observed_at.monotonic_millis
            <= completed_at.monotonic_millis
        &&& completed_at.monotonic_millis <= deadline
    }
}

/// A list of faults after a stop returned.
pub open spec fn after_stop_result(
    faults: Seq<FaultModel>,
    requested_at: EvidenceTimestamp,
    deadline: int,
    observed_at: EvidenceTimestamp,
    code: Seq<char>,
    identity: Seq<char>,
    result: Result<SupervisedEnduranceProcessStopConfirmation, String>,
) -> Seq<FaultModel> {
    let completed_at = later_of(observed_at, requested_at);
    let regressed = with_fault_if(
        faults,
        observed_at.monotonic_millis < requested_at.monotonic_millis,
        fault(requested_at, code, "clock regressed during stop operation"@),
    );
    let late = with_fault_if(
        regressed,
        completed_at.monotonic_millis > deadline,
        fault(completed_at, code, "stop operation exceeded its deadline"@),
    );
    match result {
        Err(error) => late.push(fault(completed_at, code, "stop operation failed: "@ + error@)),
        Ok(_) => with_fault_if(
            late,
            !stop_is_confirmed(result, identity, requested_at, completed_at, deadline),
            fault(
                completed_at,
                code,
                "stop postcondition was not confirmed for the expected process"@,
            ),
        ),
    }
}

/// Records that a stop is asked for, and gives the moment from which it counts and its deadline.
pub fn request_stop(
    faults: &mut Vec<FaultEvidence>,
    not_before: EvidenceTimestamp,
    observed_at: EvidenceTimestamp,
    code: &str,
    fixed_deadline: Option<u64>,
) -> (request: (EvidenceTimestamp, u64))
    ensures
        fault_list(final(faults)@) == after_stop_request(
            fault_list(old(faults)@),
            not_before,
            observed_at,
            code@,
            fixed_deadline,
        ),
        request.0 == later_of(observed_at, not_before),
        request.1 == stop_deadline(request.0, fixed_deadline),
{
    if observed_at.monotonic_millis < not_before.monotonic_millis {
        push_fault(faults, not_before, code, "clock regressed before stop operation");
    }
    let requested_at = later_timestamp(observed_at, not_before);
    let own: u64 = match fixed_deadline {
        Some(deadline) => deadline,
        None => match requested_at.monotonic_millis.checked_add(10_000) {
            Some(deadline) => deadline,
            None => {
                push_fault(faults, requested_at, code, "operation deadline overflowed");
                requested_at.monotonic_millis
            },
        },
    };
    let watched: u64 = requested_at.monotonic_millis.saturating_add(5_000);
    let deadline: u64 = if own <= watched {
        own
    } else {
        watched
    };
    if requested_at.monotonic_millis > deadline {
        push_fault(faults, requested_at, code, "stop operation missed its scheduled deadline");
    }
    (requested_at, deadline)
}

/// Judges what a stop returned.
pub fn judge_stop(
    faults: &mut Vec<FaultEvidence>,
    requested_at: EvidenceTimestamp,
    deadline: u64,
    observed_at: EvidenceTimestamp,
    expectation: StopExpectation<'_>,
    result: Result<SupervisedEnduranceProcessStopConfirmation, String>,
) -> (evidence: Option<ProcessStopEvidence>)
    ensures
        fault_list(final(faults)@) == after_stop_result(
            fault_list(old(faults)@),
            requested_at,
            deadline as int,
            observed_at,
            expectation.code@,
            expectation.identity@,
            result,
        ),
        evidence is Some == stop_is_confirmed(
            result,
            expectation.identity@,
            requested_at,
            later_of(observed_at, requested_at),
            deadline as int,
        ),
        evidence matches Some(stop) ==> stop@ == (StopModel {
            process: expectation.process,
            process_identity: expectation.identity@,
            requested_at,
            confirmed_at: result->Ok_0.observed_at,
            running: false,
        }),
{
    let code = expectation.code;
    if observed_at.monotonic_millis < requested_at.monotonic_millis {
        push_fault(faults, requested_at, code, "clock regressed during stop operation");
    }
    let completed_at = later_timestamp(observed_at, requested_at);
    if completed_at.monotonic_millis > deadline {
        push_fault(faults, completed_at, code, "stop operation exceeded its deadline");
    }
    match result {
        Ok(confirmation) => {
            if !confirmation.running && same_text(
                confirmation.process_identity.as_str(),
                expectation.identity,
            ) && confirmation.observed_at.monotonic_millis >= requested_at.monotonic_millis
                && confirmation.observed_at.monotonic_millis <= completed_at.monotonic_millis
                && completed_at.monotonic_millis <= deadline {
                Some(
                    ProcessStopEvidence {
                        process: expectation.process,
                        process_identity: confirmation.process_identity,
                        requested_at,
                        confirmed_at: confirmation.observed_at,
                        running: false,
                    },
                )
            } else {
                push_fault(
                    faults,
                    completed_at,
                    code,
                    "stop postcondition was not confirmed for the expected process",
                );
                None
            }
        },
        Err(error) => {
            push_fault(
                faults,
                completed_at,
                code,
                join("stop operation failed: ", error.as_str()).as_str(),
            );
            None
        },
    }
}

fn stop_process<E>(
    environment: &mut E,
    trace: &mut Trace<'_, E, EnduranceCall>,
    process: StoppedProcess,
    effort: StopEffort,
    deadline: u64,
) -> (answer: Result<SupervisedEnduranceProcessStopConfirmation, String>) where
    E: SupervisedEnduranceEnvironment + ?Sized,

    requires
        old(trace).follows(&*old(environment)),
    ensures
        final(trace).follows(&*final(environment)),
        final(trace).start() == old(trace).start(),
        observed(final(trace).calls()) == observed(old(trace).calls()),
        final(trace).calls() == old(trace).calls().push(
            stop_call(process, effort, deadline, answer),
        ),
{
    match (process, effort) {
        (StoppedProcess::Workload, StopEffort::Normal) => trace.stop_workload(
            environment,
            deadline,
        ),
        (StoppedProcess::Workload, StopEffort::Escalated) => trace.contain_workload(
            environment,
            deadline,
        ),
        (StoppedProcess::Workload, StopEffort::Terminal) => trace.force_contain_workload(
            environment,
            deadline,
        ),
        (StoppedProcess::Service, StopEffort::Normal) => trace.stop_service(environment, deadline),
        (StoppedProcess::Service, StopEffort::Escalated) => trace.contain_service(
            environment,
            deadline,
        ),
        (StoppedProcess::Service, StopEffort::Terminal) => trace.force_contain_service(
            environment,
            deadline,
        ),
    }
}

/// One attempt to stop a process: what was asked and when, and what came back and when.
pub struct StopAttempt {
    pub process: StoppedProcess,
    pub effort: StopEffort,
    pub asked_at: EvidenceTimestamp,
    pub deadline: u64,
    pub answer: Result<SupervisedEnduranceProcessStopConfirmation, String>,
    pub answered_at: EvidenceTimestamp,
    pub confirmed: bool,
}

impl StopAttempt {
    /// The call that the attempt makes to act.
    pub open spec fn call(self) -> EnduranceCall {
        stop_call(self.process, self.effort, self.deadline, self.answer)
    }

    /// Calls with those of the attempt behind them.
    pub open spec fn after(self, calls: Seq<EnduranceCall>) -> Seq<EnduranceCall> {
        calls.push(EnduranceCall::Timestamp { answer: self.asked_at }).push(self.call()).push(
            EnduranceCall::Timestamp { answer: self.answered_at },
        )
    }
}

/// What a stop leaves, given when it was asked for, what came back and when.
pub open spec fn stop_leaves(
    faults: Seq<FaultModel>,
    not_before: EvidenceTimestamp,
    expectation: StopExpectation<'_>,
    asked_at: EvidenceTimestamp,
    answer: Result<SupervisedEnduranceProcessStopConfirmation, String>,
    answered_at: EvidenceTimestamp,
) -> (Seq<FaultModel>, Option<StopModel>, EvidenceTimestamp) {
    let requested_at = later_of(asked_at, not_before);
    let deadline = stop_deadline(requested_at, expectation.fixed_deadline);
    let completed_at = later_of(answered_at, requested_at);
    let asked = after_stop_request(
        faults,
        not_before,
        asked_at,
        expectation.code@,
        expectation.fixed_deadline,
    );
    (
        after_stop_result(
            asked,
            requested_at,
            deadline,
            answered_at,
            expectation.code@,
            expectation.identity@,
            answer,
        ),
        if stop_is_confirmed(answer, expectation.identity@, requested_at, completed_at, deadline) {
            Some(
                StopModel {
                    process: expectation.process,
                    process_identity: expectation.identity@,
                    requested_at,
                    confirmed_at: answer->Ok_0.observed_at,
                    running: false,
                },
            )
        } else {
            None
        },
        completed_at,
    )
}

/// Whether a stop left exactly what it must.
pub open spec fn stop_was_performed(
    faults: Seq<FaultModel>,
    not_before: EvidenceTimestamp,
    expectation: StopExpectation<'_>,
    effort: StopEffort,
    after: (Seq<FaultModel>, Option<StopModel>, EvidenceTimestamp),
    attempt: StopAttempt,
) -> bool {
    &&& attempt.process == expectation.process
    &&& attempt.effort == effort
    &&& attempt.deadline == stop_deadline(
        later_of(attempt.asked_at, not_before),
        expectation.fixed_deadline,
    )
    &&& attempt.confirmed == (after.1 is Some)
    &&& attempt.confirmed ==> (attempt.answer matches Ok(stopped) && !stopped.running
        && stopped.process_identity@ == expectation.identity@)
    &&& after == stop_leaves(
        faults,
        not_before,
        expectation,
        attempt.asked_at,
        attempt.answer,
        attempt.answered_at,
    )
}

/// The contents of an optional process stop.
pub open spec fn stop_of(stop: Option<ProcessStopEvidence>) -> Option<StopModel> {
    match stop {
        Some(stop) => Some(stop@),
        None => None,
    }
}

/// Stops a process and tells what confirms it. The stop is attempted whatever the clock says, and
/// leaves a fault wherever it is not confirmed.
pub(crate) fn perform_stop<E>(
    environment: &mut E,
    trace: &mut Trace<'_, E, EnduranceCall>,
    faults: &mut Vec<FaultEvidence>,
    not_before: &mut EvidenceTimestamp,
    expectation: StopExpectation<'_>,
    effort: StopEffort,
) -> (done: (Option<ProcessStopEvidence>, Ghost<StopAttempt>)) where
    E: SupervisedEnduranceEnvironment + ?Sized,

    requires
        old(trace).follows(&*old(environment)),
    ensures
        final(trace).follows(&*final(environment)),
        final(trace).start() == old(trace).start(),
        observed(final(trace).calls()) == observed(old(trace).calls()),
        final(trace).calls() == done.1@.after(old(trace).calls()),
        final(not_before).monotonic_millis >= old(not_before).monotonic_millis,
        done.0 is None ==> final(faults)@.len() > old(faults)@.len(),
        final(faults)@.len() >= old(faults)@.len(),
        done.0 matches Some(stop) ==> {
            &&& stop@.process == expectation.process
            &&& stop@.process_identity == expectation.identity@
            &&& !stop@.running
            &&& old(not_before).monotonic_millis <= stop@.requested_at.monotonic_millis
                <= stop@.confirmed_at.monotonic_millis <= final(not_before).monotonic_millis
        },
        stop_was_performed(
            fault_list(old(faults)@),
            *old(not_before),
            expectation,
            effort,
            (fault_list(final(faults)@), stop_of(done.0), *final(not_before)),
            done.1@,
        ),
{
    let asked_at = trace.timestamp(environment);
    let ghost before = fault_list(faults@);
    let (requested_at, deadline) = request_stop(
        faults,
        *not_before,
        asked_at,
        expectation.code,
        expectation.fixed_deadline,
    );
    let result = stop_process(environment, trace, expectation.process, effort, deadline);
    let observed_at = trace.timestamp(environment);
    let evidence = judge_stop(faults, requested_at, deadline, observed_at, expectation, result);
    *not_before = later_timestamp(observed_at, requested_at);
    proof {
        assert((fault_list(faults@), stop_of(evidence), *not_before) == stop_leaves(
            before,
            *old(not_before),
            expectation,
            asked_at,
            result,
            observed_at,
        ));
        assert(fault_list(faults@).len() == faults@.len());
        assert(before.len() == old(faults)@.len());
    }
    let ghost attempt = StopAttempt {
        process: expectation.process,
        effort,
        asked_at,
        deadline,
        answer: result,
        answered_at: observed_at,
        confirmed: evidence is Some,
    };
    (evidence, Ghost(attempt))
}

/// Stops a process and tells what confirms it. The stop is attempted whatever the clock says, and
/// leaves a fault wherever it is not confirmed.
pub fn perform_confirmed_stop<E>(
    environment: &mut E,
    faults: &mut Vec<FaultEvidence>,
    not_before: &mut EvidenceTimestamp,
    expectation: StopExpectation<'_>,
    effort: StopEffort,
) -> (evidence: Option<ProcessStopEvidence>) where E: SupervisedEnduranceEnvironment + ?Sized
    ensures
        exists|attempt: StopAttempt|
            {
                &&& ran(
                    &*old(environment),
                    #[trigger] attempt.after(Seq::empty()),
                    &*final(environment),
                )
                &&& stop_was_performed(
                    fault_list(old(faults)@),
                    *old(not_before),
                    expectation,
                    effort,
                    (fault_list(final(faults)@), stop_of(evidence), *final(not_before)),
                    attempt,
                )
            },
{
    let mut trace = Trace::begin(environment);
    let (evidence, attempt) = perform_stop(
        environment,
        &mut trace,
        faults,
        not_before,
        expectation,
        effort,
    );
    assert(ran(&*old(environment), attempt@.after(Seq::empty()), &*environment));
    evidence
}

/// Whether an endpoint named itself and is the one that the run was bound to, if it was.
pub open spec fn identity_is_trusted(known: Option<Seq<char>>, identity: Seq<char>) -> bool {
    trimmed(identity).len() > 0 && (known matches Some(expected) ==> expected == identity)
}

/// Whether a restoration is confirmed: written, read back as Firmware Auto from a trusted endpoint,
/// and in time.
pub open spec fn restoration_is_confirmed(
    control: ControlModel,
    fan: EvidenceFan,
    requested_at: EvidenceTimestamp,
    completed_at: EvidenceTimestamp,
    restoration: MatchedWorkloadFanRestoration,
) -> bool {
    &&& restoration.auto_write_succeeded
    &&& restoration.enable_readback == Some(2u32)
    &&& restoration.outcome == RestorationOutcome::FirmwareAutoConfirmed
    &&& identity_is_trusted(
        control.get(fan, FanReadbackField::Enable),
        restoration.endpoint_identity@,
    )
    &&& completed_at.monotonic_millis <= requested_at.monotonic_millis + 5_000 <= u64::MAX
}

/// A list of faults after a fan's restoration was asked for.
pub open spec fn after_restore_request(
    faults: Seq<FaultModel>,
    not_before: EvidenceTimestamp,
    observed_at: EvidenceTimestamp,
) -> Seq<FaultModel> {
    let requested_at = later_of(observed_at, not_before);
    with_fault_if(
        with_fault_if(
            faults,
            observed_at.monotonic_millis < not_before.monotonic_millis,
            fault(
                not_before,
                "firmware-auto-restoration"@,
                "clock regressed before fan restoration"@,
            ),
        ),
        requested_at.monotonic_millis + 5_000 > u64::MAX,
        fault(
            requested_at,
            "firmware-auto-restoration"@,
            "fan restoration deadline overflowed"@,
        ),
    )
}

/// A list of faults after a fan's restoration returned.
pub open spec fn after_restore_result(
    faults: Seq<FaultModel>,
    control: ControlModel,
    fan: EvidenceFan,
    requested_at: EvidenceTimestamp,
    observed_at: EvidenceTimestamp,
    restoration: MatchedWorkloadFanRestoration,
) -> Seq<FaultModel> {
    let completed_at = later_of(observed_at, requested_at);
    with_fault_if(
        with_fault_if(
            faults,
            observed_at.monotonic_millis < requested_at.monotonic_millis,
            fault(
                requested_at,
                "firmware-auto-restoration"@,
                "clock regressed during fan restoration"@,
            ),
        ),
        !restoration_is_confirmed(control, fan, requested_at, completed_at, restoration),
        fault(
            completed_at,
            "firmware-auto-unconfirmed"@,
            fan_text(fan) + " fan was not independently confirmed in Firmware Auto"@,
        ),
    )
}

/// The attempt that a fan's restoration leaves.
pub open spec fn restore_attempt(
    fan: EvidenceFan,
    completed_at: EvidenceTimestamp,
    confirmed: bool,
    restoration: MatchedWorkloadFanRestoration,
) -> RestorationAttemptEvidence {
    RestorationAttemptEvidence {
        timestamp: completed_at,
        fan,
        auto_write_succeeded: restoration.auto_write_succeeded,
        enable_readback: restoration.enable_readback,
        outcome: if confirmed {
            RestorationOutcome::FirmwareAutoConfirmed
        } else if restoration.outcome == RestorationOutcome::ContainmentFailed {
            RestorationOutcome::ContainmentFailed
        } else {
            RestorationOutcome::FirmwareAutoUnconfirmed
        },
    }
}

/// A readback at the end of a run.
pub open spec fn final_readback(
    fan: EvidenceFan,
    field: FanReadbackField,
    at: EvidenceTimestamp,
    value: Option<u32>,
    endpoint_identity: Seq<char>,
    confirmed: bool,
) -> ReadbackModel {
    ReadbackModel {
        timestamp: at,
        source_timestamp: None,
        fresh: None,
        boot_id: None,
        fan,
        field,
        value,
        endpoint_identity,
        outcome: if confirmed {
            ObservationOutcome::Confirmed
        } else if value is Some {
            ObservationOutcome::Unexpected
        } else {
            ObservationOutcome::Unreadable
        },
        phase: Some(FanReadbackPhase::Final),
    }
}

fn push_final_readback(
    readbacks: &mut Vec<FanReadbackEvidence>,
    fan: EvidenceFan,
    field: FanReadbackField,
    at: EvidenceTimestamp,
    value: Option<u32>,
    endpoint_identity: String,
    confirmed: bool,
)
    ensures
        readback_list(final(readbacks)@) == readback_list(old(readbacks)@).push(
            final_readback(fan, field, at, value, endpoint_identity@, confirmed),
        ),
        final(readbacks)@.len() == old(readbacks)@.len() + 1,
{
    push_readback(
        readbacks,
        FanReadbackEvidence {
            timestamp: at,
            source_timestamp: None,
            fresh: None,
            boot_id: None,
            fan,
            field,
            value,
            endpoint_identity,
            outcome: if confirmed {
                ObservationOutcome::Confirmed
            } else if value.is_some() {
                ObservationOutcome::Unexpected
            } else {
                ObservationOutcome::Unreadable
            },
            phase: Some(FanReadbackPhase::Final),
        },
    );
}

fn is_trusted(known: &Option<String>, identity: &str) -> (yes: bool)
    ensures
        yes == identity_is_trusted(crate::text::text_option(*known), identity@),
{
    if is_blank(identity) {
        return false;
    }
    match known {
        Some(expected) => same_text(expected.as_str(), identity),
        None => true,
    }
}

fn value_is(value: Option<u32>, expected: u32) -> (yes: bool)
    ensures
        yes == (value == Some(expected)),
{
    match value {
        Some(value) => value == expected,
        None => false,
    }
}

/// Records that a fan's restoration is asked for, and gives the moment from which it counts and its
/// deadline, which is that moment itself where there is no later one.
pub fn request_restoration(
    faults: &mut Vec<FaultEvidence>,
    not_before: EvidenceTimestamp,
    observed_at: EvidenceTimestamp,
) -> (request: (EvidenceTimestamp, u64))
    ensures
        fault_list(final(faults)@) == after_restore_request(
            fault_list(old(faults)@),
            not_before,
            observed_at,
        ),
        request.0 == later_of(observed_at, not_before),
        request.1 == if request.0.monotonic_millis + 5_000 > u64::MAX {
            request.0.monotonic_millis as int
        } else {
            request.0.monotonic_millis + 5_000
        },
{
    if observed_at.monotonic_millis < not_before.monotonic_millis {
        push_fault(
            faults,
            not_before,
            "firmware-auto-restoration",
            "clock regressed before fan restoration",
        );
    }
    let requested_at = later_timestamp(observed_at, not_before);
    let deadline: u64 = match requested_at.monotonic_millis.checked_add(5_000) {
        Some(deadline) => deadline,
        None => {
            push_fault(
                faults,
                requested_at,
                "firmware-auto-restoration",
                "fan restoration deadline overflowed",
            );
            requested_at.monotonic_millis
        },
    };
    (requested_at, deadline)
}

/// Judges a fan's restoration.
pub fn judge_restoration(
    readbacks: &mut Vec<FanReadbackEvidence>,
    attempts: &mut Vec<RestorationAttemptEvidence>,
    faults: &mut Vec<FaultEvidence>,
    control: &ControlEvidenceState,
    fan: EvidenceFan,
    requested_at: EvidenceTimestamp,
    observed_at: EvidenceTimestamp,
    restoration: MatchedWorkloadFanRestoration,
) -> (confirmed: bool)
    ensures
        confirmed == restoration_is_confirmed(
            control@,
            fan,
            requested_at,
            later_of(observed_at, requested_at),
            restoration,
        ),
        fault_list(final(faults)@) == after_restore_result(
            fault_list(old(faults)@),
            control@,
            fan,
            requested_at,
            observed_at,
            restoration,
        ),
        final(attempts)@ == old(attempts)@.push(
            restore_attempt(fan, later_of(observed_at, requested_at), confirmed, restoration),
        ),
        readback_list(final(readbacks)@) == readback_list(old(readbacks)@).push(
            final_readback(
                fan,
                FanReadbackField::Enable,
                later_of(observed_at, requested_at),
                restoration.enable_readback,
                restoration.endpoint_identity@,
                confirmed,
            ),
        ),
        final(readbacks)@.len() == old(readbacks)@.len() + 1,
{
    if observed_at.monotonic_millis < requested_at.monotonic_millis {
        push_fault(
            faults,
            requested_at,
            "firmware-auto-restoration",
            "clock regressed during fan restoration",
        );
    }
    let completed_at = later_timestamp(observed_at, requested_at);
    let in_time = match requested_at.monotonic_millis.checked_add(5_000) {
        Some(deadline) => completed_at.monotonic_millis <= deadline,
        None => false,
    };
    let confirmed = restoration.auto_write_succeeded && value_is(restoration.enable_readback, 2)
        && restoration.outcome == RestorationOutcome::FirmwareAutoConfirmed && is_trusted(
        control.endpoint_identity(fan, FanReadbackField::Enable),
        restoration.endpoint_identity.as_str(),
    ) && in_time;
    attempts.push(
        RestorationAttemptEvidence {
            timestamp: completed_at,
            fan,
            auto_write_succeeded: restoration.auto_write_succeeded,
            enable_readback: restoration.enable_readback,
            outcome: if confirmed {
                RestorationOutcome::FirmwareAutoConfirmed
            } else if restoration.outcome == RestorationOutcome::ContainmentFailed {
                RestorationOutcome::ContainmentFailed
            } else {
                RestorationOutcome::FirmwareAutoUnconfirmed
            },
        },
    );
    push_final_readback(
        readbacks,
        fan,
        FanReadbackField::Enable,
        completed_at,
        restoration.enable_readback,
        restoration.endpoint_identity,
        confirmed,
    );
    if !confirmed {
        push_fault(
            faults,
            completed_at,
            "firmware-auto-unconfirmed",
            join(
                fan_name(fan),
                " fan was not independently confirmed in Firmware Auto",
            ).as_str(),
        );
    }
    confirmed
}

/// What the restoration of one or both fans keeps.
pub open spec fn attempts_extend(
    before: Seq<RestorationAttemptEvidence>,
    after: Seq<RestorationAttemptEvidence>,
) -> bool {
    &&& after.len() == before.len() + 2
    &&& after.take(before.len() as int) == before
    &&& after[before.len() as int].fan == EvidenceFan::Cpu
    &&& after[before.len() as int + 1].fan == EvidenceFan::Gpu
}

/// What a shutdown has recorded of the fans.
pub struct ShutdownModel {
    pub readbacks: Seq<ReadbackModel>,
    pub attempts: Seq<RestorationAttemptEvidence>,
    pub faults: Seq<FaultModel>,
    pub not_before: EvidenceTimestamp,
}

/// The deadline of a fan's restoration or containment: five seconds, or none where there is no later
/// moment.
pub open spec fn fan_deadline(requested_at: EvidenceTimestamp) -> int {
    if requested_at.monotonic_millis + 5_000 > u64::MAX {
        requested_at.monotonic_millis as int
    } else {
        requested_at.monotonic_millis + 5_000
    }
}

/// What restoring a fan leaves, given when it was asked for, what came back and when.
pub open spec fn after_restoration(
    m: ShutdownModel,
    control: ControlModel,
    fan: EvidenceFan,
    asked_at: EvidenceTimestamp,
    restoration: MatchedWorkloadFanRestoration,
    answered_at: EvidenceTimestamp,
) -> ShutdownModel {
    let requested_at = later_of(asked_at, m.not_before);
    let completed_at = later_of(answered_at, requested_at);
    let confirmed = restoration_is_confirmed(control, fan, requested_at, completed_at, restoration);
    ShutdownModel {
        readbacks: m.readbacks.push(
            final_readback(
                fan,
                FanReadbackField::Enable,
                completed_at,
                restoration.enable_readback,
                restoration.endpoint_identity@,
                confirmed,
            ),
        ),
        attempts: m.attempts.push(restore_attempt(fan, completed_at, confirmed, restoration)),
        faults: after_restore_result(
            after_restore_request(m.faults, m.not_before, asked_at),
            control,
            fan,
            requested_at,
            answered_at,
            restoration,
        ),
        not_before: completed_at,
    }
}

/// One restoration of a fan: what was asked and when, and what came back and when.
pub struct RestorationAttempt {
    pub fan: EvidenceFan,
    pub asked_at: EvidenceTimestamp,
    pub deadline: u64,
    pub answer: MatchedWorkloadFanRestoration,
    pub answered_at: EvidenceTimestamp,
    pub confirmed: bool,
}

impl RestorationAttempt {
    /// The call that the attempt makes to act.
    pub open spec fn call(self) -> EnduranceCall {
        EnduranceCall::RestoreFan { fan: self.fan, deadline: self.deadline, answer: self.answer }
    }

    /// Calls with those of the attempt behind them.
    pub open spec fn after(self, calls: Seq<EnduranceCall>) -> Seq<EnduranceCall> {
        calls.push(EnduranceCall::Timestamp { answer: self.asked_at }).push(self.call()).push(
            EnduranceCall::Timestamp { answer: self.answered_at },
        )
    }
}

/// Whether a fan's restoration left exactly what it must.
pub open spec fn fan_was_restored(
    before: ShutdownModel,
    control: ControlModel,
    after: ShutdownModel,
    attempt: RestorationAttempt,
) -> bool {
    &&& attempt.deadline == fan_deadline(later_of(attempt.asked_at, before.not_before))
    &&& after == after_restoration(
        before,
        control,
        attempt.fan,
        attempt.asked_at,
        attempt.answer,
        attempt.answered_at,
    )
    &&& attempt.confirmed == (after.attempts.last().outcome
        == RestorationOutcome::FirmwareAutoConfirmed)
}

/// Whether both fans' restorations left exactly what they must, the CPU fan's first.
pub open spec fn both_were_restored(
    before: ShutdownModel,
    control: ControlModel,
    after: ShutdownModel,
    cpu: RestorationAttempt,
    gpu: RestorationAttempt,
) -> bool {
    &&& cpu.fan == EvidenceFan::Cpu
    &&& gpu.fan == EvidenceFan::Gpu
    &&& exists|between: ShutdownModel|
        #[trigger] fan_was_restored(before, control, between, cpu) && fan_was_restored(
            between,
            control,
            after,
            gpu,
        )
}

fn restore_one<E>(
    environment: &mut E,
    trace: &mut Trace<'_, E, EnduranceCall>,
    readbacks: &mut Vec<FanReadbackEvidence>,
    attempts: &mut Vec<RestorationAttemptEvidence>,
    faults: &mut Vec<FaultEvidence>,
    control: &ControlEvidenceState,
    not_before: &mut EvidenceTimestamp,
    fan: EvidenceFan,
) -> (done: (bool, Ghost<RestorationAttempt>)) where E: SupervisedEnduranceEnvironment + ?Sized
    requires
        old(trace).follows(&*old(environment)),
    ensures
        final(trace).follows(&*final(environment)),
        final(trace).start() == old(trace).start(),
        observed(final(trace).calls()) == observed(old(trace).calls()),
        final(trace).calls() == done.1@.after(old(trace).calls()),
        done.1@.fan == fan,
        done.1@.confirmed == done.0,
        final(not_before).monotonic_millis >= old(not_before).monotonic_millis,
        final(readbacks)@.len() == old(readbacks)@.len() + 1,
        final(attempts)@.len() == old(attempts)@.len() + 1,
        final(attempts)@.drop_last() == old(attempts)@,
        final(attempts)@.last().fan == fan,
        done.0 == (final(attempts)@.last().outcome
            == RestorationOutcome::FirmwareAutoConfirmed),
        done.0 ==> final(attempts)@.last().enable_readback == Some(2u32),
        final(faults)@.len() >= old(faults)@.len(),
        !done.0 ==> final(faults)@.len() > old(faults)@.len(),
        fan_was_restored(
            (ShutdownModel {
                readbacks: readback_list(old(readbacks)@),
                attempts: old(attempts)@,
                faults: fault_list(old(faults)@),
                not_before: *old(not_before),
            }),
            control@,
            (ShutdownModel {
                readbacks: readback_list(final(readbacks)@),
                attempts: final(attempts)@,
                faults: fault_list(final(faults)@),
                not_before: *final(not_before),
            }),
            done.1@,
        ),
{
    let ghost before = fault_list(faults@);
    let ghost start = ShutdownModel {
        readbacks: readback_list(readbacks@),
        attempts: attempts@,
        faults: before,
        not_before: *not_before,
    };
    let asked_at = trace.timestamp(environment);
    let (requested_at, deadline) = request_restoration(faults, *not_before, asked_at);
    let restoration = trace.restore_fan(environment, fan, deadline);
    let observed_at = trace.timestamp(environment);
    let confirmed = judge_restoration(
        readbacks,
        attempts,
        faults,
        control,
        fan,
        requested_at,
        observed_at,
        restoration,
    );
    *not_before = later_timestamp(observed_at, requested_at);
    proof {
        assert(fault_list(faults@).len() == faults@.len());
        assert(before.len() == old(faults)@.len());
        assert(attempts@.drop_last() =~= old(attempts)@);
        let end = ShutdownModel {
            readbacks: readback_list(readbacks@),
            attempts: attempts@,
            faults: fault_list(faults@),
            not_before: *not_before,
        };
        assert(end == after_restoration(
            start,
            control@,
            fan,
            asked_at,
            restoration,
            observed_at,
        ));
    }
    let ghost attempt = RestorationAttempt {
        fan,
        asked_at,
        deadline,
        answer: restoration,
        answered_at: observed_at,
        confirmed,
    };
    (confirmed, Ghost(attempt))
}

/// Restores both fans, the CPU fan first. Each is attempted once, whatever became of the other and
/// whatever the clock says.
pub(crate) fn restore_fans<E>(
    environment: &mut E,
    trace: &mut Trace<'_, E, EnduranceCall>,
    readbacks: &mut Vec<FanReadbackEvidence>,
    attempts: &mut Vec<RestorationAttemptEvidence>,
    faults: &mut Vec<FaultEvidence>,
    control: &ControlEvidenceState,
    not_before: &mut EvidenceTimestamp,
) -> (done: (bool, Ghost<RestorationAttempt>, Ghost<RestorationAttempt>)) where
    E: SupervisedEnduranceEnvironment + ?Sized,

    requires
        old(trace).follows(&*old(environment)),
    ensures
        final(trace).follows(&*final(environment)),
        final(trace).start() == old(trace).start(),
        observed(final(trace).calls()) == observed(old(trace).calls()),
        final(trace).calls() == done.2@.after(done.1@.after(old(trace).calls())),
        done.1@.confirmed == (final(attempts)@[old(attempts)@.len() as int].outcome
            == RestorationOutcome::FirmwareAutoConfirmed),
        done.2@.confirmed == (final(attempts)@.last().outcome
            == RestorationOutcome::FirmwareAutoConfirmed),
        attempts_extend(old(attempts)@, final(attempts)@),
        final(readbacks)@.len() == old(readbacks)@.len() + 2,
        done.0 == (final(attempts)@[old(attempts)@.len() as int].outcome
            == RestorationOutcome::FirmwareAutoConfirmed && final(attempts)@.last().outcome
            == RestorationOutcome::FirmwareAutoConfirmed),
        final(faults)@.len() >= old(faults)@.len(),
        !done.0 ==> final(faults)@.len() > old(faults)@.len(),
        final(not_before).monotonic_millis >= old(not_before).monotonic_millis,
        both_were_restored(
            (ShutdownModel {
                readbacks: readback_list(old(readbacks)@),
                attempts: old(attempts)@,
                faults: fault_list(old(faults)@),
                not_before: *old(not_before),
            }),
            control@,
            (ShutdownModel {
                readbacks: readback_list(final(readbacks)@),
                attempts: final(attempts)@,
                faults: fault_list(final(faults)@),
                not_before: *final(not_before),
            }),
            done.1@,
            done.2@,
        ),
{
    let (cpu, cpu_attempt) = restore_one(
        environment,
        trace,
        readbacks,
        attempts,
        faults,
        control,
        not_before,
        EvidenceFan::Cpu,
    );
    let ghost middle = ShutdownModel {
        readbacks: readback_list(readbacks@),
        attempts: attempts@,
        faults: fault_list(faults@),
        not_before: *not_before,
    };
    let ghost between = attempts@;
    let (gpu, gpu_attempt) = restore_one(
        environment,
        trace,
        readbacks,
        attempts,
        faults,
        control,
        not_before,
        EvidenceFan::Gpu,
    );
    proof {
        assert(fan_was_restored(
            ShutdownModel {
                readbacks: readback_list(old(readbacks)@),
                attempts: old(attempts)@,
                faults: fault_list(old(faults)@),
                not_before: *old(not_before),
            },
            control@,
            middle,
            cpu_attempt@,
        ));
        let count = old(attempts)@.len() as int;
        assert(attempts@[count] == attempts@.drop_last()[count]);
        assert(between[count] == between.last());
        assert(attempts@.take(count) =~= old(attempts)@) by {
            assert forall|k: int| 0 <= k < count implies attempts@[k] == old(attempts)@[k] by {
                assert(attempts@.drop_last()[k] == between[k]);
                assert(between.drop_last()[k] == old(attempts)@[k]);
            }
        }
    }
    (cpu && gpu, cpu_attempt, gpu_attempt)
}

/// Restores both fans, the CPU fan first. Each is attempted once, whatever became of the other and
/// whatever the clock says.
pub fn restore_both_fans<E>(
    environment: &mut E,
    readbacks: &mut Vec<FanReadbackEvidence>,
    attempts: &mut Vec<RestorationAttemptEvidence>,
    faults: &mut Vec<FaultEvidence>,
    control: &ControlEvidenceState,
    not_before: &mut EvidenceTimestamp,
) -> (restored: bool) where E: SupervisedEnduranceEnvironment + ?Sized
    ensures
        attempts_extend(old(attempts)@, final(attempts)@),
        final(readbacks)@.len() == old(readbacks)@.len() + 2,
        restored == (final(attempts)@[old(attempts)@.len() as int].outcome
            == RestorationOutcome::FirmwareAutoConfirmed && final(attempts)@.last().outcome
            == RestorationOutcome::FirmwareAutoConfirmed),
        final(faults)@.len() >= old(faults)@.len(),
        !restored ==> final(faults)@.len() > old(faults)@.len(),
        final(not_before).monotonic_millis >= old(not_before).monotonic_millis,
        exists|cpu: RestorationAttempt, gpu: RestorationAttempt|
            {
                &&& ran(
                    &*old(environment),
                    #[trigger] gpu.after(cpu.after(Seq::empty())),
                    &*final(environment),
                )
                &&& both_were_restored(
                    (ShutdownModel {
                        readbacks: readback_list(old(readbacks)@),
                        attempts: old(attempts)@,
                        faults: fault_list(old(faults)@),
                        not_before: *old(not_before),
                    }),
                    control@,
                    (ShutdownModel {
                        readbacks: readback_list(final(readbacks)@),
                        attempts: final(attempts)@,
                        faults: fault_list(final(faults)@),
                        not_before: *final(not_before),
                    }),
                    cpu,
                    gpu,
                )
            },
{
    let mut trace = Trace::begin(environment);
    let (restored, cpu, gpu) = restore_fans(
        environment,
        &mut trace,
        readbacks,
        attempts,
        faults,
        control,
        not_before,
    );
    assert(ran(&*old(environment), gpu@.after(cpu@.after(Seq::empty())), &*environment));
    restored
}

/// Whether an endpoint named itself and is exactly the one that the run was bound to.
pub open spec fn identity_is_bound(known: Option<Seq<char>>, identity: Seq<char>) -> bool {
    trimmed(identity).len() > 0 && known == Some(identity)
}

/// Whether the enable endpoint confirms manual control.
pub open spec fn manual_is_confirmed(
    control: ControlModel,
    fan: EvidenceFan,
    containment: SupervisedEnduranceFanContainment,
) -> bool {
    containment.enable_readback == Some(1u32) && identity_is_bound(
        control.get(fan, FanReadbackField::Enable),
        containment.enable_endpoint_identity@,
    )
}

/// Whether the duty endpoint confirms the maximum.
pub open spec fn maximum_is_confirmed(
    control: ControlModel,
    fan: EvidenceFan,
    containment: SupervisedEnduranceFanContainment,
) -> bool {
    containment.pwm_write_succeeded && containment.pwm_readback == Some(255u32)
        && identity_is_bound(
        control.get(fan, FanReadbackField::Pwm),
        containment.pwm_endpoint_identity@,
    )
}

/// Whether a fan is confirmed at its maximum, in time.
pub open spec fn containment_is_confirmed(
    control: ControlModel,
    fan: EvidenceFan,
    deadline: int,
    completed_at: EvidenceTimestamp,
    containment: SupervisedEnduranceFanContainment,
) -> bool {
    &&& containment.outcome == RestorationOutcome::MaximumContainmentConfirmed
    &&& manual_is_confirmed(control, fan, containment)
    &&& maximum_is_confirmed(control, fan, containment)
    &&& completed_at.monotonic_millis <= deadline
}

/// The text of the fault that a containment always leaves.
pub open spec fn containment_text(fan: EvidenceFan, confirmed: bool) -> Seq<char> {
    if confirmed {
        fan_text(fan)
            + " fan used explicit maximum containment because workload absence was unconfirmed"@
    } else {
        fan_text(fan)
            + " fan could not be placed in explicit maximum containment after workload termination failed"@
    }
}

/// Judges a fan's containment.
pub fn judge_containment(
    readbacks: &mut Vec<FanReadbackEvidence>,
    attempts: &mut Vec<RestorationAttemptEvidence>,
    faults: &mut Vec<FaultEvidence>,
    control: &ControlEvidenceState,
    fan: EvidenceFan,
    deadline: u64,
    completed_at: EvidenceTimestamp,
    containment: SupervisedEnduranceFanContainment,
) -> (confirmed: bool)
    ensures
        confirmed == containment_is_confirmed(
            control@,
            fan,
            deadline as int,
            completed_at,
            containment,
        ),
        fault_list(final(faults)@) == fault_list(old(faults)@).push(
            fault(
                completed_at,
                "firmware-auto-unconfirmed"@,
                containment_text(fan, confirmed),
            ),
        ),
        final(attempts)@ == old(attempts)@.push(
            RestorationAttemptEvidence {
                timestamp: completed_at,
                fan,
                auto_write_succeeded: false,
                enable_readback: containment.enable_readback,
                outcome: if confirmed {
                    RestorationOutcome::MaximumContainmentConfirmed
                } else {
                    RestorationOutcome::ContainmentFailed
                },
            },
        ),
        readback_list(final(readbacks)@) == readback_list(old(readbacks)@).push(
            final_readback(
                fan,
                FanReadbackField::Enable,
                completed_at,
                containment.enable_readback,
                containment.enable_endpoint_identity@,
                manual_is_confirmed(control@, fan, containment),
            ),
        ).push(
            final_readback(
                fan,
                FanReadbackField::Pwm,
                completed_at,
                containment.pwm_readback,
                containment.pwm_endpoint_identity@,
                maximum_is_confirmed(control@, fan, containment),
            ),
        ),
{
    let manual = value_is(containment.enable_readback, 1) && !is_blank(
        containment.enable_endpoint_identity.as_str(),
    ) && is_text(
        control.endpoint_identity(fan, FanReadbackField::Enable),
        containment.enable_endpoint_identity.as_str(),
    );
    let maximum = containment.pwm_write_succeeded && value_is(containment.pwm_readback, 255)
        && !is_blank(containment.pwm_endpoint_identity.as_str()) && is_text(
        control.endpoint_identity(fan, FanReadbackField::Pwm),
        containment.pwm_endpoint_identity.as_str(),
    );
    let confirmed = containment.outcome == RestorationOutcome::MaximumContainmentConfirmed && manual
        && maximum && completed_at.monotonic_millis <= deadline;
    attempts.push(
        RestorationAttemptEvidence {
            timestamp: completed_at,
            fan,
            auto_write_succeeded: false,
            enable_readback: containment.enable_readback,
            outcome: if confirmed {
                RestorationOutcome::MaximumContainmentConfirmed
            } else {
                RestorationOutcome::ContainmentFailed
            },
        },
    );
    push_final_readback(
        readbacks,
        fan,
        FanReadbackField::Enable,
        completed_at,
        containment.enable_readback,
        containment.enable_endpoint_identity,
        manual,
    );
    push_final_readback(
        readbacks,
        fan,
        FanReadbackField::Pwm,
        completed_at,
        containment.pwm_readback,
        containment.pwm_endpoint_identity,
        maximum,
    );
    push_fault(
        faults,
        completed_at,
        "firmware-auto-unconfirmed",
        join(
            fan_name(fan),
            if confirmed {
                " fan used explicit maximum containment because workload absence was unconfirmed"
            } else {
                " fan could not be placed in explicit maximum containment after workload termination failed"
            },
        ).as_str(),
    );
    confirmed
}

/// What containing a fan leaves, given when it was asked for, what came back and when.
pub open spec fn after_containment(
    m: ShutdownModel,
    control: ControlModel,
    fan: EvidenceFan,
    asked_at: EvidenceTimestamp,
    containment: SupervisedEnduranceFanContainment,
    answered_at: EvidenceTimestamp,
) -> ShutdownModel {
    let requested_at = later_of(asked_at, m.not_before);
    let completed_at = later_of(answered_at, requested_at);
    let overflows = requested_at.monotonic_millis + 5_000 > u64::MAX;
    let deadline = if overflows {
        requested_at.monotonic_millis as int
    } else {
        requested_at.monotonic_millis + 5_000
    };
    let confirmed = containment_is_confirmed(control, fan, deadline, completed_at, containment);
    ShutdownModel {
        readbacks: m.readbacks.push(
            final_readback(
                fan,
                FanReadbackField::Enable,
                completed_at,
                containment.enable_readback,
                containment.enable_endpoint_identity@,
                manual_is_confirmed(control, fan, containment),
            ),
        ).push(
            final_readback(
                fan,
                FanReadbackField::Pwm,
                completed_at,
                containment.pwm_readback,
                containment.pwm_endpoint_identity@,
                maximum_is_confirmed(control, fan, containment),
            ),
        ),
        attempts: m.attempts.push(
            RestorationAttemptEvidence {
                timestamp: completed_at,
                fan,
                auto_write_succeeded: false,
                enable_readback: containment.enable_readback,
                outcome: if confirmed {
                    RestorationOutcome::MaximumContainmentConfirmed
                } else {
                    RestorationOutcome::ContainmentFailed
                },
            },
        ),
        faults: with_fault_if(
            m.faults,
            overflows,
            fault(
                requested_at,
                "emergency-maximum-containment"@,
                "fan containment deadline overflowed"@,
            ),
        ).push(
            fault(
                completed_at,
                "firmware-auto-unconfirmed"@,
                containment_text(fan, confirmed),
            ),
        ),
        not_before: completed_at,
    }
}

/// One containment of a fan: what was asked and when, and what came back and when.
pub struct ContainmentAttempt {
    pub fan: EvidenceFan,
    pub asked_at: EvidenceTimestamp,
    pub deadline: u64,
    pub answer: SupervisedEnduranceFanContainment,
    pub answered_at: EvidenceTimestamp,
    pub confirmed: bool,
}

impl ContainmentAttempt {
    /// The call that the attempt makes to act.
    pub open spec fn call(self) -> EnduranceCall {
        EnduranceCall::ContainFanAtMaximum { fan: self.fan, deadline: self.deadline, answer: self.answer }
    }

    /// Calls with those of the attempt behind them.
    pub open spec fn after(self, calls: Seq<EnduranceCall>) -> Seq<EnduranceCall> {
        calls.push(EnduranceCall::Timestamp { answer: self.asked_at }).push(self.call()).push(
            EnduranceCall::Timestamp { answer: self.answered_at },
        )
    }
}

/// Whether a fan's containment left exactly what it must.
pub open spec fn fan_was_contained(
    before: ShutdownModel,
    control: ControlModel,
    after: ShutdownModel,
    attempt: ContainmentAttempt,
) -> bool {
    &&& attempt.deadline == fan_deadline(later_of(attempt.asked_at, before.not_before))
    &&& after == after_containment(
        before,
        control,
        attempt.fan,
        attempt.asked_at,
        attempt.answer,
        attempt.answered_at,
    )
    &&& attempt.confirmed == (after.attempts.last().outcome
        == RestorationOutcome::MaximumContainmentConfirmed)
}

/// Whether both fans' containments left exactly what they must, the CPU fan's first.
pub open spec fn both_were_contained(
    before: ShutdownModel,
    control: ControlModel,
    after: ShutdownModel,
    cpu: ContainmentAttempt,
    gpu: ContainmentAttempt,
) -> bool {
    &&& cpu.fan == EvidenceFan::Cpu
    &&& gpu.fan == EvidenceFan::Gpu
    &&& exists|between: ShutdownModel|
        #[trigger] fan_was_contained(before, control, between, cpu) && fan_was_contained(
            between,
            control,
            after,
            gpu,
        )
}

fn contain_one<E>(
    environment: &mut E,
    trace: &mut Trace<'_, E, EnduranceCall>,
    readbacks: &mut Vec<FanReadbackEvidence>,
    attempts: &mut Vec<RestorationAttemptEvidence>,
    faults: &mut Vec<FaultEvidence>,
    control: &ControlEvidenceState,
    not_before: &mut EvidenceTimestamp,
    fan: EvidenceFan,
) -> (done: (bool, Ghost<ContainmentAttempt>)) where E: SupervisedEnduranceEnvironment + ?Sized
    requires
        old(trace).follows(&*old(environment)),
    ensures
        final(trace).follows(&*final(environment)),
        final(trace).start() == old(trace).start(),
        observed(final(trace).calls()) == observed(old(trace).calls()),
        final(trace).calls() == done.1@.after(old(trace).calls()),
        done.1@.fan == fan,
        done.1@.confirmed == done.0,
        final(not_before).monotonic_millis >= old(not_before).monotonic_millis,
        final(attempts)@.len() == old(attempts)@.len() + 1,
        final(attempts)@.drop_last() == old(attempts)@,
        final(attempts)@.last().fan == fan,
        done.0 == (final(attempts)@.last().outcome
            == RestorationOutcome::MaximumContainmentConfirmed),
        final(faults)@.len() > old(faults)@.len(),
        fan_was_contained(
            (ShutdownModel {
                readbacks: readback_list(old(readbacks)@),
                attempts: old(attempts)@,
                faults: fault_list(old(faults)@),
                not_before: *old(not_before),
            }),
            control@,
            (ShutdownModel {
                readbacks: readback_list(final(readbacks)@),
                attempts: final(attempts)@,
                faults: fault_list(final(faults)@),
                not_before: *final(not_before),
            }),
            done.1@,
        ),
{
    let ghost before = fault_list(faults@);
    let ghost start = ShutdownModel {
        readbacks: readback_list(readbacks@),
        attempts: attempts@,
        faults: before,
        not_before: *not_before,
    };
    let asked_at = trace.timestamp(environment);
    let requested_at = later_timestamp(asked_at, *not_before);
    let deadline: u64 = match requested_at.monotonic_millis.checked_add(5_000) {
        Some(deadline) => deadline,
        None => {
            push_fault(
                faults,
                requested_at,
                "emergency-maximum-containment",
                "fan containment deadline overflowed",
            );
            requested_at.monotonic_millis
        },
    };
    let containment = trace.contain_fan_at_maximum(environment, fan, deadline);
    let answered_at = trace.timestamp(environment);
    let completed_at = later_timestamp(answered_at, requested_at);
    let confirmed = judge_containment(
        readbacks,
        attempts,
        faults,
        control,
        fan,
        deadline,
        completed_at,
        containment,
    );
    *not_before = completed_at;
    proof {
        assert(fault_list(faults@).len() == faults@.len());
        assert(before.len() == old(faults)@.len());
        assert(attempts@.drop_last() =~= old(attempts)@);
        let end = ShutdownModel {
            readbacks: readback_list(readbacks@),
            attempts: attempts@,
            faults: fault_list(faults@),
            not_before: *not_before,
        };
        assert(end == after_containment(
            start,
            control@,
            fan,
            asked_at,
            containment,
            answered_at,
        ));
    }
    let ghost attempt = ContainmentAttempt {
        fan,
        asked_at,
        deadline,
        answer: containment,
        answered_at: answered_at,
        confirmed,
    };
    (confirmed, Ghost(attempt))
}

/// Puts both fans at their maximum, the CPU fan first. Each is attempted once, whatever became of
/// the other, and always leaves a fault.
pub(crate) fn contain_fans<E>(
    environment: &mut E,
    trace: &mut Trace<'_, E, EnduranceCall>,
    readbacks: &mut Vec<FanReadbackEvidence>,
    attempts: &mut Vec<RestorationAttemptEvidence>,
    faults: &mut Vec<FaultEvidence>,
    control: &ControlEvidenceState,
    not_before: &mut EvidenceTimestamp,
) -> (done: (bool, Ghost<ContainmentAttempt>, Ghost<ContainmentAttempt>)) where
    E: SupervisedEnduranceEnvironment + ?Sized,

    requires
        old(trace).follows(&*old(environment)),
    ensures
        final(trace).follows(&*final(environment)),
        final(trace).start() == old(trace).start(),
        observed(final(trace).calls()) == observed(old(trace).calls()),
        final(trace).calls() == done.2@.after(done.1@.after(old(trace).calls())),
        done.1@.confirmed == (final(attempts)@[old(attempts)@.len() as int].outcome
            == RestorationOutcome::MaximumContainmentConfirmed),
        done.2@.confirmed == (final(attempts)@.last().outcome
            == RestorationOutcome::MaximumContainmentConfirmed),
        attempts_extend(old(attempts)@, final(attempts)@),
        done.0 == (final(attempts)@[old(attempts)@.len() as int].outcome
            == RestorationOutcome::MaximumContainmentConfirmed && final(attempts)@.last().outcome
            == RestorationOutcome::MaximumContainmentConfirmed),
        final(faults)@.len() > old(faults)@.len(),
        final(not_before).monotonic_millis >= old(not_before).monotonic_millis,
        both_were_contained(
            (ShutdownModel {
                readbacks: readback_list(old(readbacks)@),
                attempts: old(attempts)@,
                faults: fault_list(old(faults)@),
                not_before: *old(not_before),
            }),
            control@,
            (ShutdownModel {
                readbacks: readback_list(final(readbacks)@),
                attempts: final(attempts)@,
                faults: fault_list(final(faults)@),
                not_before: *final(not_before),
            }),
            done.1@,
            done.2@,
        ),
{
    let (cpu, cpu_attempt) = contain_one(
        environment,
        trace,
        readbacks,
        attempts,
        faults,
        control,
        not_before,
        EvidenceFan::Cpu,
    );
    let ghost middle = ShutdownModel {
        readbacks: readback_list(readbacks@),
        attempts: attempts@,
        faults: fault_list(faults@),
        not_before: *not_before,
    };
    let ghost between = attempts@;
    let (gpu, gpu_attempt) = contain_one(
        environment,
        trace,
        readbacks,
        attempts,
        faults,
        control,
        not_before,
        EvidenceFan::Gpu,
    );
    proof {
        assert(fan_was_contained(
            ShutdownModel {
                readbacks: readback_list(old(readbacks)@),
                attempts: old(attempts)@,
                faults: fault_list(old(faults)@),
                not_before: *old(not_before),
            },
            control@,
            middle,
            cpu_attempt@,
        ));
        let count = old(attempts)@.len() as int;
        assert(attempts@[count] == attempts@.drop_last()[count]);
        assert(between[count] == between.last());
        assert(attempts@.take(count) =~= old(attempts)@) by {
            assert forall|k: int| 0 <= k < count implies attempts@[k] == old(attempts)@[k] by {
                assert(attempts@.drop_last()[k] == between[k]);
                assert(between.drop_last()[k] == old(attempts)@[k]);
            }
        }
    }
    (cpu && gpu, cpu_attempt, gpu_attempt)
}

/// Puts both fans at their maximum, the CPU fan first. Each is attempted once, whatever became of
/// the other, and always leaves a fault.
pub fn contain_both_fans_at_maximum<E>(
    environment: &mut E,
    readbacks: &mut Vec<FanReadbackEvidence>,
    attempts: &mut Vec<RestorationAttemptEvidence>,
    faults: &mut Vec<FaultEvidence>,
    control: &ControlEvidenceState,
    not_before: &mut EvidenceTimestamp,
) -> (contained: bool) where E: SupervisedEnduranceEnvironment + ?Sized
    ensures
        attempts_extend(old(attempts)@, final(attempts)@),
        contained == (final(attempts)@[old(attempts)@.len() as int].outcome
            == RestorationOutcome::MaximumContainmentConfirmed && final(attempts)@.last().outcome
            == RestorationOutcome::MaximumContainmentConfirmed),
        final(faults)@.len() > old(faults)@.len(),
        final(not_before).monotonic_millis >= old(not_before).monotonic_millis,
        exists|cpu: ContainmentAttempt, gpu: ContainmentAttempt|
            {
                &&& ran(
                    &*old(environment),
                    #[trigger] gpu.after(cpu.after(Seq::empty())),
                    &*final(environment),
                )
                &&& both_were_contained(
                    (ShutdownModel {
                        readbacks: readback_list(old(readbacks)@),
                        attempts: old(attempts)@,
                        faults: fault_list(old(faults)@),
                        not_before: *old(not_before),
                    }),
                    control@,
                    (ShutdownModel {
                        readbacks: readback_list(final(readbacks)@),
                        attempts: final(attempts)@,
                        faults: fault_list(final(faults)@),
                        not_before: *final(not_before),
                    }),
                    cpu,
                    gpu,
                )
            },
{
    let mut trace = Trace::begin(environment);
    let (contained, cpu, gpu) = contain_fans(
        environment,
        &mut trace,
        readbacks,
        attempts,
        faults,
        control,
        not_before,
    );
    assert(ran(&*old(environment), gpu@.after(cpu@.after(Seq::empty())), &*environment));
    contained
}

} // verus!
