//! The steps of a supervised endurance run put together: what is called, and what the run holds
//! after each answer.

use vstd::prelude::*;
use crate::endurance::{
    first_segment_was_begun, is_endurance_record, is_restored, is_stopped, observer_was_asked,
    refusal_of, segment_was_changed, shutdown_was_watched, EnduranceLog,
};
use crate::endurance_calls::EnduranceCall;
use crate::endurance_matrix::{records_of, SupervisedEndurancePlan};
use crate::endurance_plan::envelope_of;
use crate::endurance_schedule::segment_of;
use crate::endurance_shutdown::{
    both_were_contained, both_were_restored, stop_was_performed, ContainmentAttempt,
    RestorationAttempt, ShutdownModel, StopAttempt, StopEffort, StopExpectation, StopModel,
};
use crate::endurance_steps::{
    after_custom_entry, after_endurance_completion, after_endurance_conditions, after_endurance_end,
    after_endurance_launch, after_endurance_observation, after_envelope_check, after_pending_check,
    after_step_request, after_stop_schedule, endurance_fault, fresh_endurance, sample_fits_segment,
    scheduled_deadline, step_deadline, EnduranceModel,
};
use crate::evidence::{
    EnduranceThermalEnvelopeEvidence, EvidenceTimestamp, RecordModel, StoppedProcess,
    TelemetrySampleEvidence, WorkloadEvidence,
};
use crate::lifecycle_gate::later_of;
use crate::matched_control::{
    MatchedWorkloadObservation, ObservationSchedule, TachometerExpectation,
};
use crate::matched_workload::{saturated, CapturedMatchedWorkloadStartingConditions};
use crate::run_log::FaultModel;
use crate::thermal::FinalSlopes;

verus! {

/// What was measured, in order: each sample series with its slopes.
pub type Measured = Seq<(Seq<TelemetrySampleEvidence>, FinalSlopes)>;

/// What a run holds, what it has called, and what its meter has measured.
pub struct EnduranceState {
    pub run: EnduranceModel,
    pub calls: Seq<EnduranceCall>,
    pub measured: Measured,
}

/// What a run holds, with what it has called and measured.
pub open spec fn endurance_state(
    run: EnduranceModel,
    calls: Seq<EnduranceCall>,
    measured: Measured,
) -> EnduranceState {
    EnduranceState { run, calls, measured }
}

impl EnduranceState {
    /// The state after one more call.
    pub open spec fn asked(self, call: EnduranceCall) -> EnduranceState {
        EnduranceState { calls: self.calls.push(call), ..self }
    }

    /// The state after the time was asked for.
    pub open spec fn timed(self, answer: EvidenceTimestamp) -> EnduranceState {
        self.asked(EnduranceCall::Timestamp { answer })
    }

    /// The state with another run.
    pub open spec fn holds(self, run: EnduranceModel) -> EnduranceState {
        EnduranceState { run, ..self }
    }

    /// The state with one more fault.
    pub open spec fn failed(
        self,
        at: EvidenceTimestamp,
        code: Seq<char>,
        detail: Seq<char>,
    ) -> EnduranceState {
        self.holds(endurance_fault(self.run, at, code, detail))
    }

    /// Whether no fault has come up.
    pub open spec fn is_clean(self) -> bool {
        self.run.faults.len() == 0
    }
}

/// The state after the starting conditions were captured, within ten seconds.
pub open spec fn conditions_state(
    before: EnduranceState,
    started_at: EvidenceTimestamp,
    answer: Result<CapturedMatchedWorkloadStartingConditions, String>,
    completed_at: EvidenceTimestamp,
) -> EnduranceState {
    let deadline = started_at.monotonic_millis + 10_000;
    if deadline > u64::MAX {
        before.failed(started_at, "starting-conditions"@, "operation deadline overflowed"@)
    } else {
        before.asked(
            EnduranceCall::CaptureStartingConditions { deadline: deadline as u64, answer },
        ).timed(completed_at).holds(
            after_endurance_conditions(
                before.run,
                started_at,
                deadline as u64,
                completed_at,
                answer,
            ),
        )
    }
}

/// Whether a step asked the observer first, and then acted by a call where the observer confirmed. A
/// refusal stands in for the call's answer.
pub open spec fn step_was_watched(
    before: EnduranceModel,
    deadline: u64,
    asked: EnduranceModel,
    call: EnduranceCall,
    refusal: Option<Seq<char>>,
    acted: bool,
    earlier: Seq<EnduranceCall>,
    later: Seq<EnduranceCall>,
) -> bool {
    if acted {
        &&& later.len() > 0
        &&& later.last() == call
        &&& observer_was_asked(before, deadline, asked, None, earlier, later.drop_last())
    } else {
        refusal is Some && observer_was_asked(before, deadline, asked, refusal, earlier, later)
    }
}

/// A run after Custom control was asked for: when that began, what the run was once the observer had
/// been asked, what came back, and when that ended.
pub open spec fn after_entry_request(
    m: EnduranceModel,
    asked_at: EvidenceTimestamp,
    asked: EnduranceModel,
    answer: Result<(), String>,
    ended_at: EvidenceTimestamp,
) -> EnduranceModel {
    match step_deadline(m, asked_at) {
        None => after_step_request(
            m,
            asked_at,
            "custom-control-entry"@,
            "clock regressed before Custom-control entry"@,
        ),
        Some(deadline) => after_custom_entry(
            asked,
            later_of(asked_at, m.not_before),
            deadline,
            ended_at,
            answer,
        ),
    }
}

/// Whether a run is what it must be after Custom control was asked for, whatever came back. Custom
/// control that the observer did not confirm is not entered.
#[verifier::opaque]
pub open spec fn control_was_entered(
    before: EnduranceModel,
    after: EnduranceModel,
    earlier: Seq<EnduranceCall>,
    later: Seq<EnduranceCall>,
    entered: bool,
) -> bool {
    exists|
        asked_at: EvidenceTimestamp,
        asked: EnduranceModel,
        answer: Result<(), String>,
        ended_at: EvidenceTimestamp,
    |
        {
            &&& after == #[trigger] after_entry_request(before, asked_at, asked, answer, ended_at)
            &&& match step_deadline(before, asked_at) {
                Some(deadline) => {
                    &&& later.len() > 0
                    &&& later.last() == (EnduranceCall::Timestamp { answer: ended_at })
                    &&& step_was_watched(
                        before,
                        deadline,
                        asked,
                        EnduranceCall::EnterCustomControl { deadline, answer },
                        refusal_of(answer),
                        entered,
                        earlier.push(EnduranceCall::Timestamp { answer: asked_at }),
                        later.drop_last(),
                    )
                },
                None => later == earlier.push(EnduranceCall::Timestamp { answer: asked_at })
                    && !entered,
            }
        }
}

/// A run after its workload was asked for: when that began, what the run was once the observer had
/// been asked, what came back, and when that ended.
pub open spec fn after_launch_request(
    m: EnduranceModel,
    asked_at: EvidenceTimestamp,
    asked: EnduranceModel,
    answer: Result<EvidenceTimestamp, String>,
    ended_at: EvidenceTimestamp,
) -> EnduranceModel {
    match step_deadline(m, asked_at) {
        None => after_step_request(
            m,
            asked_at,
            "workload-start"@,
            "clock regressed before workload start"@,
        ),
        Some(deadline) => after_endurance_launch(
            asked,
            later_of(asked_at, m.not_before),
            deadline,
            ended_at,
            answer,
        ),
    }
}

/// Whether a run is what it must be after its own workload was asked for, whatever came back. A
/// workload that the observer did not confirm is not launched.
#[verifier::opaque]
pub open spec fn workload_was_launched(
    before: EnduranceModel,
    after: EnduranceModel,
    earlier: Seq<EnduranceCall>,
    later: Seq<EnduranceCall>,
    launched: bool,
) -> bool {
    exists|
        workload: WorkloadEvidence,
        asked_at: EvidenceTimestamp,
        asked: EnduranceModel,
        answer: Result<EvidenceTimestamp, String>,
        ended_at: EvidenceTimestamp,
    |
        #![trigger workload@, after_launch_request(before, asked_at, asked, answer, ended_at)]
        {
            &&& workload@ == before.workload
            &&& after == after_launch_request(before, asked_at, asked, answer, ended_at)
            &&& match step_deadline(before, asked_at) {
                Some(deadline) => {
                    &&& later.len() > 0
                    &&& later.last() == (EnduranceCall::Timestamp { answer: ended_at })
                    &&& step_was_watched(
                        before,
                        deadline,
                        asked,
                        EnduranceCall::StartWorkload { workload, deadline, answer },
                        refusal_of(answer),
                        launched,
                        earlier.push(EnduranceCall::Timestamp { answer: asked_at }),
                        later.drop_last(),
                    )
                },
                None => later == earlier.push(EnduranceCall::Timestamp { answer: asked_at })
                    && !launched,
            }
        }
}

/// Whether the starting conditions were captured.
pub open spec fn conditions_were_captured(
    before: EnduranceState,
    after: EnduranceState,
    started_at: EvidenceTimestamp,
) -> bool {
    exists|
        answer: Result<CapturedMatchedWorkloadStartingConditions, String>,
        completed_at: EvidenceTimestamp,
    |
        after == #[trigger] conditions_state(before, started_at, answer, completed_at)
}

/// Whether Custom control was asked for, where no fault came up before.
pub open spec fn entry_went(before: EnduranceState, after: EnduranceState, entered: bool) -> bool {
    if before.is_clean() {
        &&& after.measured == before.measured
        &&& control_was_entered(before.run, after.run, before.calls, after.calls, entered)
    } else {
        after == before && !entered
    }
}

/// Whether the first segment was begun, where no fault came up before.
pub open spec fn first_segment_went(before: EnduranceState, after: EnduranceState) -> bool {
    if before.is_clean() {
        &&& after.measured == before.measured
        &&& first_segment_was_begun(before.run, after.run, before.calls, after.calls)
    } else {
        after == before
    }
}

/// Whether the workload was launched, where no fault came up before.
pub open spec fn launch_went(before: EnduranceState, after: EnduranceState, launched: bool) -> bool {
    if before.is_clean() {
        &&& after.measured == before.measured
        &&& workload_was_launched(before.run, after.run, before.calls, after.calls, launched)
    } else {
        after == before && !launched
    }
}

/// Whether a run was opened: its starting conditions were captured, Custom control was asked for, the
/// first segment was begun and the workload launched, each only where no fault came up before.
#[verifier::opaque]
pub open spec fn endurance_was_opened(
    before: EnduranceState,
    after: EnduranceState,
    started_at: EvidenceTimestamp,
    entered: bool,
    launched: bool,
) -> bool {
    exists|captured: EnduranceState, in_control: EnduranceState, begun: EnduranceState|
        {
            &&& #[trigger] conditions_were_captured(before, captured, started_at)
            &&& #[trigger] entry_went(captured, in_control, entered)
            &&& #[trigger] first_segment_went(in_control, begun)
            &&& launch_went(begun, after, launched)
        }
}

/// What came back while a sample was taken: the time before and after the wait, the wait, the
/// observation, the time after it, and the slopes that were measured.
pub struct EnduranceAnswers {
    pub before_wait: EvidenceTimestamp,
    pub waited: Result<(), String>,
    pub after_wait: EvidenceTimestamp,
    pub observed: Result<MatchedWorkloadObservation, String>,
    pub captured_at: EvidenceTimestamp,
    pub slopes: FinalSlopes,
}

/// When a sample is due.
pub open spec fn sample_due(run: EnduranceModel, elapsed: int) -> u64 {
    saturated(run.workload_started_at->0.monotonic_millis, elapsed)
}

/// Until when a sample may be captured: a tenth of a second after it is due.
pub open spec fn sample_deadline(run: EnduranceModel, elapsed: int) -> u64 {
    saturated(sample_due(run, elapsed), 100)
}

/// The state after a sample was waited for.
pub open spec fn waited_state(
    before: EnduranceState,
    elapsed: int,
    answers: EnduranceAnswers,
) -> EnduranceState {
    let target = sample_due(before.run, elapsed);
    let deadline = sample_deadline(before.run, elapsed);
    let begun = before.timed(answers.before_wait);
    let waited = begun.asked(EnduranceCall::WaitUntil { target, deadline, answer: answers.waited });
    let over = waited.timed(answers.after_wait);
    if answers.before_wait.monotonic_millis > deadline {
        begun.failed(
            answers.before_wait,
            "sample-cadence"@,
            "cannot meet the runner-owned two-second endurance cadence"@,
        )
    } else if answers.waited is Err {
        waited.failed(
            answers.before_wait,
            "sample-cadence"@,
            "cannot meet the runner-owned two-second endurance cadence"@,
        )
    } else if !(target <= answers.after_wait.monotonic_millis <= deadline) {
        over.failed(
            answers.after_wait,
            "sample-cadence"@,
            "endurance wait completed outside its sample window"@,
        )
    } else {
        over.holds(
            EnduranceModel {
                not_before: later_of(answers.after_wait, before.run.not_before),
                ..before.run
            },
        )
    }
}

/// The state after a sample was captured that the observer had confirmed.
pub open spec fn captured_state(
    watched: EnduranceState,
    elapsed: int,
    answers: EnduranceAnswers,
    started_at: EvidenceTimestamp,
    cpu: TachometerExpectation,
    gpu: TachometerExpectation,
    envelope: EnduranceThermalEnvelopeEvidence,
) -> EnduranceState {
    let deadline = sample_deadline(watched.run, elapsed);
    let at = answers.captured_at;
    let captured = watched.asked(
        EnduranceCall::CaptureObservation { deadline, answer: answers.observed },
    ).timed(at);
    match answers.observed {
        Err(error) => captured.failed(
            at,
            "invalid-telemetry"@,
            "cannot capture endurance telemetry: "@ + error@,
        ),
        Ok(observation) => if !(answers.after_wait.monotonic_millis <= at.monotonic_millis
            <= deadline) {
            captured.failed(
                later_of(at, answers.after_wait),
                "sample-cadence"@,
                "endurance telemetry capture did not follow its completed wait inside the sample deadline"@,
            )
        } else if !sample_fits_segment(watched.run, observation.sample) {
            captured.failed(
                at,
                "endurance-segment"@,
                "continuous workload utilization did not match the active endurance segment"@,
            )
        } else {
            let run = after_endurance_observation(
                watched.run,
                ObservationSchedule {
                    run_started_at: started_at,
                    captured_at: at,
                    expected_millis: sample_due(watched.run, elapsed),
                },
                observation@,
                cpu,
                gpu,
            );
            endurance_state(
                after_envelope_check(
                    run,
                    at,
                    "qualified-thermal-envelope-abort"@,
                    answers.slopes,
                    envelope,
                ),
                captured.calls,
                captured.measured.push((run.samples, answers.slopes)),
            )
        },
    }
}

/// Whether the observer was asked before a sample was captured, and the sample captured where the
/// observer confirmed.
pub open spec fn sample_was_watched(
    waited: EnduranceState,
    after: EnduranceState,
    elapsed: int,
    answers: EnduranceAnswers,
    started_at: EvidenceTimestamp,
    cpu: TachometerExpectation,
    gpu: TachometerExpectation,
    envelope: EnduranceThermalEnvelopeEvidence,
) -> bool {
    exists|asked: EnduranceModel, refusal: Option<Seq<char>>, calls: Seq<EnduranceCall>|
        {
            &&& #[trigger] observer_was_asked(
                waited.run,
                sample_deadline(waited.run, elapsed),
                asked,
                refusal,
                waited.calls,
                calls,
            )
            &&& match refusal {
                Some(error) => after == endurance_state(asked, calls, waited.measured).failed(
                    answers.after_wait,
                    "observer-withdrawn"@,
                    "physical safety observer is not continuously present: "@ + error,
                ),
                None => after == captured_state(
                    endurance_state(asked, calls, waited.measured),
                    elapsed,
                    answers,
                    started_at,
                    cpu,
                    gpu,
                    envelope,
                ),
            }
        }
}

/// Whether one more sample was waited for, watched and captured.
#[verifier::opaque]
pub open spec fn sample_was_taken(
    before: EnduranceState,
    after: EnduranceState,
    elapsed: int,
    started_at: EvidenceTimestamp,
    cpu: TachometerExpectation,
    gpu: TachometerExpectation,
    envelope: EnduranceThermalEnvelopeEvidence,
) -> bool {
    exists|answers: EnduranceAnswers|
        {
            let waited = #[trigger] waited_state(before, elapsed, answers);
            if waited.is_clean() {
                sample_was_watched(
                    waited,
                    after,
                    elapsed,
                    answers,
                    started_at,
                    cpu,
                    gpu,
                    envelope,
                )
            } else {
                after == waited
            }
        }
}

/// Whether a run moved on to the segment of a moment, where it is in another.
pub open spec fn segment_went(before: EnduranceState, after: EnduranceState, elapsed: int) -> bool {
    if segment_of(elapsed, 0) != before.run.segment {
        &&& after.measured == before.measured
        &&& segment_was_changed(
            before.run,
            segment_of(elapsed, 0),
            after.run,
            before.calls,
            after.calls,
        )
    } else {
        after == before
    }
}

/// Whether a run went on by one sample, two seconds after the one before it: in the segment to which
/// the sample belongs, and only where no fault came up before.
pub open spec fn run_went_on(
    before: EnduranceState,
    after: EnduranceState,
    started_at: EvidenceTimestamp,
    cpu: TachometerExpectation,
    gpu: TachometerExpectation,
    envelope: EnduranceThermalEnvelopeEvidence,
) -> bool {
    let elapsed = (before.run.samples.len() + 1) * 2_000;
    exists|changed: EnduranceState|
        {
            &&& #[trigger] segment_went(before, changed, elapsed as int)
            &&& if changed.is_clean() {
                sample_was_taken(changed, after, elapsed as int, started_at, cpu, gpu, envelope)
            } else {
                after == changed
            }
        }
}

/// Whether a run goes on sampling.
pub open spec fn goes_on_sampling(state: EnduranceState) -> bool {
    state.is_clean() && state.run.samples.len() < 1_800
}

/// Whether a run went on sample by sample, each leading from one state to the next, for as long as it
/// goes on sampling.
pub open spec fn are_sampled(
    states: Seq<EnduranceState>,
    started_at: EvidenceTimestamp,
    cpu: TachometerExpectation,
    gpu: TachometerExpectation,
    envelope: EnduranceThermalEnvelopeEvidence,
) -> bool {
    &&& states.len() > 0
    &&& forall|i: int|
        0 <= i < states.len() - 1 ==> goes_on_sampling(#[trigger] states[i]) && run_went_on(
            states[i],
            states[i + 1],
            started_at,
            cpu,
            gpu,
            envelope,
        )
}

/// Whether a run sampled through the whole schedule or until a fault came up.
#[verifier::opaque]
pub open spec fn samples_were_taken(
    before: EnduranceState,
    after: EnduranceState,
    started_at: EvidenceTimestamp,
    cpu: TachometerExpectation,
    gpu: TachometerExpectation,
    envelope: EnduranceThermalEnvelopeEvidence,
) -> bool {
    exists|states: Seq<EnduranceState>|
        {
            &&& #[trigger] are_sampled(states, started_at, cpu, gpu, envelope)
            &&& states[0] == before
            &&& states.last() == after
            &&& !goes_on_sampling(after)
        }
}

/// One more sample goes on from the ones before.
pub proof fn lemma_one_more_sample(
    states: Seq<EnduranceState>,
    next: EnduranceState,
    started_at: EvidenceTimestamp,
    cpu: TachometerExpectation,
    gpu: TachometerExpectation,
    envelope: EnduranceThermalEnvelopeEvidence,
)
    requires
        are_sampled(states, started_at, cpu, gpu, envelope),
        goes_on_sampling(states.last()),
        run_went_on(states.last(), next, started_at, cpu, gpu, envelope),
    ensures
        are_sampled(states.push(next), started_at, cpu, gpu, envelope),
{
    let longer = states.push(next);
    assert forall|i: int| 0 <= i < longer.len() - 1 implies goes_on_sampling(#[trigger] longer[i])
        && run_went_on(longer[i], longer[i + 1], started_at, cpu, gpu, envelope) by {
        if i < states.len() - 1 {
            assert(goes_on_sampling(states[i]));
        }
    }
}

/// A run after one attempt to stop a process.
pub open spec fn after_stop_attempt(
    m: EnduranceModel,
    outcome: (Seq<FaultModel>, Option<StopModel>, EvidenceTimestamp),
) -> EnduranceModel {
    EnduranceModel {
        faults: outcome.0,
        stops: match outcome.1 {
            Some(stop) => m.stops.push(stop),
            None => m.stops,
        },
        not_before: outcome.2,
        ..m
    }
}

/// Whether one attempt to stop a process left exactly what it must.
#[verifier::opaque]
pub open spec fn stop_was_tried(
    before: EnduranceState,
    after: EnduranceState,
    process: StoppedProcess,
    identity: Seq<char>,
    code: Seq<char>,
    fixed_deadline: Option<u64>,
    effort: StopEffort,
    attempt: StopAttempt,
) -> bool {
    exists|
        expectation: StopExpectation<'_>,
        outcome: (Seq<FaultModel>, Option<StopModel>, EvidenceTimestamp),
    |
        {
            &&& expectation.process == process
            &&& expectation.identity@ == identity
            &&& expectation.code@ == code
            &&& expectation.fixed_deadline == fixed_deadline
            &&& #[trigger] stop_was_performed(
                before.run.faults,
                before.run.not_before,
                expectation,
                effort,
                outcome,
                attempt,
            )
            &&& after == endurance_state(
                after_stop_attempt(before.run, outcome),
                attempt.after(before.calls),
                before.measured,
            )
        }
}

/// Whether the observer was asked during shutdown, where it is to be.
pub open spec fn watch_went(before: EnduranceState, after: EnduranceState, watched: bool) -> bool {
    if watched {
        &&& after.measured == before.measured
        &&& shutdown_was_watched(before.run, after.run, before.calls, after.calls)
    } else {
        after == before
    }
}

/// The codes under which the attempts to stop a process are noted, by rising effort.
pub open spec fn stop_code(process: StoppedProcess, effort: StopEffort) -> Seq<char> {
    match (process, effort) {
        (StoppedProcess::Workload, StopEffort::Normal) => "workload-stop"@,
        (StoppedProcess::Workload, StopEffort::Escalated) => "workload-containment"@,
        (StoppedProcess::Workload, StopEffort::Terminal) => "workload-terminal-containment"@,
        (StoppedProcess::Service, StopEffort::Normal) => "service-stop"@,
        (StoppedProcess::Service, StopEffort::Escalated) => "service-containment"@,
        (StoppedProcess::Service, StopEffort::Terminal) => "service-terminal-containment"@,
    }
}

/// Whether the observer was asked, where it is to be, and a process then tried to be stopped with more
/// effort.
pub open spec fn stop_was_escalated(
    before: EnduranceState,
    after: EnduranceState,
    process: StoppedProcess,
    identity: Seq<char>,
    watched: bool,
    effort: StopEffort,
    attempt: StopAttempt,
) -> bool {
    exists|between: EnduranceState|
        {
            &&& #[trigger] watch_went(before, between, watched)
            &&& stop_was_tried(
                between,
                after,
                process,
                identity,
                stop_code(process, effort),
                None,
                effort,
                attempt,
            )
        }
}

/// Whether a process was tried to be stopped with rising effort until that was confirmed or no effort
/// was left.
#[verifier::opaque]
pub open spec fn stops_were_made(
    before: EnduranceState,
    after: EnduranceState,
    process: StoppedProcess,
    identity: Seq<char>,
    fixed_deadline: Option<u64>,
    watched: bool,
    stops: Seq<StopAttempt>,
) -> bool {
    exists|first: EnduranceState, second: EnduranceState|
        {
            &&& #[trigger] stop_was_tried(
                before,
                first,
                process,
                identity,
                stop_code(process, StopEffort::Normal),
                fixed_deadline,
                StopEffort::Normal,
                stops[0],
            )
            &&& if stops[0].confirmed {
                stops.len() == 1 && second == first
            } else {
                stops.len() > 1 && stop_was_escalated(
                    first,
                    second,
                    process,
                    identity,
                    watched,
                    StopEffort::Escalated,
                    stops[1],
                )
            }
            &&& #[trigger] third_stop_went(second, after, process, identity, watched, stops)
        }
}

/// Whether a process was tried to be stopped a third time exactly where the first two attempts were
/// not confirmed.
pub open spec fn third_stop_went(
    before: EnduranceState,
    after: EnduranceState,
    process: StoppedProcess,
    identity: Seq<char>,
    watched: bool,
    stops: Seq<StopAttempt>,
) -> bool {
    if stops[0].confirmed || stops[1].confirmed {
        stops.len() <= 2 && after == before
    } else {
        stops.len() == 3 && stop_was_escalated(
            before,
            after,
            process,
            identity,
            watched,
            StopEffort::Terminal,
            stops[2],
        )
    }
}

/// What a run has recorded of the fans at its end.
pub open spec fn fans_of(m: EnduranceModel) -> ShutdownModel {
    ShutdownModel {
        readbacks: m.readbacks,
        attempts: m.attempts,
        faults: m.faults,
        not_before: m.not_before,
    }
}

/// A run with what it has recorded of the fans.
pub open spec fn with_fans(m: EnduranceModel, fans: ShutdownModel) -> EnduranceModel {
    EnduranceModel {
        readbacks: fans.readbacks,
        attempts: fans.attempts,
        faults: fans.faults,
        not_before: fans.not_before,
        ..m
    }
}

/// Whether both fans were restored, the CPU fan first.
pub open spec fn restoration_went(
    before: EnduranceState,
    after: EnduranceState,
    attempts: Seq<RestorationAttempt>,
) -> bool {
    exists|fans: ShutdownModel|
        {
            &&& attempts.len() == 2
            &&& #[trigger] both_were_restored(
                fans_of(before.run),
                before.run.control,
                fans,
                attempts[0],
                attempts[1],
            )
            &&& after == endurance_state(
                with_fans(before.run, fans),
                attempts[1].after(attempts[0].after(before.calls)),
                before.measured,
            )
        }
}

/// Whether both fans were contained, the CPU fan first.
pub open spec fn containment_went(
    before: EnduranceState,
    after: EnduranceState,
    attempts: Seq<ContainmentAttempt>,
) -> bool {
    exists|fans: ShutdownModel|
        {
            &&& attempts.len() == 2
            &&& #[trigger] both_were_contained(
                fans_of(before.run),
                before.run.control,
                fans,
                attempts[0],
                attempts[1],
            )
            &&& after == endurance_state(
                with_fans(before.run, fans),
                attempts[1].after(attempts[0].after(before.calls)),
                before.measured,
            )
        }
}

/// Whether the workload was stopped, watched where Custom control was asked for.
pub open spec fn workload_stop_went(
    before: EnduranceState,
    after: EnduranceState,
    entered: bool,
    stops: Seq<StopAttempt>,
) -> bool {
    exists|watched: EnduranceState, stopped: EnduranceState|
        {
            &&& #[trigger] watch_went(before, watched, entered)
            &&& #[trigger] stops_were_made(
                watched.holds(after_stop_schedule(watched.run)),
                stopped,
                StoppedProcess::Workload,
                watched.run.workload.command[0],
                scheduled_deadline(watched.run),
                entered,
                stops,
            )
            &&& watch_went(stopped, after, entered && is_stopped(stops))
        }
}

/// Whether the service was stopped under watch, where Custom control was asked for.
pub open spec fn service_stop_went(
    before: EnduranceState,
    after: EnduranceState,
    entered: bool,
    stops: Seq<StopAttempt>,
) -> bool {
    if entered {
        exists|watched: EnduranceState, stopped: EnduranceState|
            {
                &&& #[trigger] watch_went(before, watched, true)
                &&& #[trigger] stops_were_made(
                    watched,
                    stopped,
                    StoppedProcess::Service,
                    "pt31553-fan-control.service"@,
                    None,
                    true,
                    stops,
                )
                &&& watch_went(stopped, after, is_stopped(stops))
            }
    } else {
        after == before && stops.len() == 0
    }
}

/// Whether the fans were given back where everything has stopped, and contained where that is not
/// confirmed.
pub open spec fn fans_went(
    before: EnduranceState,
    after: EnduranceState,
    log: EnduranceLog,
) -> bool {
    exists|given_back: EnduranceState|
        {
            &&& if is_stopped(log.workload_stops) && (log.entered ==> is_stopped(
                log.service_stops,
            )) {
                restoration_went(before, given_back, log.restorations)
            } else {
                given_back == before && log.restorations.len() == 0
            }
            &&& #[trigger] containment_went_if(given_back, after, log)
        }
}

/// Whether the fans were contained exactly where they were not given back.
pub open spec fn containment_went_if(
    before: EnduranceState,
    after: EnduranceState,
    log: EnduranceLog,
) -> bool {
    if is_restored(log) {
        after == before && log.containments.len() == 0
    } else {
        containment_went(before, after, log.containments)
    }
}

/// The state after the last transition was recorded, where Custom control was asked for.
pub open spec fn ended_state(before: EnduranceState, log: EnduranceLog) -> EnduranceState {
    if log.entered {
        before.holds(
            after_endurance_end(
                before.run,
                is_restored(log),
                !is_restored(log) && log.containments[0].confirmed && log.containments[1].confirmed,
            ),
        )
    } else {
        before
    }
}

/// Whether a run was shut down: the workload was stopped, then the service, and then the fans were
/// given back or contained.
#[verifier::opaque]
pub open spec fn endurance_was_shut_down(
    before: EnduranceState,
    after: EnduranceState,
    log: EnduranceLog,
) -> bool {
    exists|workload: EnduranceState, service: EnduranceState, fans: EnduranceState|
        {
            &&& #[trigger] workload_stop_went(
                before,
                workload,
                log.entered,
                log.workload_stops,
            )
            &&& #[trigger] service_stop_went(
                workload,
                service,
                log.entered,
                log.service_stops,
            )
            &&& #[trigger] fans_went(service, fans, log)
            &&& after == ended_state(fans, log)
        }
}

/// The state after a run was measured as a whole, checked against its thermal envelope where no fault
/// came up, and completed.
pub open spec fn completed_state(
    before: EnduranceState,
    slopes: FinalSlopes,
    envelope: EnduranceThermalEnvelopeEvidence,
    ended_at: EvidenceTimestamp,
) -> EnduranceState {
    let checked = if before.is_clean() {
        after_envelope_check(
            before.run,
            before.run.not_before,
            "thermal-envelope"@,
            slopes,
            envelope,
        )
    } else {
        before.run
    };
    endurance_state(
        after_endurance_completion(checked, ended_at),
        before.calls.push(EnduranceCall::Timestamp { answer: ended_at }),
        before.measured.push((before.run.samples, slopes)),
    )
}

/// The state after both fans' last answers were checked, where no fault came up.
pub open spec fn settled_state(before: EnduranceState) -> EnduranceState {
    if before.is_clean() {
        before.holds(after_pending_check(before.run))
    } else {
        before
    }
}

/// Whether a record is what a plan's run leaves that makes these calls, and whose meter measures on
/// from what it had measured: each call, its arguments and what the record holds follow from the plan
/// and the answers to the calls before.
#[verifier::opaque]
pub open spec fn is_record_of_calls(
    record: RecordModel,
    calls: Seq<EnduranceCall>,
    before: Measured,
    after: Measured,
    log: EnduranceLog,
    plan: SupervisedEndurancePlan<'_>,
    cpu: TachometerExpectation,
    gpu: TachometerExpectation,
    slopes: FinalSlopes,
) -> bool {
    let envelope = envelope_of(records_of(plan.baselines@));
    let started_at = record.started_at;
    exists|
        opened: EnduranceState,
        sampled: EnduranceState,
        shut: EnduranceState,
        ended_at: EvidenceTimestamp,
        end: EnduranceModel,
    |
        {
            &&& #[trigger] endurance_was_opened(
                endurance_state(
                    fresh_endurance(plan.workload@, started_at),
                    seq![EnduranceCall::Timestamp { answer: started_at }],
                    before,
                ),
                opened,
                started_at,
                log.entered,
                log.launched,
            )
            &&& #[trigger] samples_were_taken(
                opened,
                sampled,
                started_at,
                cpu,
                gpu,
                envelope,
            )
            &&& #[trigger] endurance_was_shut_down(settled_state(sampled), shut, log)
            &&& endurance_state(end, calls, after) == #[trigger] completed_state(
                shut,
                slopes,
                envelope,
                ended_at,
            )
            &&& record.completed_at == later_of(ended_at, shut.run.not_before)
            &&& #[trigger] is_endurance_record(record, end, log, plan, started_at, slopes)
        }
}

} // verus!
