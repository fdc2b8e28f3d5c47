//! The steps of a matched run: what is called, and what the run holds after each answer.

use vstd::prelude::*;
use crate::evidence::{
    EvidenceFan, EvidenceTimestamp, RecordModel, RestorationOutcome, ThermalSummaryModel,
    WorkloadEvidence, WorkloadModel,
};
use crate::matched_calls::MatchedCall;
use crate::matched_control::{
    expectation_of, MatchedWorkloadObservation, ObservationSchedule, TachometerExpectation,
};
use crate::matched_workload::{
    after_capture, after_comparison, after_completion, after_entry, after_final_transition,
    after_matched_conditions, after_matched_launch, after_matched_stop, after_request,
    after_restoration, boundary_of, fresh_run, is_matched_record, matched_fault, reads_back_auto,
    saturated, CapturedMatchedWorkloadStartingConditions, MatchedRunModel,
    MatchedWorkloadFanRestoration,
};
use crate::matched_plan::{comparison_of, MatchedWorkloadPlan};
use crate::thermal::{thermal_summary, FinalSlopes};

verus! {

/// What a run holds, and what it has called.
pub struct MatchedState {
    pub run: MatchedRunModel,
    pub calls: Seq<MatchedCall>,
}

/// What a run holds, with what it has called.
pub open spec fn matched_state(run: MatchedRunModel, calls: Seq<MatchedCall>) -> MatchedState {
    MatchedState { run, calls }
}

impl MatchedState {
    /// The state after one more call.
    pub open spec fn asked(self, call: MatchedCall) -> MatchedState {
        MatchedState { calls: self.calls.push(call), ..self }
    }

    /// The state after the time was asked for.
    pub open spec fn timed(self, answer: EvidenceTimestamp) -> MatchedState {
        self.asked(MatchedCall::Timestamp { answer })
    }

    /// The state with another run.
    pub open spec fn holds(self, run: MatchedRunModel) -> MatchedState {
        MatchedState { run, ..self }
    }

    /// The state after the time was asked for and a fault was noted at it.
    pub open spec fn failed(
        self,
        at: EvidenceTimestamp,
        code: Seq<char>,
        detail: Seq<char>,
    ) -> MatchedState {
        self.timed(at).holds(matched_fault(self.run, at, code, detail))
    }

    /// Whether no fault has come up.
    pub open spec fn is_clean(self) -> bool {
        self.run.faults.len() == 0
    }
}

/// The state after the starting conditions were captured.
pub open spec fn conditions_state(
    before: MatchedState,
    baseline: WorkloadModel,
    started_at: EvidenceTimestamp,
    answer: Result<CapturedMatchedWorkloadStartingConditions, String>,
    completed_at: EvidenceTimestamp,
) -> MatchedState {
    before.asked(MatchedCall::CaptureStartingConditions { answer }).timed(completed_at).holds(
        after_matched_conditions(before.run, baseline, started_at, completed_at, answer),
    )
}

/// The state after Custom control was asked for, within five seconds.
pub open spec fn entry_state(
    before: MatchedState,
    requested_at: EvidenceTimestamp,
    answer: Result<(), String>,
    completed_at: EvidenceTimestamp,
) -> MatchedState {
    let deadline = requested_at.monotonic_millis + 5_000;
    if deadline > u64::MAX {
        before.failed(requested_at, "custom-control-entry"@, "deadline overflowed"@)
    } else {
        before.timed(requested_at).asked(
            MatchedCall::EnterCustomControl { deadline: deadline as u64, answer },
        ).timed(completed_at).holds(
            after_entry(before.run, requested_at, deadline as u64, completed_at, answer),
        )
    }
}

/// The state after the workload was launched, within ten seconds.
pub open spec fn launch_state(
    before: MatchedState,
    requested_at: EvidenceTimestamp,
    workload: WorkloadEvidence,
    answer: Result<EvidenceTimestamp, String>,
    completed_at: EvidenceTimestamp,
) -> MatchedState {
    let deadline = requested_at.monotonic_millis + 10_000;
    if deadline > u64::MAX {
        before.failed(requested_at, "workload-start"@, "deadline overflowed"@)
    } else {
        before.timed(requested_at).asked(
            MatchedCall::StartWorkload { workload, deadline: deadline as u64, answer },
        ).timed(completed_at).holds(
            after_matched_launch(before.run, requested_at, deadline as u64, completed_at, answer),
        )
    }
}

/// Whether Custom control was asked for and, where no fault came up, the run's own workload was
/// launched. `attempted` tells whether the launch was asked for.
pub open spec fn run_was_opened(
    before: MatchedState,
    after: MatchedState,
    attempted: bool,
) -> bool {
    exists|
        requested_at: EvidenceTimestamp,
        answer: Result<(), String>,
        completed_at: EvidenceTimestamp,
    |
        {
            let entered = #[trigger] entry_state(before, requested_at, answer, completed_at);
            if entered.is_clean() {
                workload_was_launched(entered, after, attempted)
            } else {
                after == entered && !attempted
            }
        }
}

/// Whether the run's own workload was launched, unless no deadline can be told.
pub open spec fn workload_was_launched(
    before: MatchedState,
    after: MatchedState,
    attempted: bool,
) -> bool {
    exists|
        requested_at: EvidenceTimestamp,
        workload: WorkloadEvidence,
        answer: Result<EvidenceTimestamp, String>,
        completed_at: EvidenceTimestamp,
    |
        {
            &&& workload@ == before.run.workload
            &&& after == #[trigger] launch_state(
                before,
                requested_at,
                workload,
                answer,
                completed_at,
            )
            &&& attempted == (requested_at.monotonic_millis + 10_000 <= u64::MAX)
        }
}

/// What came back while a sample was taken: the time before and after the wait, the wait and the
/// observation, and the time at which the step ended.
pub struct SampleAnswers {
    pub before_wait: EvidenceTimestamp,
    pub waited: Result<(), String>,
    pub after_wait: EvidenceTimestamp,
    pub observed: Result<MatchedWorkloadObservation, String>,
    pub ended_at: EvidenceTimestamp,
}

/// When the next sample is due: two seconds after the one before it.
pub open spec fn sample_due(run: MatchedRunModel) -> int {
    run.workload_started_at->0.monotonic_millis + (run.samples.len() + 1) * 2_000
}

/// Why a sample cannot be captured after its time was waited for, where it cannot.
pub open spec fn wait_defect(run: MatchedRunModel, answers: SampleAnswers) -> Option<Seq<char>> {
    let due = sample_due(run);
    let deadline = due + 100;
    if run.samples.len() >= u64::MAX / 2_000 || due > u64::MAX {
        Some("telemetry schedule overflowed"@)
    } else if deadline > u64::MAX {
        Some("telemetry deadline overflowed"@)
    } else if answers.before_wait.monotonic_millis > deadline {
        Some("telemetry deadline elapsed before the wait began"@)
    } else {
        match answers.waited {
            Err(error) => Some("cannot wait for telemetry: "@ + error@),
            Ok(()) => if answers.after_wait.monotonic_millis > deadline {
                Some("telemetry wait exceeded its deadline"@)
            } else {
                None
            },
        }
    }
}

/// What was called while the next sample was waited for, up to a tenth of a second after it was due.
pub open spec fn wait_calls(run: MatchedRunModel, answers: SampleAnswers) -> Seq<MatchedCall> {
    let due = sample_due(run);
    let deadline = due + 100;
    let first = MatchedCall::Timestamp { answer: answers.before_wait };
    let wait = MatchedCall::WaitUntil {
        target: due as u64,
        deadline: deadline as u64,
        answer: answers.waited,
    };
    if run.samples.len() >= u64::MAX / 2_000 || deadline > u64::MAX {
        Seq::empty()
    } else if answers.before_wait.monotonic_millis > deadline {
        seq![first]
    } else if answers.waited is Err {
        seq![first, wait]
    } else {
        seq![first, wait, MatchedCall::Timestamp { answer: answers.after_wait }]
    }
}

/// The state after the next sample was waited for.
pub open spec fn waited_state(before: MatchedState, answers: SampleAnswers) -> MatchedState {
    matched_state(before.run, before.calls + wait_calls(before.run, answers))
}

/// The state after a sample was captured whose time was waited for.
pub open spec fn captured_state(
    waited: MatchedState,
    answers: SampleAnswers,
    started_at: EvidenceTimestamp,
    cpu: TachometerExpectation,
    gpu: TachometerExpectation,
) -> MatchedState {
    let due = sample_due(waited.run);
    let deadline = (due + 100) as u64;
    let captured = waited.asked(
        MatchedCall::CaptureObservation { deadline, answer: answers.observed },
    );
    match answers.observed {
        Err(error) => captured.failed(
            answers.ended_at,
            "invalid-telemetry"@,
            "cannot capture required telemetry: "@ + error@,
        ),
        Ok(observation) => captured.timed(answers.ended_at).holds(
            after_capture(
                waited.run,
                ObservationSchedule {
                    run_started_at: started_at,
                    captured_at: answers.ended_at,
                    expected_millis: due as u64,
                },
                deadline,
                observation@,
                cpu,
                gpu,
            ),
        ),
    }
}

/// The state after one more sample was waited for and, where its time came as it should, captured.
pub open spec fn sample_state(
    before: MatchedState,
    answers: SampleAnswers,
    started_at: EvidenceTimestamp,
    cpu: TachometerExpectation,
    gpu: TachometerExpectation,
) -> MatchedState {
    let waited = waited_state(before, answers);
    match wait_defect(before.run, answers) {
        Some(detail) => waited.failed(answers.ended_at, "sample-cadence"@, detail),
        None => captured_state(waited, answers, started_at, cpu, gpu),
    }
}

/// Whether one more sample was taken.
pub open spec fn sample_was_taken(
    before: MatchedState,
    after: MatchedState,
    started_at: EvidenceTimestamp,
    cpu: TachometerExpectation,
    gpu: TachometerExpectation,
) -> bool {
    exists|answers: SampleAnswers|
        after == #[trigger] sample_state(before, answers, started_at, cpu, gpu)
}

/// Whether a run goes on sampling.
pub open spec fn goes_on_sampling(state: MatchedState, required: nat) -> bool {
    state.is_clean() && state.run.samples.len() < required
}

/// Whether samples were taken one after another, each leading from one state to the next, for as long
/// as the run goes on sampling.
pub open spec fn are_sampled(
    states: Seq<MatchedState>,
    started_at: EvidenceTimestamp,
    required: nat,
    cpu: TachometerExpectation,
    gpu: TachometerExpectation,
) -> bool {
    &&& states.len() > 0
    &&& forall|i: int|
        0 <= i < states.len() - 1 ==> goes_on_sampling(#[trigger] states[i], required)
            && sample_was_taken(states[i], states[i + 1], started_at, cpu, gpu)
}

/// Whether a run sampled until its plan was met or a fault came up.
pub open spec fn samples_were_taken(
    before: MatchedState,
    after: MatchedState,
    started_at: EvidenceTimestamp,
    required: nat,
    cpu: TachometerExpectation,
    gpu: TachometerExpectation,
) -> bool {
    exists|states: Seq<MatchedState>|
        {
            &&& #[trigger] are_sampled(states, started_at, required, cpu, gpu)
            &&& states[0] == before
            &&& states.last() == after
            &&& !goes_on_sampling(after, required)
        }
}

/// One more sample goes on from the ones before.
pub proof fn lemma_one_more_sample(
    states: Seq<MatchedState>,
    next: MatchedState,
    started_at: EvidenceTimestamp,
    required: nat,
    cpu: TachometerExpectation,
    gpu: TachometerExpectation,
)
    requires
        are_sampled(states, started_at, required, cpu, gpu),
        goes_on_sampling(states.last(), required),
        sample_was_taken(states.last(), next, started_at, cpu, gpu),
    ensures
        are_sampled(states.push(next), started_at, required, cpu, gpu),
{
    let longer = states.push(next);
    assert forall|i: int| 0 <= i < longer.len() - 1 implies goes_on_sampling(
        #[trigger] longer[i],
        required,
    ) && sample_was_taken(longer[i], longer[i + 1], started_at, cpu, gpu) by {
        if i < states.len() - 1 {
            assert(goes_on_sampling(states[i], required));
        }
    }
}

/// The state after the workload was stopped, within five seconds.
pub open spec fn stop_state(
    before: MatchedState,
    requested_at: EvidenceTimestamp,
    answer: Result<(), String>,
    stopped_at: EvidenceTimestamp,
) -> MatchedState {
    let boundary = boundary_of(before.run.not_before, requested_at);
    let deadline = saturated(boundary.monotonic_millis, 5_000);
    before.timed(requested_at).asked(MatchedCall::StopWorkload { deadline, answer }).timed(
        stopped_at,
    ).holds(
        after_matched_stop(
            after_request(
                before.run,
                requested_at,
                "workload-stop"@,
                "workload termination request time regressed"@,
                "workload termination deadline overflowed"@,
            ),
            boundary,
            deadline,
            stopped_at,
            answer,
        ),
    )
}

/// Whether the workload was stopped.
pub open spec fn workload_was_stopped(before: MatchedState, after: MatchedState) -> bool {
    exists|
        requested_at: EvidenceTimestamp,
        answer: Result<(), String>,
        stopped_at: EvidenceTimestamp,
    |
        after == #[trigger] stop_state(before, requested_at, answer, stopped_at)
}

/// The state after a fan was restored, within five seconds.
pub open spec fn restoration_state(
    before: MatchedState,
    fan: EvidenceFan,
    requested_at: EvidenceTimestamp,
    answer: MatchedWorkloadFanRestoration,
    completed_at: EvidenceTimestamp,
) -> MatchedState {
    let boundary = boundary_of(before.run.not_before, requested_at);
    let deadline = saturated(boundary.monotonic_millis, 5_000);
    before.timed(requested_at).asked(MatchedCall::RestoreFan { fan, deadline, answer }).timed(
        completed_at,
    ).holds(
        after_restoration(
            after_request(
                before.run,
                requested_at,
                "firmware-auto-restoration"@,
                "restoration request time regressed"@,
                "restoration deadline overflowed"@,
            ),
            fan,
            boundary,
            deadline,
            completed_at,
            answer,
        ),
    )
}

/// Whether a fan was restored, and confirmed in Firmware Auto or not.
pub open spec fn fan_was_restored(
    before: MatchedState,
    after: MatchedState,
    fan: EvidenceFan,
    restored: bool,
) -> bool {
    exists|
        requested_at: EvidenceTimestamp,
        answer: MatchedWorkloadFanRestoration,
        completed_at: EvidenceTimestamp,
    |
        {
            let boundary = boundary_of(before.run.not_before, requested_at);
            &&& after == #[trigger] restoration_state(
                before,
                fan,
                requested_at,
                answer,
                completed_at,
            )
            &&& restored == (answer.outcome == RestorationOutcome::FirmwareAutoConfirmed
                && reads_back_auto(
                before.run.control,
                fan,
                boundary,
                saturated(boundary.monotonic_millis, 5_000),
                completed_at,
                answer,
            ))
        }
}

/// Whether both fans were restored, the CPU fan first, and the way out of Custom control recorded.
pub open spec fn fans_were_restored(
    before: MatchedState,
    after: MatchedState,
    restored: bool,
) -> bool {
    exists|
        cpu: MatchedState,
        gpu: MatchedState,
        cpu_restored: bool,
        gpu_restored: bool,
        ended_at: EvidenceTimestamp,
    |
        {
            &&& #[trigger] fan_was_restored(before, cpu, EvidenceFan::Cpu, cpu_restored)
            &&& #[trigger] fan_was_restored(cpu, gpu, EvidenceFan::Gpu, gpu_restored)
            &&& restored == (cpu_restored && gpu_restored)
            &&& after == #[trigger] exit_state(gpu, ended_at, restored)
        }
}

/// The state after the way out of Custom control was recorded.
pub open spec fn exit_state(
    before: MatchedState,
    ended_at: EvidenceTimestamp,
    restored: bool,
) -> MatchedState {
    before.timed(ended_at).holds(after_final_transition(before.run, ended_at, restored))
}

/// Whether a run took the fans over, sampled its workload, stopped the workload where its launch was
/// asked for, and restored both fans, whatever came back.
pub open spec fn run_was_performed(
    before: MatchedState,
    after: MatchedState,
    started_at: EvidenceTimestamp,
    required: nat,
    cpu: TachometerExpectation,
    gpu: TachometerExpectation,
    restored: bool,
) -> bool {
    exists|opened: MatchedState, sampled: MatchedState, stopped: MatchedState, attempted: bool|
        {
            &&& #[trigger] run_was_opened(before, opened, attempted)
            &&& #[trigger] samples_were_taken(opened, sampled, started_at, required, cpu, gpu)
            &&& if attempted {
                workload_was_stopped(sampled, stopped)
            } else {
                stopped == sampled
            }
            &&& #[trigger] fans_were_restored(stopped, after, restored)
        }
}

/// The state after a run was compared with its baseline, where no fault came up, and completed.
pub open spec fn finish_state(
    before: MatchedState,
    baseline: ThermalSummaryModel,
    summary: ThermalSummaryModel,
    slopes: FinalSlopes,
    compared_at: EvidenceTimestamp,
    ended_at: EvidenceTimestamp,
) -> MatchedState {
    let compared = if before.is_clean() {
        before.timed(compared_at).holds(
            after_comparison(before.run, compared_at, comparison_of(baseline, summary, slopes)),
        )
    } else {
        before
    };
    compared.timed(ended_at).holds(after_completion(compared.run, ended_at))
}

/// Whether a run was compared with its baseline, where no fault came up, and completed.
pub open spec fn run_was_finished(
    before: MatchedState,
    after: MatchedState,
    baseline: ThermalSummaryModel,
    summary: ThermalSummaryModel,
    slopes: FinalSlopes,
    completed_at: EvidenceTimestamp,
) -> bool {
    exists|compared_at: EvidenceTimestamp, ended_at: EvidenceTimestamp|
        {
            &&& after == #[trigger] finish_state(
                before,
                baseline,
                summary,
                slopes,
                compared_at,
                ended_at,
            )
            &&& completed_at == boundary_of(before.run.not_before, ended_at)
        }
}

/// Whether a run of a baseline's workload came to a state: it started, captured its starting
/// conditions, was performed where these show nothing wrong, and ended.
pub open spec fn run_came_to(
    end: MatchedState,
    workload: WorkloadModel,
    started_at: EvidenceTimestamp,
    required: nat,
    cpu: TachometerExpectation,
    gpu: TachometerExpectation,
    restored: bool,
) -> bool {
    let start = MatchedState { run: fresh_run(workload, started_at), calls: Seq::empty() }.timed(
        started_at,
    );
    exists|
        answer: Result<CapturedMatchedWorkloadStartingConditions, String>,
        completed_at: EvidenceTimestamp,
    |
        {
            let captured = #[trigger] conditions_state(
                start,
                workload,
                started_at,
                answer,
                completed_at,
            );
            if captured.is_clean() {
                run_was_performed(captured, end, started_at, required, cpu, gpu, restored)
            } else {
                end == captured && !restored
            }
        }
}

/// Whether a record is what a plan's run leaves that makes these calls: each call, its arguments
/// and what the record holds follow from the plan and the answers to the calls before.
#[verifier::opaque]
pub open spec fn is_record_of_calls(
    record: RecordModel,
    calls: Seq<MatchedCall>,
    plan: MatchedWorkloadPlan<'_>,
    slopes: FinalSlopes,
) -> bool {
    exists|performed: MatchedState, end: MatchedRunModel, restored: bool|
        {
            &&& #[trigger] run_came_to(
                performed,
                plan.baseline@.record.workload->0,
                record.started_at,
                plan.baseline@.record.samples.len(),
                expectation_of(*plan.tachometer_calibrations.cpu),
                expectation_of(*plan.tachometer_calibrations.gpu),
                restored,
            )
            &&& #[trigger] run_was_finished(
                performed,
                matched_state(end, calls),
                plan.baseline@.record.thermal_summary->0,
                record.thermal_summary->0,
                slopes,
                record.completed_at,
            )
            &&& record.thermal_summary == Some(
                thermal_summary(
                    performed.run.samples,
                    slopes,
                    performed.run.system_stable,
                    performed.run.kernel_faults,
                    performed.run.nvidia_faults,
                ),
            )
            &&& is_matched_record(
                record,
                end,
                plan,
                record.started_at,
                record.completed_at,
                restored,
                record.thermal_summary->0,
            )
        }
}

/// A run whose starting conditions show nothing wrong asks for Custom control, and restores both
/// fans, whatever came back.
pub proof fn law_a_clean_start_restores_both_fans(
    before: MatchedState,
    after: MatchedState,
    started_at: EvidenceTimestamp,
    required: nat,
    cpu: TachometerExpectation,
    gpu: TachometerExpectation,
    restored: bool,
)
    requires
        run_was_performed(before, after, started_at, required, cpu, gpu, restored),
    ensures
        exists|stopped: MatchedState| #[trigger] fans_were_restored(stopped, after, restored),
{
}

} // verus!
