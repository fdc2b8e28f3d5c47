//! The steps of a Firmware Auto baseline: what is called, and what the run holds after each answer.

use vstd::prelude::*;
use crate::acer_hwmon::DeviceModel;
use crate::baseline::{
    after_conditions, after_launch, after_modes, after_observation, after_stop,
    after_workload_check, baseline_fault, device_was_asked_for, is_assembled, is_concluded,
    mode_failure, modes_were_read, workload_is_recordable, BaselineCleanupAttestation,
    BaselineObservation, BaselineRunModel, CapturedBaselineStartingConditions,
    FirmwareAutoBaselinePlan, ModeReading,
};
use crate::baseline_calls::BaselineCall;
use crate::evidence::{
    EvidenceTimestamp, FanReadbackPhase, RecordModel, WorkloadEvidence, WorkloadModel,
};
use crate::machine::Calls;
use crate::matched_workload::saturated;
use crate::thermal::FinalSlopes;

verus! {

/// What a baseline holds, what it has called on its environment, and what was called on the platform.
pub struct BaselineState {
    pub run: BaselineRunModel,
    pub calls: Seq<BaselineCall>,
    pub platform: Calls,
}

/// What a baseline holds, with what it has called.
pub open spec fn baseline_state(
    run: BaselineRunModel,
    calls: Seq<BaselineCall>,
    platform: Calls,
) -> BaselineState {
    BaselineState { run, calls, platform }
}

/// A baseline of a workload in which nothing has happened yet.
pub open spec fn fresh_baseline(workload: WorkloadModel) -> BaselineRunModel {
    BaselineRunModel {
        workload,
        starting_conditions_valid: false,
        starting_conditions_captured_at: None,
        workload_started_at: None,
        samples: Seq::empty(),
        readbacks: Seq::empty(),
        faults: Seq::empty(),
        kernel_faults: Seq::empty(),
        nvidia_faults: Seq::empty(),
        system_stable: true,
    }
}

impl BaselineState {
    /// The state after one more call.
    pub open spec fn asked(self, call: BaselineCall) -> BaselineState {
        BaselineState { calls: self.calls.push(call), ..self }
    }

    /// The state after the time was asked for.
    pub open spec fn timed(self, answer: EvidenceTimestamp) -> BaselineState {
        self.asked(BaselineCall::Timestamp { answer })
    }

    /// The state with another run.
    pub open spec fn holds(self, run: BaselineRunModel) -> BaselineState {
        BaselineState { run, ..self }
    }

    /// Whether no fault has come up.
    pub open spec fn is_clean(self) -> bool {
        self.run.faults.len() == 0
    }
}

/// Whether both fans' modes were read from the device, and the reading noted with its time.
pub open spec fn modes_were_noted(
    before: BaselineState,
    after: BaselineState,
    device: Option<DeviceModel>,
    phase: FanReadbackPhase,
    code: Seq<char>,
    reading: ModeReading,
    at: EvidenceTimestamp,
) -> bool {
    &&& modes_were_read(before.platform, after.platform, device, reading)
    &&& after == baseline_state(
        after_modes(before.run, reading, phase, at, code),
        before.calls.push(BaselineCall::Timestamp { answer: at }),
        after.platform,
    )
}

/// Whether both fans' modes were read and noted, whatever they are.
pub open spec fn modes_were_checked(
    before: BaselineState,
    after: BaselineState,
    device: Option<DeviceModel>,
    phase: FanReadbackPhase,
    code: Seq<char>,
) -> bool {
    exists|reading: ModeReading, at: EvidenceTimestamp|
        #[trigger] modes_were_noted(before, after, device, phase, code, reading, at)
}

/// The state after a plan was found too short, where it is.
pub open spec fn planned_state(
    before: BaselineState,
    started_at: EvidenceTimestamp,
    samples_required: nat,
) -> BaselineState {
    if samples_required < 2 {
        before.holds(
            baseline_fault(
                before.run,
                started_at,
                "invalid-baseline-plan"@,
                "at least two telemetry samples are required to calculate thermal slope"@,
            ),
        )
    } else {
        before
    }
}

/// The state after the starting conditions were captured.
pub open spec fn conditions_state(
    before: BaselineState,
    confirmed_at: EvidenceTimestamp,
    answer: Result<CapturedBaselineStartingConditions, String>,
    completed_at: EvidenceTimestamp,
) -> BaselineState {
    before.asked(BaselineCall::CaptureStartingConditions { answer }).timed(completed_at).holds(
        after_conditions(before.run, confirmed_at, completed_at, answer),
    )
}

/// Whether the starting conditions were captured, where no fault came up before.
pub open spec fn conditions_were_captured(
    before: BaselineState,
    after: BaselineState,
    confirmed_at: EvidenceTimestamp,
) -> bool {
    if before.is_clean() {
        exists|
            answer: Result<CapturedBaselineStartingConditions, String>,
            completed_at: EvidenceTimestamp,
        |
            after == #[trigger] conditions_state(before, confirmed_at, answer, completed_at)
    } else {
        after == before
    }
}

/// Whether Firmware Auto was confirmed once more, where no fault came up before. `confirmed_at` is when
/// it was.
pub open spec fn gate_was_passed(
    before: BaselineState,
    after: BaselineState,
    device: Option<DeviceModel>,
    confirmed_at: Option<EvidenceTimestamp>,
) -> bool {
    if before.is_clean() {
        exists|reading: ModeReading, at: EvidenceTimestamp|
            {
                &&& #[trigger] modes_were_noted(
                    before,
                    after,
                    device,
                    FanReadbackPhase::StartGate,
                    "firmware-auto-unconfirmed"@,
                    reading,
                    at,
                )
                &&& confirmed_at == if mode_failure(reading) is None {
                    Some(at)
                } else {
                    None
                }
            }
    } else {
        after == before && confirmed_at is None
    }
}

/// Whether a baseline was prepared: both fans' modes were read first, then the starting conditions
/// were captured, the workload was checked, and the modes were read again, each only where no fault
/// came up before.
pub open spec fn baseline_was_prepared(
    before: BaselineState,
    after: BaselineState,
    device: Option<DeviceModel>,
    started_at: EvidenceTimestamp,
    samples_required: nat,
    first: ModeReading,
    recordable: bool,
    confirmed_at: Option<EvidenceTimestamp>,
) -> bool {
    exists|initial: BaselineState, captured: BaselineState, first_at: EvidenceTimestamp|
        {
            &&& #[trigger] modes_were_noted(
                before,
                initial,
                device,
                FanReadbackPhase::Initial,
                "firmware-auto-unconfirmed"@,
                first,
                first_at,
            )
            &&& #[trigger] conditions_were_captured(
                planned_state(initial, started_at, samples_required),
                captured,
                first_at,
            )
            &&& recordable == workload_is_recordable(captured.run)
            &&& gate_was_passed(
                captured.holds(after_workload_check(captured.run, started_at)),
                after,
                device,
                confirmed_at,
            )
        }
}

/// The state after the workload was launched, within ten seconds.
pub open spec fn launch_state(
    before: BaselineState,
    confirmed_at: Option<EvidenceTimestamp>,
    requested_at: EvidenceTimestamp,
    workload: WorkloadEvidence,
    answer: Result<EvidenceTimestamp, String>,
    completed_at: EvidenceTimestamp,
) -> BaselineState {
    let deadline = saturated(requested_at.monotonic_millis, 10_000);
    before.timed(requested_at).asked(
        BaselineCall::StartWorkload { workload, deadline, answer },
    ).timed(completed_at).holds(
        after_launch(before.run, requested_at, deadline, completed_at, confirmed_at, answer),
    )
}

/// Whether the baseline's own workload was launched and, where no fault came up, both fans' modes were
/// read again.
pub open spec fn baseline_was_opened(
    before: BaselineState,
    after: BaselineState,
    device: Option<DeviceModel>,
    confirmed_at: Option<EvidenceTimestamp>,
) -> bool {
    exists|
        requested_at: EvidenceTimestamp,
        workload: WorkloadEvidence,
        answer: Result<EvidenceTimestamp, String>,
        completed_at: EvidenceTimestamp,
    |
        {
            let launched = #[trigger] launch_state(
                before,
                confirmed_at,
                requested_at,
                workload,
                answer,
                completed_at,
            );
            &&& workload@ == before.run.workload
            &&& if launched.is_clean() {
                modes_were_checked(
                    launched,
                    after,
                    device,
                    FanReadbackPhase::WorkloadStarted,
                    "firmware-auto-lost"@,
                )
            } else {
                after == launched
            }
        }
}

/// What came back while a sample was taken: the time before and after the wait, the wait and the
/// observation, and the time at which the step ended where another was asked for.
pub struct BaselineAnswers {
    pub before_wait: EvidenceTimestamp,
    pub waited: Result<(), String>,
    pub after_wait: EvidenceTimestamp,
    pub observed: Result<BaselineObservation, String>,
    pub ended_at: EvidenceTimestamp,
}

/// When the next sample is due: two seconds after the one before it, as far as that can be told.
pub open spec fn sample_due(run: BaselineRunModel) -> int {
    run.workload_started_at->0.monotonic_millis + if run.samples.len() < u64::MAX / 2_000 {
        (run.samples.len() + 1) * 2_000
    } else {
        u64::MAX as nat
    }
}

/// Why a sample cannot be captured after its time was waited for, where it cannot, and when that was
/// seen.
pub open spec fn wait_defect(
    run: BaselineRunModel,
    answers: BaselineAnswers,
    started_at: EvidenceTimestamp,
) -> Option<(EvidenceTimestamp, Seq<char>)> {
    let due = sample_due(run);
    let deadline = due + 100;
    if due > u64::MAX {
        Some((started_at, "telemetry schedule overflowed"@))
    } else if deadline > u64::MAX {
        Some((started_at, "telemetry deadline overflowed"@))
    } else if answers.before_wait.monotonic_millis > deadline {
        Some(
            (
                answers.before_wait,
                "workload launch acknowledgement missed the telemetry deadline"@,
            ),
        )
    } else {
        match answers.waited {
            Err(error) => Some(
                (answers.ended_at, "cannot wait for the next telemetry sample: "@ + error@),
            ),
            Ok(()) => if answers.after_wait.monotonic_millis > deadline {
                Some((answers.after_wait, "telemetry wait exceeded its deadline"@))
            } else {
                None
            },
        }
    }
}

/// What was called while the next sample was waited for, up to a tenth of a second after it was due.
pub open spec fn wait_calls(run: BaselineRunModel, answers: BaselineAnswers) -> Seq<BaselineCall> {
    let due = sample_due(run);
    let deadline = due + 100;
    let first = BaselineCall::Timestamp { answer: answers.before_wait };
    let wait = BaselineCall::WaitUntil {
        target: due as u64,
        deadline: deadline as u64,
        answer: answers.waited,
    };
    if deadline > u64::MAX {
        Seq::empty()
    } else if answers.before_wait.monotonic_millis > deadline {
        seq![first]
    } else if answers.waited is Err {
        seq![first, wait, BaselineCall::Timestamp { answer: answers.ended_at }]
    } else {
        seq![first, wait, BaselineCall::Timestamp { answer: answers.after_wait }]
    }
}

/// The state after the next sample was waited for.
pub open spec fn waited_state(
    before: BaselineState,
    answers: BaselineAnswers,
    started_at: EvidenceTimestamp,
) -> BaselineState {
    baseline_state(
        match wait_defect(before.run, answers, started_at) {
            Some((at, detail)) => baseline_fault(before.run, at, "sample-cadence"@, detail),
            None => before.run,
        },
        before.calls + wait_calls(before.run, answers),
        before.platform,
    )
}

/// The state after a sample was captured whose time was waited for.
pub open spec fn captured_state(
    waited: BaselineState,
    answers: BaselineAnswers,
    started_at: EvidenceTimestamp,
) -> BaselineState {
    let due = sample_due(waited.run);
    let deadline = (due + 100) as u64;
    let at = answers.ended_at;
    waited.asked(BaselineCall::CaptureObservation { deadline, answer: answers.observed }).timed(
        at,
    ).holds(
        match answers.observed {
            Err(error) => baseline_fault(
                waited.run,
                at,
                "invalid-telemetry"@,
                "cannot capture required telemetry: "@ + error@,
            ),
            Ok(observation) => after_observation(
                waited.run,
                started_at,
                due as u64,
                deadline,
                at,
                observation@,
            ),
        },
    )
}

/// Whether one more sample was waited for and captured and, where no fault came up, both fans' modes
/// were read again.
pub open spec fn sample_was_taken(
    before: BaselineState,
    after: BaselineState,
    device: Option<DeviceModel>,
    started_at: EvidenceTimestamp,
) -> bool {
    exists|answers: BaselineAnswers|
        {
            let waited = #[trigger] waited_state(before, answers, started_at);
            if waited.is_clean() {
                sample_was_captured(
                    captured_state(waited, answers, started_at),
                    after,
                    device,
                )
            } else {
                after == waited
            }
        }
}

/// Whether both fans' modes were read after a sample was captured, where no fault came up.
pub open spec fn sample_was_captured(
    captured: BaselineState,
    after: BaselineState,
    device: Option<DeviceModel>,
) -> bool {
    if captured.is_clean() {
        modes_were_checked(
            captured,
            after,
            device,
            FanReadbackPhase::Sample,
            "firmware-auto-lost"@,
        )
    } else {
        after == captured
    }
}

/// Whether a baseline goes on sampling.
pub open spec fn goes_on_sampling(state: BaselineState, required: nat) -> bool {
    state.is_clean() && state.run.samples.len() < required
}

/// Whether samples were taken one after another, each leading from one state to the next, for as long
/// as the baseline goes on sampling.
pub open spec fn are_sampled(
    states: Seq<BaselineState>,
    device: Option<DeviceModel>,
    started_at: EvidenceTimestamp,
    required: nat,
) -> bool {
    &&& states.len() > 0
    &&& forall|i: int|
        0 <= i < states.len() - 1 ==> goes_on_sampling(#[trigger] states[i], required)
            && sample_was_taken(states[i], states[i + 1], device, started_at)
}

/// Whether a baseline sampled until its plan was met or a fault came up.
pub open spec fn samples_were_taken(
    before: BaselineState,
    after: BaselineState,
    device: Option<DeviceModel>,
    started_at: EvidenceTimestamp,
    required: nat,
) -> bool {
    exists|states: Seq<BaselineState>|
        {
            &&& #[trigger] are_sampled(states, device, started_at, required)
            &&& states[0] == before
            &&& states.last() == after
            &&& !goes_on_sampling(after, required)
        }
}

/// One more sample goes on from the ones before.
pub proof fn lemma_one_more_sample(
    states: Seq<BaselineState>,
    next: BaselineState,
    device: Option<DeviceModel>,
    started_at: EvidenceTimestamp,
    required: nat,
)
    requires
        are_sampled(states, device, started_at, required),
        goes_on_sampling(states.last(), required),
        sample_was_taken(states.last(), next, device, started_at),
    ensures
        are_sampled(states.push(next), device, started_at, required),
{
    let longer = states.push(next);
    assert forall|i: int| 0 <= i < longer.len() - 1 implies goes_on_sampling(
        #[trigger] longer[i],
        required,
    ) && sample_was_taken(longer[i], longer[i + 1], device, started_at) by {
        if i < states.len() - 1 {
            assert(goes_on_sampling(states[i], required));
        }
    }
}

/// What came back while the workload was stopped and cleaned up. `cleaned` and `cleaned_at` count only
/// where the stop was confirmed, and `cleaned_at` only where the cleanup failed or wrote to a fan.
pub struct StopAnswers {
    pub requested_at: EvidenceTimestamp,
    pub stopped: Result<(), String>,
    pub stopped_at: EvidenceTimestamp,
    pub cleaned: Result<BaselineCleanupAttestation, String>,
    pub cleaned_at: EvidenceTimestamp,
}

/// Whether a cleanup wrote to no fan.
pub open spec fn is_quiet(cleaned: Result<BaselineCleanupAttestation, String>) -> bool {
    cleaned matches Ok(attestation) && attestation.fan_control_write_count == 0
}

/// The state after the workload was stopped, within five seconds, and cleaned up where it was.
pub open spec fn stop_state(before: BaselineState, answers: StopAnswers) -> BaselineState {
    let deadline = saturated(answers.requested_at.monotonic_millis, 5_000);
    let stopped = before.timed(answers.requested_at).asked(
        BaselineCall::StopWorkload { deadline, answer: answers.stopped },
    ).timed(answers.stopped_at);
    if answers.stopped is Err {
        stopped.holds(
            after_stop(before.run, deadline, answers.stopped_at, answers.stopped, None),
        )
    } else {
        let cleaned = stopped.asked(
            BaselineCall::CleanupAfterWorkload { answer: answers.cleaned },
        );
        if is_quiet(answers.cleaned) {
            cleaned.holds(
                after_stop(
                    before.run,
                    deadline,
                    answers.stopped_at,
                    answers.stopped,
                    Some((answers.cleaned, answers.stopped_at)),
                ),
            )
        } else {
            cleaned.timed(answers.cleaned_at).holds(
                after_stop(
                    before.run,
                    deadline,
                    answers.stopped_at,
                    answers.stopped,
                    Some((answers.cleaned, answers.cleaned_at)),
                ),
            )
        }
    }
}

/// Whether the workload was stopped, and cleaned up where it was.
pub open spec fn stop_was_made(before: BaselineState, after: BaselineState) -> bool {
    exists|answers: StopAnswers| after == #[trigger] stop_state(before, answers)
}

/// Whether a baseline came from its start to its end: it was prepared and, where no fault came up, its
/// workload was launched, sampled and stopped. Both fans' modes were read last, after all of that.
#[verifier::opaque]
pub open spec fn baseline_came_to(
    before: BaselineState,
    end: BaselineState,
    device: Option<DeviceModel>,
    started_at: EvidenceTimestamp,
    completed_at: EvidenceTimestamp,
    samples_required: nat,
    first: ModeReading,
    last: ModeReading,
    recordable: bool,
) -> bool {
    exists|
        prepared: BaselineState,
        opened: BaselineState,
        sampled: BaselineState,
        stopped: BaselineState,
        confirmed_at: Option<EvidenceTimestamp>,
    |
        {
            &&& #[trigger] baseline_was_prepared(
                before,
                prepared,
                device,
                started_at,
                samples_required,
                first,
                recordable,
                confirmed_at,
            )
            &&& if prepared.is_clean() {
                baseline_was_opened(prepared, opened, device, confirmed_at)
            } else {
                opened == prepared
            }
            &&& #[trigger] samples_were_taken(
                opened,
                sampled,
                device,
                started_at,
                samples_required,
            )
            &&& if prepared.is_clean() {
                stop_was_made(sampled, stopped)
            } else {
                stopped == sampled
            }
            &&& #[trigger] modes_were_noted(
                stopped,
                end,
                device,
                FanReadbackPhase::Final,
                "firmware-auto-unconfirmed"@,
                last,
                completed_at,
            )
        }
}

/// Whether a record is what a plan's baseline leaves that makes these calls on its environment, and
/// leads the platform from one history to another: each call, its arguments and what the record holds
/// follow from the plan and the answers to the calls before.
#[verifier::opaque]
pub open spec fn is_record_of_calls(
    record: RecordModel,
    calls: Seq<BaselineCall>,
    before: Calls,
    after: Calls,
    plan: FirmwareAutoBaselinePlan<'_>,
    first: ModeReading,
    last: ModeReading,
    slopes: FinalSlopes,
) -> bool {
    exists|
        found: Calls,
        device: Option<DeviceModel>,
        end: BaselineRunModel,
        recordable: bool,
        assembled: RecordModel,
    |
        {
            &&& #[trigger] device_was_asked_for(before, found, plan.hwmon_root@, device)
            &&& #[trigger] baseline_came_to(
                baseline_state(
                    fresh_baseline(plan.workload@),
                    seq![BaselineCall::Timestamp { answer: record.started_at }],
                    found,
                ),
                baseline_state(end, calls, after),
                device,
                record.started_at,
                record.completed_at,
                plan.samples_required as nat,
                first,
                last,
                recordable,
            )
            &&& #[trigger] is_assembled(
                assembled,
                end,
                plan.qualification_envelope@,
                record.started_at,
                record.completed_at,
                mode_failure(last) is None,
                recordable,
                plan.samples_required as nat,
                slopes,
            )
            &&& is_concluded(assembled, record, record.completed_at, slopes)
        }
}

} // verus!
