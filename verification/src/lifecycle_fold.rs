//! The steps of a lifecycle qualification put together: what is called, and what the run holds after
//! each answer.

use vstd::prelude::*;
use crate::evidence::{EnvelopeModel, EvidenceFan, EvidenceTimestamp};
use crate::lifecycle::{
    approved_case, LiveLifecycleCase, LiveLifecycleCaseObservation, LiveLifecycleObserved,
    LiveLifecycleRebootArmObservation, LiveLifecycleRebootContinuation,
};
use crate::lifecycle_calls::LifecycleCall;
use crate::lifecycle_gate::{
    expected_of, gate_identities, gate_is, later_of, strictly_after, AutoGate, FanReading,
    GateContext,
};
use crate::lifecycle_reboot::{
    after_arm, after_continuation, after_last_gate, after_refused_arm, after_restore, boot_after,
    RebootModel,
};
use crate::lifecycle_rules::{rebinds, FanIdentities};
use crate::lifecycle_steps::{
    after_case, after_case_request, after_gate, after_recovery, case_coverage, case_defect,
    case_ended_at, case_observation, CaseRecord, CaseWindow, LifecycleModel,
};
use crate::matched_workload::boundary_of;

verus! {

/// The calls by which a fan is read.
pub open spec fn reading_calls(fan: EvidenceFan, reading: FanReading) -> Seq<LifecycleCall> {
    seq![
        LifecycleCall::Timestamp { answer: reading.requested_at },
        LifecycleCall::ConfirmFirmwareAuto { fan, answer: reading.result },
        LifecycleCall::Timestamp { answer: reading.completed_at },
    ]
}

/// What a confirmation must show.
pub open spec fn context_is(
    context: GateContext,
    not_before: EvidenceTimestamp,
    expected: Option<FanIdentities>,
    boot_id: Seq<char>,
    allow_clock_reset: bool,
) -> bool {
    &&& context.not_before == not_before
    &&& expected_of(context.expected_identities) == expected
    &&& context.boot_id@ == boot_id
    &&& context.allow_clock_reset == allow_clock_reset
}

/// Whether both fans were read, the CPU fan first, and what that confirms was recorded.
pub open spec fn gate_was_read(
    before: LifecycleModel,
    after: LifecycleModel,
    earlier: Seq<LifecycleCall>,
    later: Seq<LifecycleCall>,
    context: GateContext,
    gate: AutoGate,
) -> bool {
    exists|cpu: FanReading, gpu: FanReading|
        {
            &&& after == #[trigger] after_gate(before, context, cpu, gpu)
            &&& later == earlier + reading_calls(EvidenceFan::Cpu, cpu) + reading_calls(
                EvidenceFan::Gpu,
                gpu,
            )
            &&& gate_is(gate, context, cpu, gpu)
        }
}

/// What came back while a case was performed: when it was asked for and begun, its observation, when
/// that came, its cleanup, and when that came.
pub struct CaseAnswers {
    pub asked_at: EvidenceTimestamp,
    pub begun_at: EvidenceTimestamp,
    pub result: Result<LiveLifecycleObserved<LiveLifecycleCaseObservation>, String>,
    pub completed_at: EvidenceTimestamp,
    pub cleanup: Result<LiveLifecycleObserved<EvidenceTimestamp>, String>,
    pub cleaned_at: EvidenceTimestamp,
}

/// The moments of a case.
pub open spec fn case_window(before: LifecycleModel, answers: CaseAnswers) -> CaseWindow {
    let requested_at = strictly_after(answers.asked_at, before.last_event_at);
    CaseWindow {
        requested_at,
        started_at: strictly_after(answers.begun_at, requested_at),
        completed_at: answers.completed_at,
        cleaned_at: answers.cleaned_at,
    }
}

/// Calls with those of a case behind them, up to its cleanup.
pub open spec fn case_calls(
    earlier: Seq<LifecycleCall>,
    case: LiveLifecycleCase,
    answers: CaseAnswers,
) -> Seq<LifecycleCall> {
    earlier.push(LifecycleCall::Timestamp { answer: answers.asked_at }).push(
        LifecycleCall::Timestamp { answer: answers.begun_at },
    ).push(LifecycleCall::RunCase { case, answer: answers.result }).push(
        LifecycleCall::Timestamp { answer: answers.completed_at },
    ).push(LifecycleCall::RestoreAfterCase { case, answer: answers.cleanup }).push(
        LifecycleCall::Timestamp { answer: answers.cleaned_at },
    )
}

/// How a case other than the reboot is put on record: it passes exactly where nothing is wrong with
/// what came back and both fans are confirmed in Firmware Auto.
pub open spec fn case_record(
    before: LifecycleModel,
    case: LiveLifecycleCase,
    answers: CaseAnswers,
    gate: AutoGate,
    left_at: EvidenceTimestamp,
) -> CaseRecord {
    let window = case_window(before, answers);
    let left = strictly_after(left_at, gate.completed_at);
    CaseRecord {
        case,
        started_at: window.started_at,
        completed_at: case_ended_at(
            answers.cleanup,
            window.requested_at,
            window.completed_at,
            window.cleaned_at,
        ),
        observation: case_observation(answers.result),
        coverage: case_coverage(
            answers.result,
            answers.cleanup,
            window.completed_at,
            window.cleaned_at,
        ),
        error: case_defect(case, answers.result, answers.cleanup, window, before.expected->0),
        boot_id: before.boot_id,
        gate_at: gate.completed_at,
        left_at: left,
        last_event_at: later_of(before.last_event_at, later_of(left, gate.completed_at)),
        rebound: if gate.confirmed {
            gate_identities(gate)
        } else {
            None
        },
        final_auto_confirmed: gate.confirmed,
    }
}

/// Whether one case other than the reboot was performed, cleaned up and confirmed, and put on record.
#[verifier::opaque]
pub open spec fn case_went(
    before: LifecycleModel,
    after: LifecycleModel,
    earlier: Seq<LifecycleCall>,
    later: Seq<LifecycleCall>,
    case: LiveLifecycleCase,
) -> bool {
    exists|
        answers: CaseAnswers,
        context: GateContext,
        gate: AutoGate,
        gated: LifecycleModel,
        gated_calls: Seq<LifecycleCall>,
        left_at: EvidenceTimestamp,
    |
        {
            let window = case_window(before, answers);
            &&& context_is(
                context,
                case_ended_at(
                    answers.cleanup,
                    window.requested_at,
                    window.completed_at,
                    window.cleaned_at,
                ),
                before.expected,
                before.boot_id,
                false,
            )
            &&& #[trigger] gate_was_read(
                after_case_request(before, case, case_window(before, answers).requested_at),
                gated,
                case_calls(earlier, case, answers),
                gated_calls,
                context,
                gate,
            )
            &&& later == gated_calls.push(LifecycleCall::Timestamp { answer: left_at })
            &&& after == after_case(
                gated,
                #[trigger] case_record(before, case, answers, gate, left_at),
            )
        }
}

/// A run with the calls that led to it.
pub struct LifecycleState {
    pub run: LifecycleModel,
    pub calls: Seq<LifecycleCall>,
}

/// A run with the calls that led to it.
pub open spec fn lifecycle_state(run: LifecycleModel, calls: Seq<LifecycleCall>) -> LifecycleState {
    LifecycleState { run, calls }
}

/// Whether a run goes on to its next case: no fault came up and both fans are in Firmware Auto.
pub open spec fn goes_on_with_cases(run: LifecycleModel) -> bool {
    run.faults.len() == 0 && run.final_auto_confirmed
}

/// Whether the approved cases before the reboot were performed one after another, each only where the
/// run goes on.
#[verifier::opaque]
pub open spec fn are_cases(states: Seq<LifecycleState>) -> bool {
    &&& 0 < states.len() <= 8
    &&& forall|i: int| 0 <= i < states.len() - 1 ==> #[trigger] case_led_on(states, i)
}

/// Whether a run that goes on was led from one state to the next by the approved case of its place.
pub open spec fn case_led_on(states: Seq<LifecycleState>, i: int) -> bool {
    &&& goes_on_with_cases(states[i].run)
    &&& case_went(
        states[i].run,
        states[i + 1].run,
        states[i].calls,
        states[i + 1].calls,
        approved_case(i),
    )
}

/// Whether the cases before the reboot were performed until one did not let the run go on or all
/// seven were.
#[verifier::opaque]
pub open spec fn cases_went(before: LifecycleState, after: LifecycleState) -> bool {
    exists|states: Seq<LifecycleState>|
        {
            &&& #[trigger] are_cases(states)
            &&& states[0] == before
            &&& states.last() == after
            &&& states.len() == 8 || !goes_on_with_cases(after.run)
        }
}

/// Where no case was performed yet, none went wrong.
pub proof fn lemma_no_case_went(start: LifecycleState)
    ensures
        are_cases(seq![start]),
{
    reveal(are_cases);
}

/// One more case goes on from the ones before.
pub proof fn lemma_one_more_case_went(states: Seq<LifecycleState>, next: LifecycleState)
    requires
        are_cases(states),
        states.len() < 8,
        goes_on_with_cases(states.last().run),
        case_went(
            states.last().run,
            next.run,
            states.last().calls,
            next.calls,
            approved_case(states.len() - 1),
        ),
    ensures
        are_cases(states.push(next)),
{
    reveal(are_cases);
    let longer = states.push(next);
    assert forall|i: int| 0 <= i < longer.len() - 1 implies #[trigger] case_led_on(longer, i) by {
        if i < states.len() - 1 {
            assert(case_led_on(states, i));
            assert(longer[i] == states[i]);
            assert(longer[i + 1] == states[i + 1]);
        } else {
            assert(longer[i] == states.last());
            assert(longer[i + 1] == next);
        }
    }
}

/// A run after a confirmation of its own.
pub open spec fn after_own_gate(gated: LifecycleModel, gate: AutoGate) -> LifecycleModel {
    LifecycleModel {
        last_event_at: later_of(gated.last_event_at, gate.completed_at),
        final_auto_confirmed: gate.confirmed,
        ..gated
    }
}

/// Whether firmware ownership was restored after a failed first confirmation, and both fans were read
/// again.
pub open spec fn recovery_went(
    before: LifecycleModel,
    after: LifecycleModel,
    earlier: Seq<LifecycleCall>,
    later: Seq<LifecycleCall>,
    expected: FanIdentities,
    failed_at: EvidenceTimestamp,
) -> bool {
    exists|
        answer: Result<LiveLifecycleObserved<EvidenceTimestamp>, String>,
        completed_at: EvidenceTimestamp,
        context: GateContext,
        gate: AutoGate,
        gated: LifecycleModel,
    |
        {
            &&& context_is(
                context,
                after_recovery(before, failed_at, completed_at, answer).last_event_at,
                Some(expected),
                before.boot_id,
                false,
            )
            &&& #[trigger] gate_was_read(
                after_recovery(before, failed_at, completed_at, answer),
                gated,
                earlier.push(
                    LifecycleCall::RestoreAfterCase {
                        case: LiveLifecycleCase::InvalidConfiguration,
                        answer,
                    },
                ).push(LifecycleCall::Timestamp { answer: completed_at }),
                later,
                context,
                gate,
            )
            &&& after == after_own_gate(gated, gate)
        }
}

/// Whether both fans were read before the first case, and recovered from a failure of that.
#[verifier::opaque]
pub open spec fn initial_gate_went(
    before: LifecycleModel,
    after: LifecycleModel,
    earlier: Seq<LifecycleCall>,
    later: Seq<LifecycleCall>,
    expected: FanIdentities,
) -> bool {
    exists|
        context: GateContext,
        gate: AutoGate,
        gated: LifecycleModel,
        gated_calls: Seq<LifecycleCall>,
    |
        {
            &&& context_is(context, before.started_at, Some(expected), before.boot_id, false)
            &&& #[trigger] gate_was_read(before, gated, earlier, gated_calls, context, gate)
            &&& if gate.confirmed {
                after == after_own_gate(gated, gate) && later == gated_calls
            } else {
                recovery_went(
                    after_own_gate(gated, gate),
                    after,
                    gated_calls,
                    later,
                    expected,
                    gate.completed_at,
                )
            }
        }
}

/// Whether a run came from its start to where it waits for the reboot or ends before it.
#[verifier::opaque]
pub open spec fn prefix_went(
    before: LifecycleState,
    after: LifecycleState,
    expected: FanIdentities,
) -> bool {
    exists|opened: LifecycleState|
        {
            &&& #[trigger] initial_gate_went(
                before.run,
                opened.run,
                before.calls,
                opened.calls,
                expected,
            )
            &&& if goes_on_with_cases(opened.run) {
                cases_went(opened, after)
            } else {
                after == opened
            }
        }
}

/// A qualification in which nothing has happened yet.
pub open spec fn fresh_lifecycle(
    envelope: EnvelopeModel,
    binding: Seq<char>,
    expected: FanIdentities,
    boot_id: Seq<char>,
    started_at: EvidenceTimestamp,
) -> LifecycleModel {
    LifecycleModel {
        envelope,
        binding,
        started_at,
        last_event_at: started_at,
        readbacks: Seq::empty(),
        transitions: Seq::empty(),
        faults: Seq::empty(),
        cases: Seq::empty(),
        expected: Some(expected),
        final_auto_confirmed: false,
        boot_id,
    }
}

/// The state in which a qualification starts: the boot identity and the time were asked for.
pub open spec fn start_state(
    envelope: EnvelopeModel,
    binding: Seq<char>,
    expected: FanIdentities,
    boot: String,
    started_at: EvidenceTimestamp,
) -> LifecycleState {
    lifecycle_state(
        fresh_lifecycle(envelope, binding, expected, boot@, started_at),
        seq![
            LifecycleCall::CurrentBootId { answer: Ok(boot) },
            LifecycleCall::Timestamp { answer: started_at },
        ],
    )
}

/// Whether calls led a qualification from its start to where it waits for the reboot or ends before
/// it.
#[verifier::opaque]
pub open spec fn prefix_came_to(
    calls: Seq<LifecycleCall>,
    end: LifecycleModel,
    envelope: EnvelopeModel,
    binding: Seq<char>,
    expected: FanIdentities,
) -> bool {
    exists|boot: String, started_at: EvidenceTimestamp|
        prefix_went(
            #[trigger] start_state(envelope, binding, expected, boot, started_at),
            lifecycle_state(end, calls),
            expected,
        )
}

/// Whether a run whose cases all passed asked for the boot identity last.
pub open spec fn boot_was_asked_again(
    calls: Seq<LifecycleCall>,
    run: LifecycleModel,
    envelope: EnvelopeModel,
    binding: Seq<char>,
    expected: FanIdentities,
) -> bool {
    &&& calls.len() > 1
    &&& calls.last() is CurrentBootId
    &&& prefix_came_to(calls.drop_last(), run, envelope, binding, expected)
    &&& goes_on_with_cases(run)
}

/// Whether a run that ends before the reboot asked for the time last, and ended at it.
pub open spec fn ended_before_reboot(
    calls: Seq<LifecycleCall>,
    run: LifecycleModel,
    completed_at: EvidenceTimestamp,
    envelope: EnvelopeModel,
    binding: Seq<char>,
    expected: FanIdentities,
) -> bool {
    &&& calls.len() > 1
    &&& calls.last() matches LifecycleCall::Timestamp { answer } && completed_at == boundary_of(
        run.last_event_at,
        answer,
    )
    &&& prefix_came_to(calls.drop_last(), run, envelope, binding, expected)
    &&& !goes_on_with_cases(run)
}

/// Whether calls led a waiting qualification through its reboot case to its end.
pub open spec fn reboot_came_to(
    calls: Seq<LifecycleCall>,
    waiting: LifecycleModel,
    run: LifecycleModel,
    completed_at: EvidenceTimestamp,
) -> bool {
    &&& calls.len() > 0
    &&& calls.last() matches LifecycleCall::Timestamp { answer } && completed_at == boundary_of(
        run.last_event_at,
        answer,
    )
    &&& reboot_went(waiting, run, Seq::empty(), calls.drop_last())
}

/// What came back while the reboot case was carried out, besides the readings of both fans. The boot
/// identity counts only where the case was resumed, and the arming only where the controller was
/// armed.
pub struct RebootAnswers {
    pub asked_at: EvidenceTimestamp,
    pub begun_at: EvidenceTimestamp,
    pub result: Result<LiveLifecycleObserved<LiveLifecycleRebootContinuation>, String>,
    pub completed_at: EvidenceTimestamp,
    pub boot: Option<Result<String, String>>,
    pub armed: Result<LiveLifecycleObserved<LiveLifecycleRebootArmObservation>, String>,
    pub armed_at: EvidenceTimestamp,
    pub restored: Result<LiveLifecycleObserved<EvidenceTimestamp>, String>,
    pub restored_at: EvidenceTimestamp,
    pub left_at: EvidenceTimestamp,
}

/// When the reboot case was asked for and when it began.
pub open spec fn reboot_window(before: LifecycleModel, answers: RebootAnswers) -> (
    EvidenceTimestamp,
    EvidenceTimestamp,
) {
    let requested_at = strictly_after(answers.asked_at, before.last_event_at);
    (requested_at, strictly_after(answers.begun_at, requested_at))
}

/// Calls with those behind them by which the reboot case is resumed.
pub open spec fn resume_calls(
    earlier: Seq<LifecycleCall>,
    answers: RebootAnswers,
) -> Seq<LifecycleCall> {
    let resumed = earlier.push(LifecycleCall::Timestamp { answer: answers.asked_at }).push(
        LifecycleCall::Timestamp { answer: answers.begun_at },
    ).push(LifecycleCall::ResumeAfterReboot { answer: answers.result }).push(
        LifecycleCall::Timestamp { answer: answers.completed_at },
    );
    if answers.result is Ok {
        resumed.push(LifecycleCall::CurrentBootId { answer: answers.boot->0 })
    } else {
        resumed
    }
}

/// The reboot case after it was resumed.
pub open spec fn resumed_case(before: LifecycleModel, answers: RebootAnswers) -> RebootModel {
    after_continuation(
        answers.result,
        answers.boot,
        reboot_window(before, answers).1,
        answers.completed_at,
        before.boot_id,
    )
}

/// Whether the controller may be armed: both fans were just found in Firmware Auto, at the endpoints of
/// before, and nothing else is wrong.
pub open spec fn may_arm(
    resumed: RebootModel,
    gate: AutoGate,
    expected: Option<FanIdentities>,
) -> bool {
    gate.confirmed && resumed.error is None && (gate.auto_pair matches Some(pair) && rebinds(
        pair,
        expected,
    ))
}

/// The reboot case after the controller was armed or not.
pub open spec fn armed_case(
    resumed: RebootModel,
    gate: AutoGate,
    expected: Option<FanIdentities>,
    answers: RebootAnswers,
) -> RebootModel {
    if may_arm(resumed, gate, expected) {
        after_arm(
            resumed,
            gate.auto_pair->0,
            gate.completed_at,
            answers.armed_at,
            answers.armed,
        )
    } else {
        after_refused_arm(resumed, gate.confirmed)
    }
}

/// Calls with those behind them by which the controller is armed, where it is, and firmware ownership
/// restored.
pub open spec fn arm_calls(
    earlier: Seq<LifecycleCall>,
    armed: bool,
    answers: RebootAnswers,
) -> Seq<LifecycleCall> {
    let tried = if armed {
        earlier.push(LifecycleCall::ArmAfterReboot { answer: answers.armed }).push(
            LifecycleCall::Timestamp { answer: answers.armed_at },
        )
    } else {
        earlier
    };
    tried.push(LifecycleCall::RestoreAfterReboot { answer: answers.restored }).push(
        LifecycleCall::Timestamp { answer: answers.restored_at },
    )
}

/// How the reboot case is put on record.
pub open spec fn reboot_record(
    before: LifecycleModel,
    answers: RebootAnswers,
    gate: AutoGate,
    last: AutoGate,
) -> CaseRecord {
    let started_at = reboot_window(before, answers).1;
    let resumed = resumed_case(before, answers);
    let armed = armed_case(resumed, gate, before.expected, answers);
    let restored = after_restore(armed, answers.restored_at, answers.restored).0;
    let ended = after_last_gate(
        restored,
        last.auto_pair,
        last.confirmed,
        started_at,
        last.completed_at,
    );
    CaseRecord {
        case: LiveLifecycleCase::Reboot,
        started_at,
        completed_at: last.completed_at,
        observation: ended.observation,
        coverage: ended.coverage,
        error: ended.error,
        boot_id: boot_after(resumed.observation),
        gate_at: gate.completed_at,
        left_at: answers.left_at,
        last_event_at: strictly_after(answers.left_at, before.last_event_at),
        rebound: if gate.confirmed {
            gate_identities(gate)
        } else {
            None
        },
        final_auto_confirmed: last.confirmed,
    }
}

/// Whether the reboot case was resumed, both fans were read, the controller was armed where it may be,
/// firmware ownership was restored and both fans were read again, and the case was put on record.
#[verifier::opaque]
pub open spec fn reboot_went(
    before: LifecycleModel,
    after: LifecycleModel,
    earlier: Seq<LifecycleCall>,
    later: Seq<LifecycleCall>,
) -> bool {
    exists|
        answers: RebootAnswers,
        context: GateContext,
        gate: AutoGate,
        gated: LifecycleModel,
        gated_calls: Seq<LifecycleCall>,
        last_context: GateContext,
        last: AutoGate,
        ended: LifecycleModel,
        ended_calls: Seq<LifecycleCall>,
    |
        {
            let resumed = resumed_case(before, answers);
            let armed = armed_case(resumed, gate, before.expected, answers);
            let boot_id = boot_after(resumed.observation);
            &&& context_is(context, answers.completed_at, None, boot_id, true)
            &&& #[trigger] gate_was_read(
                after_case_request(
                    before,
                    LiveLifecycleCase::Reboot,
                    reboot_window(before, answers).0,
                ),
                gated,
                resume_calls(earlier, answers),
                gated_calls,
                context,
                gate,
            )
            &&& context_is(
                last_context,
                after_restore(armed, answers.restored_at, answers.restored).1,
                gate_identities(gate),
                boot_id,
                true,
            )
            &&& #[trigger] gate_was_read(
                gated,
                ended,
                arm_calls(
                    gated_calls,
                    may_arm(resumed_case(before, answers), gate, before.expected),
                    answers,
                ),
                ended_calls,
                last_context,
                last,
            )
            &&& later == ended_calls.push(LifecycleCall::Timestamp { answer: answers.left_at })
            &&& after == after_case(ended, reboot_record(before, answers, gate, last))
        }
}

} // verus!
