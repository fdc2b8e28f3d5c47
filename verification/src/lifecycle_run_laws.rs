//! What a lifecycle run asks of the machine and when it goes on, told by its calls.

use vstd::prelude::*;
use crate::evidence::{EvidenceFan, EvidenceTimestamp, RecordModel};
use crate::lifecycle::{approved_case, shows_something, LiveLifecycleCase};
use crate::lifecycle_calls::LifecycleCall;
use crate::lifecycle_fold::{
    are_cases, arm_calls, case_calls, case_led_on, case_record, case_went, case_window, cases_went,
    context_is, gate_was_read, goes_on_with_cases, may_arm, reading_calls, reboot_record,
    reboot_went, resume_calls, resumed_case, CaseAnswers, LifecycleState, RebootAnswers,
};
use crate::lifecycle_gate::{
    gate_failure, gate_readbacks, gpu_not_before, later_of, strictly_after, AutoGate, FanReading,
    GateContext,
};
use crate::lifecycle_laws::{is_before, is_by, reads_auto};
use crate::lifecycle_record::{
    case_is_well_formed, lifecycle_cases_are_well_formed, lifecycle_is_complete,
};
use crate::lifecycle_rules::{case_error, coverage_error};
use crate::lifecycle_steps::{after_case, after_case_request, case_ended_at, LifecycleModel};
use crate::text::text_option;

verus! {

/// A moment that is put after another lies later on the monotonic clock, as long as that clock can tell,
/// and is left alone where it does already. Of two moments the later one counts.
pub proof fn moments_are_put_in_order(observed: EvidenceTimestamp, not_before: EvidenceTimestamp)
    ensures
        not_before.monotonic_millis < u64::MAX ==> strictly_after(
            observed,
            not_before,
        ).monotonic_millis > not_before.monotonic_millis,
        observed.monotonic_millis > not_before.monotonic_millis ==> strictly_after(
            observed,
            not_before,
        ) == observed,
        observed.monotonic_millis <= not_before.monotonic_millis < u64::MAX ==> strictly_after(
            observed,
            not_before,
        ).monotonic_millis == not_before.monotonic_millis + 1,
        observed.monotonic_millis <= not_before.monotonic_millis ==> strictly_after(
            observed,
            not_before,
        ).wall_unix_millis >= not_before.wall_unix_millis,
        strictly_after(observed, not_before).wall_unix_millis >= observed.wall_unix_millis,
        later_of(observed, not_before).monotonic_millis >= observed.monotonic_millis,
        later_of(observed, not_before).monotonic_millis >= not_before.monotonic_millis,
        later_of(observed, not_before) == observed || later_of(observed, not_before) == not_before,
{
}

/// Whether a reading freshly shows a fan in Firmware Auto, no earlier than a moment and between the
/// question and the answer, on a named endpoint.
pub open spec fn shows_auto(reading: FanReading, not_before: EvidenceTimestamp) -> bool {
    reading.result matches Ok(seen) && {
        &&& seen.fresh
        &&& seen.enable_readback == Some(2u32)
        &&& is_by(reading.requested_at, seen.observed_at)
        &&& is_by(seen.observed_at, reading.completed_at)
        &&& is_by(not_before, seen.observed_at)
        &&& shows_something(seen.endpoint_identity@)
    }
}

/// A gate is confirmed exactly where both fans, the CPU fan first, freshly show Firmware Auto on two
/// endpoints that differ and, where some are expected, are the expected ones.
pub proof fn confirmed_gates_show_both_fans_in_auto(
    context: GateContext,
    cpu: FanReading,
    gpu: FanReading,
)
    ensures
        gate_failure(context, cpu, gpu) is None <==> {
            &&& shows_auto(cpu, context.not_before)
            &&& shows_auto(gpu, gpu_not_before(context, cpu))
            &&& cpu.result->Ok_0.endpoint_identity@ != gpu.result->Ok_0.endpoint_identity@
            &&& context.expected_identities matches Some(expected)
                ==> cpu.result->Ok_0.endpoint_identity@ == expected.0@
                && gpu.result->Ok_0.endpoint_identity@ == expected.1@
        },
{
}

/// Reading both fans leaves one readback of each control mode, under the current boot. Either both are
/// confirmed, with the value of Firmware Auto, or neither is.
pub proof fn gates_leave_two_readbacks(context: GateContext, cpu: FanReading, gpu: FanReading)
    ensures
        ({
            let left = gate_readbacks(context, cpu, gpu);
            let confirmed = gate_failure(context, cpu, gpu) is None;
            &&& left.len() == 2
            &&& left[0].fan is Cpu && left[1].fan is Gpu
            &&& left[0].field is Enable && left[1].field is Enable
            &&& left[0].boot_id == Some(context.boot_id@)
            &&& left[1].boot_id == Some(context.boot_id@)
            &&& left[0].outcome is Confirmed <==> confirmed
            &&& left[1].outcome is Confirmed <==> confirmed
            &&& confirmed ==> left[0].value == Some(2u32) && left[1].value == Some(2u32)
            &&& confirmed ==> left[0].fresh == Some(true) && left[1].fresh == Some(true)
        }),
{
}

/// What the calls of a gate are.
pub(crate) proof fn lemma_gate_calls(
    before: LifecycleModel,
    after: LifecycleModel,
    earlier: Seq<LifecycleCall>,
    later: Seq<LifecycleCall>,
    context: GateContext,
    gate: AutoGate,
) -> (readings: (FanReading, FanReading))
    requires
        gate_was_read(before, after, earlier, later, context, gate),
    ensures
        later.len() == earlier.len() + 6,
        forall|i: int| 0 <= i < earlier.len() ==> #[trigger] later[i] == earlier[i],
        ({
            let n = earlier.len() as int;
            &&& later[n] is Timestamp && later[n + 2] is Timestamp
            &&& later[n + 3] is Timestamp && later[n + 5] is Timestamp
            &&& later[n + 1] == (LifecycleCall::ConfirmFirmwareAuto {
                fan: EvidenceFan::Cpu,
                answer: readings.0.result,
            })
            &&& later[n + 4] == (LifecycleCall::ConfirmFirmwareAuto {
                fan: EvidenceFan::Gpu,
                answer: readings.1.result,
            })
        }),
        gate.confirmed == (gate_failure(context, readings.0, readings.1) is None),
        gate.confirmed ==> (gate.auto_pair matches Some(pair) && pair.cpu
            == readings.0.result->Ok_0 && pair.gpu == readings.1.result->Ok_0 && reads_auto(pair)),
        after.faults.len() >= before.faults.len(),
        !gate.confirmed ==> after.faults.len() > before.faults.len(),
        after.readbacks.len() == before.readbacks.len() + 2,
        after.cases == before.cases,
        after.transitions == before.transitions,
        after.expected == before.expected,
        after.boot_id == before.boot_id,
{
    let (cpu, gpu) = choose|cpu: FanReading, gpu: FanReading|
        {
            &&& after == #[trigger] crate::lifecycle_steps::after_gate(before, context, cpu, gpu)
            &&& later == earlier + reading_calls(EvidenceFan::Cpu, cpu) + reading_calls(
                EvidenceFan::Gpu,
                gpu,
            )
            &&& crate::lifecycle_gate::gate_is(gate, context, cpu, gpu)
        };
    confirmed_gates_show_both_fans_in_auto(context, cpu, gpu);
    gates_leave_two_readbacks(context, cpu, gpu);
    (cpu, gpu)
}

/// Whatever a case comes to, the machine is restored right after it, and both fans are then asked for
/// Firmware Auto, the CPU fan first. The case is noted once, under its name. It passed only where the
/// run of it, its cleanup and its observers were faultless and both fans showed Firmware Auto; where
/// it did not, the run does not go on.
pub proof fn every_case_is_restored_and_confirmed(
    before: LifecycleModel,
    after: LifecycleModel,
    earlier: Seq<LifecycleCall>,
    later: Seq<LifecycleCall>,
    case: LiveLifecycleCase,
)
    requires
        case_went(before, after, earlier, later, case),
    ensures
        ({
            let n = earlier.len() as int;
            let result = after.cases.last();
            &&& later.len() == n + 13
            &&& forall|i: int| 0 <= i < n ==> #[trigger] later[i] == earlier[i]
            &&& later[n + 2] matches LifecycleCall::RunCase { case: run, .. } && run == case
            &&& later[n + 4] matches LifecycleCall::RestoreAfterCase { case: restored, .. }
                && restored == case
            &&& later[n + 7] matches LifecycleCall::ConfirmFirmwareAuto {
                fan: EvidenceFan::Cpu,
                ..
            }
            &&& later[n + 10] matches LifecycleCall::ConfirmFirmwareAuto {
                fan: EvidenceFan::Gpu,
                ..
            }
            &&& after.cases.len() == before.cases.len() + 1
            &&& forall|i: int|
                0 <= i < before.cases.len() ==> #[trigger] after.cases[i] == before.cases[i]
            &&& result.case == case
            &&& result.passed ==> {
                &&& later[n + 2] matches LifecycleCall::RunCase { answer: Ok(seen), .. }
                    && result.observation == Some(seen.observation) && case_error(
                    case,
                    seen.observation,
                    result.started_at,
                    later[n + 3]->Timestamp_answer,
                    before.expected->0,
                ) is None
                &&& later[n + 4] matches LifecycleCall::RestoreAfterCase { answer: Ok(_), .. }
                &&& coverage_error(
                    case,
                    result.observer_attestations,
                    result.observation->0,
                    result.started_at,
                    result.completed_at,
                ) is None
                &&& later[n + 7] matches LifecycleCall::ConfirmFirmwareAuto { answer: Ok(seen), .. }
                    && seen.fresh && seen.enable_readback == Some(2u32)
                &&& later[n + 10] matches LifecycleCall::ConfirmFirmwareAuto {
                    answer: Ok(seen),
                    ..
                } && seen.fresh && seen.enable_readback == Some(2u32)
            }
            &&& goes_on_with_cases(after) ==> result.passed
            &&& !result.passed ==> after.faults.len() > before.faults.len()
            &&& after.faults.len() >= before.faults.len()
            &&& after.readbacks.len() == before.readbacks.len() + 2
            &&& after.transitions.len() == before.transitions.len() + 2
            &&& after.transitions[before.transitions.len() as int].from == "firmware-auto"@
            &&& after.transitions[before.transitions.len() as int].to == case.name()
            &&& after.transitions.last().from == case.name()
            &&& after.transitions.last().to == if after.final_auto_confirmed {
                "firmware-auto"@
            } else {
                "lifecycle-blocked"@
            }
        }),
{
    reveal(case_went);
    let (answers, context, gate, gated, gated_calls, left_at) = choose|
        answers: CaseAnswers,
        context: GateContext,
        gate: AutoGate,
        gated: LifecycleModel,
        gated_calls: Seq<LifecycleCall>,
        left_at: EvidenceTimestamp,
    |
        {
            let window = case_window(before, answers);
            &&& context_is(
                context,
                case_ended_at(
                    answers.cleanup,
                    window.requested_at,
                    window.completed_at,
                    window.cleaned_at,
                ),
                before.expected,
                before.boot_id,
                false,
            )
            &&& #[trigger] gate_was_read(
                after_case_request(before, case, case_window(before, answers).requested_at),
                gated,
                case_calls(earlier, case, answers),
                gated_calls,
                context,
                gate,
            )
            &&& later == gated_calls.push(LifecycleCall::Timestamp { answer: left_at })
            &&& after == after_case(
                gated,
                #[trigger] case_record(before, case, answers, gate, left_at),
            )
        };
    let n = earlier.len() as int;
    let called = case_calls(earlier, case, answers);
    let (cpu, gpu) = lemma_gate_calls(
        after_case_request(before, case, case_window(before, answers).requested_at),
        gated,
        called,
        gated_calls,
        context,
        gate,
    );
    assert(called.len() == n + 6);
    assert forall|i: int| 0 <= i < n implies #[trigger] later[i] == earlier[i] by {
        assert(called[i] == earlier[i]);
        assert(gated_calls[i] == called[i]);
    }
    assert(called[n + 2] is RunCase && called[n + 4] is RestoreAfterCase && called[n
        + 3] is Timestamp);
    assert(gated_calls[n + 2] == called[n + 2]);
    assert(gated_calls[n + 3] == called[n + 3]);
    assert(gated_calls[n + 4] == called[n + 4]);
    assert(later[n + 7] == gated_calls[n + 6 + 1]);
    assert(later[n + 10] == gated_calls[n + 6 + 4]);
    assert(after.transitions[before.transitions.len() as int]
        == gated.transitions[before.transitions.len() as int]);
}

/// The cases are run in the approved order, one after the other, and none after the first that did not
/// pass: all seven before the reboot are run exactly where each of them passed.
pub proof fn cases_stop_at_the_first_failure(before: LifecycleState, after: LifecycleState)
    requires
        cases_went(before, after),
        goes_on_with_cases(before.run),
    ensures
        ({
            let had = before.run.cases.len() as int;
            let has = after.run.cases.len() as int;
            &&& had < has <= had + 7
            &&& forall|i: int|
                had <= i < has ==> (#[trigger] after.run.cases[i]).case == approved_case(i - had)
            &&& forall|i: int| had <= i < has - 1 ==> (#[trigger] after.run.cases[i]).passed
            &&& goes_on_with_cases(after.run) ==> has == had + 7 && after.run.cases.last().passed
            &&& has < had + 7 ==> !goes_on_with_cases(after.run)
        }),
{
    reveal(cases_went);
    reveal(are_cases);
    let states = choose|states: Seq<LifecycleState>|
        {
            &&& #[trigger] are_cases(states)
            &&& states[0] == before
            &&& states.last() == after
            &&& states.len() == 8 || !goes_on_with_cases(after.run)
        };
    let last = states.len() - 1;
    lemma_cases_so_far(states, last);
    assert(last > 0);
    if goes_on_with_cases(after.run) {
        assert(case_led_on(states, last - 1));
        every_case_is_restored_and_confirmed(
            states[last - 1].run,
            states[last - 1 + 1].run,
            states[last - 1].calls,
            states[last - 1 + 1].calls,
            approved_case(last - 1),
        );
    }
}

proof fn lemma_cases_so_far(states: Seq<LifecycleState>, count: int)
    requires
        are_cases(states),
        0 <= count < states.len(),
    ensures
        ({
            let first = states[0].run;
            let now = states[count].run;
            let had = first.cases.len() as int;
            &&& now.cases.len() == had + count
            &&& forall|i: int|
                had <= i < had + count ==> (#[trigger] now.cases[i]).case == approved_case(i - had)
            &&& forall|i: int| had <= i < had + count - 1 ==> (#[trigger] now.cases[i]).passed
            &&& count > 0 && goes_on_with_cases(now) ==> now.cases.last().passed
        }),
    decreases count,
{
    reveal(are_cases);
    if count > 0 {
        lemma_cases_so_far(states, count - 1);
        assert(case_led_on(states, count - 1));
        every_case_is_restored_and_confirmed(
            states[count - 1].run,
            states[count - 1 + 1].run,
            states[count - 1].calls,
            states[count - 1 + 1].calls,
            approved_case(count - 1),
        );
        let now = states[count].run;
        let was = states[count - 1].run;
        assert forall|i: int|
            states[0].run.cases.len() <= i < states[0].run.cases.len() + count - 1 implies (
        #[trigger] now.cases[i]).passed by {
            assert(now.cases[i] == was.cases[i]);
        }
    }
}

/// The controller is armed after a reboot only once both fans have been read back in Firmware Auto, and
/// whether it was armed or not, it is restored once afterwards, and both fans are asked again.
pub proof fn reboots_arm_only_behind_the_gate(
    before: LifecycleModel,
    after: LifecycleModel,
    earlier: Seq<LifecycleCall>,
    later: Seq<LifecycleCall>,
)
    requires
        reboot_went(before, after, earlier, later),
    ensures
        ({
            let n = later.len() as int;
            &&& n >= earlier.len() + 19
            &&& later[n - 9] is RestoreAfterReboot
            &&& later[n - 6] matches LifecycleCall::ConfirmFirmwareAuto {
                fan: EvidenceFan::Cpu,
                ..
            }
            &&& later[n - 3] matches LifecycleCall::ConfirmFirmwareAuto {
                fan: EvidenceFan::Gpu,
                ..
            }
            &&& forall|i: int|
                earlier.len() <= i < n && #[trigger] later[i] is ArmAfterReboot ==> {
                    &&& i == n - 11
                    &&& later[i - 2] matches LifecycleCall::ConfirmFirmwareAuto {
                        fan: EvidenceFan::Gpu,
                        answer: Ok(seen),
                    } && seen.fresh && seen.enable_readback == Some(2u32)
                    &&& later[i - 5] matches LifecycleCall::ConfirmFirmwareAuto {
                        fan: EvidenceFan::Cpu,
                        answer: Ok(seen),
                    } && seen.fresh && seen.enable_readback == Some(2u32)
                }
            &&& forall|i: int|
                earlier.len() <= i < n && #[trigger] later[i] is RestoreAfterReboot ==> i == n - 9
            &&& after.cases.len() == before.cases.len() + 1
            &&& after.cases.last().case is Reboot
            &&& after.cases.last().passed ==> {
                &&& later[n - 6] matches LifecycleCall::ConfirmFirmwareAuto { answer: Ok(seen), .. }
                    && seen.fresh && seen.enable_readback == Some(2u32)
                &&& later[n - 3] matches LifecycleCall::ConfirmFirmwareAuto { answer: Ok(seen), .. }
                    && seen.fresh && seen.enable_readback == Some(2u32)
            }
            &&& after.final_auto_confirmed ==> {
                &&& later[n - 6] matches LifecycleCall::ConfirmFirmwareAuto { answer: Ok(seen), .. }
                    && seen.fresh && seen.enable_readback == Some(2u32)
                &&& later[n - 3] matches LifecycleCall::ConfirmFirmwareAuto { answer: Ok(seen), .. }
                    && seen.fresh && seen.enable_readback == Some(2u32)
            }
        }),
{
    reveal(reboot_went);
    let (answers, context, gate, gated, gated_calls, last_context, last, ended, ended_calls) =
        choose|
        answers: RebootAnswers,
        context: GateContext,
        gate: AutoGate,
        gated: LifecycleModel,
        gated_calls: Seq<LifecycleCall>,
        last_context: GateContext,
        last: AutoGate,
        ended: LifecycleModel,
        ended_calls: Seq<LifecycleCall>,
    |
        {
            &&& #[trigger] gate_was_read(
                after_case_request(
                    before,
                    LiveLifecycleCase::Reboot,
                    crate::lifecycle_fold::reboot_window(before, answers).0,
                ),
                gated,
                resume_calls(earlier, answers),
                gated_calls,
                context,
                gate,
            )
            &&& #[trigger] gate_was_read(
                gated,
                ended,
                arm_calls(
                    gated_calls,
                    may_arm(resumed_case(before, answers), gate, before.expected),
                    answers,
                ),
                ended_calls,
                last_context,
                last,
            )
            &&& later == ended_calls.push(LifecycleCall::Timestamp { answer: answers.left_at })
            &&& after == after_case(ended, reboot_record(before, answers, gate, last))
        };
    let resumed = resume_calls(earlier, answers);
    let arms = may_arm(resumed_case(before, answers), gate, before.expected);
    let tried = arm_calls(gated_calls, arms, answers);
    let readings = lemma_gate_calls(
        after_case_request(
            before,
            LiveLifecycleCase::Reboot,
            crate::lifecycle_fold::reboot_window(before, answers).0,
        ),
        gated,
        resumed,
        gated_calls,
        context,
        gate,
    );
    let lasts = lemma_gate_calls(gated, ended, tried, ended_calls, last_context, last);
    let n = later.len() as int;
    let r = resumed.len() as int;
    let g = gated_calls.len() as int;
    let t = tried.len() as int;
    assert(n == t + 7);
    assert(t == g + if arms { 4int } else { 2int });
    assert(tried[t - 2] is RestoreAfterReboot && tried[t - 1] is Timestamp);
    assert(later[n - 9] == ended_calls[t - 2] && ended_calls[t - 2] == tried[t - 2]);
    assert(later[n - 6] == ended_calls[t + 1]);
    assert(later[n - 3] == ended_calls[t + 4]);
    assert forall|i: int| earlier.len() <= i < n implies {
        &&& #[trigger] later[i] is ArmAfterReboot ==> i == n - 11 && arms
        &&& later[i] is RestoreAfterReboot ==> i == n - 9
    } by {
        if i < r {
            assert(later[i] == ended_calls[i]);
            assert(ended_calls[i] == tried[i]);
            assert(tried[i] == gated_calls[i]);
            assert(gated_calls[i] == resumed[i]);
        } else if i < g {
            assert(later[i] == ended_calls[i]);
            assert(ended_calls[i] == tried[i]);
            assert(tried[i] == gated_calls[i]);
            assert(i == r || i == r + 1 || i == r + 2 || i == r + 3 || i == r + 4 || i == r + 5);
        } else if i < t {
            assert(later[i] == ended_calls[i]);
            assert(ended_calls[i] == tried[i]);
        } else if i < n - 1 {
            assert(later[i] == ended_calls[i]);
            assert(i == t || i == t + 1 || i == t + 2 || i == t + 3 || i == t + 4 || i == t + 5);
        }
    }
    if arms {
        let i = n - 11;
        assert(i == g);
        assert(later[i - 2] == ended_calls[r + 4] && ended_calls[r + 4] == tried[r + 4] && tried[r
            + 4] == gated_calls[r + 4]);
        assert(later[i - 5] == ended_calls[r + 1] && ended_calls[r + 1] == tried[r + 1] && tried[r
            + 1] == gated_calls[r + 1]);
    }
}

/// A lifecycle record is complete only where all eight cases passed in the approved order, each entered
/// from Firmware Auto and left to it, and ten gates, one before each case, one before the controller was
/// armed and one at the end, each read back Firmware Auto from both fans, freshly and under the boot of
/// the time.
pub proof fn complete_lifecycles_pass_every_case(record: RecordModel)
    requires
        lifecycle_is_complete(record),
    ensures
        record.live_lifecycle_cases matches Some(cases) && {
            &&& record.schema_version == 2
            &&& record.stage == "live-lifecycle"@
            &&& record.faults.len() == 0
            &&& cases.len() == 8
            &&& record.readbacks.len() == 20
            &&& record.state_transitions.len() == 16
            &&& forall|i: int|
                0 <= i < 8 ==> {
                    let case = #[trigger] cases[i];
                    &&& case.case == approved_case(i)
                    &&& case.passed
                    &&& case.observation matches Some(observation) && case_error(
                        approved_case(i),
                        observation,
                        case.started_at,
                        case.completed_at,
                        (
                            record.readbacks[0].endpoint_identity@,
                            record.readbacks[1].endpoint_identity@,
                        ),
                    ) is None
                    &&& record.state_transitions[2 * i].from@ == "firmware-auto"@
                    &&& record.state_transitions[2 * i].to@ == approved_case(i).name()
                    &&& record.state_transitions[2 * i + 1].from@ == approved_case(i).name()
                    &&& record.state_transitions[2 * i + 1].to@ == "firmware-auto"@
                    &&& case.started_at.wall_unix_millis < case.completed_at.wall_unix_millis
                    &&& record.state_transitions[2 * i].timestamp.monotonic_millis
                        < case.started_at.monotonic_millis
                }
            &&& forall|i: int|
                0 <= i < 10 ==> {
                    let cpu = #[trigger] record.readbacks[2 * i];
                    let gpu = record.readbacks[2 * i + 1];
                    &&& cpu.fan is Cpu && gpu.fan is Gpu
                    &&& cpu.field is Enable && gpu.field is Enable
                    &&& cpu.value == Some(2u32) && gpu.value == Some(2u32)
                    &&& cpu.outcome is Confirmed && gpu.outcome is Confirmed
                    &&& cpu.fresh == Some(true) && gpu.fresh == Some(true)
                    &&& cpu.endpoint_identity@ != gpu.endpoint_identity@
                    &&& text_option(cpu.boot_id) == text_option(gpu.boot_id)
                    &&& i < 8 ==> text_option(cpu.boot_id) == text_option(
                        record.readbacks[0].boot_id,
                    )
                    &&& i >= 8 ==> text_option(cpu.boot_id) == text_option(
                        record.readbacks[16].boot_id,
                    )
                }
            &&& text_option(record.readbacks[16].boot_id) != text_option(
                record.readbacks[0].boot_id,
            )
        },
{
    let cases = record.live_lifecycle_cases->0;
    let first_cpu = crate::lifecycle_record::first_readback_of(record.readbacks, EvidenceFan::Cpu);
    let first_gpu = crate::lifecycle_record::first_readback_of(record.readbacks, EvidenceFan::Gpu);
    let expected = (first_cpu->0.endpoint_identity@, first_gpu->0.endpoint_identity@);
    let reboot = cases[7].observation->0;
    let before = reboot->boot_id_before@;
    let after = reboot->boot_id_after@;
    assert(crate::lifecycle_record::early_gate_confirms(record, 0, expected, before));
    assert(crate::lifecycle_record::case_is_complete(record, 7, expected, before, after));
    assert forall|i: int| 0 <= i < 8 implies {
        let case = #[trigger] cases[i];
        &&& case.case == approved_case(i)
        &&& case.passed
        &&& case.observation matches Some(observation) && case_error(
            approved_case(i),
            observation,
            case.started_at,
            case.completed_at,
            (record.readbacks[0].endpoint_identity@, record.readbacks[1].endpoint_identity@),
        ) is None
        &&& record.state_transitions[2 * i].from@ == "firmware-auto"@
        &&& record.state_transitions[2 * i].to@ == approved_case(i).name()
        &&& record.state_transitions[2 * i + 1].from@ == approved_case(i).name()
        &&& record.state_transitions[2 * i + 1].to@ == "firmware-auto"@
        &&& case.started_at.wall_unix_millis < case.completed_at.wall_unix_millis
        &&& record.state_transitions[2 * i].timestamp.monotonic_millis
            < case.started_at.monotonic_millis
    } by {
        assert(crate::lifecycle_record::case_is_complete(record, i, expected, before, after));
        assert(i * 2 == 2 * i);
    }
    assert forall|i: int| 0 <= i < 10 implies {
        let cpu = #[trigger] record.readbacks[2 * i];
        let gpu = record.readbacks[2 * i + 1];
        &&& cpu.fan is Cpu && gpu.fan is Gpu
        &&& cpu.field is Enable && gpu.field is Enable
        &&& cpu.value == Some(2u32) && gpu.value == Some(2u32)
        &&& cpu.outcome is Confirmed && gpu.outcome is Confirmed
        &&& cpu.fresh == Some(true) && gpu.fresh == Some(true)
        &&& cpu.endpoint_identity@ != gpu.endpoint_identity@
        &&& text_option(cpu.boot_id) == text_option(gpu.boot_id)
        &&& i < 8 ==> text_option(cpu.boot_id) == text_option(record.readbacks[0].boot_id)
        &&& i >= 8 ==> text_option(cpu.boot_id) == text_option(record.readbacks[16].boot_id)
    } by {
        if i < 8 {
            assert(crate::lifecycle_record::early_gate_confirms(record, i, expected, before));
            assert(i * 2 == 2 * i);
        }
    }
}

/// In a well-formed lifecycle record the cases stand in the approved order, all but the last passed, a
/// case that passed was faultless and covered by its observers, and each case began behind a gate at
/// which both fans read back Firmware Auto.
pub proof fn recorded_cases_stand_in_order(record: RecordModel, index: int)
    requires
        lifecycle_cases_are_well_formed(record),
        0 <= index < record.live_lifecycle_cases->0.len(),
    ensures
        ({
            let cases = record.live_lifecycle_cases->0;
            let case = cases[index];
            let cpu = record.readbacks[2 * index];
            let gpu = record.readbacks[2 * index + 1];
            &&& cases.len() <= 8
            &&& record.state_transitions.len() == 2 * cases.len()
            &&& case.case == approved_case(index)
            &&& index < cases.len() - 1 ==> case.passed
            &&& case.passed ==> (case.observation matches Some(observation) && {
                &&& case_error(
                    approved_case(index),
                    observation,
                    case.started_at,
                    case.completed_at,
                    (
                        record.readbacks[0].endpoint_identity@,
                        record.readbacks[1].endpoint_identity@,
                    ),
                ) is None
                &&& coverage_error(
                    approved_case(index),
                    case.observer_attestations,
                    observation,
                    case.started_at,
                    case.completed_at,
                ) is None
            })
            &&& record.state_transitions[2 * index].from@ == "firmware-auto"@
            &&& record.state_transitions[2 * index].to@ == approved_case(index).name()
            &&& record.state_transitions[2 * index + 1].from@ == approved_case(index).name()
            &&& case.passed ==> record.state_transitions[2 * index + 1].to@ == "firmware-auto"@
            &&& is_before(record.state_transitions[2 * index].timestamp, case.started_at)
            &&& cpu.fan is Cpu && gpu.fan is Gpu
            &&& cpu.value == Some(2u32) && gpu.value == Some(2u32)
            &&& cpu.outcome is Confirmed && gpu.outcome is Confirmed
            &&& cpu.fresh == Some(true) && gpu.fresh == Some(true)
        }),
{
    assert(case_is_well_formed(record, index));
    assert(index * 2 == 2 * index);
}

} // verus!
