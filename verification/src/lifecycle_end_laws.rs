//! How a lifecycle run begins and ends, told by its actions and its record.

use vstd::prelude::*;
use crate::authority::{
    is_authority_of, ProtectedPolicyManifestV2, QualificationRecordV2, ValidatedPolicyAuthority,
};
use crate::evidence::{EnvelopeModel, EvidenceFan, EvidenceTimestamp, FanEndpointIdentitiesEvidence};
use crate::lifecycle::{shows_something, LiveLifecycleCase, LiveLifecycleObserved};
use crate::lifecycle_calls::{LifecycleAction, LifecycleCall};
use crate::lifecycle_checkpoint::{results, LifecycleRun};
use crate::lifecycle_fold::{
    context_is, gate_was_read, goes_on_with_cases, initial_gate_went, recovery_went,
};
use crate::lifecycle_gate::{AutoGate, GateContext};
use crate::lifecycle_laws::is_by;
use crate::lifecycle_rules::FanIdentities;
use crate::lifecycle_run::{
    are_reboot_actions, boot_is_refused, ended_record, endpoints_are_valid,
    every_action_is_contained, is_prefix_outcome, LiveLifecyclePlanError, LiveLifecycleProgress,
};
use crate::lifecycle_run_laws::lemma_gate_calls;
use crate::lifecycle_steps::{after_recovery, LifecycleModel};
use crate::tachometer::Fan;

verus! {

/// Six endpoints are valid exactly where each shows a name and no two have the same.
pub proof fn valid_endpoints_are_six_names(endpoints: FanEndpointIdentitiesEvidence)
    ensures
        endpoints_are_valid(endpoints) <==> {
            let (a, b, c) = (
                endpoints.cpu_pwm@,
                endpoints.cpu_enable@,
                endpoints.cpu_tachometer@,
            );
            let (d, e, f) = (
                endpoints.gpu_pwm@,
                endpoints.gpu_enable@,
                endpoints.gpu_tachometer@,
            );
            &&& shows_something(a) && shows_something(b) && shows_something(c)
            &&& shows_something(d) && shows_something(e) && shows_something(f)
            &&& a != b && a != c && a != d && a != e && a != f
            &&& b != c && b != d && b != e && b != f
            &&& c != d && c != e && c != f
            &&& d != e && d != f
            &&& e != f
        },
{
    let all = crate::lifecycle_run::endpoint_names(endpoints);
    assert(all.len() == 6);
    assert(all[0] == endpoints.cpu_pwm@ && all[1] == endpoints.cpu_enable@ && all[2]
        == endpoints.cpu_tachometer@ && all[3] == endpoints.gpu_pwm@ && all[4]
        == endpoints.gpu_enable@ && all[5] == endpoints.gpu_tachometer@);
}

/// A lifecycle passes exactly where all eight cases ran and passed, both fans were confirmed in Firmware
/// Auto at the end, and nothing went wrong. Its record holds what the run left.
pub proof fn lifecycles_pass_with_eight_cases(run: LifecycleRun, completed_at: EvidenceTimestamp)
    ensures
        ({
            let record = ended_record(run, completed_at);
            &&& record.outcome.status is Passed <==> {
                &&& run.cases@.len() == 8
                &&& forall|i: int| 0 <= i < 8 ==> (#[trigger] run.cases@[i])@.passed
                &&& run.final_auto_confirmed
                &&& run.faults@.len() == 0
            }
            &&& record.outcome.status is Passed || record.outcome.status is Failed
            &&& record.outcome.another_passing_run_required <==> !(record.outcome.status is Passed)
            &&& record.outcome.final_firmware_auto_confirmed == run.final_auto_confirmed
            &&& record.stage == "live-lifecycle"@
            &&& record.schema_version == 2
            &&& record.readbacks == run.readbacks@
            &&& record.state_transitions == run.transitions@
            &&& record.faults == run.faults@
            &&& record.started_at == run.started_at
            &&& record.completed_at == completed_at
            &&& record.envelope == run.envelope@
            &&& record.commands.len() == 0
        }),
{
    let cases = results(run.cases@);
    assert(cases.len() == run.cases@.len());
    assert forall|i: int| 0 <= i < cases.len() implies cases[i] == (#[trigger] run.cases@[i])@ by {}
    if forall|i: int| 0 <= i < cases.len() ==> (#[trigger] cases[i]).passed {
        assert forall|i: int| 0 <= i < cases.len() implies (#[trigger] run.cases@[i])@.passed by {
            assert(cases[i].passed);
        }
    }
}

/// Whether an action read both fans freshly in Firmware Auto.
pub open spec fn saw_auto(action: LifecycleAction) -> bool {
    action matches LifecycleAction::Gate { confirmed, cpu: Ok(cpu), gpu: Ok(gpu) } && confirmed
        && cpu.fresh && gpu.fresh && cpu.enable_readback == Some(2u32) && gpu.enable_readback
        == Some(2u32)
}

/// No case is attempted, and no controller armed, but right after both fans were read freshly in Firmware
/// Auto; and right after it the machine is restored, for the same case, and both fans are read again.
pub proof fn attempts_are_contained(actions: Seq<LifecycleAction>, index: int)
    requires
        every_action_is_contained(actions),
        0 <= index < actions.len(),
    ensures
        actions[index] matches LifecycleAction::Attempt { case, .. } ==> {
            &&& 0 < index < actions.len() - 2
            &&& saw_auto(actions[index - 1])
            &&& actions[index + 1] matches LifecycleAction::Contain { case: contained, .. }
                && contained == case
            &&& actions[index + 2] is Gate
        },
        actions[index] is Arm ==> {
            &&& 0 < index < actions.len() - 2
            &&& saw_auto(actions[index - 1])
            &&& actions[index + 1] is ContainReboot
            &&& actions[index + 2] is Gate
        },
        actions[index] matches LifecycleAction::Gate { confirmed, .. } ==> (confirmed
            ==> saw_auto(actions[index])),
{
    assert(crate::lifecycle_run::action_is_contained(actions, index));
    if index > 0 {
        assert(crate::lifecycle_run::action_is_contained(actions, index - 1));
    }
}

/// After a reboot the case is resumed, both fans are read, the controller is armed at most once and only
/// where both showed Firmware Auto, and the machine is restored and both fans read once more.
pub proof fn reboot_actions_end_restored(actions: Seq<LifecycleAction>)
    requires
        are_reboot_actions(actions),
    ensures
        actions.len() == 4 || actions.len() == 5,
        actions[0] is Resume,
        actions[1] is Gate,
        actions.len() == 5 ==> actions[2] is Arm && saw_auto(actions[1]),
        actions[actions.len() - 2] is ContainReboot,
        actions[actions.len() - 1] is Gate,
{
    assert(crate::lifecycle_run::action_is_contained(actions, 1));
}

/// A run waits for its reboot only where the boot was asked for first and last and was the same, and the
/// last that was done was to read both fans in Firmware Auto. A run that ends before its reboot did not
/// pass.
pub proof fn waiting_runs_kept_their_boot(
    result: Result<LiveLifecycleProgress, LiveLifecyclePlanError>,
    calls: Seq<LifecycleCall>,
    actions: Seq<LifecycleAction>,
    run: LifecycleRun,
    completed_at: EvidenceTimestamp,
    envelope: EnvelopeModel,
    binding: Seq<char>,
    expected: FanIdentities,
)
    requires
        is_prefix_outcome(
            result,
            calls,
            actions,
            run,
            completed_at,
            envelope,
            binding,
            expected,
        ),
    ensures
        result matches Ok(LiveLifecycleProgress::AwaitingReboot(checkpoint)) ==> {
            &&& calls.last() matches LifecycleCall::CurrentBootId { answer: Ok(boot) } && boot@
                == run@.boot_id
            &&& run@.faults.len() == 0
            &&& run@.final_auto_confirmed
            &&& checkpoint.run() == run
            &&& actions.len() > 0 && saw_auto(actions.last())
            &&& run.envelope@ == envelope
        },
        result matches Ok(LiveLifecycleProgress::Complete(report)) ==> {
            &&& report.evidence() == ended_record(run, completed_at)
            &&& report.evidence().outcome.status is Failed
            &&& report.evidence().outcome.another_passing_run_required
            &&& report.evidence().envelope == envelope
        },
        forall|i: int|
            0 <= i < actions.len() ==> !(#[trigger] actions[i] is Arm || actions[i] is Resume
                || actions[i] is ContainReboot),
        every_action_is_contained(actions),
{
    if actions.len() > 0 {
        assert(crate::lifecycle_run::action_is_contained(actions, actions.len() - 1));
    }
}

/// A boot is refused where it cannot be asked for, where the first answer is no identifier, and where a
/// later answer is another boot than the first.
pub proof fn changed_boots_are_refused(calls: Seq<LifecycleCall>, text: Seq<char>)
    requires
        boot_is_refused(calls, text),
    ensures
        calls.len() > 0,
        calls.last() matches LifecycleCall::CurrentBootId { answer } && {
            ||| answer is Err
            ||| calls.len() == 1 && !crate::text::identifier(answer->Ok_0@)
            ||| calls.len() > 1 && (calls[0] matches LifecycleCall::CurrentBootId {
                answer: Ok(first),
            } && first@ != answer->Ok_0@)
        },
{
}

/// A recovery leaves no fault exactly where it succeeded, at a moment after the failed gate and by its own
/// end.
pub proof fn recoveries_are_fresh(
    m: LifecycleModel,
    earliest: EvidenceTimestamp,
    completed_at: EvidenceTimestamp,
    result: Result<LiveLifecycleObserved<EvidenceTimestamp>, String>,
)
    ensures
        ({
            let after = after_recovery(m, earliest, completed_at, result);
            &&& after.faults.len() == m.faults.len() <==> (result matches Ok(restored) && is_by(
                earliest,
                restored.observation,
            ) && is_by(restored.observation, completed_at))
            &&& after.faults.len() <= m.faults.len() + 1
            &&& after.readbacks == m.readbacks && after.cases == m.cases
            &&& after.last_event_at.monotonic_millis >= m.last_event_at.monotonic_millis
        }),
{
}

/// A run opens by reading both fans, and goes on with its cases only where they showed Firmware Auto at
/// once; where they did not, the machine is restored and both are read again, and no case is run.
pub proof fn runs_open_with_a_gate(
    before: LifecycleModel,
    after: LifecycleModel,
    earlier: Seq<LifecycleCall>,
    later: Seq<LifecycleCall>,
    expected: FanIdentities,
)
    requires
        initial_gate_went(before, after, earlier, later, expected),
    ensures
        ({
            let n = earlier.len() as int;
            &&& later.len() == n + 6 || later.len() == n + 14
            &&& later[n + 1] matches LifecycleCall::ConfirmFirmwareAuto {
                fan: EvidenceFan::Cpu,
                ..
            }
            &&& later[n + 4] matches LifecycleCall::ConfirmFirmwareAuto {
                fan: EvidenceFan::Gpu,
                ..
            }
            &&& goes_on_with_cases(after) ==> {
                &&& later.len() == n + 6
                &&& later[n + 1] matches LifecycleCall::ConfirmFirmwareAuto { answer: Ok(seen), .. }
                    && seen.fresh && seen.enable_readback == Some(2u32)
                    && seen.endpoint_identity@ == expected.0
                &&& later[n + 4] matches LifecycleCall::ConfirmFirmwareAuto { answer: Ok(seen), .. }
                    && seen.fresh && seen.enable_readback == Some(2u32)
                    && seen.endpoint_identity@ == expected.1
            }
            &&& later.len() == n + 14 ==> later[n + 6] is RestoreAfterCase && after.faults.len()
                > before.faults.len()
            &&& after.cases == before.cases
        }),
{
    reveal(initial_gate_went);
    let (context, gate, gated, gated_calls) = choose|
        context: GateContext,
        gate: AutoGate,
        gated: LifecycleModel,
        gated_calls: Seq<LifecycleCall>,
    |
        {
            &&& context_is(context, before.started_at, Some(expected), before.boot_id, false)
            &&& #[trigger] gate_was_read(before, gated, earlier, gated_calls, context, gate)
            &&& if gate.confirmed {
                after == crate::lifecycle_fold::after_own_gate(gated, gate) && later == gated_calls
            } else {
                recovery_went(
                    crate::lifecycle_fold::after_own_gate(gated, gate),
                    after,
                    gated_calls,
                    later,
                    expected,
                    gate.completed_at,
                )
            }
        };
    let readings = lemma_gate_calls(before, gated, earlier, gated_calls, context, gate);
    crate::lifecycle_run_laws::confirmed_gates_show_both_fans_in_auto(
        context,
        readings.0,
        readings.1,
    );
    let n = earlier.len() as int;
    if !gate.confirmed {
        let first = crate::lifecycle_fold::after_own_gate(gated, gate);
        let (answer, completed_at, second_context, second, ended) = choose|
            answer: Result<LiveLifecycleObserved<EvidenceTimestamp>, String>,
            completed_at: EvidenceTimestamp,
            second_context: GateContext,
            second: AutoGate,
            ended: LifecycleModel,
        |
            {
                &&& context_is(
                    second_context,
                    after_recovery(first, gate.completed_at, completed_at, answer).last_event_at,
                    Some(expected),
                    first.boot_id,
                    false,
                )
                &&& #[trigger] gate_was_read(
                    after_recovery(first, gate.completed_at, completed_at, answer),
                    ended,
                    gated_calls.push(
                        LifecycleCall::RestoreAfterCase {
                            case: LiveLifecycleCase::InvalidConfiguration,
                            answer,
                        },
                    ).push(LifecycleCall::Timestamp { answer: completed_at }),
                    later,
                    second_context,
                    second,
                )
                &&& after == crate::lifecycle_fold::after_own_gate(ended, second)
            };
        let restored = gated_calls.push(
            LifecycleCall::RestoreAfterCase {
                case: LiveLifecycleCase::InvalidConfiguration,
                answer,
            },
        ).push(LifecycleCall::Timestamp { answer: completed_at });
        recoveries_are_fresh(first, gate.completed_at, completed_at, answer);
        lemma_gate_calls(
            after_recovery(first, gate.completed_at, completed_at, answer),
            ended,
            restored,
            later,
            second_context,
            second,
        );
        assert(later[n + 1] == restored[n + 1] && restored[n + 1] == gated_calls[n + 1]);
        assert(later[n + 4] == restored[n + 4] && restored[n + 4] == gated_calls[n + 4]);
        assert(later[n + 6] == restored[n + 6]);
    }
}

/// An authority carries what its manifest binds: both calibrations, each for its own fan, the protected
/// configuration, the machine and the policy's fingerprint, and the evidence of the record's endurance
/// run.
pub proof fn authorities_carry_their_manifest(
    authority: ValidatedPolicyAuthority,
    fingerprint: Seq<char>,
    manifest: ProtectedPolicyManifestV2,
    record: QualificationRecordV2,
)
    requires
        is_authority_of(authority, fingerprint, manifest, record),
    ensures
        authority.qualification_id@ == manifest.qualification_id@,
        authority.policy_version@ == manifest.policy_version@,
        authority.protected_policy_sha256@ == fingerprint,
        authority.compatibility@ == manifest.compatibility@,
        authority.calibration.of(Fan::Cpu) == manifest.calibration.cpu@,
        authority.calibration.of(Fan::Gpu) == manifest.calibration.gpu@,
        authority.protected@.cpu_floor == manifest.fans.cpu.minimum_duty_percent,
        authority.protected@.gpu_floor == manifest.fans.gpu.minimum_duty_percent,
        authority.protected@.ac_cpu == manifest.profiles.ac.cpu_curve@,
        authority.protected@.ac_gpu == manifest.profiles.ac.gpu_curve@,
        authority.protected@.battery_cpu == manifest.profiles.battery.cpu_curve@,
        authority.protected@.battery_gpu == manifest.profiles.battery.gpu_curve@,
        authority.endurance_evidence_path@ == record.supervised_endurance.evidence_path@,
        authority.endurance_evidence_sha256@ == record.supervised_endurance.evidence_sha256@,
{
}

} // verus!
