//! What the evidence of a lifecycle case shows, told by moments, readbacks and names.

use vstd::prelude::*;
use crate::evidence::EvidenceTimestamp;
use crate::lifecycle::{
    approved_case, case_of, shows_something, AttestationModel, LiveLifecycleCase,
    LiveLifecycleCaseObservation, LiveLifecycleFanAutoPair,
};
use crate::lifecycle_rules::{
    case_error, checks_are_continuous, continuation_proves_reboot, coverage_error, coverage_fits,
    expected_actions, first_unfit, promptly_follows, FanIdentities, ObservedAction,
};
use crate::text::identifier;

verus! {

/// Whether a moment lies before another on the monotonic clock and not after it on the wall clock.
pub open spec fn is_before(first: EvidenceTimestamp, second: EvidenceTimestamp) -> bool {
    first.monotonic_millis < second.monotonic_millis && !(first.wall_unix_millis
        > second.wall_unix_millis)
}

/// Whether a moment lies after another on neither clock.
pub open spec fn is_by(first: EvidenceTimestamp, second: EvidenceTimestamp) -> bool {
    !(first.monotonic_millis > second.monotonic_millis) && !(first.wall_unix_millis
        > second.wall_unix_millis)
}

/// Whether a moment lies before another on both clocks.
pub open spec fn is_long_before(first: EvidenceTimestamp, second: EvidenceTimestamp) -> bool {
    first.monotonic_millis < second.monotonic_millis && first.wall_unix_millis
        < second.wall_unix_millis
}

/// Whether both fans freshly read back a control mode of 2.
pub open spec fn reads_auto(pair: LiveLifecycleFanAutoPair) -> bool {
    &&& pair.cpu.fresh && pair.gpu.fresh
    &&& pair.cpu.enable_readback matches Some(mode) && mode == 2
    &&& pair.gpu.enable_readback matches Some(mode) && mode == 2
}

/// Whether a pair was read from the expected endpoints, the CPU fan's first, between two moments.
pub open spec fn reads_auto_between(
    pair: LiveLifecycleFanAutoPair,
    earlier: EvidenceTimestamp,
    later: EvidenceTimestamp,
    expected: FanIdentities,
) -> bool {
    &&& reads_auto(pair)
    &&& pair.cpu.endpoint_identity@ == expected.0
    &&& pair.gpu.endpoint_identity@ == expected.1
    &&& is_before(earlier, pair.cpu.observed_at)
    &&& is_before(pair.cpu.observed_at, pair.gpu.observed_at)
    &&& is_before(pair.gpu.observed_at, later)
}

/// Whether two process identities are both shown and differ.
pub open spec fn changes(before: Seq<char>, after: Seq<char>) -> bool {
    shows_something(before) && shows_something(after) && before != after
}

/// A text shows something as soon as it holds one visible character, and nothing where it holds only
/// spaces, tabs and ends of lines.
pub proof fn visible_texts_show_something(text: Seq<char>)
    ensures
        (exists|i: int|
            0 <= i < text.len() && '!' <= #[trigger] text[i] && text[i] <= '~') ==> shows_something(
            text,
        ),
        (forall|i: int|
            0 <= i < text.len() ==> #[trigger] text[i] == ' ' || text[i] == '\t' || text[i] == '\n'
                || text[i] == '\r') ==> !shows_something(text),
{
    if exists|i: int| 0 <= i < text.len() && '!' <= #[trigger] text[i] && text[i] <= '~' {
        let i = choose|i: int| 0 <= i < text.len() && '!' <= #[trigger] text[i] && text[i] <= '~';
        assert(!crate::lifecycle::is_blank_char(text[i]));
    }
}

/// The eight approved cases come in one order, each once: a rejected configuration, a duplicate process,
/// a stop and restart, a killed process, an expired watchdog, the change to battery, sleep, and a reboot.
pub proof fn every_case_is_approved_once(index: int)
    requires
        0 <= index < 8,
    ensures
        approved_case(index) is InvalidConfiguration <==> index == 0,
        approved_case(index) is DuplicateProcess <==> index == 1,
        approved_case(index) is NormalStopRestart <==> index == 2,
        approved_case(index) is ProcessKillRecovery <==> index == 3,
        approved_case(index) is WatchdogRecovery <==> index == 4,
        approved_case(index) is AcToBatteryTransition <==> index == 5,
        approved_case(index) is SuspendResume <==> index == 6,
        approved_case(index) is Reboot <==> index == 7,
{
}

/// Evidence of one case never passes another.
pub proof fn evidence_passes_its_own_case_only(
    case: LiveLifecycleCase,
    observation: LiveLifecycleCaseObservation,
    started_at: EvidenceTimestamp,
    completed_at: EvidenceTimestamp,
    expected: FanIdentities,
)
    requires
        case_error(case, observation, started_at, completed_at, expected) is None,
    ensures
        case is InvalidConfiguration <==> observation is InvalidConfiguration,
        case is DuplicateProcess <==> observation is DuplicateProcess,
        case is NormalStopRestart <==> observation is NormalStopRestart,
        case is ProcessKillRecovery <==> observation is ProcessKillRecovery,
        case is WatchdogRecovery <==> observation is WatchdogRecovery,
        case is AcToBatteryTransition <==> observation is AcToBatteryTransition,
        case is SuspendResume <==> observation is SuspendResume,
        case is Reboot <==> observation is Reboot,
{
}

/// Each case but the reboot passes exactly where its evidence shows, within the case, what it is about. A
/// restart, a recovery after the two seconds' delay with two starts allowed, and sleep all need both fans
/// freshly read back in Firmware Auto from the expected endpoints, after the event and before the
/// process comes back, and a process that is another than before.
pub proof fn passed_cases_show_their_outcome(
    observation: LiveLifecycleCaseObservation,
    started_at: EvidenceTimestamp,
    completed_at: EvidenceTimestamp,
    expected: FanIdentities,
)
    ensures
        case_error(case_of(observation), observation, started_at, completed_at, expected) is None
            <==> match observation {
            LiveLifecycleCaseObservation::InvalidConfiguration {
                observed_at,
                fresh,
                rejected_before_custom_control,
            } => {
                &&& fresh && rejected_before_custom_control
                &&& is_before(started_at, observed_at)
                &&& is_by(observed_at, completed_at)
            },
            LiveLifecycleCaseObservation::DuplicateProcess {
                observed_at,
                fresh,
                duplicate_rejected,
                original_owner_preserved,
                original_process_identity,
                rejected_process_identity,
            } => {
                &&& fresh && duplicate_rejected && original_owner_preserved
                &&& is_before(started_at, observed_at)
                &&& is_by(observed_at, completed_at)
                &&& changes(original_process_identity@, rejected_process_identity@)
            },
            LiveLifecycleCaseObservation::NormalStopRestart {
                clean_stop,
                stopped_at,
                auto_before_restart,
                restarted_at,
                fresh_process,
                process_identity_before,
                process_identity_after,
            } => {
                &&& clean_stop && fresh_process
                &&& changes(process_identity_before@, process_identity_after@)
                &&& is_before(started_at, stopped_at)
                &&& reads_auto_between(auto_before_restart, stopped_at, restarted_at, expected)
                &&& is_by(restarted_at, completed_at)
            },
            LiveLifecycleCaseObservation::ProcessKillRecovery {
                sigkill_observed,
                start_limit_reset_at,
                killed_at,
                auto_before_restart,
                restarted_at,
                process_identity_before,
                process_identity_after,
                restart_delay_millis,
                start_limit_burst,
            } => {
                &&& sigkill_observed && restart_delay_millis == 2_000 && start_limit_burst == 2
                &&& changes(process_identity_before@, process_identity_after@)
                &&& is_before(started_at, start_limit_reset_at)
                &&& is_before(start_limit_reset_at, killed_at)
                &&& reads_auto_between(auto_before_restart, killed_at, restarted_at, expected)
                &&& is_by(restarted_at, completed_at)
            },
            LiveLifecycleCaseObservation::WatchdogRecovery {
                watchdog_expired,
                start_limit_reset_at,
                expired_at,
                auto_before_restart,
                restarted_at,
                process_identity_before,
                process_identity_after,
                restart_delay_millis,
                start_limit_burst,
            } => {
                &&& watchdog_expired && restart_delay_millis == 2_000 && start_limit_burst == 2
                &&& changes(process_identity_before@, process_identity_after@)
                &&& is_before(started_at, start_limit_reset_at)
                &&& is_before(start_limit_reset_at, expired_at)
                &&& reads_auto_between(auto_before_restart, expired_at, restarted_at, expected)
                &&& is_by(restarted_at, completed_at)
            },
            LiveLifecycleCaseObservation::AcToBatteryTransition {
                before,
                after,
                selected_profile_after,
            } => {
                &&& before.fresh && before.source is Ac
                &&& after.fresh && after.source is Battery
                &&& selected_profile_after.fresh && selected_profile_after.profile is Battery
                &&& is_before(started_at, before.observed_at)
                &&& is_before(before.observed_at, after.observed_at)
                &&& is_by(after.observed_at, selected_profile_after.observed_at)
                &&& is_by(selected_profile_after.observed_at, completed_at)
            },
            LiveLifecycleCaseObservation::SuspendResume {
                auto_before_sleep,
                suspended_at,
                suspend_completed,
                resumed_at,
                process_started_at,
                process_identity_before,
                process_identity_after,
            } => {
                &&& suspend_completed
                &&& changes(process_identity_before@, process_identity_after@)
                &&& reads_auto_between(auto_before_sleep, started_at, suspended_at, expected)
                &&& is_before(suspended_at, resumed_at)
                &&& is_before(resumed_at, process_started_at)
                &&& is_by(process_started_at, completed_at)
            },
            LiveLifecycleCaseObservation::Reboot { .. } => case_error(
                LiveLifecycleCase::Reboot,
                observation,
                started_at,
                completed_at,
                expected,
            ) is None,
        },
{
}

/// A reboot passes exactly where it completed into another boot after the case began by the wall clock,
/// both fans then read back Firmware Auto before the controller armed, and again once it had restored
/// them, no later than the case ended. Neither fan's endpoint may be what the other's was before.
pub proof fn passed_reboots_show_auto_on_both_sides(
    observation: LiveLifecycleCaseObservation,
    started_at: EvidenceTimestamp,
    completed_at: EvidenceTimestamp,
    expected: FanIdentities,
)
    ensures
        case_error(LiveLifecycleCase::Reboot, observation, started_at, completed_at, expected)
            is None <==> {
            &&& observation matches LiveLifecycleCaseObservation::Reboot {
                reboot_completed,
                boot_id_before,
                boot_id_after,
                post_boot_at,
                auto_before_arm: Some(first),
                armed_at: Some(armed_at),
                controller_process_identity: Some(controller),
                restored_at: Some(restored_at),
                auto_after_arm: Some(last),
            }
            &&& reboot_completed
            &&& identifier(boot_id_before@) && identifier(boot_id_after@)
            &&& boot_id_before@ != boot_id_after@
            &&& started_at.wall_unix_millis < post_boot_at.wall_unix_millis
            &&& post_boot_at.monotonic_millis <= completed_at.monotonic_millis
            &&& is_long_before(post_boot_at, first.cpu.observed_at)
            &&& is_long_before(post_boot_at, first.gpu.observed_at)
            &&& is_long_before(first.cpu.observed_at, armed_at)
            &&& is_long_before(first.gpu.observed_at, armed_at)
            &&& is_long_before(armed_at, restored_at)
            &&& is_by(armed_at, completed_at)
            &&& is_by(restored_at, completed_at)
            &&& is_by(restored_at, last.cpu.observed_at)
            &&& is_by(restored_at, last.gpu.observed_at)
            &&& shows_something(controller@)
            &&& reads_auto(first) && reads_auto(last)
            &&& changes(first.cpu.endpoint_identity@, first.gpu.endpoint_identity@)
            &&& changes(last.cpu.endpoint_identity@, last.gpu.endpoint_identity@)
            &&& first.cpu.endpoint_identity@ != expected.1
            &&& first.gpu.endpoint_identity@ != expected.0
            &&& last.cpu.endpoint_identity@ != first.gpu.endpoint_identity@
            &&& last.gpu.endpoint_identity@ != first.cpu.endpoint_identity@
        },
{
}

/// Before a reboot run goes on, the observation of it proves a change from the boot that was noted to
/// the one that runs, and nothing that comes only after arming.
pub proof fn continued_runs_prove_the_boot_change(
    observation: LiveLifecycleCaseObservation,
    started_at: EvidenceTimestamp,
    completed_at: EvidenceTimestamp,
    before: Seq<char>,
    after: Seq<char>,
)
    ensures
        continuation_proves_reboot(observation, started_at, completed_at, before, after) <==> {
            &&& observation matches LiveLifecycleCaseObservation::Reboot {
                reboot_completed,
                boot_id_before,
                boot_id_after,
                post_boot_at,
                auto_before_arm: None,
                armed_at: None,
                controller_process_identity: None,
                restored_at: None,
                auto_after_arm: None,
            }
            &&& reboot_completed
            &&& boot_id_before@ == before && boot_id_after@ == after
            &&& identifier(before) && identifier(after) && before != after
            &&& started_at.wall_unix_millis < post_boot_at.wall_unix_millis
            &&& is_by(post_boot_at, completed_at)
        },
{
}

/// A moment follows another promptly exactly where it lies at most five seconds after it on both clocks.
pub proof fn prompt_moments_lie_within_five_seconds(
    earlier: EvidenceTimestamp,
    later: EvidenceTimestamp,
)
    ensures
        promptly_follows(earlier, later) <==> earlier.monotonic_millis <= later.monotonic_millis
            <= earlier.monotonic_millis + 5_000 && earlier.wall_unix_millis
            <= later.wall_unix_millis <= earlier.wall_unix_millis + 5_000,
{
}

/// Checks are continuous exactly where each comes after the one before it, by at most five seconds on
/// both clocks.
pub proof fn continuous_checks_leave_no_gap(checks: Seq<EvidenceTimestamp>)
    ensures
        checks_are_continuous(checks) <==> forall|i: int, j: int|
            0 <= i < checks.len() && j == i + 1 && j < checks.len() ==> {
                let (first, second) = (#[trigger] checks[i], #[trigger] checks[j]);
                &&& first.monotonic_millis < second.monotonic_millis <= first.monotonic_millis
                    + 5_000
                &&& first.wall_unix_millis <= second.wall_unix_millis <= first.wall_unix_millis
                    + 5_000
            },
{
    if checks_are_continuous(checks) {
        assert forall|i: int, j: int|
            0 <= i < checks.len() && j == i + 1 && j < checks.len() implies {
            let (first, second) = (#[trigger] checks[i], #[trigger] checks[j]);
            &&& first.monotonic_millis < second.monotonic_millis <= first.monotonic_millis + 5_000
            &&& first.wall_unix_millis <= second.wall_unix_millis <= first.wall_unix_millis + 5_000
        } by {
            assert(crate::lifecycle::follows(checks[i], checks[i + 1]));
        }
    }
}

/// What a case does under Custom control: nothing where a configuration is rejected; else one or two
/// actions at the moments of the case and, but for the reboot, a cleanup as the case ends.
pub proof fn cases_end_with_their_cleanup(
    observation: LiveLifecycleCaseObservation,
    completed_at: EvidenceTimestamp,
)
    ensures
        ({
            let actions = expected_actions(observation, completed_at);
            let end = actions.len() - 1;
            &&& observation is InvalidConfiguration ==> actions.len() == 0
            &&& observation is DuplicateProcess || observation is AcToBatteryTransition
                ==> actions.len() == 2
            &&& observation is NormalStopRestart || observation is ProcessKillRecovery
                || observation is WatchdogRecovery || observation is SuspendResume
                ==> actions.len() == 3
            &&& !(observation is InvalidConfiguration || observation is Reboot) ==> {
                &&& actions[end].started_at == completed_at
                &&& actions[end].completed_at == completed_at
            }
            &&& observation matches LiveLifecycleCaseObservation::NormalStopRestart {
                stopped_at,
                restarted_at,
                ..
            } ==> actions[0].started_at == stopped_at && actions[1].completed_at == restarted_at
            &&& observation matches LiveLifecycleCaseObservation::ProcessKillRecovery {
                killed_at,
                restarted_at,
                ..
            } ==> actions[0].started_at == killed_at && actions[1].completed_at == restarted_at
            &&& observation matches LiveLifecycleCaseObservation::WatchdogRecovery {
                expired_at,
                restarted_at,
                ..
            } ==> actions[0].started_at == expired_at && actions[1].completed_at == restarted_at
            &&& observation matches LiveLifecycleCaseObservation::SuspendResume {
                suspended_at,
                process_started_at,
                ..
            } ==> actions[0].started_at == suspended_at && actions[1].completed_at
                == process_started_at
            &&& observation matches LiveLifecycleCaseObservation::AcToBatteryTransition {
                before,
                selected_profile_after,
                ..
            } ==> actions[0].started_at == before.observed_at && actions[0].completed_at
                == selected_profile_after.observed_at
            &&& observation matches LiveLifecycleCaseObservation::Reboot {
                armed_at: Some(armed_at),
                restored_at: Some(restored_at),
                ..
            } ==> actions.len() == 2 && actions[0].started_at == armed_at
                && actions[1].completed_at == restored_at
        }),
{
}

proof fn lemma_all_fit(
    case: LiveLifecycleCase,
    attestations: Seq<AttestationModel>,
    actions: Seq<ObservedAction>,
    started_at: EvidenceTimestamp,
    completed_at: EvidenceTimestamp,
    from: int,
)
    requires
        0 <= from <= attestations.len(),
    ensures
        first_unfit(case, attestations, actions, started_at, completed_at, from) is None
            <==> forall|i: int|
            from <= i < attestations.len() ==> coverage_fits(
                case,
                #[trigger] attestations[i],
                actions[i],
                started_at,
                completed_at,
            ),
    decreases attestations.len() - from,
{
    if from < attestations.len() {
        lemma_all_fit(case, attestations, actions, started_at, completed_at, from + 1);
        if !coverage_fits(case, attestations[from], actions[from], started_at, completed_at) {
            assert(!coverage_fits(
                case,
                attestations[from],
                actions[from],
                started_at,
                completed_at,
            ));
        }
    }
}

/// The observers of a case are accepted exactly where there is one for each action, under its name and
/// around it, within the case, checking without a gap from its start to its end; where no gap of more
/// than five seconds lies between one observer's end and the next one's start; and where, but for a
/// reboot, they begin and end within five seconds of the case.
pub proof fn accepted_observers_cover_every_action(
    case: LiveLifecycleCase,
    attestations: Seq<AttestationModel>,
    observation: LiveLifecycleCaseObservation,
    started_at: EvidenceTimestamp,
    completed_at: EvidenceTimestamp,
)
    ensures
        coverage_error(case, attestations, observation, started_at, completed_at) is None <==> {
            let actions = expected_actions(observation, completed_at);
            let last = attestations.len() - 1;
            &&& attestations.len() == actions.len()
            &&& forall|i: int|
                0 <= i < attestations.len() ==> {
                    let seen = #[trigger] attestations[i];
                    &&& seen.action == actions[i].name@
                    &&& seen.checks.len() >= 2
                    &&& seen.checks[0] == seen.started_at
                    &&& seen.checks[seen.checks.len() - 1] == seen.completed_at
                    &&& checks_are_continuous(seen.checks)
                    &&& is_by(seen.started_at, actions[i].started_at)
                    &&& is_by(actions[i].completed_at, seen.completed_at)
                    &&& is_by(seen.completed_at, completed_at)
                    &&& started_at.wall_unix_millis <= seen.started_at.wall_unix_millis
                    &&& !(case is Reboot) ==> started_at.monotonic_millis
                        <= seen.started_at.monotonic_millis
                }
            &&& forall|i: int, j: int|
                0 <= i < attestations.len() && j == i + 1 && j < attestations.len() ==> {
                    let (first, second) = (#[trigger] attestations[i], #[trigger] attestations[j]);
                    &&& second.started_at.monotonic_millis <= first.completed_at.monotonic_millis
                        + 5_000
                    &&& second.started_at.wall_unix_millis <= first.completed_at.wall_unix_millis
                        + 5_000
                }
            &&& !(case is Reboot) && attestations.len() > 0 ==> {
                &&& promptly_follows(started_at, attestations[0].started_at)
                &&& promptly_follows(attestations[last].completed_at, completed_at)
            }
        },
{
    let actions = expected_actions(observation, completed_at);
    lemma_all_fit(case, attestations, actions, started_at, completed_at, 0);
    if crate::lifecycle_rules::coverage_breaks(attestations) {
        let i = choose|i: int|
            0 <= i < attestations.len() - 1 && crate::lifecycle_rules::leaves_a_gap(
                attestations[i].completed_at,
                (#[trigger] attestations[i + 1]).started_at,
            );
        assert(attestations[i].completed_at.monotonic_millis + 5_000 < attestations[i
            + 1].started_at.monotonic_millis || attestations[i].completed_at.wall_unix_millis
            + 5_000 < attestations[i + 1].started_at.wall_unix_millis);
    } else {
        assert forall|i: int, j: int|
            0 <= i < attestations.len() && j == i + 1 && j < attestations.len() implies {
            let (first, second) = (#[trigger] attestations[i], #[trigger] attestations[j]);
            &&& second.started_at.monotonic_millis <= first.completed_at.monotonic_millis + 5_000
            &&& second.started_at.wall_unix_millis <= first.completed_at.wall_unix_millis + 5_000
        } by {
            assert(!crate::lifecycle_rules::leaves_a_gap(
                attestations[i].completed_at,
                attestations[i + 1].started_at,
            ));
        }
    }
}

} // verus!
