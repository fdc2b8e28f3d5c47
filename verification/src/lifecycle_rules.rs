//! What a lifecycle observation must prove before its case counts as passed.

use vstd::prelude::*;
use vstd::string::*;
use crate::evidence::{EvidenceExternalPower, EvidenceProfile, EvidenceTimestamp};
use crate::lifecycle::{
    attestations, boot_change, case_of, comes_after, comes_strictly_after, follows,
    identity_has_nonblank_character, not_before, observation_case, reaches,
    reboot_boot_ids_are_valid, shows_something, strictly_follows, AttestationModel,
    LiveLifecycleCase, LiveLifecycleCaseObservation, LiveLifecycleFanAutoPair,
    LiveLifecycleObserverAttestation, LIVE_OBSERVER_MAX_CHECK_GAP_MILLIS, LIVE_RESTART_DELAY_MILLIS,
    LIVE_START_LIMIT_BURST,
};
use crate::text::{join, join3, same_text};

verus! {

broadcast use vstd::string::group_string_axioms;

/// The enable-endpoint identities of the CPU fan and the GPU fan.
pub type FanIdentities = (Seq<char>, Seq<char>);

/// The contents of a pair of identities.
pub open spec fn identities(pair: (String, String)) -> FanIdentities {
    (pair.0@, pair.1@)
}

/// Whether both fans freshly read back Firmware Auto.
pub open spec fn pair_is_auto(pair: LiveLifecycleFanAutoPair) -> bool {
    pair.cpu.fresh && pair.gpu.fresh && pair.cpu.enable_readback == Some(2u32)
        && pair.gpu.enable_readback == Some(2u32)
}

/// The identities that a pair of observations was read from.
pub open spec fn pair_identities(pair: LiveLifecycleFanAutoPair) -> FanIdentities {
    (pair.cpu.endpoint_identity@, pair.gpu.endpoint_identity@)
}

/// Two identities that show something and differ.
pub open spec fn distinct_identities(ids: FanIdentities) -> bool {
    shows_something(ids.0) && shows_something(ids.1) && ids.0 != ids.1
}

/// The identities that a pair rebinds to after a boot: unambiguous, and no fan under the
/// identity that the other fan had before.
pub open spec fn rebinds(pair: LiveLifecycleFanAutoPair, previous: Option<FanIdentities>) -> bool {
    let ids = pair_identities(pair);
    distinct_identities(ids) && (previous matches Some(before) ==> ids.0 != before.1 && ids.1
        != before.0)
}

/// Whether a pair was read in order, after `started_at` and before a boundary that lies within
/// the case, from the expected endpoints in Firmware Auto.
pub open spec fn auto_before(
    pair: LiveLifecycleFanAutoPair,
    boundary: EvidenceTimestamp,
    started_at: EvidenceTimestamp,
    completed_at: EvidenceTimestamp,
    expected: FanIdentities,
) -> bool {
    &&& follows(started_at, pair.cpu.observed_at)
    &&& follows(started_at, pair.gpu.observed_at)
    &&& follows(pair.cpu.observed_at, pair.gpu.observed_at)
    &&& follows(pair.cpu.observed_at, boundary)
    &&& follows(pair.gpu.observed_at, boundary)
    &&& reaches(boundary, completed_at)
    &&& pair_is_auto(pair)
    &&& pair_identities(pair) == expected
}

/// The message for a missing confirmation before a boundary.
pub open spec fn before_boundary_text(boundary_name: Seq<char>) -> Seq<char> {
    "both fans must confirm Firmware Auto before "@ + boundary_name
}

/// Why a pair does not prove Firmware Auto between an event and a boundary.
pub open spec fn recovery_pair_error(
    pair: LiveLifecycleFanAutoPair,
    event_at: EvidenceTimestamp,
    boundary: EvidenceTimestamp,
    started_at: EvidenceTimestamp,
    completed_at: EvidenceTimestamp,
    expected: FanIdentities,
    boundary_name: Seq<char>,
) -> Option<Seq<char>> {
    if !(follows(started_at, event_at) && follows(event_at, pair.cpu.observed_at) && follows(
        event_at,
        pair.gpu.observed_at,
    )) {
        Some(
            "both fans must confirm Firmware Auto after the recovery event and before "@
                + boundary_name,
        )
    } else if !auto_before(pair, boundary, event_at, completed_at, expected) {
        Some(before_boundary_text(boundary_name))
    } else {
        None
    }
}

/// Why a bounded recovery is not proved.
pub open spec fn bounded_recovery_error(
    start_limit_reset_at: EvidenceTimestamp,
    event_at: EvidenceTimestamp,
    pair: LiveLifecycleFanAutoPair,
    restarted_at: EvidenceTimestamp,
    identity_before: Seq<char>,
    identity_after: Seq<char>,
    started_at: EvidenceTimestamp,
    completed_at: EvidenceTimestamp,
    expected: FanIdentities,
) -> Option<Seq<char>> {
    if !(follows(started_at, start_limit_reset_at) && follows(start_limit_reset_at, event_at)
        && distinct_identities((identity_before, identity_after))) {
        Some(
            "bounded recovery must reset the start limit before the event and restart a new process"@,
        )
    } else {
        recovery_pair_error(
            pair,
            event_at,
            restarted_at,
            started_at,
            completed_at,
            expected,
            "restart"@,
        )
    }
}

/// A message under a case's name.
pub open spec fn case_failure(case: LiveLifecycleCase, detail: Seq<char>) -> Seq<char> {
    case.name() + " failed: "@ + detail
}

/// The same, where there is a message.
pub open spec fn under_case(case: LiveLifecycleCase, detail: Option<Seq<char>>) -> Option<
    Seq<char>,
> {
    match detail {
        Some(detail) => Some(case_failure(case, detail)),
        None => None,
    }
}

/// The message for evidence of the right case that does not show the outcome.
pub open spec fn unconfirmed(case: LiveLifecycleCase) -> Option<Seq<char>> {
    Some(case_failure(case, "required non-destructive outcome was not confirmed"@))
}

/// Why a reboot observation is not proved.
pub open spec fn reboot_error(
    observation: LiveLifecycleCaseObservation,
    started_at: EvidenceTimestamp,
    completed_at: EvidenceTimestamp,
    expected: FanIdentities,
) -> Option<Seq<char>> {
    match observation {
        LiveLifecycleCaseObservation::Reboot {
            reboot_completed: true,
            boot_id_before,
            boot_id_after,
            post_boot_at,
            auto_before_arm: Some(auto_before_arm),
            armed_at: Some(armed_at),
            controller_process_identity: Some(controller_process_identity),
            restored_at: Some(restored_at),
            auto_after_arm: Some(auto_after_arm),
        } => if !(boot_change(boot_id_before@, boot_id_after@) && post_boot_at.wall_unix_millis
            > started_at.wall_unix_millis && post_boot_at.monotonic_millis
            <= completed_at.monotonic_millis && strictly_follows(
            post_boot_at,
            auto_before_arm.cpu.observed_at,
        ) && strictly_follows(post_boot_at, auto_before_arm.gpu.observed_at) && strictly_follows(
            auto_before_arm.cpu.observed_at,
            armed_at,
        ) && strictly_follows(auto_before_arm.gpu.observed_at, armed_at) && reaches(
            armed_at,
            completed_at,
        ) && strictly_follows(armed_at, restored_at) && reaches(restored_at, completed_at)) {
            Some(reboot_unproved())
        } else if !shows_something(controller_process_identity@) {
            Some("reboot failed: armed controller process identity is empty"@)
        } else if !(rebinds(auto_before_arm, Some(expected)) && pair_is_auto(auto_before_arm)) {
            Some(
                "reboot failed: both fans must confirm Firmware Auto after boot and before arming"@,
            )
        } else if !(rebinds(auto_after_arm, Some(pair_identities(auto_before_arm)))
            && pair_is_auto(auto_after_arm)) {
            Some(
                "reboot failed: both fans must confirm Firmware Auto after post-boot arming"@,
            )
        } else if !(reaches(restored_at, auto_after_arm.cpu.observed_at) && reaches(
            restored_at,
            auto_after_arm.gpu.observed_at,
        )) {
            Some("reboot failed: terminal Firmware Auto observations predate restoration"@)
        } else {
            None
        },
        _ => Some(reboot_unproved()),
    }
}

/// The message for a reboot that is not proved at all.
pub open spec fn reboot_unproved() -> Seq<char> {
    "reboot failed: both fans must confirm Firmware Auto after a verified boot change and before arming"@
}

/// Why an observation does not prove its case: `None` where it does.
pub open spec fn case_error(
    case: LiveLifecycleCase,
    observation: LiveLifecycleCaseObservation,
    started_at: EvidenceTimestamp,
    completed_at: EvidenceTimestamp,
    expected: FanIdentities,
) -> Option<Seq<char>> {
    if case_of(observation) != case {
        Some(
            case_failure(
                case,
                "environment returned evidence for a different lifecycle case"@,
            ),
        )
    } else {
        match observation {
            LiveLifecycleCaseObservation::InvalidConfiguration {
                observed_at,
                fresh,
                rejected_before_custom_control,
            } => if fresh && rejected_before_custom_control && follows(started_at, observed_at)
                && reaches(observed_at, completed_at) {
                None
            } else {
                unconfirmed(case)
            },
            LiveLifecycleCaseObservation::DuplicateProcess {
                observed_at,
                fresh,
                duplicate_rejected,
                original_owner_preserved,
                original_process_identity,
                rejected_process_identity,
            } => if fresh && duplicate_rejected && original_owner_preserved && follows(
                started_at,
                observed_at,
            ) && reaches(observed_at, completed_at) && distinct_identities(
                (original_process_identity@, rejected_process_identity@),
            ) {
                None
            } else {
                unconfirmed(case)
            },
            LiveLifecycleCaseObservation::NormalStopRestart {
                clean_stop,
                stopped_at,
                auto_before_restart,
                restarted_at,
                fresh_process,
                process_identity_before,
                process_identity_after,
            } => if clean_stop && fresh_process && distinct_identities(
                (process_identity_before@, process_identity_after@),
            ) {
                recovery_pair_error(
                    auto_before_restart,
                    stopped_at,
                    restarted_at,
                    started_at,
                    completed_at,
                    expected,
                    "restart"@,
                )
            } else {
                unconfirmed(case)
            },
            LiveLifecycleCaseObservation::ProcessKillRecovery {
                sigkill_observed,
                start_limit_reset_at,
                killed_at,
                auto_before_restart,
                restarted_at,
                process_identity_before,
                process_identity_after,
                restart_delay_millis,
                start_limit_burst,
            } => if sigkill_observed && restart_delay_millis == 2_000 && start_limit_burst == 2 {
                under_case(
                    case,
                    bounded_recovery_error(
                        start_limit_reset_at,
                        killed_at,
                        auto_before_restart,
                        restarted_at,
                        process_identity_before@,
                        process_identity_after@,
                        started_at,
                        completed_at,
                        expected,
                    ),
                )
            } else {
                unconfirmed(case)
            },
            LiveLifecycleCaseObservation::WatchdogRecovery {
                watchdog_expired,
                start_limit_reset_at,
                expired_at,
                auto_before_restart,
                restarted_at,
                process_identity_before,
                process_identity_after,
                restart_delay_millis,
                start_limit_burst,
            } => if watchdog_expired && restart_delay_millis == 2_000 && start_limit_burst == 2 {
                under_case(
                    case,
                    bounded_recovery_error(
                        start_limit_reset_at,
                        expired_at,
                        auto_before_restart,
                        restarted_at,
                        process_identity_before@,
                        process_identity_after@,
                        started_at,
                        completed_at,
                        expected,
                    ),
                )
            } else {
                unconfirmed(case)
            },
            LiveLifecycleCaseObservation::AcToBatteryTransition {
                before,
                after,
                selected_profile_after,
            } => if before.fresh && before.source == EvidenceExternalPower::Ac && after.fresh
                && after.source == EvidenceExternalPower::Battery && selected_profile_after.fresh
                && selected_profile_after.profile == EvidenceProfile::Battery && follows(
                started_at,
                before.observed_at,
            ) && follows(before.observed_at, after.observed_at) && reaches(
                after.observed_at,
                selected_profile_after.observed_at,
            ) && reaches(selected_profile_after.observed_at, completed_at) {
                None
            } else {
                unconfirmed(case)
            },
            LiveLifecycleCaseObservation::SuspendResume {
                auto_before_sleep,
                suspended_at,
                suspend_completed,
                resumed_at,
                process_started_at,
                process_identity_before,
                process_identity_after,
            } => if suspend_completed && follows(suspended_at, resumed_at) && follows(
                resumed_at,
                process_started_at,
            ) && reaches(process_started_at, completed_at) && distinct_identities(
                (process_identity_before@, process_identity_after@),
            ) {
                if auto_before(auto_before_sleep, suspended_at, started_at, completed_at, expected) {
                    None
                } else {
                    Some(before_boundary_text("sleep"@))
                }
            } else {
                unconfirmed(case)
            },
            LiveLifecycleCaseObservation::Reboot { .. } => reboot_error(
                observation,
                started_at,
                completed_at,
                expected,
            ),
        }
    }
}

/// A refusal with its message, or acceptance.
pub open spec fn refusal_is(result: Result<(), String>, error: Option<Seq<char>>) -> bool {
    match error {
        Some(text) => result is Err && result->Err_0@ == text,
        None => result is Ok,
    }
}

pub(crate) fn identities_are_distinct(first: &str, second: &str) -> (yes: bool)
    ensures
        yes == distinct_identities((first@, second@)),
{
    identity_has_nonblank_character(first) && identity_has_nonblank_character(second) && !same_text(
        first,
        second,
    )
}

fn readback_is_auto(readback: Option<u32>) -> (yes: bool)
    ensures
        yes == (readback == Some(2u32)),
{
    match readback {
        Some(value) => value == 2,
        None => false,
    }
}

pub(crate) fn both_are_auto(pair: &LiveLifecycleFanAutoPair) -> (yes: bool)
    ensures
        yes == pair_is_auto(*pair),
{
    pair.cpu.fresh && pair.gpu.fresh && readback_is_auto(pair.cpu.enable_readback)
        && readback_is_auto(pair.gpu.enable_readback)
}

pub(crate) fn pair_rebinds(
    pair: &LiveLifecycleFanAutoPair,
    previous: Option<&(String, String)>,
) -> (yes: bool)
    ensures
        yes == rebinds(
            *pair,
            match previous {
                Some(ids) => Some(identities(*ids)),
                None => None,
            },
        ),
{
    if !identities_are_distinct(
        pair.cpu.endpoint_identity.as_str(),
        pair.gpu.endpoint_identity.as_str(),
    ) {
        return false;
    }
    match previous {
        Some(before) => !same_text(pair.cpu.endpoint_identity.as_str(), before.1.as_str())
            && !same_text(pair.gpu.endpoint_identity.as_str(), before.0.as_str()),
        None => true,
    }
}

/// The identities that a pair rebinds to, where it does.
pub fn rebound_identities(
    pair: &LiveLifecycleFanAutoPair,
    previous: Option<&(String, String)>,
) -> (rebound: Option<(String, String)>)
    ensures
        match rebound {
            Some(ids) => identities(ids) == pair_identities(*pair) && rebinds(
                *pair,
                match previous {
                    Some(ids) => Some(identities(*ids)),
                    None => None,
                },
            ),
            None => !rebinds(
                *pair,
                match previous {
                    Some(ids) => Some(identities(*ids)),
                    None => None,
                },
            ),
        },
{
    if pair_rebinds(pair, previous) {
        Some((pair.cpu.endpoint_identity.clone(), pair.gpu.endpoint_identity.clone()))
    } else {
        None
    }
}

fn auto_is_before(
    pair: &LiveLifecycleFanAutoPair,
    boundary: EvidenceTimestamp,
    started_at: EvidenceTimestamp,
    completed_at: EvidenceTimestamp,
    expected: &(String, String),
) -> (yes: bool)
    ensures
        yes == auto_before(*pair, boundary, started_at, completed_at, identities(*expected)),
{
    comes_after(started_at, pair.cpu.observed_at) && comes_after(started_at, pair.gpu.observed_at)
        && comes_after(pair.cpu.observed_at, pair.gpu.observed_at) && comes_after(
        pair.cpu.observed_at,
        boundary,
    ) && comes_after(pair.gpu.observed_at, boundary) && not_before(boundary, completed_at)
        && both_are_auto(pair) && same_text(
        pair.cpu.endpoint_identity.as_str(),
        expected.0.as_str(),
    ) && same_text(pair.gpu.endpoint_identity.as_str(), expected.1.as_str())
}

fn validate_auto_before_boundary(
    pair: &LiveLifecycleFanAutoPair,
    boundary: EvidenceTimestamp,
    started_at: EvidenceTimestamp,
    completed_at: EvidenceTimestamp,
    expected: &(String, String),
    boundary_name: &str,
) -> (result: Result<(), String>)
    ensures
        refusal_is(
            result,
            if auto_before(*pair, boundary, started_at, completed_at, identities(*expected)) {
                None
            } else {
                Some(before_boundary_text(boundary_name@))
            },
        ),
{
    if auto_is_before(pair, boundary, started_at, completed_at, expected) {
        Ok(())
    } else {
        Err(join("both fans must confirm Firmware Auto before ", boundary_name))
    }
}

fn validate_auto_after_event_before_boundary(
    pair: &LiveLifecycleFanAutoPair,
    event_at: EvidenceTimestamp,
    boundary: EvidenceTimestamp,
    started_at: EvidenceTimestamp,
    completed_at: EvidenceTimestamp,
    expected: &(String, String),
    boundary_name: &str,
) -> (result: Result<(), String>)
    ensures
        refusal_is(
            result,
            recovery_pair_error(
                *pair,
                event_at,
                boundary,
                started_at,
                completed_at,
                identities(*expected),
                boundary_name@,
            ),
        ),
{
    if !(comes_after(started_at, event_at) && comes_after(event_at, pair.cpu.observed_at)
        && comes_after(event_at, pair.gpu.observed_at)) {
        return Err(
            join(
                "both fans must confirm Firmware Auto after the recovery event and before ",
                boundary_name,
            ),
        );
    }
    validate_auto_before_boundary(
        pair,
        boundary,
        event_at,
        completed_at,
        expected,
        boundary_name,
    )
}

/// What a daemon's recovery after a kill or a watchdog expiry was observed to be.
struct BoundedRecoveryProof<'a> {
    start_limit_reset_at: EvidenceTimestamp,
    event_at: EvidenceTimestamp,
    auto_before_restart: &'a LiveLifecycleFanAutoPair,
    restarted_at: EvidenceTimestamp,
    process_identity_before: &'a str,
    process_identity_after: &'a str,
}

fn validate_bounded_recovery(
    case: LiveLifecycleCase,
    proved: BoundedRecoveryProof<'_>,
    started_at: EvidenceTimestamp,
    completed_at: EvidenceTimestamp,
    expected: &(String, String),
) -> (result: Result<(), String>)
    ensures
        refusal_is(
            result,
            under_case(
                case,
                bounded_recovery_error(
                    proved.start_limit_reset_at,
                    proved.event_at,
                    *proved.auto_before_restart,
                    proved.restarted_at,
                    proved.process_identity_before@,
                    proved.process_identity_after@,
                    started_at,
                    completed_at,
                    identities(*expected),
                ),
            ),
        ),
{
    if !(comes_after(started_at, proved.start_limit_reset_at) && comes_after(
        proved.start_limit_reset_at,
        proved.event_at,
    ) && identities_are_distinct(proved.process_identity_before, proved.process_identity_after)) {
        return Err(
            join3(
                case.id(),
                " failed: ",
                "bounded recovery must reset the start limit before the event and restart a new process",
            ),
        );
    }
    match validate_auto_after_event_before_boundary(
        proved.auto_before_restart,
        proved.event_at,
        proved.restarted_at,
        started_at,
        completed_at,
        expected,
        "restart",
    ) {
        Ok(()) => Ok(()),
        Err(detail) => Err(join3(case.id(), " failed: ", detail.as_str())),
    }
}

fn outcome_unconfirmed(case: LiveLifecycleCase) -> (result: Result<(), String>)
    ensures
        refusal_is(result, unconfirmed(case)),
{
    Err(join3(case.id(), " failed: ", "required non-destructive outcome was not confirmed"))
}

fn validate_reboot(
    observation: &LiveLifecycleCaseObservation,
    started_at: EvidenceTimestamp,
    completed_at: EvidenceTimestamp,
    expected: &(String, String),
) -> (result: Result<(), String>)
    ensures
        refusal_is(
            result,
            reboot_error(*observation, started_at, completed_at, identities(*expected)),
        ),
{
    match observation {
        LiveLifecycleCaseObservation::Reboot {
            reboot_completed: true,
            boot_id_before,
            boot_id_after,
            post_boot_at,
            auto_before_arm: Some(auto_before_arm),
            armed_at: Some(armed_at),
            controller_process_identity: Some(controller_process_identity),
            restored_at: Some(restored_at),
            auto_after_arm: Some(auto_after_arm),
        } => {
            if !(reboot_boot_ids_are_valid(boot_id_before.as_str(), boot_id_after.as_str())
                && post_boot_at.wall_unix_millis > started_at.wall_unix_millis
                && post_boot_at.monotonic_millis <= completed_at.monotonic_millis
                && comes_strictly_after(*post_boot_at, auto_before_arm.cpu.observed_at)
                && comes_strictly_after(*post_boot_at, auto_before_arm.gpu.observed_at)
                && comes_strictly_after(auto_before_arm.cpu.observed_at, *armed_at)
                && comes_strictly_after(auto_before_arm.gpu.observed_at, *armed_at) && not_before(
                *armed_at,
                completed_at,
            ) && comes_strictly_after(*armed_at, *restored_at) && not_before(
                *restored_at,
                completed_at,
            )) {
                return Err(
                    "reboot failed: both fans must confirm Firmware Auto after a verified boot change and before arming".to_owned(),
                );
            }
            if !identity_has_nonblank_character(controller_process_identity.as_str()) {
                return Err(
                    "reboot failed: armed controller process identity is empty".to_owned(),
                );
            }
            if !(pair_rebinds(auto_before_arm, Some(expected)) && both_are_auto(auto_before_arm)) {
                return Err(
                    "reboot failed: both fans must confirm Firmware Auto after boot and before arming".to_owned(),
                );
            }
            let rebound = (
                auto_before_arm.cpu.endpoint_identity.clone(),
                auto_before_arm.gpu.endpoint_identity.clone(),
            );
            if !(pair_rebinds(auto_after_arm, Some(&rebound)) && both_are_auto(auto_after_arm)) {
                return Err(
                    "reboot failed: both fans must confirm Firmware Auto after post-boot arming".to_owned(),
                );
            }
            if !(not_before(*restored_at, auto_after_arm.cpu.observed_at) && not_before(
                *restored_at,
                auto_after_arm.gpu.observed_at,
            )) {
                return Err(
                    "reboot failed: terminal Firmware Auto observations predate restoration".to_owned(),
                );
            }
            Ok(())
        },
        _ => Err(
            "reboot failed: both fans must confirm Firmware Auto after a verified boot change and before arming".to_owned(),
        ),
    }
}

/// Decides whether an observation proves its case.
pub fn validate_case_observation(
    case: LiveLifecycleCase,
    observation: &LiveLifecycleCaseObservation,
    started_at: EvidenceTimestamp,
    completed_at: EvidenceTimestamp,
    expected: &(String, String),
) -> (result: Result<(), String>)
    ensures
        refusal_is(
            result,
            case_error(case, *observation, started_at, completed_at, identities(*expected)),
        ),
{
    if observation_case(observation) != case {
        return Err(
            join3(
                case.id(),
                " failed: ",
                "environment returned evidence for a different lifecycle case",
            ),
        );
    }
    match observation {
        LiveLifecycleCaseObservation::InvalidConfiguration {
            observed_at,
            fresh,
            rejected_before_custom_control,
        } => {
            if *fresh && *rejected_before_custom_control && comes_after(started_at, *observed_at)
                && not_before(*observed_at, completed_at) {
                Ok(())
            } else {
                outcome_unconfirmed(case)
            }
        },
        LiveLifecycleCaseObservation::DuplicateProcess {
            observed_at,
            fresh,
            duplicate_rejected,
            original_owner_preserved,
            original_process_identity,
            rejected_process_identity,
        } => {
            if *fresh && *duplicate_rejected && *original_owner_preserved && comes_after(
                started_at,
                *observed_at,
            ) && not_before(*observed_at, completed_at) && identities_are_distinct(
                original_process_identity.as_str(),
                rejected_process_identity.as_str(),
            ) {
                Ok(())
            } else {
                outcome_unconfirmed(case)
            }
        },
        LiveLifecycleCaseObservation::NormalStopRestart {
            clean_stop,
            stopped_at,
            auto_before_restart,
            restarted_at,
            fresh_process,
            process_identity_before,
            process_identity_after,
        } => {
            if *clean_stop && *fresh_process && identities_are_distinct(
                process_identity_before.as_str(),
                process_identity_after.as_str(),
            ) {
                validate_auto_after_event_before_boundary(
                    auto_before_restart,
                    *stopped_at,
                    *restarted_at,
                    started_at,
                    completed_at,
                    expected,
                    "restart",
                )
            } else {
                outcome_unconfirmed(case)
            }
        },
        LiveLifecycleCaseObservation::ProcessKillRecovery {
            sigkill_observed,
            start_limit_reset_at,
            killed_at,
            auto_before_restart,
            restarted_at,
            process_identity_before,
            process_identity_after,
            restart_delay_millis,
            start_limit_burst,
        } => {
            if *sigkill_observed && *restart_delay_millis == LIVE_RESTART_DELAY_MILLIS
                && *start_limit_burst == LIVE_START_LIMIT_BURST {
                validate_bounded_recovery(
                    case,
                    BoundedRecoveryProof {
                        start_limit_reset_at: *start_limit_reset_at,
                        event_at: *killed_at,
                        auto_before_restart,
                        restarted_at: *restarted_at,
                        process_identity_before: process_identity_before.as_str(),
                        process_identity_after: process_identity_after.as_str(),
                    },
                    started_at,
                    completed_at,
                    expected,
                )
            } else {
                outcome_unconfirmed(case)
            }
        },
        LiveLifecycleCaseObservation::WatchdogRecovery {
            watchdog_expired,
            start_limit_reset_at,
            expired_at,
            auto_before_restart,
            restarted_at,
            process_identity_before,
            process_identity_after,
            restart_delay_millis,
            start_limit_burst,
        } => {
            if *watchdog_expired && *restart_delay_millis == LIVE_RESTART_DELAY_MILLIS
                && *start_limit_burst == LIVE_START_LIMIT_BURST {
                validate_bounded_recovery(
                    case,
                    BoundedRecoveryProof {
                        start_limit_reset_at: *start_limit_reset_at,
                        event_at: *expired_at,
                        auto_before_restart,
                        restarted_at: *restarted_at,
                        process_identity_before: process_identity_before.as_str(),
                        process_identity_after: process_identity_after.as_str(),
                    },
                    started_at,
                    completed_at,
                    expected,
                )
            } else {
                outcome_unconfirmed(case)
            }
        },
        LiveLifecycleCaseObservation::AcToBatteryTransition {
            before,
            after,
            selected_profile_after,
        } => {
            if before.fresh && before.source == EvidenceExternalPower::Ac && after.fresh
                && after.source == EvidenceExternalPower::Battery && selected_profile_after.fresh
                && selected_profile_after.profile == EvidenceProfile::Battery && comes_after(
                started_at,
                before.observed_at,
            ) && comes_after(before.observed_at, after.observed_at) && not_before(
                after.observed_at,
                selected_profile_after.observed_at,
            ) && not_before(selected_profile_after.observed_at, completed_at) {
                Ok(())
            } else {
                outcome_unconfirmed(case)
            }
        },
        LiveLifecycleCaseObservation::SuspendResume {
            auto_before_sleep,
            suspended_at,
            suspend_completed,
            resumed_at,
            process_started_at,
            process_identity_before,
            process_identity_after,
        } => {
            if *suspend_completed && comes_after(*suspended_at, *resumed_at) && comes_after(
                *resumed_at,
                *process_started_at,
            ) && not_before(*process_started_at, completed_at) && identities_are_distinct(
                process_identity_before.as_str(),
                process_identity_after.as_str(),
            ) {
                validate_auto_before_boundary(
                    auto_before_sleep,
                    *suspended_at,
                    started_at,
                    completed_at,
                    expected,
                    "sleep",
                )
            } else {
                outcome_unconfirmed(case)
            }
        },
        LiveLifecycleCaseObservation::Reboot { .. } => validate_reboot(
            observation,
            started_at,
            completed_at,
            expected,
        ),
    }
}

/// A Custom-control action that the physical observer must cover.
#[derive(Debug, Clone, Copy)]
pub struct ObservedAction {
    pub name: &'static str,
    pub started_at: EvidenceTimestamp,
    pub completed_at: EvidenceTimestamp,
}

/// An action at one moment.
pub open spec fn moment(name: &'static str, at: EvidenceTimestamp) -> ObservedAction {
    ObservedAction { name, started_at: at, completed_at: at }
}

/// The actions of a case, in order.
pub open spec fn expected_actions(
    observation: LiveLifecycleCaseObservation,
    completed_at: EvidenceTimestamp,
) -> Seq<ObservedAction> {
    match observation {
        LiveLifecycleCaseObservation::InvalidConfiguration { .. } => seq![],
        LiveLifecycleCaseObservation::DuplicateProcess { observed_at, .. } => seq![
            moment("duplicate-owner-custom", observed_at),
            moment("duplicate-process-cleanup", completed_at),
        ],
        LiveLifecycleCaseObservation::NormalStopRestart { stopped_at, restarted_at, .. } => seq![
            moment("normal-owner-before-stop", stopped_at),
            moment("normal-restart-custom", restarted_at),
            moment("normal-stop-restart-cleanup", completed_at),
        ],
        LiveLifecycleCaseObservation::ProcessKillRecovery { killed_at, restarted_at, .. } => seq![
            moment("process-before-kill", killed_at),
            moment("bounded-restart-custom", restarted_at),
            moment("process-kill-recovery-cleanup", completed_at),
        ],
        LiveLifecycleCaseObservation::WatchdogRecovery { expired_at, restarted_at, .. } => seq![
            moment("watchdog-monitored-custom", expired_at),
            moment("bounded-restart-custom", restarted_at),
            moment("watchdog-recovery-cleanup", completed_at),
        ],
        LiveLifecycleCaseObservation::AcToBatteryTransition {
            before,
            selected_profile_after,
            ..
        } => seq![
            ObservedAction {
                name: "ac-transition-custom",
                started_at: before.observed_at,
                completed_at: selected_profile_after.observed_at,
            },
            moment("ac-to-battery-transition-cleanup", completed_at),
        ],
        LiveLifecycleCaseObservation::SuspendResume { suspended_at, process_started_at, .. } =>
            seq![
            moment("pre-suspend-custom", suspended_at),
            moment("post-resume-custom", process_started_at),
            moment("suspend-resume-cleanup", completed_at),
        ],
        LiveLifecycleCaseObservation::Reboot {
            armed_at: Some(armed_at),
            restored_at: Some(restored_at),
            ..
        } => seq![moment("post-reboot-arm", armed_at), moment("post-reboot-restore", restored_at)],
        LiveLifecycleCaseObservation::Reboot { .. } => seq![],
    }
}

fn at(name: &'static str, moment_at: EvidenceTimestamp) -> (action: ObservedAction)
    ensures
        action == moment(name, moment_at),
{
    ObservedAction { name, started_at: moment_at, completed_at: moment_at }
}

fn list_actions(
    observation: &LiveLifecycleCaseObservation,
    completed_at: EvidenceTimestamp,
) -> (actions: Vec<ObservedAction>)
    ensures
        actions@ == expected_actions(*observation, completed_at),
{
    let mut actions: Vec<ObservedAction> = Vec::new();
    match observation {
        LiveLifecycleCaseObservation::InvalidConfiguration { .. } => {},
        LiveLifecycleCaseObservation::DuplicateProcess { observed_at, .. } => {
            actions.push(at("duplicate-owner-custom", *observed_at));
            actions.push(at("duplicate-process-cleanup", completed_at));
        },
        LiveLifecycleCaseObservation::NormalStopRestart { stopped_at, restarted_at, .. } => {
            actions.push(at("normal-owner-before-stop", *stopped_at));
            actions.push(at("normal-restart-custom", *restarted_at));
            actions.push(at("normal-stop-restart-cleanup", completed_at));
        },
        LiveLifecycleCaseObservation::ProcessKillRecovery { killed_at, restarted_at, .. } => {
            actions.push(at("process-before-kill", *killed_at));
            actions.push(at("bounded-restart-custom", *restarted_at));
            actions.push(at("process-kill-recovery-cleanup", completed_at));
        },
        LiveLifecycleCaseObservation::WatchdogRecovery { expired_at, restarted_at, .. } => {
            actions.push(at("watchdog-monitored-custom", *expired_at));
            actions.push(at("bounded-restart-custom", *restarted_at));
            actions.push(at("watchdog-recovery-cleanup", completed_at));
        },
        LiveLifecycleCaseObservation::AcToBatteryTransition {
            before,
            selected_profile_after,
            ..
        } => {
            actions.push(
                ObservedAction {
                    name: "ac-transition-custom",
                    started_at: before.observed_at,
                    completed_at: selected_profile_after.observed_at,
                },
            );
            actions.push(at("ac-to-battery-transition-cleanup", completed_at));
        },
        LiveLifecycleCaseObservation::SuspendResume { suspended_at, process_started_at, .. } => {
            actions.push(at("pre-suspend-custom", *suspended_at));
            actions.push(at("post-resume-custom", *process_started_at));
            actions.push(at("suspend-resume-cleanup", completed_at));
        },
        LiveLifecycleCaseObservation::Reboot {
            armed_at: Some(armed_at),
            restored_at: Some(restored_at),
            ..
        } => {
            actions.push(at("post-reboot-arm", *armed_at));
            actions.push(at("post-reboot-restore", *restored_at));
        },
        LiveLifecycleCaseObservation::Reboot { .. } => {},
    }
    assert(actions@ =~= expected_actions(*observation, completed_at));
    actions
}

/// Whether two moments are at most five seconds apart, `later` not before `earlier`.
pub open spec fn promptly_follows(earlier: EvidenceTimestamp, later: EvidenceTimestamp) -> bool {
    &&& reaches(earlier, later)
    &&& later.monotonic_millis - earlier.monotonic_millis <= 5_000
    &&& later.wall_unix_millis - earlier.wall_unix_millis <= 5_000
}

/// Whether more than five seconds pass from one moment to another on either clock.
pub open spec fn leaves_a_gap(earlier: EvidenceTimestamp, later: EvidenceTimestamp) -> bool {
    later.monotonic_millis - earlier.monotonic_millis > 5_000 || later.wall_unix_millis
        - earlier.wall_unix_millis > 5_000
}

/// Whether successive checks advance and are at most five seconds apart.
pub open spec fn checks_are_continuous(checks: Seq<EvidenceTimestamp>) -> bool {
    forall|i: int|
        0 <= i < checks.len() - 1 ==> follows(checks[i], #[trigger] checks[i + 1])
            && !leaves_a_gap(checks[i], checks[i + 1])
}

/// Whether an attestation covers an action within a case.
pub open spec fn coverage_fits(
    case: LiveLifecycleCase,
    attestation: AttestationModel,
    action: ObservedAction,
    case_started_at: EvidenceTimestamp,
    case_completed_at: EvidenceTimestamp,
) -> bool {
    &&& attestation.checks.len() >= 2
    &&& attestation.checks[0] == attestation.started_at
    &&& attestation.checks.last() == attestation.completed_at
    &&& case == LiveLifecycleCase::Reboot || case_started_at.monotonic_millis
        <= attestation.started_at.monotonic_millis
    &&& case_started_at.wall_unix_millis <= attestation.started_at.wall_unix_millis
    &&& reaches(attestation.completed_at, case_completed_at)
    &&& reaches(attestation.started_at, action.started_at)
    &&& reaches(action.completed_at, attestation.completed_at)
    &&& checks_are_continuous(attestation.checks)
}

/// Whether the attestations name exactly the expected actions.
pub open spec fn actions_match(
    attestations: Seq<AttestationModel>,
    actions: Seq<ObservedAction>,
) -> bool {
    &&& attestations.len() == actions.len()
    &&& forall|i: int|
        0 <= i < actions.len() ==> (#[trigger] attestations[i]).action == actions[i].name@
}

/// Whether coverage breaks off between two actions.
pub open spec fn coverage_breaks(attestations: Seq<AttestationModel>) -> bool {
    exists|i: int|
        0 <= i < attestations.len() - 1 && leaves_a_gap(
            attestations[i].completed_at,
            (#[trigger] attestations[i + 1]).started_at,
        )
}

/// The index of the first attestation, at or after `from`, that does not cover its action.
pub open spec fn first_unfit(
    case: LiveLifecycleCase,
    attestations: Seq<AttestationModel>,
    actions: Seq<ObservedAction>,
    case_started_at: EvidenceTimestamp,
    case_completed_at: EvidenceTimestamp,
    from: int,
) -> Option<int>
    decreases attestations.len() - from,
{
    if from >= attestations.len() {
        None
    } else if !coverage_fits(
        case,
        attestations[from],
        actions[from],
        case_started_at,
        case_completed_at,
    ) {
        Some(from)
    } else {
        first_unfit(case, attestations, actions, case_started_at, case_completed_at, from + 1)
    }
}

/// Why a case is not covered by its observer: `None` where it is.
pub open spec fn coverage_error(
    case: LiveLifecycleCase,
    attestations: Seq<AttestationModel>,
    observation: LiveLifecycleCaseObservation,
    case_started_at: EvidenceTimestamp,
    case_completed_at: EvidenceTimestamp,
) -> Option<Seq<char>> {
    let actions = expected_actions(observation, case_completed_at);
    if !actions_match(attestations, actions) {
        Some(case_failure(case, "exact per-action observer coverage is required"@))
    } else if coverage_breaks(attestations) {
        Some(
            case_failure(
                case,
                "observer coverage is not continuous between Custom-control actions"@,
            ),
        )
    } else if case != LiveLifecycleCase::Reboot && attestations.len() > 0 && !(promptly_follows(
        case_started_at,
        attestations[0].started_at,
    ) && promptly_follows(attestations.last().completed_at, case_completed_at)) {
        Some(case_failure(case, "observer coverage does not span the complete live case"@))
    } else {
        match first_unfit(case, attestations, actions, case_started_at, case_completed_at, 0) {
            Some(index) => Some(
                case_failure(
                    case,
                    "observer coverage for "@ + attestations[index].action
                        + " is stale, gapped, or outside the action"@,
                ),
            ),
            None => None,
        }
    }
}

fn gap_is_left(earlier: EvidenceTimestamp, later: EvidenceTimestamp) -> (yes: bool)
    ensures
        yes == leaves_a_gap(earlier, later),
{
    (later.monotonic_millis > earlier.monotonic_millis && later.monotonic_millis
        - earlier.monotonic_millis > LIVE_OBSERVER_MAX_CHECK_GAP_MILLIS)
        || later.wall_unix_millis as i128 - earlier.wall_unix_millis as i128 > 5_000
}

fn is_prompt(earlier: EvidenceTimestamp, later: EvidenceTimestamp) -> (yes: bool)
    ensures
        yes == promptly_follows(earlier, later),
{
    not_before(earlier, later) && !gap_is_left(earlier, later)
}

fn same_moment(a: EvidenceTimestamp, b: EvidenceTimestamp) -> (same: bool)
    ensures
        same == (a == b),
{
    a.monotonic_millis == b.monotonic_millis && a.wall_unix_millis == b.wall_unix_millis
}

fn attestation_covers(
    case: LiveLifecycleCase,
    attestation: &LiveLifecycleObserverAttestation,
    action: ObservedAction,
    case_started_at: EvidenceTimestamp,
    case_completed_at: EvidenceTimestamp,
) -> (yes: bool)
    ensures
        yes == coverage_fits(case, attestation@, action, case_started_at, case_completed_at),
{
    let checks = &attestation.checks;
    if checks.len() < 2 {
        return false;
    }
    if !(same_moment(checks[0], attestation.started_at) && same_moment(
        checks[checks.len() - 1],
        attestation.completed_at,
    ) && (case == LiveLifecycleCase::Reboot || case_started_at.monotonic_millis
        <= attestation.started_at.monotonic_millis) && case_started_at.wall_unix_millis
        <= attestation.started_at.wall_unix_millis && not_before(
        attestation.completed_at,
        case_completed_at,
    ) && not_before(attestation.started_at, action.started_at) && not_before(
        action.completed_at,
        attestation.completed_at,
    )) {
        return false;
    }
    let mut i: usize = 1;
    while i < checks.len()
        invariant
            1 <= i <= checks.len(),
            checks == &attestation.checks,
            forall|k: int|
                0 <= k < i - 1 ==> follows(checks@[k], #[trigger] checks@[k + 1]) && !leaves_a_gap(
                    checks@[k],
                    checks@[k + 1],
                ),
        decreases checks.len() - i,
    {
        if !comes_after(checks[i - 1], checks[i]) || gap_is_left(checks[i - 1], checks[i]) {
            assert(!checks_are_continuous(checks@)) by {
                let k = i - 1;
                assert(!follows(checks@[k], checks@[k + 1]) || leaves_a_gap(
                    checks@[k],
                    checks@[k + 1],
                ));
            }
            return false;
        }
        i = i + 1;
    }
    true
}

/// Decides whether the physical observer covered every action of a case.
pub fn validate_observer_attestations(
    case: LiveLifecycleCase,
    coverage: &[LiveLifecycleObserverAttestation],
    observation: &LiveLifecycleCaseObservation,
    case_started_at: EvidenceTimestamp,
    case_completed_at: EvidenceTimestamp,
) -> (result: Result<(), String>)
    ensures
        refusal_is(
            result,
            coverage_error(
                case,
                attestations(coverage@),
                *observation,
                case_started_at,
                case_completed_at,
            ),
        ),
{
    let ghost models = attestations(coverage@);
    let actions = list_actions(observation, case_completed_at);
    if coverage.len() != actions.len() {
        return Err(
            join3(case.id(), " failed: ", "exact per-action observer coverage is required"),
        );
    }
    let mut i: usize = 0;
    while i < actions.len()
        invariant
            i <= actions.len(),
            coverage.len() == actions.len(),
            models == attestations(coverage@),
            actions@ == expected_actions(*observation, case_completed_at),
            forall|k: int| 0 <= k < i ==> (#[trigger] models[k]).action == actions@[k].name@,
        decreases actions.len() - i,
    {
        assert(models[i as int] == coverage@[i as int]@);
        if !same_text(coverage[i].action.as_str(), actions[i].name) {
            return Err(
                join3(case.id(), " failed: ", "exact per-action observer coverage is required"),
            );
        }
        i = i + 1;
    }
    assert(actions_match(models, actions@));
    i = 1;
    while i < coverage.len()
        invariant
            1 <= i,
            coverage.len() == actions.len(),
            models == attestations(coverage@),
            actions@ == expected_actions(*observation, case_completed_at),
            actions_match(models, actions@),
            forall|k: int|
                0 <= k < i - 1 && k < coverage.len() - 1 ==> !leaves_a_gap(
                    models[k].completed_at,
                    (#[trigger] models[k + 1]).started_at,
                ),
        decreases coverage.len() - i,
    {
        assert(models[i as int] == coverage@[i as int]@ && models[i - 1] == coverage@[i - 1]@);
        if gap_is_left(coverage[i - 1].completed_at, coverage[i].started_at) {
            assert(leaves_a_gap(models[i - 1].completed_at, models[(i - 1) + 1].started_at));
            return Err(
                join3(
                    case.id(),
                    " failed: ",
                    "observer coverage is not continuous between Custom-control actions",
                ),
            );
        }
        i = i + 1;
    }
    assert(!coverage_breaks(models));
    if case != LiveLifecycleCase::Reboot && coverage.len() > 0 {
        let last: usize = coverage.len() - 1;
        assert(models[0] == coverage@[0]@ && models.last() == coverage@[last as int]@);
        if !is_prompt(case_started_at, coverage[0].started_at) || !is_prompt(
            coverage[last].completed_at,
            case_completed_at,
        ) {
            return Err(
                join3(
                    case.id(),
                    " failed: ",
                    "observer coverage does not span the complete live case",
                ),
            );
        }
    }
    i = 0;
    while i < coverage.len()
        invariant
            i <= coverage.len(),
            coverage.len() == actions.len(),
            models == attestations(coverage@),
            actions@ == expected_actions(*observation, case_completed_at),
            actions_match(models, actions@),
            !coverage_breaks(models),
            case == LiveLifecycleCase::Reboot || models.len() == 0 || (promptly_follows(
                case_started_at,
                models[0].started_at,
            ) && promptly_follows(models.last().completed_at, case_completed_at)),
            first_unfit(case, models, actions@, case_started_at, case_completed_at, 0)
                == first_unfit(
                case,
                models,
                actions@,
                case_started_at,
                case_completed_at,
                i as int,
            ),
        decreases coverage.len() - i,
    {
        assert(models[i as int] == coverage@[i as int]@);
        if !attestation_covers(case, &coverage[i], actions[i], case_started_at, case_completed_at) {
            let place = join3(
                "observer coverage for ",
                coverage[i].action.as_str(),
                " is stale, gapped, or outside the action",
            );
            return Err(join3(case.id(), " failed: ", place.as_str()));
        }
        i = i + 1;
    }
    Ok(())
}

/// Whether the mode readbacks of an observation are values that the endpoint can hold.
pub open spec fn pair_fits_schema(pair: LiveLifecycleFanAutoPair) -> bool {
    &&& pair.cpu.enable_readback matches Some(value) ==> value <= 2
    &&& pair.gpu.enable_readback matches Some(value) ==> value <= 2
}

/// The same of every pair that an observation holds.
pub open spec fn observation_fits_schema(observation: LiveLifecycleCaseObservation) -> bool {
    match observation {
        LiveLifecycleCaseObservation::NormalStopRestart { auto_before_restart, .. } =>
            pair_fits_schema(auto_before_restart),
        LiveLifecycleCaseObservation::ProcessKillRecovery { auto_before_restart, .. } =>
            pair_fits_schema(auto_before_restart),
        LiveLifecycleCaseObservation::WatchdogRecovery { auto_before_restart, .. } =>
            pair_fits_schema(auto_before_restart),
        LiveLifecycleCaseObservation::SuspendResume { auto_before_sleep, .. } => pair_fits_schema(
            auto_before_sleep,
        ),
        LiveLifecycleCaseObservation::Reboot { auto_before_arm, auto_after_arm, .. } => {
            &&& auto_before_arm matches Some(pair) ==> pair_fits_schema(pair)
            &&& auto_after_arm matches Some(pair) ==> pair_fits_schema(pair)
        },
        _ => true,
    }
}

fn pair_fits(pair: &LiveLifecycleFanAutoPair) -> (yes: bool)
    ensures
        yes == pair_fits_schema(*pair),
{
    let cpu_fits = match pair.cpu.enable_readback {
        Some(value) => value <= 2,
        None => true,
    };
    let gpu_fits = match pair.gpu.enable_readback {
        Some(value) => value <= 2,
        None => true,
    };
    cpu_fits && gpu_fits
}

pub(crate) fn observation_values_fit_schema(observation: &LiveLifecycleCaseObservation) -> (yes:
    bool)
    ensures
        yes == observation_fits_schema(*observation),
{
    match observation {
        LiveLifecycleCaseObservation::NormalStopRestart { auto_before_restart, .. } => pair_fits(
            auto_before_restart,
        ),
        LiveLifecycleCaseObservation::ProcessKillRecovery { auto_before_restart, .. } => pair_fits(
            auto_before_restart,
        ),
        LiveLifecycleCaseObservation::WatchdogRecovery { auto_before_restart, .. } => pair_fits(
            auto_before_restart,
        ),
        LiveLifecycleCaseObservation::SuspendResume { auto_before_sleep, .. } => pair_fits(
            auto_before_sleep,
        ),
        LiveLifecycleCaseObservation::Reboot { auto_before_arm, auto_after_arm, .. } => {
            let before_fits = match auto_before_arm {
                Some(pair) => pair_fits(pair),
                None => true,
            };
            let after_fits = match auto_after_arm {
                Some(pair) => pair_fits(pair),
                None => true,
            };
            before_fits && after_fits
        },
        _ => true,
    }
}

/// Whether a reboot continuation proves the expected boot change, without having armed.
pub open spec fn continuation_proves_reboot(
    observation: LiveLifecycleCaseObservation,
    started_at: EvidenceTimestamp,
    completed_at: EvidenceTimestamp,
    expected_before: Seq<char>,
    expected_after: Seq<char>,
) -> bool {
    match observation {
        LiveLifecycleCaseObservation::Reboot {
            reboot_completed,
            boot_id_before,
            boot_id_after,
            post_boot_at,
            auto_before_arm,
            armed_at,
            controller_process_identity,
            restored_at,
            auto_after_arm,
        } => {
            &&& reboot_completed
            &&& auto_before_arm is None && armed_at is None && controller_process_identity is None
                && restored_at is None && auto_after_arm is None
            &&& boot_change(boot_id_before@, boot_id_after@)
            &&& boot_id_before@ == expected_before
            &&& boot_id_after@ == expected_after
            &&& post_boot_at.wall_unix_millis > started_at.wall_unix_millis
            &&& reaches(post_boot_at, completed_at)
        },
        _ => false,
    }
}

/// Decides [`continuation_proves_reboot`].
pub fn validate_reboot_continuation(
    observation: &LiveLifecycleCaseObservation,
    started_at: EvidenceTimestamp,
    completed_at: EvidenceTimestamp,
    expected_boot_id_before: &str,
    expected_boot_id_after: &str,
) -> (result: Result<(), String>)
    ensures
        refusal_is(
            result,
            if continuation_proves_reboot(
                *observation,
                started_at,
                completed_at,
                expected_boot_id_before@,
                expected_boot_id_after@,
            ) {
                None
            } else {
                Some(
                    "reboot failed: continuation must prove a distinct post-boot identity without arming Custom control"@,
                )
            },
        ),
{
    let proved = match observation {
        LiveLifecycleCaseObservation::Reboot {
            reboot_completed,
            boot_id_before,
            boot_id_after,
            post_boot_at,
            auto_before_arm,
            armed_at,
            controller_process_identity,
            restored_at,
            auto_after_arm,
        } => *reboot_completed && auto_before_arm.is_none() && armed_at.is_none()
            && controller_process_identity.is_none() && restored_at.is_none()
            && auto_after_arm.is_none() && reboot_boot_ids_are_valid(
            boot_id_before.as_str(),
            boot_id_after.as_str(),
        ) && same_text(boot_id_before.as_str(), expected_boot_id_before) && same_text(
            boot_id_after.as_str(),
            expected_boot_id_after,
        ) && post_boot_at.wall_unix_millis > started_at.wall_unix_millis && not_before(
            *post_boot_at,
            completed_at,
        ),
        _ => false,
    };
    if proved {
        Ok(())
    } else {
        Err(
            "reboot failed: continuation must prove a distinct post-boot identity without arming Custom control".to_owned(),
        )
    }
}

} // verus!
