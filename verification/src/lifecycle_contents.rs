//! What lifecycle observations and case results hold, as plain values.

use vstd::prelude::*;
use vstd::string::*;
use crate::evidence::{EvidenceTimestamp, FanReadbackEvidence, StateTransitionEvidence};
use crate::lifecycle::{
    attestations, AttestationModel, CaseResultModel, LiveLifecycleCase,
    LiveLifecycleCaseObservation, LiveLifecycleCaseResult, LiveLifecycleFanAutoObservation,
    LiveLifecycleFanAutoPair, LiveLifecycleObserverAttestation, LiveLifecyclePowerObservation,
    LiveLifecycleProfileObservation,
};
use crate::run_log::{readback_list, transition_list};
use crate::text::{same_optional_text, same_text, text_option};

verus! {

broadcast use vstd::string::group_string_axioms;

/// The contents of one fan's observation.
pub struct FanAutoModel {
    pub observed_at: EvidenceTimestamp,
    pub fresh: bool,
    pub enable_readback: Option<u32>,
    pub endpoint_identity: Seq<char>,
}

/// The contents of both fans' observations.
pub struct FanAutoPairModel {
    pub cpu: FanAutoModel,
    pub gpu: FanAutoModel,
}

/// The contents of an observation.
pub enum ObservationModel {
    InvalidConfiguration {
        observed_at: EvidenceTimestamp,
        fresh: bool,
        rejected: bool,
    },
    DuplicateProcess {
        observed_at: EvidenceTimestamp,
        fresh: bool,
        rejected: bool,
        preserved: bool,
        original: Seq<char>,
        refused: Seq<char>,
    },
    NormalStopRestart {
        clean_stop: bool,
        stopped_at: EvidenceTimestamp,
        pair: FanAutoPairModel,
        restarted_at: EvidenceTimestamp,
        fresh_process: bool,
        before: Seq<char>,
        after: Seq<char>,
    },
    Recovery {
        case: LiveLifecycleCase,
        observed: bool,
        reset_at: EvidenceTimestamp,
        event_at: EvidenceTimestamp,
        pair: FanAutoPairModel,
        restarted_at: EvidenceTimestamp,
        before: Seq<char>,
        after: Seq<char>,
        delay_millis: u64,
        burst: u32,
    },
    PowerTransition {
        source_before: LiveLifecyclePowerObservation,
        source_after: LiveLifecyclePowerObservation,
        selected: LiveLifecycleProfileObservation,
    },
    SuspendResume {
        pair: FanAutoPairModel,
        suspended_at: EvidenceTimestamp,
        completed: bool,
        resumed_at: EvidenceTimestamp,
        process_started_at: EvidenceTimestamp,
        before: Seq<char>,
        after: Seq<char>,
    },
    Reboot {
        completed: bool,
        before: Seq<char>,
        after: Seq<char>,
        post_boot_at: EvidenceTimestamp,
        pair_before_arm: Option<FanAutoPairModel>,
        armed_at: Option<EvidenceTimestamp>,
        controller: Option<Seq<char>>,
        restored_at: Option<EvidenceTimestamp>,
        pair_after_arm: Option<FanAutoPairModel>,
    },
}

/// The contents of one fan's observation.
pub open spec fn fan_auto(observation: LiveLifecycleFanAutoObservation) -> FanAutoModel {
    FanAutoModel {
        observed_at: observation.observed_at,
        fresh: observation.fresh,
        enable_readback: observation.enable_readback,
        endpoint_identity: observation.endpoint_identity@,
    }
}

/// The contents of both fans' observations.
pub open spec fn fan_auto_pair(pair: LiveLifecycleFanAutoPair) -> FanAutoPairModel {
    FanAutoPairModel { cpu: fan_auto(pair.cpu), gpu: fan_auto(pair.gpu) }
}

/// The contents of both fans' observations, where there are any.
pub open spec fn optional_pair(pair: Option<LiveLifecycleFanAutoPair>) -> Option<FanAutoPairModel> {
    match pair {
        Some(pair) => Some(fan_auto_pair(pair)),
        None => None,
    }
}

/// The contents of an observation.
pub open spec fn observed(observation: LiveLifecycleCaseObservation) -> ObservationModel {
    match observation {
        LiveLifecycleCaseObservation::InvalidConfiguration {
            observed_at,
            fresh,
            rejected_before_custom_control,
        } => ObservationModel::InvalidConfiguration {
            observed_at,
            fresh,
            rejected: rejected_before_custom_control,
        },
        LiveLifecycleCaseObservation::DuplicateProcess {
            observed_at,
            fresh,
            duplicate_rejected,
            original_owner_preserved,
            original_process_identity,
            rejected_process_identity,
        } => ObservationModel::DuplicateProcess {
            observed_at,
            fresh,
            rejected: duplicate_rejected,
            preserved: original_owner_preserved,
            original: original_process_identity@,
            refused: rejected_process_identity@,
        },
        LiveLifecycleCaseObservation::NormalStopRestart {
            clean_stop,
            stopped_at,
            auto_before_restart,
            restarted_at,
            fresh_process,
            process_identity_before,
            process_identity_after,
        } => ObservationModel::NormalStopRestart {
            clean_stop,
            stopped_at,
            pair: fan_auto_pair(auto_before_restart),
            restarted_at,
            fresh_process,
            before: process_identity_before@,
            after: process_identity_after@,
        },
        LiveLifecycleCaseObservation::ProcessKillRecovery {
            sigkill_observed,
            start_limit_reset_at,
            killed_at,
            auto_before_restart,
            restarted_at,
            process_identity_before,
            process_identity_after,
            restart_delay_millis,
            start_limit_burst,
        } => ObservationModel::Recovery {
            case: LiveLifecycleCase::ProcessKillRecovery,
            observed: sigkill_observed,
            reset_at: start_limit_reset_at,
            event_at: killed_at,
            pair: fan_auto_pair(auto_before_restart),
            restarted_at,
            before: process_identity_before@,
            after: process_identity_after@,
            delay_millis: restart_delay_millis,
            burst: start_limit_burst,
        },
        LiveLifecycleCaseObservation::WatchdogRecovery {
            watchdog_expired,
            start_limit_reset_at,
            expired_at,
            auto_before_restart,
            restarted_at,
            process_identity_before,
            process_identity_after,
            restart_delay_millis,
            start_limit_burst,
        } => ObservationModel::Recovery {
            case: LiveLifecycleCase::WatchdogRecovery,
            observed: watchdog_expired,
            reset_at: start_limit_reset_at,
            event_at: expired_at,
            pair: fan_auto_pair(auto_before_restart),
            restarted_at,
            before: process_identity_before@,
            after: process_identity_after@,
            delay_millis: restart_delay_millis,
            burst: start_limit_burst,
        },
        LiveLifecycleCaseObservation::AcToBatteryTransition {
            before,
            after,
            selected_profile_after,
        } => ObservationModel::PowerTransition {
            source_before: before,
            source_after: after,
            selected: selected_profile_after,
        },
        LiveLifecycleCaseObservation::SuspendResume {
            auto_before_sleep,
            suspended_at,
            suspend_completed,
            resumed_at,
            process_started_at,
            process_identity_before,
            process_identity_after,
        } => ObservationModel::SuspendResume {
            pair: fan_auto_pair(auto_before_sleep),
            suspended_at,
            completed: suspend_completed,
            resumed_at,
            process_started_at,
            before: process_identity_before@,
            after: process_identity_after@,
        },
        LiveLifecycleCaseObservation::Reboot {
            reboot_completed,
            boot_id_before,
            boot_id_after,
            post_boot_at,
            auto_before_arm,
            armed_at,
            controller_process_identity,
            restored_at,
            auto_after_arm,
        } => ObservationModel::Reboot {
            completed: reboot_completed,
            before: boot_id_before@,
            after: boot_id_after@,
            post_boot_at,
            pair_before_arm: optional_pair(auto_before_arm),
            armed_at,
            controller: text_option(controller_process_identity),
            restored_at,
            pair_after_arm: optional_pair(auto_after_arm),
        },
    }
}

fn same_option(left: Option<u32>, right: Option<u32>) -> (same: bool)
    ensures
        same == (left == right),
{
    match (left, right) {
        (Some(a), Some(b)) => a == b,
        (None, None) => true,
        _ => false,
    }
}

fn same_moment(left: Option<EvidenceTimestamp>, right: Option<EvidenceTimestamp>) -> (same: bool)
    ensures
        same == (left == right),
{
    match (left, right) {
        (Some(a), Some(b)) => a == b,
        (None, None) => true,
        _ => false,
    }
}

fn same_fan_auto(
    left: &LiveLifecycleFanAutoObservation,
    right: &LiveLifecycleFanAutoObservation,
) -> (same: bool)
    ensures
        same == (fan_auto(*left) == fan_auto(*right)),
{
    left.observed_at == right.observed_at && left.fresh == right.fresh && same_option(
        left.enable_readback,
        right.enable_readback,
    ) && same_text(left.endpoint_identity.as_str(), right.endpoint_identity.as_str())
}

fn same_pair(left: &LiveLifecycleFanAutoPair, right: &LiveLifecycleFanAutoPair) -> (same: bool)
    ensures
        same == (fan_auto_pair(*left) == fan_auto_pair(*right)),
{
    same_fan_auto(&left.cpu, &right.cpu) && same_fan_auto(&left.gpu, &right.gpu)
}

fn same_optional_pair(
    left: &Option<LiveLifecycleFanAutoPair>,
    right: &Option<LiveLifecycleFanAutoPair>,
) -> (same: bool)
    ensures
        same == (optional_pair(*left) == optional_pair(*right)),
{
    match (left, right) {
        (Some(a), Some(b)) => same_pair(a, b),
        (None, None) => true,
        _ => false,
    }
}

/// Whether two observations hold the same.
pub fn same_observation(
    left: &LiveLifecycleCaseObservation,
    right: &LiveLifecycleCaseObservation,
) -> (same: bool)
    ensures
        same == (observed(*left) == observed(*right)),
{
    match (left, right) {
        (
            LiveLifecycleCaseObservation::InvalidConfiguration {
                observed_at: at,
                fresh: f,
                rejected_before_custom_control: r,
            },
            LiveLifecycleCaseObservation::InvalidConfiguration {
                observed_at: at2,
                fresh: f2,
                rejected_before_custom_control: r2,
            },
        ) => *at == *at2 && *f == *f2 && *r == *r2,
        (
            LiveLifecycleCaseObservation::DuplicateProcess {
                observed_at: at,
                fresh: f,
                duplicate_rejected: d,
                original_owner_preserved: p,
                original_process_identity: o,
                rejected_process_identity: r,
            },
            LiveLifecycleCaseObservation::DuplicateProcess {
                observed_at: at2,
                fresh: f2,
                duplicate_rejected: d2,
                original_owner_preserved: p2,
                original_process_identity: o2,
                rejected_process_identity: r2,
            },
        ) => *at == *at2 && *f == *f2 && *d == *d2 && *p == *p2 && same_text(
            o.as_str(),
            o2.as_str(),
        ) && same_text(r.as_str(), r2.as_str()),
        (
            LiveLifecycleCaseObservation::NormalStopRestart {
                clean_stop: c,
                stopped_at: s,
                auto_before_restart: a,
                restarted_at: r,
                fresh_process: f,
                process_identity_before: x,
                process_identity_after: y,
            },
            LiveLifecycleCaseObservation::NormalStopRestart {
                clean_stop: c2,
                stopped_at: s2,
                auto_before_restart: a2,
                restarted_at: r2,
                fresh_process: f2,
                process_identity_before: x2,
                process_identity_after: y2,
            },
        ) => *c == *c2 && *s == *s2 && same_pair(a, a2) && *r == *r2 && *f == *f2 && same_text(
            x.as_str(),
            x2.as_str(),
        ) && same_text(y.as_str(), y2.as_str()),
        (
            LiveLifecycleCaseObservation::ProcessKillRecovery {
                sigkill_observed: o,
                start_limit_reset_at: s,
                killed_at: k,
                auto_before_restart: a,
                restarted_at: r,
                process_identity_before: x,
                process_identity_after: y,
                restart_delay_millis: d,
                start_limit_burst: b,
            },
            LiveLifecycleCaseObservation::ProcessKillRecovery {
                sigkill_observed: o2,
                start_limit_reset_at: s2,
                killed_at: k2,
                auto_before_restart: a2,
                restarted_at: r2,
                process_identity_before: x2,
                process_identity_after: y2,
                restart_delay_millis: d2,
                start_limit_burst: b2,
            },
        ) => *o == *o2 && *s == *s2 && *k == *k2 && same_pair(a, a2) && *r == *r2 && same_text(
            x.as_str(),
            x2.as_str(),
        ) && same_text(y.as_str(), y2.as_str()) && *d == *d2 && *b == *b2,
        (
            LiveLifecycleCaseObservation::WatchdogRecovery {
                watchdog_expired: o,
                start_limit_reset_at: s,
                expired_at: k,
                auto_before_restart: a,
                restarted_at: r,
                process_identity_before: x,
                process_identity_after: y,
                restart_delay_millis: d,
                start_limit_burst: b,
            },
            LiveLifecycleCaseObservation::WatchdogRecovery {
                watchdog_expired: o2,
                start_limit_reset_at: s2,
                expired_at: k2,
                auto_before_restart: a2,
                restarted_at: r2,
                process_identity_before: x2,
                process_identity_after: y2,
                restart_delay_millis: d2,
                start_limit_burst: b2,
            },
        ) => *o == *o2 && *s == *s2 && *k == *k2 && same_pair(a, a2) && *r == *r2 && same_text(
            x.as_str(),
            x2.as_str(),
        ) && same_text(y.as_str(), y2.as_str()) && *d == *d2 && *b == *b2,
        (
            LiveLifecycleCaseObservation::AcToBatteryTransition {
                before: b,
                after: a,
                selected_profile_after: s,
            },
            LiveLifecycleCaseObservation::AcToBatteryTransition {
                before: b2,
                after: a2,
                selected_profile_after: s2,
            },
        ) => *b == *b2 && *a == *a2 && *s == *s2,
        (
            LiveLifecycleCaseObservation::SuspendResume {
                auto_before_sleep: a,
                suspended_at: s,
                suspend_completed: c,
                resumed_at: r,
                process_started_at: p,
                process_identity_before: x,
                process_identity_after: y,
            },
            LiveLifecycleCaseObservation::SuspendResume {
                auto_before_sleep: a2,
                suspended_at: s2,
                suspend_completed: c2,
                resumed_at: r2,
                process_started_at: p2,
                process_identity_before: x2,
                process_identity_after: y2,
            },
        ) => same_pair(a, a2) && *s == *s2 && *c == *c2 && *r == *r2 && *p == *p2 && same_text(
            x.as_str(),
            x2.as_str(),
        ) && same_text(y.as_str(), y2.as_str()),
        (
            LiveLifecycleCaseObservation::Reboot {
                reboot_completed: c,
                boot_id_before: x,
                boot_id_after: y,
                post_boot_at: p,
                auto_before_arm: a,
                armed_at: m,
                controller_process_identity: i,
                restored_at: r,
                auto_after_arm: z,
            },
            LiveLifecycleCaseObservation::Reboot {
                reboot_completed: c2,
                boot_id_before: x2,
                boot_id_after: y2,
                post_boot_at: p2,
                auto_before_arm: a2,
                armed_at: m2,
                controller_process_identity: i2,
                restored_at: r2,
                auto_after_arm: z2,
            },
        ) => *c == *c2 && same_text(x.as_str(), x2.as_str()) && same_text(y.as_str(), y2.as_str())
            && *p == *p2 && same_optional_pair(a, a2) && same_moment(*m, *m2) && same_optional_text(
            i,
            i2,
        ) && same_moment(*r, *r2) && same_optional_pair(z, z2),
        _ => false,
    }
}

/// The contents of a case result.
pub struct CaseContents {
    pub case: LiveLifecycleCase,
    pub started_at: EvidenceTimestamp,
    pub completed_at: EvidenceTimestamp,
    pub observation: Option<ObservationModel>,
    pub observer_attestations: Seq<AttestationModel>,
    pub passed: bool,
    pub detail: Seq<char>,
}

/// The contents of a case result.
pub open spec fn case_contents(result: CaseResultModel) -> CaseContents {
    CaseContents {
        case: result.case,
        started_at: result.started_at,
        completed_at: result.completed_at,
        observation: match result.observation {
            Some(observation) => Some(observed(observation)),
            None => None,
        },
        observer_attestations: result.observer_attestations,
        passed: result.passed,
        detail: result.detail,
    }
}

/// The contents of a list of case results.
pub open spec fn case_list(results: Seq<LiveLifecycleCaseResult>) -> Seq<CaseContents> {
    results.map_values(|result: LiveLifecycleCaseResult| case_contents(result@))
}

fn same_checks(left: &Vec<EvidenceTimestamp>, right: &Vec<EvidenceTimestamp>) -> (same: bool)
    ensures
        same == (left@ == right@),
{
    if left.len() != right.len() {
        return false;
    }
    let mut i: usize = 0;
    while i < left.len()
        invariant
            i <= left.len(),
            left.len() == right.len(),
            forall|k: int| 0 <= k < i ==> left@[k] == right@[k],
        decreases left.len() - i,
    {
        if left[i] != right[i] {
            return false;
        }
        i = i + 1;
    }
    assert(left@ =~= right@);
    true
}

fn same_attestation(
    left: &LiveLifecycleObserverAttestation,
    right: &LiveLifecycleObserverAttestation,
) -> (same: bool)
    ensures
        same == (left@ == right@),
{
    same_text(left.action.as_str(), right.action.as_str()) && left.started_at == right.started_at
        && left.completed_at == right.completed_at && same_checks(&left.checks, &right.checks)
}

fn same_attestations(
    left: &[LiveLifecycleObserverAttestation],
    right: &[LiveLifecycleObserverAttestation],
) -> (same: bool)
    ensures
        same == (attestations(left@) == attestations(right@)),
{
    let ghost a = attestations(left@);
    let ghost b = attestations(right@);
    if left.len() != right.len() {
        assert(a.len() != b.len());
        return false;
    }
    let mut i: usize = 0;
    while i < left.len()
        invariant
            i <= left.len(),
            left.len() == right.len(),
            a == attestations(left@),
            b == attestations(right@),
            forall|k: int| 0 <= k < i ==> a[k] == b[k],
        decreases left.len() - i,
    {
        if !same_attestation(&left[i], &right[i]) {
            assert(a[i as int] != b[i as int]);
            return false;
        }
        i = i + 1;
    }
    assert(a =~= b);
    true
}

/// Whether two case results hold the same.
pub fn same_case_result(left: &LiveLifecycleCaseResult, right: &LiveLifecycleCaseResult) -> (same:
    bool)
    ensures
        same == (case_contents(left@) == case_contents(right@)),
{
    let same_observations = match (left.observation(), right.observation()) {
        (Some(a), Some(b)) => same_observation(a, b),
        (None, None) => true,
        _ => false,
    };
    left.case() == right.case() && left.started_at() == right.started_at() && left.completed_at()
        == right.completed_at() && same_observations && same_attestations(
        left.observer_attestations(),
        right.observer_attestations(),
    ) && left.passed() == right.passed() && same_text(left.detail(), right.detail())
}

/// Whether a list begins with all entries of another.
pub open spec fn is_prefix<T>(prefix: Seq<T>, entries: Seq<T>) -> bool {
    prefix.len() <= entries.len() && entries.take(prefix.len() as int) == prefix
}

/// Decides whether a list of case results begins with another.
pub(crate) fn starts_with_cases(
    entries: &Vec<LiveLifecycleCaseResult>,
    prefix: &Vec<LiveLifecycleCaseResult>,
) -> (yes: bool)
    ensures
        yes == is_prefix(case_list(prefix@), case_list(entries@)),
{
    let ghost a = case_list(prefix@);
    let ghost b = case_list(entries@);
    if prefix.len() > entries.len() {
        return false;
    }
    let mut i: usize = 0;
    while i < prefix.len()
        invariant
            i <= prefix.len() <= entries.len(),
            a == case_list(prefix@),
            b == case_list(entries@),
            forall|k: int| 0 <= k < i ==> a[k] == b[k],
        decreases prefix.len() - i,
    {
        if !same_case_result(&prefix[i], &entries[i]) {
            assert(a[i as int] != b.take(a.len() as int)[i as int]);
            return false;
        }
        i = i + 1;
    }
    assert(b.take(a.len() as int) =~= a);
    true
}

fn same_readback(left: &FanReadbackEvidence, right: &FanReadbackEvidence) -> (same: bool)
    ensures
        same == (left@ == right@),
{
    let same_fresh = match (left.fresh, right.fresh) {
        (Some(a), Some(b)) => a == b,
        (None, None) => true,
        _ => false,
    };
    let same_phase = match (left.phase, right.phase) {
        (Some(a), Some(b)) => a == b,
        (None, None) => true,
        _ => false,
    };
    left.timestamp == right.timestamp && same_moment(left.source_timestamp, right.source_timestamp)
        && same_fresh && same_optional_text(&left.boot_id, &right.boot_id) && left.fan == right.fan
        && left.field == right.field && same_option(left.value, right.value) && same_text(
        left.endpoint_identity.as_str(),
        right.endpoint_identity.as_str(),
    ) && left.outcome == right.outcome && same_phase
}

/// Decides whether a list of readbacks begins with another.
pub(crate) fn starts_with_readbacks(
    entries: &Vec<FanReadbackEvidence>,
    prefix: &Vec<FanReadbackEvidence>,
) -> (yes: bool)
    ensures
        yes == is_prefix(readback_list(prefix@), readback_list(entries@)),
{
    let ghost a = readback_list(prefix@);
    let ghost b = readback_list(entries@);
    if prefix.len() > entries.len() {
        return false;
    }
    let mut i: usize = 0;
    while i < prefix.len()
        invariant
            i <= prefix.len() <= entries.len(),
            a == readback_list(prefix@),
            b == readback_list(entries@),
            forall|k: int| 0 <= k < i ==> a[k] == b[k],
        decreases prefix.len() - i,
    {
        if !same_readback(&prefix[i], &entries[i]) {
            assert(a[i as int] != b.take(a.len() as int)[i as int]);
            return false;
        }
        i = i + 1;
    }
    assert(b.take(a.len() as int) =~= a);
    true
}

fn same_transition(left: &StateTransitionEvidence, right: &StateTransitionEvidence) -> (same: bool)
    ensures
        same == (left@ == right@),
{
    left.timestamp == right.timestamp && same_optional_text(&left.boot_id, &right.boot_id)
        && same_text(left.from.as_str(), right.from.as_str()) && same_text(
        left.to.as_str(),
        right.to.as_str(),
    )
}

/// Decides whether a list of transitions begins with another.
pub(crate) fn starts_with_transitions(
    entries: &Vec<StateTransitionEvidence>,
    prefix: &Vec<StateTransitionEvidence>,
) -> (yes: bool)
    ensures
        yes == is_prefix(transition_list(prefix@), transition_list(entries@)),
{
    let ghost a = transition_list(prefix@);
    let ghost b = transition_list(entries@);
    if prefix.len() > entries.len() {
        return false;
    }
    let mut i: usize = 0;
    while i < prefix.len()
        invariant
            i <= prefix.len() <= entries.len(),
            a == transition_list(prefix@),
            b == transition_list(entries@),
            forall|k: int| 0 <= k < i ==> a[k] == b[k],
        decreases prefix.len() - i,
    {
        if !same_transition(&prefix[i], &entries[i]) {
            assert(a[i as int] != b.take(a.len() as int)[i as int]);
            return false;
        }
        i = i + 1;
    }
    assert(b.take(a.len() as int) =~= a);
    true
}

} // verus!
