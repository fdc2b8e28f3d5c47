//! The approved live lifecycle checks and the observations that they must yield.

use vstd::prelude::*;
use vstd::string::*;
use crate::evidence::{clone_text_option, EvidenceExternalPower, EvidenceProfile, EvidenceTimestamp};
use crate::text::{identifier, is_identifier, join, same_text};

verus! {

broadcast use vstd::string::group_string_axioms;

pub const LIVE_RESTART_DELAY_MILLIS: u64 = 2_000;

pub const LIVE_START_LIMIT_BURST: u32 = 2;

pub const LIVE_OBSERVER_MAX_CHECK_GAP_MILLIS: u64 = 5_000;

/// The complete ordered set of approved, non-destructive live lifecycle checks.
#[derive(Debug, Clone, Copy, PartialEq, Eq, Structural)]
pub enum LiveLifecycleCase {
    InvalidConfiguration,
    DuplicateProcess,
    NormalStopRestart,
    ProcessKillRecovery,
    WatchdogRecovery,
    AcToBatteryTransition,
    SuspendResume,
    Reboot,
}

#[derive(Debug, Clone, Copy, PartialEq, Eq, Structural)]
pub enum DangerousLiveFaultInjection {
    RawWmiOrEcAccess,
    UnloadControllingModule,
    DisconnectFan,
    ForceKernelCrash,
    CutPower,
    InjectHardwareWriteFailure,
}

#[derive(Debug, Clone, Copy, PartialEq, Eq, Structural)]
pub enum LiveLifecycleRequest {
    Approved(LiveLifecycleCase),
    Dangerous(DangerousLiveFaultInjection),
}

#[derive(Debug, Clone, Copy, PartialEq, Eq, Structural)]
pub struct LiveLifecycleRequestError {
    fault: DangerousLiveFaultInjection,
}

#[derive(Debug, PartialEq, Eq)]
pub struct LiveLifecycleFanAutoObservation {
    pub observed_at: EvidenceTimestamp,
    /// True only when the backend performed a new endpoint read for this request.
    pub fresh: bool,
    pub enable_readback: Option<u32>,
    pub endpoint_identity: String,
}

impl Clone for LiveLifecycleFanAutoObservation {
    fn clone(&self) -> (copy: LiveLifecycleFanAutoObservation)
        ensures
            copy == *self,
    {
        LiveLifecycleFanAutoObservation {
            observed_at: self.observed_at,
            fresh: self.fresh,
            enable_readback: self.enable_readback,
            endpoint_identity: self.endpoint_identity.clone(),
        }
    }
}

#[derive(Debug, PartialEq, Eq)]
pub struct LiveLifecycleFanAutoPair {
    pub cpu: LiveLifecycleFanAutoObservation,
    pub gpu: LiveLifecycleFanAutoObservation,
}

impl Clone for LiveLifecycleFanAutoPair {
    fn clone(&self) -> (copy: LiveLifecycleFanAutoPair)
        ensures
            copy == *self,
    {
        LiveLifecycleFanAutoPair {
            cpu: self.cpu.clone(),
            gpu: self.gpu.clone(),
        }
    }
}

fn clone_pair_option(value: &Option<LiveLifecycleFanAutoPair>) -> (copy: Option<
    LiveLifecycleFanAutoPair,
>)
    ensures
        copy == *value,
{
    match value {
        Some(pair) => Some(pair.clone()),
        None => None,
    }
}

#[derive(Debug, PartialEq, Eq)]
pub enum LiveLifecycleCaseObservation {
    InvalidConfiguration {
        observed_at: EvidenceTimestamp,
        fresh: bool,
        rejected_before_custom_control: bool,
    },
    DuplicateProcess {
        observed_at: EvidenceTimestamp,
        fresh: bool,
        duplicate_rejected: bool,
        original_owner_preserved: bool,
        original_process_identity: String,
        rejected_process_identity: String,
    },
    NormalStopRestart {
        clean_stop: bool,
        stopped_at: EvidenceTimestamp,
        auto_before_restart: LiveLifecycleFanAutoPair,
        restarted_at: EvidenceTimestamp,
        fresh_process: bool,
        process_identity_before: String,
        process_identity_after: String,
    },
    ProcessKillRecovery {
        sigkill_observed: bool,
        start_limit_reset_at: EvidenceTimestamp,
        killed_at: EvidenceTimestamp,
        auto_before_restart: LiveLifecycleFanAutoPair,
        restarted_at: EvidenceTimestamp,
        process_identity_before: String,
        process_identity_after: String,
        restart_delay_millis: u64,
        start_limit_burst: u32,
    },
    WatchdogRecovery {
        watchdog_expired: bool,
        start_limit_reset_at: EvidenceTimestamp,
        expired_at: EvidenceTimestamp,
        auto_before_restart: LiveLifecycleFanAutoPair,
        restarted_at: EvidenceTimestamp,
        process_identity_before: String,
        process_identity_after: String,
        restart_delay_millis: u64,
        start_limit_burst: u32,
    },
    AcToBatteryTransition {
        before: LiveLifecyclePowerObservation,
        after: LiveLifecyclePowerObservation,
        selected_profile_after: LiveLifecycleProfileObservation,
    },
    SuspendResume {
        auto_before_sleep: LiveLifecycleFanAutoPair,
        suspended_at: EvidenceTimestamp,
        suspend_completed: bool,
        resumed_at: EvidenceTimestamp,
        process_started_at: EvidenceTimestamp,
        process_identity_before: String,
        process_identity_after: String,
    },
    Reboot {
        reboot_completed: bool,
        boot_id_before: String,
        boot_id_after: String,
        post_boot_at: EvidenceTimestamp,
        auto_before_arm: Option<LiveLifecycleFanAutoPair>,
        armed_at: Option<EvidenceTimestamp>,
        controller_process_identity: Option<String>,
        restored_at: Option<EvidenceTimestamp>,
        auto_after_arm: Option<LiveLifecycleFanAutoPair>,
    },
}

impl Clone for LiveLifecycleCaseObservation {
    fn clone(&self) -> (copy: LiveLifecycleCaseObservation)
        ensures
            copy == *self,
    {
        match self {
            LiveLifecycleCaseObservation::InvalidConfiguration {
                observed_at,
                fresh,
                rejected_before_custom_control,
            } => LiveLifecycleCaseObservation::InvalidConfiguration {
                observed_at: *observed_at,
                fresh: *fresh,
                rejected_before_custom_control: *rejected_before_custom_control,
            },
            LiveLifecycleCaseObservation::DuplicateProcess {
                observed_at,
                fresh,
                duplicate_rejected,
                original_owner_preserved,
                original_process_identity,
                rejected_process_identity,
            } => LiveLifecycleCaseObservation::DuplicateProcess {
                observed_at: *observed_at,
                fresh: *fresh,
                duplicate_rejected: *duplicate_rejected,
                original_owner_preserved: *original_owner_preserved,
                original_process_identity: original_process_identity.clone(),
                rejected_process_identity: rejected_process_identity.clone(),
            },
            LiveLifecycleCaseObservation::NormalStopRestart {
                clean_stop,
                stopped_at,
                auto_before_restart,
                restarted_at,
                fresh_process,
                process_identity_before,
                process_identity_after,
            } => LiveLifecycleCaseObservation::NormalStopRestart {
                clean_stop: *clean_stop,
                stopped_at: *stopped_at,
                auto_before_restart: auto_before_restart.clone(),
                restarted_at: *restarted_at,
                fresh_process: *fresh_process,
                process_identity_before: process_identity_before.clone(),
                process_identity_after: process_identity_after.clone(),
            },
            LiveLifecycleCaseObservation::ProcessKillRecovery {
                sigkill_observed,
                start_limit_reset_at,
                killed_at,
                auto_before_restart,
                restarted_at,
                process_identity_before,
                process_identity_after,
                restart_delay_millis,
                start_limit_burst,
            } => LiveLifecycleCaseObservation::ProcessKillRecovery {
                sigkill_observed: *sigkill_observed,
                start_limit_reset_at: *start_limit_reset_at,
                killed_at: *killed_at,
                auto_before_restart: auto_before_restart.clone(),
                restarted_at: *restarted_at,
                process_identity_before: process_identity_before.clone(),
                process_identity_after: process_identity_after.clone(),
                restart_delay_millis: *restart_delay_millis,
                start_limit_burst: *start_limit_burst,
            },
            LiveLifecycleCaseObservation::WatchdogRecovery {
                watchdog_expired,
                start_limit_reset_at,
                expired_at,
                auto_before_restart,
                restarted_at,
                process_identity_before,
                process_identity_after,
                restart_delay_millis,
                start_limit_burst,
            } => LiveLifecycleCaseObservation::WatchdogRecovery {
                watchdog_expired: *watchdog_expired,
                start_limit_reset_at: *start_limit_reset_at,
                expired_at: *expired_at,
                auto_before_restart: auto_before_restart.clone(),
                restarted_at: *restarted_at,
                process_identity_before: process_identity_before.clone(),
                process_identity_after: process_identity_after.clone(),
                restart_delay_millis: *restart_delay_millis,
                start_limit_burst: *start_limit_burst,
            },
            LiveLifecycleCaseObservation::AcToBatteryTransition {
                before,
                after,
                selected_profile_after,
            } => LiveLifecycleCaseObservation::AcToBatteryTransition {
                before: *before,
                after: *after,
                selected_profile_after: *selected_profile_after,
            },
            LiveLifecycleCaseObservation::SuspendResume {
                auto_before_sleep,
                suspended_at,
                suspend_completed,
                resumed_at,
                process_started_at,
                process_identity_before,
                process_identity_after,
            } => LiveLifecycleCaseObservation::SuspendResume {
                auto_before_sleep: auto_before_sleep.clone(),
                suspended_at: *suspended_at,
                suspend_completed: *suspend_completed,
                resumed_at: *resumed_at,
                process_started_at: *process_started_at,
                process_identity_before: process_identity_before.clone(),
                process_identity_after: process_identity_after.clone(),
            },
            LiveLifecycleCaseObservation::Reboot {
                reboot_completed,
                boot_id_before,
                boot_id_after,
                post_boot_at,
                auto_before_arm,
                armed_at,
                controller_process_identity,
                restored_at,
                auto_after_arm,
            } => LiveLifecycleCaseObservation::Reboot {
                reboot_completed: *reboot_completed,
                boot_id_before: boot_id_before.clone(),
                boot_id_after: boot_id_after.clone(),
                post_boot_at: *post_boot_at,
                auto_before_arm: clone_pair_option(auto_before_arm),
                armed_at: *armed_at,
                controller_process_identity: clone_text_option(controller_process_identity),
                restored_at: *restored_at,
                auto_after_arm: clone_pair_option(auto_after_arm),
            },
        }
    }
}

#[derive(Debug, PartialEq, Eq)]
pub struct LiveLifecycleRebootContinuation {
    pub reboot_completed: bool,
    pub boot_id_before: String,
    pub boot_id_after: String,
    pub post_boot_at: EvidenceTimestamp,
}

impl Clone for LiveLifecycleRebootContinuation {
    fn clone(&self) -> (copy: LiveLifecycleRebootContinuation)
        ensures
            copy == *self,
    {
        LiveLifecycleRebootContinuation {
            reboot_completed: self.reboot_completed,
            boot_id_before: self.boot_id_before.clone(),
            boot_id_after: self.boot_id_after.clone(),
            post_boot_at: self.post_boot_at,
        }
    }
}

#[derive(Debug, PartialEq, Eq)]
pub struct LiveLifecycleRebootArmObservation {
    pub armed_at: EvidenceTimestamp,
    pub controller_process_identity: String,
}

impl Clone for LiveLifecycleRebootArmObservation {
    fn clone(&self) -> (copy: LiveLifecycleRebootArmObservation)
        ensures
            copy == *self,
    {
        LiveLifecycleRebootArmObservation {
            armed_at: self.armed_at,
            controller_process_identity: self.controller_process_identity.clone(),
        }
    }
}

/// Continuous physical-observer coverage for one live Custom-control action.
#[derive(Debug, PartialEq, Eq)]
pub struct LiveLifecycleObserverAttestation {
    pub action: String,
    pub started_at: EvidenceTimestamp,
    pub completed_at: EvidenceTimestamp,
    /// Fresh checks made by the protected harness while the action remained live.
    pub checks: Vec<EvidenceTimestamp>,
}

/// A live operation plus the observer coverage collected during it.
#[derive(Debug, Clone, PartialEq, Eq)]
pub struct LiveLifecycleObserved<T> {
    pub observation: T,
    pub observer_attestations: Vec<LiveLifecycleObserverAttestation>,
}

#[derive(Debug, Clone, Copy, PartialEq, Eq, Structural)]
pub struct LiveLifecyclePowerObservation {
    pub observed_at: EvidenceTimestamp,
    pub fresh: bool,
    pub source: EvidenceExternalPower,
}

#[derive(Debug, Clone, Copy, PartialEq, Eq, Structural)]
pub struct LiveLifecycleProfileObservation {
    pub observed_at: EvidenceTimestamp,
    pub fresh: bool,
    pub profile: EvidenceProfile,
}

/// What one lifecycle case yielded.
#[derive(Debug, PartialEq, Eq)]
pub struct LiveLifecycleCaseResult {
    case: LiveLifecycleCase,
    /// Case-local clock before the action. Reboot completion is in the new boot's clock domain.
    started_at: EvidenceTimestamp,
    completed_at: EvidenceTimestamp,
    observation: Option<LiveLifecycleCaseObservation>,
    observer_attestations: Vec<LiveLifecycleObserverAttestation>,
    passed: bool,
    detail: String,
}

/// The contents of an observer attestation.
pub struct AttestationModel {
    pub action: Seq<char>,
    pub started_at: EvidenceTimestamp,
    pub completed_at: EvidenceTimestamp,
    pub checks: Seq<EvidenceTimestamp>,
}

/// The contents of a case result.
pub struct CaseResultModel {
    pub case: LiveLifecycleCase,
    pub started_at: EvidenceTimestamp,
    pub completed_at: EvidenceTimestamp,
    pub observation: Option<LiveLifecycleCaseObservation>,
    pub observer_attestations: Seq<AttestationModel>,
    pub passed: bool,
    pub detail: Seq<char>,
}

impl View for LiveLifecycleObserverAttestation {
    type V = AttestationModel;

    open spec fn view(&self) -> AttestationModel {
        AttestationModel {
            action: self.action@,
            started_at: self.started_at,
            completed_at: self.completed_at,
            checks: self.checks@,
        }
    }
}

impl Clone for LiveLifecycleObserverAttestation {
    fn clone(&self) -> (copy: LiveLifecycleObserverAttestation)
        ensures
            copy@ == self@,
    {
        let checks = self.checks.clone();
        assert(checks@ =~= self.checks@);
        LiveLifecycleObserverAttestation {
            action: self.action.clone(),
            started_at: self.started_at,
            completed_at: self.completed_at,
            checks,
        }
    }
}

/// The contents of a list of attestations.
pub open spec fn attestations(values: Seq<LiveLifecycleObserverAttestation>) -> Seq<
    AttestationModel,
> {
    values.map_values(|a: LiveLifecycleObserverAttestation| a@)
}

impl View for LiveLifecycleCaseResult {
    type V = CaseResultModel;

    closed spec fn view(&self) -> CaseResultModel {
        CaseResultModel {
            case: self.case,
            started_at: self.started_at,
            completed_at: self.completed_at,
            observation: self.observation,
            observer_attestations: attestations(self.observer_attestations@),
            passed: self.passed,
            detail: self.detail@,
        }
    }
}

impl Clone for LiveLifecycleCaseResult {
    fn clone(&self) -> (copy: LiveLifecycleCaseResult)
        ensures
            copy@ == self@,
    {
        let observer_attestations = self.observer_attestations.clone();
        assert(attestations(observer_attestations@) =~= attestations(self.observer_attestations@));
        LiveLifecycleCaseResult {
            case: self.case,
            started_at: self.started_at,
            completed_at: self.completed_at,
            observation: match &self.observation {
                Some(observation) => Some(observation.clone()),
                None => None,
            },
            observer_attestations,
            passed: self.passed,
            detail: self.detail.clone(),
        }
    }
}

impl LiveLifecycleCase {
    pub const ALL: [LiveLifecycleCase; 8] = [
        LiveLifecycleCase::InvalidConfiguration,
        LiveLifecycleCase::DuplicateProcess,
        LiveLifecycleCase::NormalStopRestart,
        LiveLifecycleCase::ProcessKillRecovery,
        LiveLifecycleCase::WatchdogRecovery,
        LiveLifecycleCase::AcToBatteryTransition,
        LiveLifecycleCase::SuspendResume,
        LiveLifecycleCase::Reboot,
    ];

    /// The text of the case's name.
    pub open spec fn name(self) -> Seq<char> {
        match self {
            LiveLifecycleCase::InvalidConfiguration => "invalid-configuration"@,
            LiveLifecycleCase::DuplicateProcess => "duplicate-process"@,
            LiveLifecycleCase::NormalStopRestart => "normal-stop-restart"@,
            LiveLifecycleCase::ProcessKillRecovery => "process-kill-recovery"@,
            LiveLifecycleCase::WatchdogRecovery => "watchdog-recovery"@,
            LiveLifecycleCase::AcToBatteryTransition => "ac-to-battery-transition"@,
            LiveLifecycleCase::SuspendResume => "suspend-resume"@,
            LiveLifecycleCase::Reboot => "reboot"@,
        }
    }

    pub fn id(self) -> (id: &'static str)
        ensures
            id@ == self.name(),
    {
        match self {
            LiveLifecycleCase::InvalidConfiguration => "invalid-configuration",
            LiveLifecycleCase::DuplicateProcess => "duplicate-process",
            LiveLifecycleCase::NormalStopRestart => "normal-stop-restart",
            LiveLifecycleCase::ProcessKillRecovery => "process-kill-recovery",
            LiveLifecycleCase::WatchdogRecovery => "watchdog-recovery",
            LiveLifecycleCase::AcToBatteryTransition => "ac-to-battery-transition",
            LiveLifecycleCase::SuspendResume => "suspend-resume",
            LiveLifecycleCase::Reboot => "reboot",
        }
    }

    /// Operator-facing action. The environment must return the typed observation for this case.
    pub fn instruction(self) -> (text: &'static str)
        ensures
            text@ == match self {
                LiveLifecycleCase::InvalidConfiguration =>
                    "start with an intentionally invalid editable configuration and confirm rejection before Custom control"@,
                LiveLifecycleCase::DuplicateProcess =>
                    "start a second daemon and confirm duplicate ownership is rejected without displacing the owner"@,
                LiveLifecycleCase::NormalStopRestart =>
                    "stop normally, confirm both fans in Firmware Auto, then start a fresh daemon"@,
                LiveLifecycleCase::ProcessKillRecovery =>
                    "send SIGKILL to the daemon and confirm recovery reaches Firmware Auto before its bounded restart"@,
                LiveLifecycleCase::WatchdogRecovery =>
                    "exercise watchdog expiry and confirm recovery reaches Firmware Auto before its bounded restart"@,
                LiveLifecycleCase::AcToBatteryTransition =>
                    "disconnect AC normally and confirm battery power and the battery profile are selected"@,
                LiveLifecycleCase::SuspendResume =>
                    "request normal suspend only after both fans confirm Firmware Auto, then confirm a fresh daemon after resume"@,
                LiveLifecycleCase::Reboot =>
                    "request a normal reboot and confirm both fans in Firmware Auto before the new daemon arms"@,
            },
    {
        match self {
            LiveLifecycleCase::InvalidConfiguration =>
                "start with an intentionally invalid editable configuration and confirm rejection before Custom control",
            LiveLifecycleCase::DuplicateProcess =>
                "start a second daemon and confirm duplicate ownership is rejected without displacing the owner",
            LiveLifecycleCase::NormalStopRestart =>
                "stop normally, confirm both fans in Firmware Auto, then start a fresh daemon",
            LiveLifecycleCase::ProcessKillRecovery =>
                "send SIGKILL to the daemon and confirm recovery reaches Firmware Auto before its bounded restart",
            LiveLifecycleCase::WatchdogRecovery =>
                "exercise watchdog expiry and confirm recovery reaches Firmware Auto before its bounded restart",
            LiveLifecycleCase::AcToBatteryTransition =>
                "disconnect AC normally and confirm battery power and the battery profile are selected",
            LiveLifecycleCase::SuspendResume =>
                "request normal suspend only after both fans confirm Firmware Auto, then confirm a fresh daemon after resume",
            LiveLifecycleCase::Reboot =>
                "request a normal reboot and confirm both fans in Firmware Auto before the new daemon arms",
        }
    }
}

/// The case at a place in the approved order.
pub open spec fn approved_case(index: int) -> LiveLifecycleCase {
    if index == 0 {
        LiveLifecycleCase::InvalidConfiguration
    } else if index == 1 {
        LiveLifecycleCase::DuplicateProcess
    } else if index == 2 {
        LiveLifecycleCase::NormalStopRestart
    } else if index == 3 {
        LiveLifecycleCase::ProcessKillRecovery
    } else if index == 4 {
        LiveLifecycleCase::WatchdogRecovery
    } else if index == 5 {
        LiveLifecycleCase::AcToBatteryTransition
    } else if index == 6 {
        LiveLifecycleCase::SuspendResume
    } else {
        LiveLifecycleCase::Reboot
    }
}

/// The case at a place in the approved order.
pub(crate) fn case_at(index: usize) -> (case: LiveLifecycleCase)
    requires
        index < 8,
    ensures
        case == approved_case(index as int),
{
    LiveLifecycleCase::ALL[index]
}

impl DangerousLiveFaultInjection {
    pub const ALL: [DangerousLiveFaultInjection; 6] = [
        DangerousLiveFaultInjection::RawWmiOrEcAccess,
        DangerousLiveFaultInjection::UnloadControllingModule,
        DangerousLiveFaultInjection::DisconnectFan,
        DangerousLiveFaultInjection::ForceKernelCrash,
        DangerousLiveFaultInjection::CutPower,
        DangerousLiveFaultInjection::InjectHardwareWriteFailure,
    ];

    /// The text of the fault's name.
    pub open spec fn name(self) -> Seq<char> {
        match self {
            DangerousLiveFaultInjection::RawWmiOrEcAccess => "raw WMI/EC access"@,
            DangerousLiveFaultInjection::UnloadControllingModule =>
                "unloading the controlling module"@,
            DangerousLiveFaultInjection::DisconnectFan => "disconnecting a fan"@,
            DangerousLiveFaultInjection::ForceKernelCrash => "forcing a kernel crash"@,
            DangerousLiveFaultInjection::CutPower => "cutting power"@,
            DangerousLiveFaultInjection::InjectHardwareWriteFailure =>
                "injecting a hardware-write failure"@,
        }
    }

    fn id(self) -> (id: &'static str)
        ensures
            id@ == self.name(),
    {
        match self {
            DangerousLiveFaultInjection::RawWmiOrEcAccess => "raw WMI/EC access",
            DangerousLiveFaultInjection::UnloadControllingModule =>
                "unloading the controlling module",
            DangerousLiveFaultInjection::DisconnectFan => "disconnecting a fan",
            DangerousLiveFaultInjection::ForceKernelCrash => "forcing a kernel crash",
            DangerousLiveFaultInjection::CutPower => "cutting power",
            DangerousLiveFaultInjection::InjectHardwareWriteFailure =>
                "injecting a hardware-write failure",
        }
    }
}

impl LiveLifecycleRequestError {
    /// The fault that was refused.
    pub closed spec fn refused(self) -> DangerousLiveFaultInjection {
        self.fault
    }

    pub fn fault(&self) -> (fault: DangerousLiveFaultInjection)
        ensures
            fault == self.refused(),
    {
        self.fault
    }

    /// The message shown to an operator.
    pub fn message(&self) -> (text: String)
        ensures
            text@ == self.refused().name()
                + " is refused on live hardware; exercise it only against the simulated backend"@,
    {
        join(
            self.fault.id(),
            " is refused on live hardware; exercise it only against the simulated backend",
        )
    }
}

/// Lets an approved case through and refuses every dangerous fault injection.
pub fn classify_live_lifecycle_request(request: LiveLifecycleRequest) -> (result: Result<
    LiveLifecycleCase,
    LiveLifecycleRequestError,
>)
    ensures
        match request {
            LiveLifecycleRequest::Approved(case) => result == Ok::<
                LiveLifecycleCase,
                LiveLifecycleRequestError,
            >(case),
            LiveLifecycleRequest::Dangerous(fault) => result is Err && result->Err_0.refused()
                == fault,
        },
{
    match request {
        LiveLifecycleRequest::Approved(case) => Ok(case),
        LiveLifecycleRequest::Dangerous(fault) => Err(LiveLifecycleRequestError { fault }),
    }
}

impl LiveLifecycleCaseResult {
    /// The result of a case as it was put on record.
    pub fn new(
        case: LiveLifecycleCase,
        started_at: EvidenceTimestamp,
        completed_at: EvidenceTimestamp,
        observation: Option<LiveLifecycleCaseObservation>,
        observer_attestations: Vec<LiveLifecycleObserverAttestation>,
        passed: bool,
        detail: String,
    ) -> (result: LiveLifecycleCaseResult)
        ensures
            result@ == (CaseResultModel {
                case,
                started_at,
                completed_at,
                observation,
                observer_attestations: attestations(observer_attestations@),
                passed,
                detail: detail@,
            }),
    {
        LiveLifecycleCaseResult {
            case,
            started_at,
            completed_at,
            observation,
            observer_attestations,
            passed,
            detail,
        }
    }

    pub fn case(&self) -> (case: LiveLifecycleCase)
        ensures
            case == self@.case,
    {
        self.case
    }

    pub fn observation(&self) -> (observation: Option<&LiveLifecycleCaseObservation>)
        ensures
            match observation {
                Some(observation) => self@.observation == Some(*observation),
                None => self@.observation is None,
            },
    {
        self.observation.as_ref()
    }

    pub fn observer_attestations(&self) -> (coverage: &[LiveLifecycleObserverAttestation])
        ensures
            attestations(coverage@) == self@.observer_attestations,
    {
        self.observer_attestations.as_slice()
    }

    pub fn started_at(&self) -> (at: EvidenceTimestamp)
        ensures
            at == self@.started_at,
    {
        self.started_at
    }

    pub fn completed_at(&self) -> (at: EvidenceTimestamp)
        ensures
            at == self@.completed_at,
    {
        self.completed_at
    }

    pub fn passed(&self) -> (passed: bool)
        ensures
            passed == self@.passed,
    {
        self.passed
    }

    pub fn detail(&self) -> (detail: &str)
        ensures
            detail@ == self@.detail,
    {
        self.detail.as_str()
    }
}

/// Characters that show nothing: controls, spaces and the byte-order mark.
pub open spec fn is_blank_char(c: char) -> bool {
    let code = c as u32;
    ||| code <= 0x20
    ||| 0x7f <= code <= 0xa0
    ||| code == 0x1680
    ||| 0x2000 <= code <= 0x200a
    ||| code == 0x2028
    ||| code == 0x2029
    ||| code == 0x202f
    ||| code == 0x205f
    ||| code == 0x3000
    ||| code == 0xfeff
}

/// Whether a text shows at least one character.
pub open spec fn shows_something(text: Seq<char>) -> bool {
    exists|i: int| 0 <= i < text.len() && !is_blank_char(#[trigger] text[i])
}

pub(crate) fn identity_has_nonblank_character(identity: &str) -> (yes: bool)
    ensures
        yes == shows_something(identity@),
{
    let count = identity.unicode_len();
    let mut i: usize = 0;
    while i < count
        invariant
            i <= count,
            count == identity@.len(),
            forall|k: int| 0 <= k < i ==> is_blank_char(#[trigger] identity@[k]),
        decreases count - i,
    {
        let code: u32 = identity.get_char(i) as u32;
        if !(code <= 0x20 || (0x7f <= code && code <= 0xa0) || code == 0x1680 || (0x2000 <= code
            && code <= 0x200a) || code == 0x2028 || code == 0x2029 || code == 0x202f || code
            == 0x205f || code == 0x3000 || code == 0xfeff) {
            assert(!is_blank_char(identity@[i as int]));
            return true;
        }
        i = i + 1;
    }
    false
}

/// Whether `later` comes after `earlier` on the monotonic clock and not before it on the wall
/// clock.
pub open spec fn follows(earlier: EvidenceTimestamp, later: EvidenceTimestamp) -> bool {
    earlier.monotonic_millis < later.monotonic_millis && earlier.wall_unix_millis
        <= later.wall_unix_millis
}

/// Whether `later` is not before `earlier` on either clock.
pub open spec fn reaches(earlier: EvidenceTimestamp, later: EvidenceTimestamp) -> bool {
    earlier.monotonic_millis <= later.monotonic_millis && earlier.wall_unix_millis
        <= later.wall_unix_millis
}

/// Whether `later` comes after `earlier` on both clocks.
pub open spec fn strictly_follows(earlier: EvidenceTimestamp, later: EvidenceTimestamp) -> bool {
    earlier.monotonic_millis < later.monotonic_millis && earlier.wall_unix_millis
        < later.wall_unix_millis
}

pub(crate) fn comes_after(earlier: EvidenceTimestamp, later: EvidenceTimestamp) -> (yes: bool)
    ensures
        yes == follows(earlier, later),
{
    earlier.monotonic_millis < later.monotonic_millis && earlier.wall_unix_millis
        <= later.wall_unix_millis
}

pub(crate) fn not_before(earlier: EvidenceTimestamp, later: EvidenceTimestamp) -> (yes: bool)
    ensures
        yes == reaches(earlier, later),
{
    earlier.monotonic_millis <= later.monotonic_millis && earlier.wall_unix_millis
        <= later.wall_unix_millis
}

pub(crate) fn comes_strictly_after(earlier: EvidenceTimestamp, later: EvidenceTimestamp) -> (yes:
    bool)
    ensures
        yes == strictly_follows(earlier, later),
{
    earlier.monotonic_millis < later.monotonic_millis && earlier.wall_unix_millis
        < later.wall_unix_millis
}

/// The case that an observation belongs to.
pub open spec fn case_of(observation: LiveLifecycleCaseObservation) -> LiveLifecycleCase {
    match observation {
        LiveLifecycleCaseObservation::InvalidConfiguration { .. } =>
            LiveLifecycleCase::InvalidConfiguration,
        LiveLifecycleCaseObservation::DuplicateProcess { .. } =>
            LiveLifecycleCase::DuplicateProcess,
        LiveLifecycleCaseObservation::NormalStopRestart { .. } =>
            LiveLifecycleCase::NormalStopRestart,
        LiveLifecycleCaseObservation::ProcessKillRecovery { .. } =>
            LiveLifecycleCase::ProcessKillRecovery,
        LiveLifecycleCaseObservation::WatchdogRecovery { .. } =>
            LiveLifecycleCase::WatchdogRecovery,
        LiveLifecycleCaseObservation::AcToBatteryTransition { .. } =>
            LiveLifecycleCase::AcToBatteryTransition,
        LiveLifecycleCaseObservation::SuspendResume { .. } => LiveLifecycleCase::SuspendResume,
        LiveLifecycleCaseObservation::Reboot { .. } => LiveLifecycleCase::Reboot,
    }
}

pub(crate) fn observation_case(observation: &LiveLifecycleCaseObservation) -> (case:
    LiveLifecycleCase)
    ensures
        case == case_of(*observation),
{
    match observation {
        LiveLifecycleCaseObservation::InvalidConfiguration { .. } =>
            LiveLifecycleCase::InvalidConfiguration,
        LiveLifecycleCaseObservation::DuplicateProcess { .. } =>
            LiveLifecycleCase::DuplicateProcess,
        LiveLifecycleCaseObservation::NormalStopRestart { .. } =>
            LiveLifecycleCase::NormalStopRestart,
        LiveLifecycleCaseObservation::ProcessKillRecovery { .. } =>
            LiveLifecycleCase::ProcessKillRecovery,
        LiveLifecycleCaseObservation::WatchdogRecovery { .. } =>
            LiveLifecycleCase::WatchdogRecovery,
        LiveLifecycleCaseObservation::AcToBatteryTransition { .. } =>
            LiveLifecycleCase::AcToBatteryTransition,
        LiveLifecycleCaseObservation::SuspendResume { .. } => LiveLifecycleCase::SuspendResume,
        LiveLifecycleCaseObservation::Reboot { .. } => LiveLifecycleCase::Reboot,
    }
}

/// Two boot identities that are identifiers and differ.
pub open spec fn boot_change(before: Seq<char>, after: Seq<char>) -> bool {
    identifier(before) && identifier(after) && before != after
}

pub(crate) fn reboot_boot_ids_are_valid(before: &str, after: &str) -> (yes: bool)
    ensures
        yes == boot_change(before@, after@),
{
    is_identifier(before) && is_identifier(after) && !same_text(before, after)
}

} // verus!
